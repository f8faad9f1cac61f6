//! The list-of-lists data and its validation.
use vstd::prelude::*;

use crate::error::ListError;

verus! {

/// One entry of a list: plain text, or text with a tooltip.
#[derive(Debug, Eq, Hash)]
pub enum ListItem {
    Item(String),
    WithTooltip { item: String, tooltip: String },
}

/// What a list item holds.
pub enum ListItemView {
    Item(Seq<char>),
    WithTooltip { item: Seq<char>, tooltip: Seq<char> },
}

impl View for ListItem {
    type V = ListItemView;

    open spec fn view(&self) -> ListItemView {
        match self {
            ListItem::Item(s) => ListItemView::Item(s@),
            ListItem::WithTooltip { item, tooltip } => ListItemView::WithTooltip {
                item: item@,
                tooltip: tooltip@,
            },
        }
    }
}

impl PartialEq for ListItem {
    fn eq(&self, other: &ListItem) -> (r: bool) {
        match (self, other) {
            (ListItem::Item(a), ListItem::Item(b)) => a.eq(b),
            (
                ListItem::WithTooltip { item: a, tooltip: ta },
                ListItem::WithTooltip { item: b, tooltip: tb },
            ) => a.eq(b) && ta.eq(tb),
            _ => false,
        }
    }
}

impl vstd::std_specs::cmp::PartialEqSpecImpl for ListItem {
    open spec fn obeys_eq_spec() -> bool {
        true
    }

    open spec fn eq_spec(&self, other: &ListItem) -> bool {
        self@ == other@
    }
}

impl ListItem {
    /// A copy of the item.
    fn copy(&self) -> (r: ListItem)
        ensures
            r@ == self@,
    {
        match self {
            ListItem::Item(s) => ListItem::Item(s.clone()),
            ListItem::WithTooltip { item, tooltip } => ListItem::WithTooltip {
                item: item.clone(),
                tooltip: tooltip.clone(),
            },
        }
    }

    /// An item of plain text.
    pub fn new(item: &str) -> (r: ListItem)
        ensures
            r@ == ListItemView::Item(item@),
    {
        ListItem::Item(item.to_owned())
    }

    /// An item with a tooltip.
    pub fn with_tooltip(item: &str, tooltip: &str) -> (r: ListItem)
        ensures
            r@ == (ListItemView::WithTooltip { item: item@, tooltip: tooltip@ }),
    {
        ListItem::WithTooltip { item: item.to_owned(), tooltip: tooltip.to_owned() }
    }
}

/// The views of a sequence of items.
pub open spec fn item_views(items: Seq<ListItem>) -> Seq<ListItemView> {
    items.map_values(|i: ListItem| i@)
}

/// Whether no two entries of `items` are equal.
pub open spec fn all_distinct(items: Seq<ListItemView>) -> bool {
    forall|i: int, j: int| 0 <= i < j < items.len() ==> items[i] != items[j]
}

/// One titled list of items.
#[derive(Debug, PartialEq, Eq)]
pub struct List {
    pub title: String,
    /// Informational only: a hidden list is still rendered; a template may
    /// test the flag.
    pub hidden: bool,
    pub duplicates: bool,
    pub list: Vec<ListItem>,
}

/// What a list holds.
pub struct ListView {
    pub title: Seq<char>,
    pub hidden: bool,
    pub duplicates: bool,
    pub list: Seq<ListItemView>,
}

impl View for List {
    type V = ListView;

    open spec fn view(&self) -> ListView {
        ListView {
            title: self.title@,
            hidden: self.hidden,
            duplicates: self.duplicates,
            list: item_views(self.list@),
        }
    }
}

/// A list is valid when it allows duplicates or holds none.
pub open spec fn list_is_valid(l: ListView) -> bool {
    l.duplicates || all_distinct(l.list)
}

/// A list that holds some item twice is valid when it allows duplicates and
/// invalid when it does not.
pub proof fn lemma_repeated_item_needs_flag(title: Seq<char>, hidden: bool, list: Seq<ListItemView>, i: int, j: int)
    requires
        0 <= i < j < list.len(),
        list[i] == list[j],
    ensures
        list_is_valid(ListView { title, hidden, duplicates: true, list }),
        !list_is_valid(ListView { title, hidden, duplicates: false, list }),
{
}

impl List {
    /// A list of plain-text items.
    pub fn new(title: &str, hidden: bool, duplicates: bool, list: &[&str]) -> (r: List)
        ensures
            r@ == (ListView {
                title: title@,
                hidden,
                duplicates,
                list: list@.map_values(|s: &str| ListItemView::Item(s@)),
            }),
    {
        let mut items: Vec<ListItem> = Vec::new();
        for i in 0..list.len()
            invariant
                items@.len() == i,
                forall|k: int| 0 <= k < i ==> (#[trigger] items@[k])@ == ListItemView::Item(list@[k]@),
        {
            items.push(ListItem::new(list[i]));
        }
        assert(item_views(items@) =~= list@.map_values(|s: &str| ListItemView::Item(s@)));
        List::from_items(title, hidden, duplicates, items)
    }

    /// A list of the given items.
    pub fn from_items(title: &str, hidden: bool, duplicates: bool, list: Vec<ListItem>) -> (r: List)
        ensures
            r@ == (ListView { title: title@, hidden, duplicates, list: item_views(list@) }),
    {
        List { title: title.to_owned(), hidden, duplicates, list }
    }

    /// A copy of the list's items.
    fn copy_items(&self) -> (r: Vec<ListItem>)
        ensures
            item_views(r@) == self@.list,
    {
        let mut out: Vec<ListItem> = Vec::new();
        for k in 0..self.list.len()
            invariant
                out@.len() == k,
                forall|m: int| 0 <= m < k ==> (#[trigger] out@[m])@ == self.list@[m]@,
        {
            out.push(self.list[k].copy());
        }
        assert(item_views(out@) =~= item_views(self.list@));
        out
    }

    /// Fails on a list that allows no duplicates and holds the same item
    /// twice, reporting the list's title and items.
    pub fn validate(&self) -> (r: Result<(), ListError>)
        ensures
            r is Ok <==> list_is_valid(self@),
            r is Err ==> r->Err_0 is Duplicates && r->Err_0->Duplicates_title == self.title
                && item_views(r->Err_0->Duplicates_items@) == self@.list,
    {
        if self.duplicates {
            return Ok(());
        }
        let n = self.list.len();
        for i in 0..n
            invariant
                n == self.list@.len(),
                !self.duplicates,
                forall|a: int, b: int| 0 <= a < b < i ==> self.list@[a]@ != self.list@[b]@,
        {
            for j in 0..i
                invariant
                    n == self.list@.len(),
                    i < n,
                    !self.duplicates,
                    forall|a: int| 0 <= a < j ==> self.list@[a]@ != self.list@[i as int]@,
            {
                if self.list[j] == self.list[i] {
                    let ghost views = item_views(self.list@);
                    assert(views[j as int] == views[i as int]);
                    assert(!all_distinct(views)) by {
                        if all_distinct(views) {
                            assert(views[j as int] != views[i as int]);
                        }
                    }
                    return Err(ListError::Duplicates { title: self.title.clone(), items: self.copy_items() });
                }
            }
        }
        assert(all_distinct(item_views(self.list@)));
        Ok(())
    }
}

/// A link in the page footer.
#[derive(Debug, PartialEq, Eq)]
pub struct FooterItem {
    pub url: String,
    pub icon: String,
    pub title: Option<String>,
}

/// What a footer link holds.
pub struct FooterItemView {
    pub url: Seq<char>,
    pub icon: Seq<char>,
    pub title: Option<Seq<char>>,
}

impl View for FooterItem {
    type V = FooterItemView;

    open spec fn view(&self) -> FooterItemView {
        FooterItemView {
            url: self.url@,
            icon: self.icon@,
            title: match self.title {
                Some(t) => Some(t@),
                None => None,
            },
        }
    }
}

/// The views of a sequence of footer links.
pub open spec fn link_views(links: Seq<FooterItem>) -> Seq<FooterItemView> {
    links.map_values(|l: FooterItem| l@)
}

/// The page footer: scripts to import and links.
#[derive(Debug, PartialEq, Eq)]
pub struct Footer {
    pub imports: Vec<String>,
    pub links: Vec<FooterItem>,
}

/// What a footer holds.
pub struct FooterView {
    pub imports: Seq<Seq<char>>,
    pub links: Seq<FooterItemView>,
}

impl View for Footer {
    type V = FooterView;

    open spec fn view(&self) -> FooterView {
        FooterView {
            imports: self.imports@.map_values(|s: String| s@),
            links: link_views(self.links@),
        }
    }
}

/// The whole document: a title, the lists, and the footer. `footer_links`
/// is the older form of the footer's links, kept as it was read.
#[derive(Debug, PartialEq, Eq)]
pub struct ListOfLists {
    pub title: String,
    pub lists: Vec<List>,
    pub footer_links: Vec<FooterItem>,
    pub footer: Option<Footer>,
}

/// What a list of lists holds.
pub struct ListOfListsView {
    pub title: Seq<char>,
    pub lists: Seq<ListView>,
    pub footer_links: Seq<FooterItemView>,
    pub footer: Option<FooterView>,
}

impl View for ListOfLists {
    type V = ListOfListsView;

    open spec fn view(&self) -> ListOfListsView {
        ListOfListsView {
            title: self.title@,
            lists: self.lists@.map_values(|l: List| l@),
            footer_links: link_views(self.footer_links@),
            footer: match self.footer {
                Some(f) => Some(f@),
                None => None,
            },
        }
    }
}

/// The footer links in force: the footer's, or else the older field's.
pub open spec fn effective_links(d: ListOfListsView) -> Seq<FooterItemView> {
    match d.footer {
        Some(f) => f.links,
        None => d.footer_links,
    }
}

/// Whether every list of the document is valid.
pub open spec fn all_lists_valid(lists: Seq<ListView>) -> bool {
    forall|k: int| 0 <= k < lists.len() ==> list_is_valid(#[trigger] lists[k])
}

impl ListOfLists {
    /// Checks every list in order, and fails on the first invalid one.
    pub fn validate(self) -> (r: Result<ListOfLists, ListError>)
        ensures
            r is Ok <==> all_lists_valid(self@.lists),
            r is Ok ==> r->Ok_0 == self,
            r is Err ==> exists|k: int|
                0 <= k < self.lists@.len() && !list_is_valid(#[trigger] self@.lists[k])
                    && all_lists_valid(self@.lists.take(k))
                    && r->Err_0 is Duplicates && r->Err_0->Duplicates_title == self.lists@[k].title
                    && item_views(r->Err_0->Duplicates_items@) == self@.lists[k].list,
    {
        let n = self.lists.len();
        for k in 0..n
            invariant
                n == self.lists@.len(),
                all_lists_valid(self@.lists.take(k as int)),
        {
            match self.lists[k].validate() {
                Ok(()) => {
                    assert(self@.lists.take(k + 1) == self@.lists.take(k as int).push(self@.lists[k as int]));
                },
                Err(e) => {
                    assert(self@.lists[k as int] == self.lists@[k as int]@);
                    assert(!list_is_valid(self@.lists[k as int]));
                    assert(!all_lists_valid(self@.lists));
                    return Err(e);
                },
            }
        }
        assert(self@.lists.take(n as int) == self@.lists);
        Ok(self)
    }
}

} // verus!
