//! The JSON form of a list of lists: how it is written and how it is read.
use vstd::prelude::*;

use serde_json::Value;

use crate::error::ListError;
use crate::json::{
    json_array, json_as_array, json_as_bool, json_as_str, json_bool, json_entries, json_field,
    json_is_null, json_is_object, json_map_insert, json_map_new, json_model, json_models,
    json_null, json_object, json_parse, json_str, json_text, json_to_text, parsed_json, Json,
    JsonFields, JsonObject,
};
use crate::model::{
    all_lists_valid, effective_links, item_views, list_is_valid, link_views, Footer, FooterItem, FooterItemView, FooterView, List, ListItem,
    ListItemView, ListOfLists, ListOfListsView, ListView,
};

verus! {

// ---------------------------------------------------------------------------
// Reading, stated over JSON models
// ---------------------------------------------------------------------------

/// The field `key` of an object, if it has one.
pub open spec fn field(o: JsonFields, key: Seq<char>) -> Option<Json> {
    if o.contains_key(key) {
        Some(o[key])
    } else {
        None
    }
}

/// The text of a JSON string.
pub open spec fn text_of(j: Json) -> Option<Seq<char>> {
    match j {
        Json::Str(s) => Some(s),
        _ => None,
    }
}

/// A text field that must be there.
pub open spec fn text_field(o: JsonFields, key: Seq<char>) -> Option<Seq<char>> {
    match field(o, key) {
        Some(j) => text_of(j),
        None => None,
    }
}

/// A text field that may be missing or null.
pub open spec fn opt_text_field(o: JsonFields, key: Seq<char>) -> Option<Option<Seq<char>>> {
    match field(o, key) {
        None => Some(None),
        Some(Json::Null) => Some(None),
        Some(Json::Str(s)) => Some(Some(s)),
        Some(_) => None,
    }
}

/// A boolean field that is false when missing.
pub open spec fn flag_field(o: JsonFields, key: Seq<char>) -> Option<bool> {
    match field(o, key) {
        None => Some(false),
        Some(Json::Bool(b)) => Some(b),
        Some(_) => None,
    }
}

/// Reads every element of an array with `f`; fails if any element fails.
pub open spec fn decode_each<A>(s: Seq<Json>, f: spec_fn(Json) -> Option<A>) -> Option<Seq<A>> {
    if forall|k: int| 0 <= k < s.len() ==> (#[trigger] f(s[k])) is Some {
        Some(s.map_values(|j: Json| f(j)->Some_0))
    } else {
        None
    }
}

/// An array that must be there, each element read with `f`.
pub open spec fn array_field<A>(o: JsonFields, key: Seq<char>, f: spec_fn(Json) -> Option<A>) -> Option<Seq<A>> {
    match field(o, key) {
        Some(Json::Array(s)) => decode_each(s, f),
        _ => None,
    }
}

/// An array that is empty when missing, each element read with `f`.
pub open spec fn opt_array_field<A>(o: JsonFields, key: Seq<char>, f: spec_fn(Json) -> Option<A>) -> Option<Seq<A>> {
    match field(o, key) {
        None => Some(Seq::empty()),
        Some(Json::Array(s)) => decode_each(s, f),
        Some(_) => None,
    }
}

/// A bare string is a plain item; an object with the text fields `item` and
/// `tooltip` is an item with a tooltip.
pub open spec fn decode_item(j: Json) -> Option<ListItemView> {
    match j {
        Json::Str(s) => Some(ListItemView::Item(s)),
        Json::Object(o) => match (text_field(o, "item"@), text_field(o, "tooltip"@)) {
            (Some(item), Some(tooltip)) => Some(ListItemView::WithTooltip { item, tooltip }),
            _ => None,
        },
        _ => None,
    }
}

pub open spec fn decode_list(j: Json) -> Option<ListView> {
    match j {
        Json::Object(o) => match (
            text_field(o, "title"@),
            flag_field(o, "hidden"@),
            flag_field(o, "duplicates"@),
            array_field(o, "list"@, |x: Json| decode_item(x)),
        ) {
            (Some(title), Some(hidden), Some(duplicates), Some(list)) => Some(
                ListView { title, hidden, duplicates, list },
            ),
            _ => None,
        },
        _ => None,
    }
}

pub open spec fn decode_footer_item(j: Json) -> Option<FooterItemView> {
    match j {
        Json::Object(o) => match (
            text_field(o, "url"@),
            text_field(o, "icon"@),
            opt_text_field(o, "title"@),
        ) {
            (Some(url), Some(icon), Some(title)) => Some(FooterItemView { url, icon, title }),
            _ => None,
        },
        _ => None,
    }
}

pub open spec fn decode_footer(j: Json) -> Option<FooterView> {
    match j {
        Json::Object(o) => match (
            opt_array_field(o, "imports"@, |x: Json| text_of(x)),
            opt_array_field(o, "links"@, |x: Json| decode_footer_item(x)),
        ) {
            (Some(imports), Some(links)) => Some(FooterView { imports, links }),
            _ => None,
        },
        _ => None,
    }
}

/// The older footer links, under `footer_links` or `footerLinks` but not
/// both; none when neither is there.
pub open spec fn decode_legacy_links(o: JsonFields) -> Option<Seq<FooterItemView>> {
    match (field(o, "footer_links"@), field(o, "footerLinks"@)) {
        (Some(_), Some(_)) => None,
        (None, None) => Some(Seq::empty()),
        (Some(Json::Array(s)), None) => decode_each(s, |x: Json| decode_footer_item(x)),
        (None, Some(Json::Array(s))) => decode_each(s, |x: Json| decode_footer_item(x)),
        _ => None,
    }
}

/// The footer: none when missing or null.
pub open spec fn decode_opt_footer(o: JsonFields) -> Option<Option<FooterView>> {
    match field(o, "footer"@) {
        None => Some(None),
        Some(Json::Null) => Some(None),
        Some(j) => match decode_footer(j) {
            Some(f) => Some(Some(f)),
            None => None,
        },
    }
}

/// The list of lists that a JSON value describes, if it describes one.
pub open spec fn decode_list_of_lists(j: Json) -> Option<ListOfListsView> {
    match j {
        Json::Object(o) => match (
            text_field(o, "title"@),
            array_field(o, "lists"@, |x: Json| decode_list(x)),
            decode_legacy_links(o),
            decode_opt_footer(o),
        ) {
            (Some(title), Some(lists), Some(footer_links), Some(footer)) => Some(
                ListOfListsView { title, lists, footer_links, footer },
            ),
            _ => None,
        },
        _ => None,
    }
}

// ---------------------------------------------------------------------------
// Writing, stated over JSON models
// ---------------------------------------------------------------------------

pub open spec fn encode_item(i: ListItemView) -> Json {
    match i {
        ListItemView::Item(s) => Json::Str(s),
        ListItemView::WithTooltip { item, tooltip } => Json::Object(
            JsonFields::empty().insert("item"@, Json::Str(item)).insert(
                "tooltip"@,
                Json::Str(tooltip),
            ),
        ),
    }
}

pub open spec fn encode_list(l: ListView) -> Json {
    Json::Object(
        JsonFields::empty().insert("title"@, Json::Str(l.title)).insert(
            "hidden"@,
            Json::Bool(l.hidden),
        ).insert("duplicates"@, Json::Bool(l.duplicates)).insert(
            "list"@,
            Json::Array(l.list.map_values(|i: ListItemView| encode_item(i))),
        ),
    )
}

pub open spec fn encode_footer_item(f: FooterItemView) -> Json {
    Json::Object(
        JsonFields::empty().insert("url"@, Json::Str(f.url)).insert("icon"@, Json::Str(f.icon)).insert(
            "title"@,
            match f.title {
                Some(t) => Json::Str(t),
                None => Json::Null,
            },
        ),
    )
}

pub open spec fn encode_links(links: Seq<FooterItemView>) -> Json {
    Json::Array(links.map_values(|f: FooterItemView| encode_footer_item(f)))
}

pub open spec fn encode_footer(f: FooterView) -> Json {
    Json::Object(
        JsonFields::empty().insert(
            "imports"@,
            Json::Array(f.imports.map_values(|s: Seq<char>| Json::Str(s))),
        ).insert("links"@, encode_links(f.links)),
    )
}

/// The fields written for a list of lists: every field under its own name,
/// a missing footer as null.
pub open spec fn list_of_lists_fields(d: ListOfListsView) -> JsonFields {
    JsonFields::empty().insert("title"@, Json::Str(d.title)).insert(
        "lists"@,
        Json::Array(d.lists.map_values(|l: ListView| encode_list(l))),
    ).insert("footer_links"@, encode_links(d.footer_links)).insert(
        "footer"@,
        match d.footer {
            Some(f) => encode_footer(f),
            None => Json::Null,
        },
    )
}

/// The JSON value written for a list of lists.
pub open spec fn encode_list_of_lists(d: ListOfListsView) -> Json {
    Json::Object(list_of_lists_fields(d))
}

// ---------------------------------------------------------------------------
// Reading back what was written
// ---------------------------------------------------------------------------

proof fn lemma_decode_each_fails<A>(s: Seq<Json>, f: spec_fn(Json) -> Option<A>, k: int)
    requires
        0 <= k < s.len(),
        f(s[k]) is None,
    ensures
        decode_each(s, f) is None,
{
}

proof fn lemma_decode_each_reads<A>(s: Seq<Json>, f: spec_fn(Json) -> Option<A>, out: Seq<A>)
    requires
        out.len() == s.len(),
        forall|k: int| 0 <= k < s.len() ==> f(s[k]) == Some(#[trigger] out[k]),
    ensures
        decode_each(s, f) == Some(out),
{
    assert forall|k: int| 0 <= k < s.len() implies (#[trigger] f(s[k])) is Some by {
        assert(f(s[k]) == Some(out[k]));
    }
    assert(s.map_values(|j: Json| f(j)->Some_0) =~= out);
}

proof fn lemma_decode_each_encoded<A>(s: Seq<A>, enc: spec_fn(A) -> Json, dec: spec_fn(Json) -> Option<A>)
    requires
        forall|a: A| #[trigger] dec(enc(a)) == Some(a),
    ensures
        decode_each(s.map_values(enc), dec) == Some(s),
{
    let e = s.map_values(enc);
    assert forall|k: int| 0 <= k < e.len() implies (#[trigger] dec(e[k])) is Some by {
        assert(dec(enc(s[k])) == Some(s[k]));
    }
    assert(e.map_values(|j: Json| dec(j)->Some_0) =~= s);
}

/// The field names differ from one another.
proof fn lemma_key_lengths()
    ensures
        "item"@.len() == 4,
        "tooltip"@.len() == 7,
        "title"@.len() == 5,
        "hidden"@.len() == 6,
        "duplicates"@.len() == 10,
        "list"@.len() == 4,
        "url"@.len() == 3,
        "icon"@.len() == 4,
        "imports"@.len() == 7,
        "links"@.len() == 5,
        "lists"@.len() == 5,
        "footer_links"@.len() == 12,
        "footerLinks"@.len() == 11,
        "footer"@.len() == 6,
        "title"@[0] == 't',
        "lists"@[0] == 'l',
{
    reveal_strlit("item");
    reveal_strlit("tooltip");
    reveal_strlit("title");
    reveal_strlit("hidden");
    reveal_strlit("duplicates");
    reveal_strlit("list");
    reveal_strlit("url");
    reveal_strlit("icon");
    reveal_strlit("imports");
    reveal_strlit("links");
    reveal_strlit("lists");
    reveal_strlit("footer_links");
    reveal_strlit("footerLinks");
    reveal_strlit("footer");
}

proof fn lemma_item_round_trip(i: ListItemView)
    ensures
        decode_item(encode_item(i)) == Some(i),
{
    lemma_key_lengths();
}

proof fn lemma_list_round_trip(l: ListView)
    ensures
        decode_list(encode_list(l)) == Some(l),
{
    lemma_key_lengths();
    assert forall|i: ListItemView| decode_item(encode_item(i)) == Some(i) by {
        lemma_item_round_trip(i);
    }
    lemma_decode_each_encoded(l.list, |i: ListItemView| encode_item(i), |x: Json| decode_item(x));
}

proof fn lemma_footer_item_round_trip(f: FooterItemView)
    ensures
        decode_footer_item(encode_footer_item(f)) == Some(f),
{
    lemma_key_lengths();
}

proof fn lemma_links_round_trip(links: Seq<FooterItemView>)
    ensures
        encode_links(links) is Array,
        decode_each(encode_links(links)->Array_0, |x: Json| decode_footer_item(x)) == Some(links),
{
    assert forall|f: FooterItemView| decode_footer_item(encode_footer_item(f)) == Some(f) by {
        lemma_footer_item_round_trip(f);
    }
    lemma_decode_each_encoded(
        links,
        |f: FooterItemView| encode_footer_item(f),
        |x: Json| decode_footer_item(x),
    );
}

proof fn lemma_footer_round_trip(f: FooterView)
    ensures
        decode_footer(encode_footer(f)) == Some(f),
{
    lemma_key_lengths();
    lemma_decode_each_encoded(f.imports, |s: Seq<char>| Json::Str(s), |x: Json| text_of(x));
    lemma_links_round_trip(f.links);
}

/// Reading the JSON value written for a list of lists gives back the same
/// list of lists, in the current footer form and in the older one alike.
pub proof fn lemma_list_of_lists_round_trip(d: ListOfListsView)
    ensures
        decode_list_of_lists(encode_list_of_lists(d)) == Some(d),
{
    lemma_key_lengths();
    assert forall|l: ListView| decode_list(encode_list(l)) == Some(l) by {
        lemma_list_round_trip(l);
    }
    lemma_decode_each_encoded(d.lists, |l: ListView| encode_list(l), |x: Json| decode_list(x));
    lemma_links_round_trip(d.footer_links);
    if let Some(f) = d.footer {
        lemma_footer_round_trip(f);
    }
}


// ---------------------------------------------------------------------------
// Writing
// ---------------------------------------------------------------------------

fn item_to_value(i: &ListItem) -> (r: Value)
    ensures
        json_model(r) == encode_item(i@),
{
    match i {
        ListItem::Item(s) => json_str(s.clone()),
        ListItem::WithTooltip { item, tooltip } => {
            let mut m = json_map_new();
            json_map_insert(&mut m, "item".to_owned(), json_str(item.clone()));
            json_map_insert(&mut m, "tooltip".to_owned(), json_str(tooltip.clone()));
            json_object(m)
        },
    }
}

fn items_to_value(items: &Vec<ListItem>) -> (r: Value)
    ensures
        json_model(r) == Json::Array(item_views(items@).map_values(|i: ListItemView| encode_item(i))),
{
    let mut out: Vec<Value> = Vec::new();
    for k in 0..items.len()
        invariant
            out@.len() == k,
            forall|m: int| 0 <= m < k ==> json_model(#[trigger] out@[m]) == encode_item(items@[m]@),
    {
        out.push(item_to_value(&items[k]));
    }
    assert(json_models(out@) =~= item_views(items@).map_values(|i: ListItemView| encode_item(i)));
    json_array(out)
}

fn list_to_value(l: &List) -> (r: Value)
    ensures
        json_model(r) == encode_list(l@),
{
    let mut m = json_map_new();
    json_map_insert(&mut m, "title".to_owned(), json_str(l.title.clone()));
    json_map_insert(&mut m, "hidden".to_owned(), json_bool(l.hidden));
    json_map_insert(&mut m, "duplicates".to_owned(), json_bool(l.duplicates));
    json_map_insert(&mut m, "list".to_owned(), items_to_value(&l.list));
    json_object(m)
}

fn footer_item_to_value(f: &FooterItem) -> (r: Value)
    ensures
        json_model(r) == encode_footer_item(f@),
{
    let mut m = json_map_new();
    json_map_insert(&mut m, "url".to_owned(), json_str(f.url.clone()));
    json_map_insert(&mut m, "icon".to_owned(), json_str(f.icon.clone()));
    let title = match &f.title {
        Some(t) => json_str(t.clone()),
        None => json_null(),
    };
    json_map_insert(&mut m, "title".to_owned(), title);
    json_object(m)
}

fn links_to_value(links: &Vec<FooterItem>) -> (r: Value)
    ensures
        json_model(r) == encode_links(link_views(links@)),
{
    let mut out: Vec<Value> = Vec::new();
    for k in 0..links.len()
        invariant
            out@.len() == k,
            forall|m: int| 0 <= m < k ==> json_model(#[trigger] out@[m]) == encode_footer_item(links@[m]@),
    {
        out.push(footer_item_to_value(&links[k]));
    }
    assert(json_models(out@) =~= link_views(links@).map_values(|f: FooterItemView| encode_footer_item(f)));
    json_array(out)
}

fn footer_to_value(f: &Footer) -> (r: Value)
    ensures
        json_model(r) == encode_footer(f@),
{
    let mut imports: Vec<Value> = Vec::new();
    for k in 0..f.imports.len()
        invariant
            imports@.len() == k,
            forall|m: int| 0 <= m < k ==> json_model(#[trigger] imports@[m]) == Json::Str(f.imports@[m]@),
    {
        imports.push(json_str(f.imports[k].clone()));
    }
    assert(json_models(imports@) =~= f@.imports.map_values(|s: Seq<char>| Json::Str(s)));
    let mut m = json_map_new();
    json_map_insert(&mut m, "imports".to_owned(), json_array(imports));
    json_map_insert(&mut m, "links".to_owned(), links_to_value(&f.links));
    json_object(m)
}

impl ListOfLists {
    /// The fields of the document's JSON object.
    pub fn to_fields(&self) -> (r: JsonObject)
        ensures
            json_entries(r) == list_of_lists_fields(self@),
    {
        let mut lists: Vec<Value> = Vec::new();
        for k in 0..self.lists.len()
            invariant
                lists@.len() == k,
                forall|m: int| 0 <= m < k ==> json_model(#[trigger] lists@[m]) == encode_list(self.lists@[m]@),
        {
            lists.push(list_to_value(&self.lists[k]));
        }
        assert(json_models(lists@) =~= self@.lists.map_values(|l: ListView| encode_list(l)));
        let footer = match &self.footer {
            Some(f) => footer_to_value(f),
            None => json_null(),
        };
        let mut m = json_map_new();
        json_map_insert(&mut m, "title".to_owned(), json_str(self.title.clone()));
        json_map_insert(&mut m, "lists".to_owned(), json_array(lists));
        json_map_insert(&mut m, "footer_links".to_owned(), links_to_value(&self.footer_links));
        json_map_insert(&mut m, "footer".to_owned(), footer);
        m
    }

    /// The JSON value of the document.
    pub fn to_value(&self) -> (r: Value)
        ensures
            json_model(r) == encode_list_of_lists(self@),
    {
        json_object(self.to_fields())
    }

    /// The document as compact JSON text.
    pub fn to_json(&self) -> (r: String)
        ensures
            r@ == json_text(encode_list_of_lists(self@)),
    {
        json_to_text(&self.to_value())
    }
}


// ---------------------------------------------------------------------------
// Reading
// ---------------------------------------------------------------------------

fn read_text_field(v: &Value, key: &str) -> (r: Option<String>)
    requires
        json_model(*v) is Object,
    ensures
        r is Some <==> text_field(json_model(*v)->Object_0, key@) is Some,
        r is Some ==> r->Some_0@ == text_field(json_model(*v)->Object_0, key@)->Some_0,
{
    match json_field(v, key) {
        Some(f) => match json_as_str(f) {
            Some(s) => Some(s.to_owned()),
            None => None,
        },
        None => None,
    }
}

fn read_opt_text_field(v: &Value, key: &str) -> (r: Option<Option<String>>)
    requires
        json_model(*v) is Object,
    ensures
        r is Some <==> opt_text_field(json_model(*v)->Object_0, key@) is Some,
        r is Some ==> opt_text_field(json_model(*v)->Object_0, key@)->Some_0 == match r->Some_0 {
            Some(s) => Some(s@),
            None => None,
        },
{
    match json_field(v, key) {
        Some(f) => {
            if json_is_null(f) {
                Some(None)
            } else {
                match json_as_str(f) {
                    Some(s) => Some(Some(s.to_owned())),
                    None => None,
                }
            }
        },
        None => Some(None),
    }
}

fn read_flag_field(v: &Value, key: &str) -> (r: Option<bool>)
    requires
        json_model(*v) is Object,
    ensures
        r == flag_field(json_model(*v)->Object_0, key@),
{
    match json_field(v, key) {
        Some(f) => json_as_bool(f),
        None => Some(false),
    }
}

fn read_item(v: &Value) -> (r: Option<ListItem>)
    ensures
        r is Some <==> decode_item(json_model(*v)) is Some,
        r is Some ==> r->Some_0@ == decode_item(json_model(*v))->Some_0,
{
    match json_as_str(v) {
        Some(s) => {
            return Some(ListItem::Item(s.to_owned()));
        },
        None => {},
    }
    if !json_is_object(v) {
        return None;
    }
    match (read_text_field(v, "item"), read_text_field(v, "tooltip")) {
        (Some(item), Some(tooltip)) => Some(ListItem::WithTooltip { item, tooltip }),
        _ => None,
    }
}

fn read_items(vs: &Vec<Value>) -> (r: Option<Vec<ListItem>>)
    ensures
        r is Some <==> decode_each(json_models(vs@), |x: Json| decode_item(x)) is Some,
        r is Some ==> item_views(r->Some_0@) == decode_each(json_models(vs@), |x: Json| decode_item(x))->Some_0,
{
    let ghost js = json_models(vs@);
    let mut out: Vec<ListItem> = Vec::new();
    for k in 0..vs.len()
        invariant
            js == json_models(vs@),
            out@.len() == k,
            forall|m: int| 0 <= m < k ==> decode_item(js[m]) == Some((#[trigger] out@[m])@),
    {
        match read_item(&vs[k]) {
            Some(x) => {
                out.push(x);
            },
            None => {
                proof {
                    lemma_decode_each_fails(js, |x: Json| decode_item(x), k as int);
                }
                return None;
            },
        }
    }
    proof {
        lemma_decode_each_reads(js, |x: Json| decode_item(x), item_views(out@));
    }
    Some(out)
}

fn read_one_list(v: &Value) -> (r: Option<List>)
    ensures
        r is Some <==> decode_list(json_model(*v)) is Some,
        r is Some ==> r->Some_0@ == decode_list(json_model(*v))->Some_0,
{
    if !json_is_object(v) {
        return None;
    }
    let title = read_text_field(v, "title");
    let hidden = read_flag_field(v, "hidden");
    let duplicates = read_flag_field(v, "duplicates");
    let list = match json_field(v, "list") {
        Some(f) => match json_as_array(f) {
            Some(vs) => read_items(vs),
            None => None,
        },
        None => None,
    };
    match (title, hidden, duplicates, list) {
        (Some(title), Some(hidden), Some(duplicates), Some(list)) => Some(
            List { title, hidden, duplicates, list },
        ),
        _ => None,
    }
}


fn read_lists(vs: &Vec<Value>) -> (r: Option<Vec<List>>)
    ensures
        r is Some <==> decode_each(json_models(vs@), |x: Json| decode_list(x)) is Some,
        r is Some ==> r->Some_0@.map_values(|l: List| l@) == decode_each(
            json_models(vs@),
            |x: Json| decode_list(x),
        )->Some_0,
{
    let ghost js = json_models(vs@);
    let mut out: Vec<List> = Vec::new();
    for k in 0..vs.len()
        invariant
            js == json_models(vs@),
            out@.len() == k,
            forall|m: int| 0 <= m < k ==> decode_list(js[m]) == Some((#[trigger] out@[m])@),
    {
        match read_one_list(&vs[k]) {
            Some(x) => {
                out.push(x);
            },
            None => {
                proof {
                    lemma_decode_each_fails(js, |x: Json| decode_list(x), k as int);
                }
                return None;
            },
        }
    }
    proof {
        lemma_decode_each_reads(js, |x: Json| decode_list(x), out@.map_values(|l: List| l@));
    }
    Some(out)
}

fn read_footer_item(v: &Value) -> (r: Option<FooterItem>)
    ensures
        r is Some <==> decode_footer_item(json_model(*v)) is Some,
        r is Some ==> r->Some_0@ == decode_footer_item(json_model(*v))->Some_0,
{
    if !json_is_object(v) {
        return None;
    }
    match (read_text_field(v, "url"), read_text_field(v, "icon"), read_opt_text_field(v, "title")) {
        (Some(url), Some(icon), Some(title)) => Some(FooterItem { url, icon, title }),
        _ => None,
    }
}

fn read_links(vs: &Vec<Value>) -> (r: Option<Vec<FooterItem>>)
    ensures
        r is Some <==> decode_each(json_models(vs@), |x: Json| decode_footer_item(x)) is Some,
        r is Some ==> link_views(r->Some_0@) == decode_each(
            json_models(vs@),
            |x: Json| decode_footer_item(x),
        )->Some_0,
{
    let ghost js = json_models(vs@);
    let mut out: Vec<FooterItem> = Vec::new();
    for k in 0..vs.len()
        invariant
            js == json_models(vs@),
            out@.len() == k,
            forall|m: int| 0 <= m < k ==> decode_footer_item(js[m]) == Some((#[trigger] out@[m])@),
    {
        match read_footer_item(&vs[k]) {
            Some(x) => {
                out.push(x);
            },
            None => {
                proof {
                    lemma_decode_each_fails(js, |x: Json| decode_footer_item(x), k as int);
                }
                return None;
            },
        }
    }
    proof {
        lemma_decode_each_reads(js, |x: Json| decode_footer_item(x), link_views(out@));
    }
    Some(out)
}

fn read_imports(vs: &Vec<Value>) -> (r: Option<Vec<String>>)
    ensures
        r is Some <==> decode_each(json_models(vs@), |x: Json| text_of(x)) is Some,
        r is Some ==> r->Some_0@.map_values(|s: String| s@) == decode_each(
            json_models(vs@),
            |x: Json| text_of(x),
        )->Some_0,
{
    let ghost js = json_models(vs@);
    let mut out: Vec<String> = Vec::new();
    for k in 0..vs.len()
        invariant
            js == json_models(vs@),
            out@.len() == k,
            forall|m: int| 0 <= m < k ==> text_of(js[m]) == Some((#[trigger] out@[m])@),
    {
        match json_as_str(&vs[k]) {
            Some(s) => {
                out.push(s.to_owned());
            },
            None => {
                proof {
                    lemma_decode_each_fails(js, |x: Json| text_of(x), k as int);
                }
                return None;
            },
        }
    }
    proof {
        lemma_decode_each_reads(js, |x: Json| text_of(x), out@.map_values(|s: String| s@));
    }
    Some(out)
}

fn read_footer(v: &Value) -> (r: Option<Footer>)
    ensures
        r is Some <==> decode_footer(json_model(*v)) is Some,
        r is Some ==> r->Some_0@ == decode_footer(json_model(*v))->Some_0,
{
    if !json_is_object(v) {
        return None;
    }
    let imports = match json_field(v, "imports") {
        Some(f) => match json_as_array(f) {
            Some(vs) => read_imports(vs),
            None => None,
        },
        None => Some(Vec::new()),
    };
    let links = match json_field(v, "links") {
        Some(f) => match json_as_array(f) {
            Some(vs) => read_links(vs),
            None => None,
        },
        None => Some(Vec::new()),
    };
    match (imports, links) {
        (Some(imports), Some(links)) => {
            let r = Footer { imports, links };
            assert(r@.imports =~= decode_footer(json_model(*v))->Some_0.imports);
            assert(r@.links =~= decode_footer(json_model(*v))->Some_0.links);
            Some(r)
        },
        _ => None,
    }
}

fn read_legacy_links(v: &Value) -> (r: Option<Vec<FooterItem>>)
    requires
        json_model(*v) is Object,
    ensures
        r is Some <==> decode_legacy_links(json_model(*v)->Object_0) is Some,
        r is Some ==> link_views(r->Some_0@) == decode_legacy_links(json_model(*v)->Object_0)->Some_0,
{
    let links = match (json_field(v, "footer_links"), json_field(v, "footerLinks")) {
        (Some(_), Some(_)) => {
            return None;
        },
        (None, None) => {
            let r: Vec<FooterItem> = Vec::new();
            assert(link_views(r@) =~= Seq::<FooterItemView>::empty());
            return Some(r);
        },
        (Some(f), None) => f,
        (None, Some(f)) => f,
    };
    match json_as_array(links) {
        Some(vs) => read_links(vs),
        None => None,
    }
}

fn read_list_of_lists(v: &Value) -> (r: Option<ListOfLists>)
    ensures
        r is Some <==> decode_list_of_lists(json_model(*v)) is Some,
        r is Some ==> r->Some_0@ == decode_list_of_lists(json_model(*v))->Some_0,
{
    if !json_is_object(v) {
        return None;
    }
    let title = read_text_field(v, "title");
    let lists = match json_field(v, "lists") {
        Some(f) => match json_as_array(f) {
            Some(vs) => read_lists(vs),
            None => None,
        },
        None => None,
    };
    let footer_links = read_legacy_links(v);
    let footer = match json_field(v, "footer") {
        None => Some(None),
        Some(f) => {
            if json_is_null(f) {
                Some(None)
            } else {
                match read_footer(f) {
                    Some(x) => Some(Some(x)),
                    None => None,
                }
            }
        },
    };
    match (title, lists, footer_links, footer) {
        (Some(title), Some(lists), Some(footer_links), Some(footer)) => Some(
            ListOfLists { title, lists, footer_links, footer },
        ),
        _ => None,
    }
}

impl ListOfLists {
    /// Reads a document from its JSON value. Fields that may be missing
    /// take their defaults; the older footer links are read under either
    /// of their two names.
    pub fn from_value(v: &Value) -> (r: Result<ListOfLists, ListError>)
        ensures
            r is Ok <==> decode_list_of_lists(json_model(*v)) is Some,
            r is Ok ==> r->Ok_0@ == decode_list_of_lists(json_model(*v))->Some_0,
            r is Err ==> r->Err_0 == ListError::Parse,
    {
        match read_list_of_lists(v) {
            Some(d) => Ok(d),
            None => Err(ListError::Parse),
        }
    }

    /// Reads a document from JSON text.
    pub fn from_json(s: &str) -> (r: Result<ListOfLists, ListError>)
        ensures
            r is Ok <==> parsed_json(s@) is Some && decode_list_of_lists(parsed_json(s@)->Some_0) is Some,
            r is Ok ==> r->Ok_0@ == decode_list_of_lists(parsed_json(s@)->Some_0)->Some_0,
            r is Err ==> r->Err_0 == ListError::Parse,
    {
        match json_parse(s) {
            Ok(v) => ListOfLists::from_value(&v),
            Err(_) => Err(ListError::Parse),
        }
    }
}

/// The document that a data text holds, if it holds one.
pub open spec fn document_of(data: Seq<char>) -> Option<ListOfListsView> {
    match parsed_json(data) {
        Some(j) => decode_list_of_lists(j),
        None => None,
    }
}

/// The text written for a valid document is read back by `read_list` as
/// that document, wherever serde_json reads back the JSON text it wrote for
/// the document's value; that reading back is serde_json's own behaviour,
/// which this library does not state.
pub proof fn lemma_written_text_reads_back(d: ListOfListsView)
    requires
        all_lists_valid(d.lists),
        parsed_json(json_text(encode_list_of_lists(d))) == Some(encode_list_of_lists(d)),
    ensures
        document_of(json_text(encode_list_of_lists(d))) == Some(d),
{
    lemma_list_of_lists_round_trip(d);
}

/// Reads a document from its data text and validates it: a text that is
/// not a document is a parse error, and a document with an invalid list
/// fails on the first such list.
pub fn read_list(content: &str) -> (r: Result<ListOfLists, ListError>)
    ensures
        match document_of(content@) {
            None => r == Err::<ListOfLists, ListError>(ListError::Parse),
            Some(d) => if all_lists_valid(d.lists) {
                r is Ok && r->Ok_0@ == d
            } else {
                exists|k: int|
                    0 <= k < d.lists.len() && !list_is_valid(#[trigger] d.lists[k])
                        && all_lists_valid(d.lists.take(k))
                        && r is Err && r->Err_0 is Duplicates && r->Err_0->Duplicates_title@ == d.lists[k].title
                        && item_views(r->Err_0->Duplicates_items@) == d.lists[k].list
            },
        },
{
    let list_of_lists = match ListOfLists::from_json(content) {
        Ok(l) => l,
        Err(e) => {
            return Err(e);
        },
    };
    list_of_lists.validate()
}

/// The older footer form is the current one without imports: a document
/// with its links under `footer_links` and the same document with them
/// under `footer.links` have the same title, lists and links in force.
pub proof fn lemma_legacy_footer_equivalent(title: Seq<char>, lists: Seq<Json>, links: Seq<Json>)
    requires
        decode_list_of_lists(
            Json::Object(
                JsonFields::empty().insert("title"@, Json::Str(title)).insert(
                    "lists"@,
                    Json::Array(lists),
                ).insert("footer_links"@, Json::Array(links)),
            ),
        ) is Some,
    ensures
        ({
            let legacy = decode_list_of_lists(
                Json::Object(
                    JsonFields::empty().insert("title"@, Json::Str(title)).insert(
                        "lists"@,
                        Json::Array(lists),
                    ).insert("footer_links"@, Json::Array(links)),
                ),
            );
            let current = decode_list_of_lists(
                Json::Object(
                    JsonFields::empty().insert("title"@, Json::Str(title)).insert(
                        "lists"@,
                        Json::Array(lists),
                    ).insert(
                        "footer"@,
                        Json::Object(JsonFields::empty().insert("links"@, Json::Array(links))),
                    ),
                ),
            );
            &&& current is Some
            &&& current->Some_0.title == legacy->Some_0.title
            &&& current->Some_0.lists == legacy->Some_0.lists
            &&& current->Some_0.footer->Some_0.imports.len() == 0
            &&& effective_links(current->Some_0) == effective_links(legacy->Some_0)
        }),
{
    lemma_key_lengths();
}

} // verus!
