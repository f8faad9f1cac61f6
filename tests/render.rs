use list_of_lists::render::{build_site, card_image_url, render_context, render_page};
use list_of_lists::{List, ListError, ListItem, ListOfLists};

const DATA: &str = r#"{"title":"My Lists","lists":[{"title":"Foo, Bar","list":["A","B"]}]}"#;

const TEMPLATE: &str = "<h1>{{ title }}</h1>{% for l in lists %}<div id=\"{{ l.title | div_id_safe }}\">{{ l.list | join(\",\") }}</div>{% endfor %}{% if card_image_url %}<img src=\"{{ card_image_url }}\">{% endif %}";

#[test]
fn card_image_address() {
    assert_eq!(card_image_url("foo.list"), "https://foo.list/images/card.png");
}

#[test]
fn renders_with_filter_and_without_card() {
    let page = build_site(TEMPLATE, DATA, "foo.list", false, false).unwrap();
    assert_eq!(
        String::from_utf8(page).unwrap(),
        "<h1>My Lists</h1><div id=\"Foo_Bar\">A,B</div>"
    );
}

#[test]
fn renders_card_image_when_present() {
    let page = build_site(TEMPLATE, DATA, "foo.list", true, false).unwrap();
    assert_eq!(
        String::from_utf8(page).unwrap(),
        "<h1>My Lists</h1><div id=\"Foo_Bar\">A,B</div><img src=\"https:&#x2f;&#x2f;foo.list&#x2f;images&#x2f;card.png\">"
    );
}

#[test]
fn publishing_twice_gives_the_same_bytes() {
    for minify in [false, true] {
        for card in [false, true] {
            let a = build_site(TEMPLATE, DATA, "foo.list", card, minify).unwrap();
            let b = build_site(TEMPLATE, DATA, "foo.list", card, minify).unwrap();
            assert_eq!(a, b);
        }
    }
}

#[test]
fn minified_page_is_smaller() {
    let template = "<html>\n  <body>\n    <p>{{ title }}</p>\n  </body>\n</html>\n";
    let plain = build_site(template, DATA, "foo.list", false, false).unwrap();
    let small = build_site(template, DATA, "foo.list", false, true).unwrap();
    // The renderer drops the template's final newline.
    assert_eq!(
        plain,
        b"<html>\n  <body>\n    <p>My Lists</p>\n  </body>\n</html>".to_vec()
    );
    assert!(small.len() < plain.len());
    let text = String::from_utf8(small).unwrap();
    assert!(text.contains("My Lists"));
}

#[test]
fn invalid_data_is_not_rendered() {
    assert_eq!(build_site(TEMPLATE, "{", "foo.list", false, false), Err(ListError::Parse));
    let dup = r#"{"title":"T","lists":[{"title":"Dup","list":["A","A"]}]}"#;
    assert_eq!(
        build_site(TEMPLATE, dup, "foo.list", false, false),
        Err(ListError::Duplicates {
            title: "Dup".to_string(),
            items: vec![ListItem::new("A"), ListItem::new("A")],
        })
    );
}

#[test]
fn bad_template_is_a_render_error() {
    assert_eq!(
        build_site("{% for %}", DATA, "foo.list", false, false),
        Err(ListError::Render)
    );
}

#[test]
fn context_carries_document_and_card() {
    let doc = ListOfLists {
        title: "T".to_string(),
        lists: vec![List::new("L", true, false, &["a"])],
        footer_links: vec![],
        footer: None,
    };
    let ctx = render_context(&doc, Some("https://x/images/card.png".to_string()));
    assert_eq!(
        ctx.to_string(),
        r#"{"card_image_url":"https://x/images/card.png","footer":null,"footer_links":[],"lists":[{"duplicates":false,"hidden":true,"list":["a"],"title":"L"}],"title":"T"}"#
    );
    let page = render_page("{% if lists[0].hidden %}hidden{% endif %}", &doc, None, false).unwrap();
    assert_eq!(page, b"hidden".to_vec());
}

#[test]
fn values_are_html_escaped() {
    let data = r#"{"title":"Jacob's List & <b>Co</b>","lists":[{"title":"a \"q\"","list":["x<y"]}]}"#;
    let page = build_site(TEMPLATE, data, "foo.list", false, false).unwrap();
    assert_eq!(
        String::from_utf8(page).unwrap(),
        "<h1>Jacob&#x27;s List &amp; &lt;b&gt;Co&lt;&#x2f;b&gt;</h1><div id=\"a_q\">x&lt;y</div>"
    );
}
