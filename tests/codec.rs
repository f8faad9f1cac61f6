use list_of_lists::codec::read_list;
use list_of_lists::{Footer, FooterItem, List, ListError, ListItem, ListOfLists};

const EXAMPLE_LIST: &str = r#"
    {
        "title": "The List",
        "lists": [
            {
                "title": "Letters",
                "hidden": true,
                "list": [
                    "A",
                    "B",
                    "C"
                ]
            },
            {
                "title": "Numbers",
                "list": [
                    "1",
                    "2",
                    "3"
                ]
            },
            {
                "title": "Tooltip",
                "list": [
                    "foo",
                    {
                        "item": "bar",
                        "tooltip": "baz"
                    }
                ]
            }
        ]
    }
    "#;

#[test]
fn test_list_of_lists_serde() -> Result<(), ListError> {
    let list_of_lists = ListOfLists {
        title: "The List".to_string(),
        footer_links: vec![],
        footer: None,
        lists: vec![
            List::new("Letters", true, false, &["A", "B", "C"]),
            List::new("Numbers", false, false, &["1", "2", "3"]),
            List::from_items(
                "Tooltip",
                false,
                false,
                vec![ListItem::new("foo"), ListItem::with_tooltip("bar", "baz")],
            ),
        ],
    };

    let serialized = list_of_lists.to_json();
    let deserialized = ListOfLists::from_json(&serialized)?;
    let from_example = ListOfLists::from_json(EXAMPLE_LIST)?;

    assert_eq!(list_of_lists, deserialized);
    assert_eq!(list_of_lists, from_example);

    Ok(())
}

#[test]
fn test_list_of_lists_footer() -> Result<(), ListError> {
    let list_of_lists = ListOfLists {
        title: "The List".to_string(),
        footer_links: vec![],
        footer: Some(Footer {
            imports: vec!["https://import.js".to_string()],
            links: vec![FooterItem {
                url: "https://github.com".to_string(),
                icon: "github".to_string(),
                title: Some("GitHub".to_string()),
            }],
        }),
        lists: vec![List::new("Letters", true, false, &["A", "B", "C"])],
    };

    let serialized = list_of_lists.to_json();
    let deserialized = ListOfLists::from_json(&serialized)?;

    assert_eq!(list_of_lists, deserialized);

    Ok(())
}

#[test]
fn test_list_of_lists_legacy_footer() -> Result<(), ListError> {
    let list_of_lists = ListOfLists {
        title: "The List".to_string(),
        footer_links: vec![FooterItem {
            url: "https://github.com".to_string(),
            icon: "github".to_string(),
            title: None,
        }],
        footer: None,
        lists: vec![List::new("Letters", true, false, &["A", "B", "C"])],
    };

    let serialized = list_of_lists.to_json();
    let deserialized = ListOfLists::from_json(&serialized)?;

    assert_eq!(list_of_lists, deserialized);

    Ok(())
}

fn legacy_link() -> FooterItem {
    FooterItem {
        url: "https://github.com".to_string(),
        icon: "github".to_string(),
        title: None,
    }
}

#[test]
fn writes_compact_json_with_every_field() {
    let doc = ListOfLists {
        title: "T".to_string(),
        lists: vec![List::from_items(
            "L",
            false,
            true,
            vec![ListItem::new("a"), ListItem::with_tooltip("b", "c")],
        )],
        footer_links: vec![],
        footer: None,
    };

    assert_eq!(
        doc.to_json(),
        r#"{"footer":null,"footer_links":[],"lists":[{"duplicates":true,"hidden":false,"list":["a",{"item":"b","tooltip":"c"}],"title":"L"}],"title":"T"}"#
    );
}

#[test]
fn camel_case_legacy_footer_name_is_read() {
    let text = r#"{"title":"T","lists":[],"footerLinks":[{"url":"https://github.com","icon":"github"}]}"#;
    let doc = ListOfLists::from_json(text).unwrap();

    assert_eq!(doc.footer_links, vec![legacy_link()]);
    assert_eq!(doc.footer, None);
}

#[test]
fn both_legacy_footer_names_are_rejected() {
    let text = r#"{"title":"T","lists":[],"footer_links":[],"footerLinks":[]}"#;

    assert_eq!(ListOfLists::from_json(text), Err(ListError::Parse));
}

#[test]
fn missing_optional_fields_take_defaults() {
    let text = r#"{"title":"T","lists":[{"title":"L","list":[]}],"footer":{}}"#;
    let doc = ListOfLists::from_json(text).unwrap();

    assert_eq!(
        doc,
        ListOfLists {
            title: "T".to_string(),
            lists: vec![List::new("L", false, false, &[])],
            footer_links: vec![],
            footer: Some(Footer { imports: vec![], links: vec![] }),
        }
    );
}

#[test]
fn null_footer_and_null_link_title_are_none() {
    let text = r#"{"title":"T","lists":[],"footer":null,"footer_links":[{"url":"https://github.com","icon":"github","title":null}]}"#;
    let doc = ListOfLists::from_json(text).unwrap();

    assert_eq!(doc.footer, None);
    assert_eq!(doc.footer_links, vec![legacy_link()]);
}

#[test]
fn malformed_text_is_a_parse_error() {
    assert_eq!(ListOfLists::from_json("{"), Err(ListError::Parse));
    assert_eq!(ListOfLists::from_json(""), Err(ListError::Parse));
}

#[test]
fn wrong_shapes_are_parse_errors() {
    let cases = [
        r#"[]"#,
        r#"{"lists":[]}"#,
        r#"{"title":"T"}"#,
        r#"{"title":1,"lists":[]}"#,
        r#"{"title":"T","lists":[{"title":"L"}]}"#,
        r#"{"title":"T","lists":[{"title":"L","list":[1]}]}"#,
        r#"{"title":"T","lists":[{"title":"L","list":[{"item":"a"}]}]}"#,
        r#"{"title":"T","lists":[{"title":"L","hidden":"yes","list":[]}]}"#,
        r#"{"title":"T","lists":[{"title":"L","hidden":null,"list":[]}]}"#,
        r#"{"title":"T","lists":[],"footer":[]}"#,
        r#"{"title":"T","lists":[],"footer":{"links":[{"url":"u"}]}}"#,
        r#"{"title":"T","lists":[],"footer_links":{}}"#,
    ];
    for text in cases {
        assert_eq!(ListOfLists::from_json(text), Err(ListError::Parse), "{}", text);
    }
}

#[test]
fn unknown_fields_are_ignored() {
    let text = r#"{"title":"T","extra":3,"lists":[{"title":"L","list":[{"item":"a","tooltip":"b","x":0}]}]}"#;
    let doc = ListOfLists::from_json(text).unwrap();

    assert_eq!(
        doc.lists,
        vec![List::from_items("L", false, false, vec![ListItem::with_tooltip("a", "b")])]
    );
}

#[test]
fn legacy_and_current_footer_give_the_same_links() {
    let legacy = r#"{"title":"T","lists":[],"footer_links":[{"url":"https://github.com","icon":"github"}]}"#;
    let current = r#"{"title":"T","lists":[],"footer":{"links":[{"url":"https://github.com","icon":"github"}]}}"#;
    let legacy = ListOfLists::from_json(legacy).unwrap();
    let current = ListOfLists::from_json(current).unwrap();

    assert_eq!(legacy.footer_links, vec![legacy_link()]);
    assert_eq!(current.footer, Some(Footer { imports: vec![], links: vec![legacy_link()] }));
    assert_eq!(legacy.title, current.title);
    assert_eq!(legacy.lists, current.lists);
}

#[test]
fn read_list_parses_and_validates() {
    let doc = read_list(EXAMPLE_LIST).unwrap();
    assert_eq!(doc.title, "The List");
    assert_eq!(doc.lists.len(), 3);

    let dup = r#"{"title":"T","lists":[{"title":"Ok","list":["a","b"]},{"title":"Dup","list":["a","a"]}]}"#;
    assert_eq!(
        read_list(dup),
        Err(ListError::Duplicates {
            title: "Dup".to_string(),
            items: vec![ListItem::new("a"), ListItem::new("a")],
        })
    );
    assert_eq!(read_list("not json"), Err(ListError::Parse));
}

#[test]
fn written_document_reads_back_through_read_list() {
    let doc = ListOfLists {
        title: "The List".to_string(),
        lists: vec![List::new("Letters", true, false, &["A", "B"])],
        footer_links: vec![legacy_link()],
        footer: None,
    };
    let text = doc.to_json();
    assert_eq!(read_list(&text), Ok(doc));
}
