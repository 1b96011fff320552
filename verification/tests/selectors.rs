use blitz_dom::{Attribute, BaseDocument, DocumentConfig, LocalName, Namespace, QualName};
use dioxus_test::by_testid;

/// A document whose root holds one `div` for each of `testids`, with that
/// value in its `data-testid` attribute; returns the document and the ids of
/// the `div`s.
fn document_with_testids(testids: &[&str]) -> (BaseDocument, Vec<usize>) {
    let mut document = BaseDocument::new(DocumentConfig::default());
    let root = document.root_node().id;
    let mut created = Vec::new();
    {
        let mut mutator = document.mutate();
        for testid in testids {
            let element = mutator.create_element(
                QualName::new(None, Namespace::from("http://www.w3.org/1999/xhtml"), LocalName::from("div")),
                vec![Attribute {
                    name: QualName::new(None, Namespace::from(""), LocalName::from("data-testid")),
                    value: testid.to_string(),
                }],
            );
            mutator.append_children(root, &[element]);
            created.push(element);
        }
    }
    (document, created)
}

#[test]
fn testid_selector_escapes_quotes_backslashes_and_line_breaks() {
    assert_eq!(by_testid(r#"a"b"#).create_selector(), r#"[data-testid="a\"b"]"#);
    assert_eq!(by_testid(r"back\slash").create_selector(), r#"[data-testid="back\\slash"]"#);
    assert_eq!(by_testid("two\nlines").create_selector(), "[data-testid=\"two\\a lines\"]");
    assert_eq!(by_testid("cr\rff\u{c}").create_selector(), "[data-testid=\"cr\\d ff\\c \"]");
    assert_eq!(by_testid("").create_selector(), r#"[data-testid=""]"#);
}

#[test]
fn testid_query_displays_the_testid_as_given() {
    assert_eq!(by_testid(r#"a"b"#).describe(), r#"[data-testid="a"b"]"#);
    assert_eq!(by_testid(r#"a"b"#).kind().describe(), r#"[data-testid="a"b"]"#);
}

#[test]
fn testid_selector_matches_the_element_with_that_testid() {
    let testids = ["plain", r#"a"b"#, r"back\slash", "two\nlines", "cr\rlf", r#"both\" kinds"#];
    let (document, elements) = document_with_testids(&testids);
    for (testid, element) in testids.iter().zip(elements) {
        let selector = by_testid(testid).create_selector();
        assert_eq!(document.query_selector(&selector).ok(), Some(Some(element)), "{selector}");
    }
}
