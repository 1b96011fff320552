use blitz_dom::{Attribute, LocalName, Namespace, QualName};
use dioxus_core::{Element, VNode, VirtualDom};
use dioxus_native_dom::{DioxusDocument, DocumentConfig};
use dioxus_test::query::{copy_chain, failing_level, render_target};
use dioxus_test::{
    by_role, by_testid, into_query, resolve_chain, AriaTree, ChainMiss, ChainSearch, QueryKind,
    RenderTarget, Role, TesterError,
};

const DOCUMENT_DOM: &str = r#"<html>
  <head />
  <body>
    <main id="main">
      <div class="arbitrary-class">
        <div data-testid="Arbitrary testid" />
      </div>
    </main>
  </body>
</html>
"#;

/// The document of [`DOCUMENT_DOM`].
fn nested_document() -> DioxusDocument {
    rendered(("class", "arbitrary-class"), Some(("data-testid", "Arbitrary testid")))
}

const CLASS_DIV_DOM: &str = r#"<div class="arbitrary-class">
  <div data-testid="Arbitrary testid" />
</div>
"#;

fn empty_app() -> Element {
    VNode::empty()
}

/// A rendered document whose `main` element holds a `div` with the
/// attribute `outer`; where `inner` is given, that `div` holds another with
/// the attribute `inner`. Each attribute is a name and a value.
fn rendered(outer: (&str, &str), inner: Option<(&str, &str)>) -> DioxusDocument {
    let mut document = DioxusDocument::new(VirtualDom::new(empty_app), DocumentConfig::default());
    document.initial_build();
    let main = document.query_selector("main").ok().flatten().expect("the document has a main element");
    {
        let mut mutator = document.mutate();
        let div = |mutator: &mut blitz_dom::DocumentMutator, (name, value): (&str, &str)| {
            mutator.create_element(
                QualName::new(None, Namespace::from("http://www.w3.org/1999/xhtml"), LocalName::from("div")),
                vec![Attribute {
                    name: QualName::new(None, Namespace::from(""), LocalName::from(name)),
                    value: value.to_string(),
                }],
            )
        };
        let outer_div = div(&mut mutator, outer);
        mutator.append_children(main, &[outer_div]);
        if let Some(inner) = inner {
            let inner_div = div(&mut mutator, inner);
            mutator.append_children(outer_div, &[inner_div]);
        }
    }
    document
}

/// The node that `selector` finds first in `document`.
fn node(document: &DioxusDocument, selector: &str) -> u64 {
    document.query_selector(selector).ok().flatten().expect("the node exists") as u64
}

/// Resolves `chain` in `document` with the library and, as it fails, builds
/// the chain's error message. Blitz renders DOM without indentation, so the
/// DOM the error shows is taken in its indented form from `document_dom`
/// for the whole document and from `doms` for the node the library names.
fn failure_message(
    document: &DioxusDocument,
    chain: &Vec<QueryKind>,
    document_dom: &str,
    doms: &[(u64, &str)],
) -> String {
    match resolve_chain(document, &AriaTree::from_entries(Vec::new()), chain) {
        Err(ChainMiss::Unmatched { level, shown }) => {
            let dom = match shown {
                None => document_dom.to_string(),
                Some(id) => {
                    doms.iter().find(|(node, _)| *node == id).expect("a DOM for the node").1.to_string()
                }
            };
            chain[level].failure(dom).message()
        }
        Ok(_) => panic!("the chain resolved"),
        Err(ChainMiss::Invalid(error)) => panic!("invalid selector: {}", error.message()),
    }
}

#[test]
fn assertion_failure_message_includes_dom_when_no_element_matches_css_query() {
    let document_dom = r#"<html>
  <head />
  <body>
    <main id="main">
      <div class="arbitrary-class" />
    </main>
  </body>
</html>
"#;
    let document = rendered(("class", "arbitrary-class"), None);
    let chain = vec![into_query(".different-class".to_string()).kind()];
    let message = failure_message(&document, &chain, document_dom, &[]);
    assert!(message.contains(&format!(
        "No such element with CSS selector `.different-class`\nDOM is:\n{document_dom}"
    )));
}

#[test]
fn assertion_failure_message_includes_dom_when_no_element_has_testid() {
    let document_dom = r#"<html>
  <head />
  <body>
    <main id="main">
      <div data-testid="Arbitrary testid" />
    </main>
  </body>
</html>
"#;
    let document = rendered(("data-testid", "Arbitrary testid"), None);
    let chain = vec![by_testid("Different testid").kind()];
    let message = failure_message(&document, &chain, document_dom, &[]);
    assert!(message.contains(&format!(
        "No such element with test ID `Different testid`\nDOM is:\n{document_dom}"
    )));
}

#[test]
fn dom_displayed_in_assertion_failure_message_starts_from_node_of_innermost_matching_query() {
    let chain = vec![
        into_query(".arbitrary-class".to_string()).kind(),
        by_testid("Different testid").kind(),
    ];
    let document = nested_document();
    let class_div = node(&document, ".arbitrary-class");
    let message = failure_message(&document, &chain, DOCUMENT_DOM, &[(class_div, CLASS_DIV_DOM)]);
    assert!(message.contains(&format!(
        "No such element with test ID `Different testid`\nDOM is:\n{CLASS_DIV_DOM}"
    )));
}

#[test]
fn assertion_failure_when_outer_node_not_matched_references_outer_node() {
    let chain = vec![
        into_query(".different-class".to_string()).kind(),
        by_testid("Arbitrary testid").kind(),
    ];
    let message = failure_message(&nested_document(), &chain, DOCUMENT_DOM, &[]);
    assert!(message.contains(
        r#"No such element with CSS selector `.different-class`
DOM is:
<html>
  <head />
  <body>
    <main id="main">
      <div class="arbitrary-class">
        <div data-testid="Arbitrary testid" />
      </div>
    </main>
  </body>
"#
    ));
}

#[test]
fn assertion_failure_when_outer_node_not_matched_references_outer_node_in_immediate_mode() {
    let chain = vec![
        into_query(".different-class".to_string()).kind(),
        by_testid("Arbitrary testid").kind(),
    ];
    assert_eq!(failing_level(&vec![false, false]), 0);
    assert_eq!(render_target(&vec![false, false], 0), RenderTarget::Document);
    let message = failure_message(&nested_document(), &chain, DOCUMENT_DOM, &[]);
    assert!(message.starts_with("No such element with CSS selector `.different-class`"));
}

#[test]
fn failing_level_walks_out_to_the_innermost_matched_parent() {
    assert_eq!(failing_level(&vec![false]), 0);
    assert_eq!(failing_level(&vec![true, false]), 1);
    assert_eq!(failing_level(&vec![true, false, false]), 1);
    assert_eq!(failing_level(&vec![true, true, false]), 2);
    assert_eq!(render_target(&vec![true, true, false], 2), RenderTarget::MatchOf(1));
    assert_eq!(render_target(&vec![true, false, false], 2), RenderTarget::MatchOf(0));
    assert_eq!(render_target(&vec![false, false, false], 2), RenderTarget::Document);
    assert_eq!(render_target(&vec![true, true, true], 0), RenderTarget::Document);
}

#[test]
fn testid_query_displays_as_its_selector() {
    let query = by_testid("the-label");
    assert_eq!(query.describe(), r#"[data-testid="the-label"]"#);
    assert_eq!(query.create_selector(), r#"[data-testid="the-label"]"#);
    assert_eq!(query.kind().describe(), r#"[data-testid="the-label"]"#);
}

#[test]
fn role_query_displays_role_and_name() {
    assert_eq!(by_role(Role::Button).describe(), r#"role="Button""#);
    assert_eq!(
        by_role(Role::Button).having_name("Click me!".to_string()).describe(),
        r#"role="Button" having name "Click me!""#
    );
    assert_eq!(into_query(".some-class".to_string()).describe(), ".some-class");
}

#[test]
fn failures_name_the_query() {
    match by_role(Role::Button).having_name("Go".to_string()).kind().failure("<div />".to_string()) {
        TesterError::NoSuchElementWithRole(role, dom) => {
            assert_eq!(role, "Button having accessible name `Go`");
            assert_eq!(dom, "<div />");
        }
        other => panic!("unexpected error {other:?}"),
    }
    match by_role(Role::Tab).kind().failure(String::new()) {
        TesterError::NoSuchElementWithRole(role, _) => assert_eq!(role, "Tab"),
        other => panic!("unexpected error {other:?}"),
    }
    match into_query("p".to_string()).kind().failure("x".to_string()) {
        TesterError::NoSuchElementWithCssSelector(selector, dom) => {
            assert_eq!(selector, "p");
            assert_eq!(dom, "x");
        }
        other => panic!("unexpected error {other:?}"),
    }
}

#[test]
fn invalid_selector_error_holds_the_selector() {
    let error = into_query("[[".to_string()).invalid_selector_error();
    match &error {
        TesterError::InvalidCssSelector(selector) => assert_eq!(selector, "[["),
        other => panic!("unexpected error {other:?}"),
    }
    assert_eq!(error.message(), "Invalid CSS selector [[");
}

#[test]
fn with_parent_replaces_the_enclosing_chain() {
    let outer = into_query(".outer-class".to_string());
    let parent_chain = vec![outer.kind()];
    let inner = by_testid("some-test-id").with_parent(copy_chain(&parent_chain));
    assert_eq!(inner.parents.len(), 1);
    assert_eq!(inner.parents[0].describe(), ".outer-class");
    let again = inner.with_parent(Vec::new());
    assert!(again.parents.is_empty());
    assert_eq!(again.testid, "some-test-id");
    let named = by_role(Role::Button).with_parent(copy_chain(&parent_chain)).having_name("x".to_string());
    assert_eq!(named.parents.len(), 1);
    assert_eq!(named.role, Role::Button);
}

#[test]
fn chain_search_starts_each_level_at_the_match_of_the_one_before() {
    let mut search = ChainSearch::new(1, 3);
    assert_eq!(search.next_lookup(), Some((0, 1)));
    search.record(Some(10));
    assert_eq!(search.next_lookup(), Some((1, 10)));
    search.record(Some(20));
    assert_eq!(search.next_lookup(), Some((2, 20)));
    assert_eq!(search.innermost_match(), None);
    search.record(Some(30));
    assert_eq!(search.next_lookup(), None);
    assert_eq!(search.innermost_match(), Some(30));
    assert_eq!(search.continuation_start(), Some(30));
    assert_eq!(search.match_of(1), Some(20));
    assert_eq!(search.match_of(3), None);
    assert_eq!(search.found_levels(), vec![true, true, true]);
}

#[test]
fn chain_search_stops_at_the_first_level_without_a_match() {
    let mut search = ChainSearch::new(1, 3);
    search.record(Some(10));
    search.record(None);
    assert_eq!(search.next_lookup(), None);
    assert_eq!(search.innermost_match(), None);
    assert_eq!(search.continuation_start(), None);
    search.record(Some(99));
    assert_eq!(search.match_of(1), None);
    let found = search.found_levels();
    assert_eq!(found, vec![true, false, false]);
    assert_eq!(failing_level(&found), 1);
    assert_eq!(render_target(&found, 1), RenderTarget::MatchOf(0));
    assert_eq!(search.match_of(0), Some(10));
}

#[test]
fn chain_search_over_no_levels_continues_from_the_root() {
    let search = ChainSearch::new(4, 0);
    assert_eq!(search.next_lookup(), None);
    assert_eq!(search.innermost_match(), None);
    assert_eq!(search.continuation_start(), Some(4));
    assert!(search.found_levels().is_empty());
}

#[test]
fn chain_search_reports_the_outermost_level_when_it_matches_nothing() {
    let mut search = ChainSearch::new(1, 2);
    search.record(None);
    let found = search.found_levels();
    assert_eq!(found, vec![false, false]);
    assert_eq!(failing_level(&found), 0);
    assert_eq!(render_target(&found, 0), RenderTarget::Document);
}
