use dioxus_core::{Element, VNode, VirtualDom};
use dioxus_native_dom::{DioxusDocument, DocumentConfig};
use dioxus_test::{
    by_role, by_testid, into_query, resolve_all, resolve_chain, AriaNode, AriaTree, ChainMiss, QueryKind,
    Role, TesterError,
};

fn empty_app() -> Element {
    VNode::empty()
}

/// A rendered document holding only the structure the renderer makes:
/// `<html><head /><body><main id="main" /></body></html>`.
fn document() -> DioxusDocument {
    let mut document = DioxusDocument::new(VirtualDom::new(empty_app), DocumentConfig::default());
    document.initial_build();
    document
}

fn css(selector: &str) -> QueryKind {
    into_query(selector.to_string()).kind()
}

fn node(document: &DioxusDocument, selector: &str) -> u64 {
    document.query_selector(selector).ok().flatten().expect("the node exists") as u64
}

fn no_tree() -> AriaTree {
    AriaTree::from_entries(Vec::new())
}

#[test]
fn chain_resolves_to_the_match_of_its_innermost_level() {
    let document = document();
    let main = node(&document, "main");
    assert_eq!(resolve_chain(&document, &no_tree(), &vec![css("main")]).ok(), Some(main));
    assert_eq!(resolve_chain(&document, &no_tree(), &vec![css("body"), css("main")]).ok(), Some(main));
    assert_eq!(resolve_chain(&document, &no_tree(), &vec![css("html"), css("body"), css("#main")]).ok(), Some(main));
}

#[test]
fn unmatched_innermost_level_shows_the_dom_of_its_parent_match() {
    let document = document();
    let body = node(&document, "body");
    match resolve_chain(&document, &no_tree(), &vec![css("body"), by_testid(r#"a"b"#).kind()]) {
        Err(ChainMiss::Unmatched { level, shown }) => {
            assert_eq!(level, 1);
            assert_eq!(shown, Some(body));
        }
        _ => panic!("expected an unmatched level"),
    }
}

#[test]
fn unmatched_outer_level_is_reported_with_the_whole_document() {
    let document = document();
    match resolve_chain(&document, &no_tree(), &vec![css(".different-class"), css("main")]) {
        Err(ChainMiss::Unmatched { level, shown }) => {
            assert_eq!(level, 0);
            assert_eq!(shown, None);
        }
        _ => panic!("expected an unmatched level"),
    }
}

#[test]
fn role_level_searches_the_accessibility_tree() {
    let document = document();
    match resolve_chain(&document, &no_tree(), &vec![css("body"), by_role(Role::Button).kind()]) {
        Err(ChainMiss::Unmatched { level, shown }) => {
            assert_eq!(level, 1);
            assert_eq!(shown, Some(node(&document, "body")));
        }
        _ => panic!("expected an unmatched level"),
    }
}

#[test]
fn invalid_selector_is_reported_before_any_lookup() {
    let document = document();
    match resolve_chain(&document, &no_tree(), &vec![css(".different-class"), css("[[")]) {
        Err(ChainMiss::Invalid(TesterError::InvalidCssSelector(selector))) => assert_eq!(selector, "[["),
        _ => panic!("expected an invalid selector"),
    }
    match resolve_chain(&document, &no_tree(), &vec![css("(("), css("[[")]) {
        Err(ChainMiss::Invalid(TesterError::InvalidCssSelector(selector))) => assert_eq!(selector, "[["),
        _ => panic!("expected an invalid selector"),
    }
    match resolve_all(&document, &no_tree(), &vec![css("(("), css("main")]) {
        Err(TesterError::InvalidCssSelector(selector)) => assert_eq!(selector, "(("),
        _ => panic!("expected an invalid selector"),
    }
}

#[test]
fn resolve_all_finds_every_match_below_the_parent_match() {
    let document = document();
    let head = node(&document, "head");
    let body = node(&document, "body");
    let found = resolve_all(&document, &no_tree(), &vec![css("html"), css("head, body")]).ok();
    assert_eq!(found, Some(vec![head, body]));
    let found = resolve_all(&document, &no_tree(), &vec![css(".different-class"), css("main")]).ok();
    assert_eq!(found, Some(vec![]));
}

#[test]
fn role_chain_searches_from_the_document_root() {
    let document = document();
    let tree = AriaTree::from_entries(vec![
        (0, AriaNode { role: Role::Unknown, value: None, children: vec![5] }),
        (5, AriaNode { role: Role::GenericContainer, value: None, children: vec![9] }),
        (9, AriaNode { role: Role::Button, value: None, children: vec![] }),
    ]);
    assert_eq!(resolve_chain(&document, &tree, &vec![by_role(Role::Button).kind()]).ok(), Some(9));
    assert_eq!(
        resolve_chain(&document, &tree, &vec![by_role(Role::GenericContainer).kind(), by_role(Role::Button).kind()]).ok(),
        Some(9)
    );
    assert_eq!(
        resolve_all(&document, &tree, &vec![by_role(Role::Button).kind()]).ok(),
        Some(vec![9])
    );
}
