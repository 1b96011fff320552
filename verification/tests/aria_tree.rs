use dioxus_test::aria::AriaNode;
use dioxus_test::{by_role, AriaTree, Role};

fn node(role: Role, value: Option<&str>, children: Vec<u64>) -> AriaNode {
    AriaNode { role, value: value.map(|v| v.to_string()), children }
}

/// The tree of a document whose `<main>` holds the given elements: the
/// window (0) holds `<html>` (1) with `<head>` (2) and `<body>` (3); the
/// body holds `<main>` (4), whose children are `main_children`.
fn document_tree(main_children: Vec<u64>, rest: Vec<(u64, AriaNode)>) -> AriaTree {
    let mut entries = vec![
        (0, node(Role::Window, None, vec![1])),
        (1, node(Role::Unknown, None, vec![2, 3])),
        (2, node(Role::Unknown, None, vec![])),
        (3, node(Role::Unknown, None, vec![4])),
        (4, node(Role::Unknown, None, main_children)),
    ];
    entries.extend(rest);
    AriaTree::from_entries(entries)
}

#[test]
fn obtains_name_from_text_node_inside_button() {
    let tree = document_tree(
        vec![5],
        vec![
            (5, node(Role::Button, None, vec![6])),
            (6, node(Role::TextRun, Some("Text node content"), vec![])),
        ],
    );
    let button = tree.find_first(Role::Button, &None, 0).expect("button present");
    let result = tree.compute_accessible_name(tree.get_node(button).unwrap());
    assert_eq!(result, "Text node content");
}

#[test]
fn concatenates_content_of_text_nodes() {
    let tree = document_tree(
        vec![5],
        vec![
            (5, node(Role::Button, None, vec![6, 8])),
            (6, node(Role::GenericContainer, None, vec![7])),
            (7, node(Role::TextRun, Some("Text node"), vec![])),
            (8, node(Role::GenericContainer, None, vec![9])),
            (9, node(Role::TextRun, Some("content"), vec![])),
        ],
    );
    let result = tree.compute_accessible_name(tree.get_node(5).unwrap());
    assert_eq!(result, "Text node content");
}

#[test]
fn returns_empty_string_if_node_has_no_accessible_name() {
    let tree = document_tree(
        vec![5],
        vec![
            (5, node(Role::GenericContainer, None, vec![6])),
            (6, node(Role::TextRun, Some("Text node content"), vec![])),
        ],
    );
    let result = tree.compute_accessible_name(tree.get_node(5).unwrap());
    assert_eq!(result, "");
}

#[test]
fn text_run_is_named_by_its_value() {
    let tree = document_tree(vec![5], vec![(5, node(Role::TextRun, Some("Hello"), vec![]))]);
    assert_eq!(tree.compute_accessible_name(tree.get_node(5).unwrap()), "Hello");
}

#[test]
fn children_missing_from_the_tree_are_skipped() {
    let tree = document_tree(
        vec![5],
        vec![
            (5, node(Role::Link, None, vec![6, 42, 7])),
            (6, node(Role::TextRun, Some("one"), vec![])),
            (7, node(Role::TextRun, Some("two"), vec![])),
        ],
    );
    assert_eq!(tree.compute_accessible_name(tree.get_node(5).unwrap()), "one two");
}

#[test]
fn later_entry_with_same_id_wins() {
    let tree = AriaTree::from_entries(vec![
        (3, node(Role::Button, None, vec![])),
        (3, node(Role::Heading, None, vec![])),
    ]);
    assert_eq!(tree.get_node(3).unwrap().role, Role::Heading);
    assert!(tree.get_node(4).is_none());
}

fn two_buttons_tree() -> AriaTree {
    document_tree(
        vec![5, 7, 9],
        vec![
            (5, node(Role::Button, None, vec![6])),
            (6, node(Role::TextRun, Some("A different label"), vec![])),
            (7, node(Role::GenericContainer, None, vec![8, 10])),
            (8, node(Role::Button, None, vec![11])),
            (11, node(Role::TextRun, Some("Button one"), vec![])),
            (10, node(Role::Button, None, vec![12])),
            (12, node(Role::TextRun, Some("Button two"), vec![])),
            (9, node(Role::Heading, None, vec![])),
        ],
    )
}

#[test]
fn query_all_by_role_lists_matches_in_post_order() {
    let tree = two_buttons_tree();
    let query = by_role(Role::Button);
    assert_eq!(query.find_all_elements_starting_at(0, &tree), vec![5, 8, 10]);
    assert_eq!(query.find_all_elements_starting_at(7, &tree), vec![8, 10]);
}

#[test]
fn query_by_role_finds_first_in_document_order() {
    let tree = two_buttons_tree();
    let query = by_role(Role::Button);
    assert_eq!(query.find_first_element_starting_at(0, &tree), Some(5));
    assert_eq!(query.find_first_element_starting_at(7, &tree), Some(8));
    assert_eq!(query.find_first_element_starting_at(99, &tree), None);
    assert_eq!(by_role(Role::Tab).find_first_element_starting_at(0, &tree), None);
    assert!(by_role(Role::Tab).find_all_elements_starting_at(0, &tree).is_empty());
}

#[test]
fn having_name_selects_by_accessible_name_substring() {
    let tree = two_buttons_tree();
    let query = by_role(Role::Button).having_name("two".to_string());
    assert_eq!(query.find_first_element_starting_at(0, &tree), Some(10));
    assert_eq!(query.find_all_elements_starting_at(0, &tree), vec![10]);
    let query = by_role(Role::Button).having_name("Button".to_string());
    assert_eq!(query.find_all_elements_starting_at(0, &tree), vec![8, 10]);
    let query = by_role(Role::Button).having_name(String::new());
    assert_eq!(query.find_all_elements_starting_at(0, &tree), vec![5, 8, 10]);
}

#[test]
fn element_matches_checks_role_and_name() {
    let tree = two_buttons_tree();
    let button = tree.get_node(8).unwrap();
    assert!(by_role(Role::Button).element_matches(button, &tree));
    assert!(!by_role(Role::Heading).element_matches(button, &tree));
    assert!(by_role(Role::Button).having_name("one".to_string()).element_matches(button, &tree));
    assert!(!by_role(Role::Button).having_name("three".to_string()).element_matches(button, &tree));
}

#[test]
fn roles_name_themselves_and_know_name_from_content() {
    assert_eq!(Role::Button.name(), "Button");
    assert_eq!(Role::MenuItemCheckBox.name(), "MenuItemCheckBox");
    assert!(Role::Button.supports_name_from_content());
    assert!(Role::GridCell.supports_name_from_content());
    assert!(Role::TreeItem.supports_name_from_content());
    assert!(!Role::GenericContainer.supports_name_from_content());
    assert!(!Role::TextRun.supports_name_from_content());
}
