use dioxus_test::document::window_size_or_default;
use dioxus_test::element::{
    check_interactive, element_id_from_attributes, find_attribute, focus_change_events, has_focus,
    join_child_html, parse_usize,
};
use dioxus_test::{Attribute, FocusDispatch, FocusEventKind, NodeId, TesterError};

fn attrs(pairs: &[(&str, &str)]) -> Vec<Attribute> {
    pairs
        .iter()
        .map(|(n, v)| Attribute { name: n.to_string(), value: v.to_string() })
        .collect()
}

#[test]
fn attribute_does_not_match_when_attribute_has_wrong_value() {
    let a = attrs(&[("data-testid", "item"), ("my-attribute", "Arbitrary value")]);
    let found = find_attribute(&a, "my-attribute");
    assert_eq!(found.as_deref(), Some("Arbitrary value"));
    assert_ne!(found.as_deref(), Some("A different value"));
}

#[test]
fn attribute_does_not_match_when_attribute_is_missing() {
    let a = attrs(&[("data-testid", "item")]);
    assert_eq!(find_attribute(&a, "my-attribute"), None);
}

#[test]
fn attribute_does_not_match_when_attribute_is_present_but_asserting_absence() {
    let a = attrs(&[("data-testid", "item"), ("my-attribute", "Arbitrary value")]);
    assert!(find_attribute(&a, "my-attribute").is_some());
}

#[test]
fn find_attribute_returns_the_first_of_equal_names() {
    let a = attrs(&[("x", "1"), ("y", "2"), ("x", "3")]);
    assert_eq!(find_attribute(&a, "x").as_deref(), Some("1"));
    assert_eq!(find_attribute(&a, "y").as_deref(), Some("2"));
}

#[test]
fn parse_usize_follows_from_str() {
    for s in ["0", "12", "+7", "007", "18446744073709551615", "", "+", "-1", "1a", " 1", "18446744073709551616", "99999999999999999999x"] {
        assert_eq!(parse_usize(s), s.parse::<usize>().ok(), "input {s:?}");
    }
}

#[test]
fn element_id_comes_from_data_dioxus_id() {
    assert_eq!(element_id_from_attributes(&attrs(&[("class", "c"), ("data-dioxus-id", "42")])), Some(42));
    assert_eq!(element_id_from_attributes(&attrs(&[("data-dioxus-id", "x")])), None);
    assert_eq!(element_id_from_attributes(&attrs(&[("data-testid", "5")])), None);
}

#[test]
fn focus_change_blurs_old_and_focuses_new() {
    let events = focus_change_events(Some(3), Some(7));
    assert_eq!(
        events,
        vec![
            FocusDispatch { kind: FocusEventKind::Blur, element: 3 },
            FocusDispatch { kind: FocusEventKind::FocusOut, element: 3 },
            FocusDispatch { kind: FocusEventKind::Focus, element: 7 },
            FocusDispatch { kind: FocusEventKind::FocusIn, element: 7 },
        ]
    );
    assert_eq!(focus_change_events(None, Some(1)).len(), 2);
    assert_eq!(focus_change_events(Some(1), None)[0].kind, FocusEventKind::Blur);
    assert!(focus_change_events(None, None).is_empty());
    assert_eq!(FocusEventKind::FocusIn.name(), "focusin");
    assert_eq!(FocusEventKind::Blur.name(), "blur");
    assert!(FocusEventKind::FocusOut.bubbles());
    assert!(!FocusEventKind::Focus.bubbles());
}

#[test]
fn focus_is_where_the_document_says() {
    assert!(has_focus(Some(4), 4));
    assert!(!has_focus(Some(4), 5));
    assert!(!has_focus(None, 4));
}

#[test]
fn events_go_only_to_interactive_elements() {
    assert!(matches!(check_interactive("click", Some(9), "<b />".to_string()), Ok(9)));
    match check_interactive("click", None, "<b />".to_string()) {
        Err(TesterError::InteractionWithNonInteractiveElement(e, h)) => {
            assert_eq!(e, "click");
            assert_eq!(h, "<b />");
        }
        other => panic!("unexpected {other:?}"),
    }
}

#[test]
fn inner_html_concatenates_attached_children() {
    let parts = vec![Some("<a />".to_string()), None, Some("text".to_string())];
    assert_eq!(join_child_html(&parts), "<a />text");
    assert_eq!(join_child_html(&vec![]), "");
}

#[test]
fn node_ids_resolve_against_the_root() {
    assert_eq!(NodeId::Root.into_raw_id(17), 17);
    assert_eq!(NodeId::Node(3).into_raw_id(17), 3);
}

#[test]
fn window_size_defaults_to_500_by_800() {
    assert_eq!(window_size_or_default(None), (500, 800));
    assert_eq!(window_size_or_default(Some((10, 20))), (10, 20));
}
