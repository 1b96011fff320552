use dioxus_test::element::check_interactive;
use dioxus_test::TesterError;

#[test]
fn clicking_unclickable_element_causes_failure_with_correct_message() {
    let error = check_interactive(
        "click",
        None,
        r#"<div data-testid="arbitrary-testid" />"#.to_string(),
    )
    .expect_err("an element without a Dioxus id cannot take a click");
    assert!(error.message().contains(
        "Attempted to send `click` event to noninteractive element:\n  <div data-testid=\"arbitrary-testid\" />"
    ));
}

#[test]
fn interactive_element_takes_the_event() {
    assert_eq!(check_interactive("click", Some(3), "<button />".to_string()).ok(), Some(3));
}

#[test]
fn non_interactive_message_indents_every_line_of_the_element() {
    let error = TesterError::InteractionWithNonInteractiveElement(
        "input".to_string(),
        "<div>\n  text\n</div>".to_string(),
    );
    assert_eq!(
        error.message(),
        "Attempted to send `input` event to noninteractive element:\n  <div>\n    text\n  </div>"
    );
}

#[test]
fn assertion_failure_message_lists_query_expectation_and_actual_value() {
    let error = TesterError::AssertionFailure {
        query: r#"[data-testid="the-label"]"#.to_string(),
        actual_outer_html: "  <div />".to_string(),
        matcher_description: "is empty".to_string(),
        failure_explanation: "which isn't empty".to_string(),
    };
    assert_eq!(
        error.message(),
        "Element: [data-testid=\"the-label\"]\nExpected: is empty\nBut was:\n  <div />\nwhich isn't empty"
    );
}

#[test]
fn lookup_failure_messages_include_the_dom() {
    assert_eq!(
        TesterError::NoSuchElementWithTestId("id".to_string(), "<p />".to_string()).message(),
        "No such element with test ID `id`\nDOM is:\n<p />"
    );
    assert_eq!(
        TesterError::NoSuchElementWithCssSelector(".c".to_string(), "<p />".to_string()).message(),
        "No such element with CSS selector `.c`\nDOM is:\n<p />"
    );
    assert_eq!(
        TesterError::NoSuchElementWithRole("Button".to_string(), "<p />".to_string()).message(),
        "No such element with role `Button`\nDOM is:\n<p />"
    );
    assert_eq!(
        TesterError::InvalidCssSelector("x".to_string()).message(),
        "Invalid CSS selector x"
    );
}

fn non_interactive_message(rendered: &str) -> String {
    TesterError::InteractionWithNonInteractiveElement("click".to_string(), rendered.to_string())
        .message()
}

#[test]
fn non_interactive_message_splits_lines_as_str_lines_does() {
    let heading = "Attempted to send `click` event to noninteractive element:";
    assert_eq!(
        non_interactive_message("<div>\r\n  text\r\n</div>\n"),
        format!("{heading}\n  <div>\n    text\n  </div>")
    );
    assert_eq!(non_interactive_message("a\n\nb"), format!("{heading}\n  a\n  \n  b"));
    assert_eq!(non_interactive_message("x\r"), format!("{heading}\n  x\r"));
    assert_eq!(non_interactive_message("\n"), format!("{heading}\n  "));
}

#[test]
fn non_interactive_message_with_nothing_rendered_ends_after_the_heading() {
    assert_eq!(
        non_interactive_message(""),
        "Attempted to send `click` event to noninteractive element:\n"
    );
}

#[test]
fn non_interactive_message_splits_the_event_name_into_lines_too() {
    let error = TesterError::InteractionWithNonInteractiveElement(
        "a\nb".to_string(),
        "<p />".to_string(),
    );
    assert_eq!(
        error.message(),
        "Attempted to send `a\nb` event to noninteractive element:\n  <p />"
    );
}
