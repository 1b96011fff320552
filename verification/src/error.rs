//! The error type of the tester and the text that describes each error.

use vstd::prelude::*;
use crate::text::{join_seq, text_lines};

verus! {

/// An error during resolution of a DOM element or making an assertion.
///
/// This normally indicates that the test should fail.
#[derive(Clone, Debug)]
pub enum TesterError {
    /// The given CSS selector had invalid syntax.
    InvalidCssSelector(String),
    /// No element with the test ID, as given by the HTML attribute
    /// `data-testid`, was found in the DOM. Holds the test ID and the
    /// rendered DOM that was searched.
    NoSuchElementWithTestId(String, String),
    /// No element matching the given CSS selector was found in the DOM.
    /// Holds the selector and the rendered DOM that was searched.
    NoSuchElementWithCssSelector(String, String),
    /// No element with the given ARIA role (and accessible name, where one
    /// was asked for) was found in the DOM. Holds the description of the
    /// role and the rendered DOM that was searched.
    NoSuchElementWithRole(String, String),
    /// Attempt to interact (e.g., click) with a non-interactive element.
    /// Holds the name of the event and the rendered element.
    InteractionWithNonInteractiveElement(String, String),
    /// An assertion on a test element failed.
    AssertionFailure {
        query: String,
        actual_outer_html: String,
        matcher_description: String,
        failure_explanation: String,
    },
}

/// Each of `lines` behind two spaces.
pub open spec fn indented(lines: Seq<Seq<char>>) -> Seq<Seq<char>> {
    lines.map_values(|line: Seq<char>| "  "@ + line)
}

/// The text of a description made of the block `heading` with `body` nested
/// below it, as `test_that`'s `Description` renders one: the lines of
/// `heading`, a line feed, then the lines of `body`, each indented by two
/// spaces; lines are separated by line feeds and none follows the last.
pub open spec fn nested_description(heading: Seq<char>, body: Seq<char>) -> Seq<char> {
    join_seq(text_lines(heading), "\n"@) + "\n"@ + join_seq(indented(text_lines(body)), "\n"@)
}

/// Renders `heading` with `body` nested below it through `test_that`'s
/// `Description` (`Description::new().text(..).nested(..)` and its `Display`
/// impl). The contract claims the rendering that the crate's source gives
/// for one text block with one nested text block: each block is split into
/// lines as `str::lines` splits it, the nested lines are indented by two
/// spaces, and lines are joined by line feeds.
#[verifier::external_body]
fn render_nested(heading: String, body: String) -> (res: String)
    ensures
        res@ == nested_description(heading@, body@),
{
    let inner = test_that::description::Description::new().text(body);
    test_that::description::Description::new().text(heading).nested(inner).to_string()
}

/// The heading of the message for an event sent to an element that cannot
/// receive it.
pub open spec fn non_interactive_heading(event: Seq<char>) -> Seq<char> {
    "Attempted to send `"@ + event + "` event to noninteractive element:"@
}

/// The message that describes `e`.
pub open spec fn error_message(e: TesterError) -> Seq<char> {
    match e {
        TesterError::InvalidCssSelector(selector) => "Invalid CSS selector "@ + selector@,
        TesterError::NoSuchElementWithTestId(id, dom) => "No such element with test ID `"@ + id@
            + "`\nDOM is:\n"@ + dom@,
        TesterError::NoSuchElementWithCssSelector(selector, dom) =>
            "No such element with CSS selector `"@ + selector@ + "`\nDOM is:\n"@ + dom@,
        TesterError::NoSuchElementWithRole(role, dom) => "No such element with role `"@ + role@
            + "`\nDOM is:\n"@ + dom@,
        TesterError::InteractionWithNonInteractiveElement(event, rendered) => nested_description(
            non_interactive_heading(event@),
            rendered@,
        ),
        TesterError::AssertionFailure {
            query,
            actual_outer_html,
            matcher_description,
            failure_explanation,
        } => "Element: "@ + query@ + "\nExpected: "@ + matcher_description@ + "\nBut was:\n"@
            + actual_outer_html@ + "\n"@ + failure_explanation@,
    }
}

impl TesterError {
    /// Returns the message that describes this error, as it is displayed.
    pub fn message(&self) -> (res: String)
        ensures
            res@ == error_message(*self),
    {
        let mut s = String::new();
        match self {
            TesterError::InvalidCssSelector(selector) => {
                s.append("Invalid CSS selector ");
                s.append(selector.as_str());
            },
            TesterError::NoSuchElementWithTestId(id, dom) => {
                s.append("No such element with test ID `");
                s.append(id.as_str());
                s.append("`\nDOM is:\n");
                s.append(dom.as_str());
            },
            TesterError::NoSuchElementWithCssSelector(selector, dom) => {
                s.append("No such element with CSS selector `");
                s.append(selector.as_str());
                s.append("`\nDOM is:\n");
                s.append(dom.as_str());
            },
            TesterError::NoSuchElementWithRole(role, dom) => {
                s.append("No such element with role `");
                s.append(role.as_str());
                s.append("`\nDOM is:\n");
                s.append(dom.as_str());
            },
            TesterError::InteractionWithNonInteractiveElement(event, rendered) => {
                let mut heading = String::new();
                heading.append("Attempted to send `");
                heading.append(event.as_str());
                heading.append("` event to noninteractive element:");
                s = render_nested(heading, rendered.clone());
            },
            TesterError::AssertionFailure {
                query,
                actual_outer_html,
                matcher_description,
                failure_explanation,
            } => {
                s.append("Element: ");
                s.append(query.as_str());
                s.append("\nExpected: ");
                s.append(matcher_description.as_str());
                s.append("\nBut was:\n");
                s.append(actual_outer_html.as_str());
                s.append("\n");
                s.append(failure_explanation.as_str());
            },
        }
        s
    }
}

} // verus!
