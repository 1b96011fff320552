//! What the tester decides about a single element: its identity, its
//! attributes, the Dioxus element identifier it carries, keyboard focus and
//! the events sent to it.

use vstd::prelude::*;
use crate::error::TesterError;
use crate::text::chars_of;

verus! {

/// A reference to a node of the document: its root element, or a node by
/// identifier.
#[derive(Clone, Copy, Debug, PartialEq, Eq, Structural)]
pub enum NodeId {
    Root,
    Node(usize),
}

impl NodeId {
    /// The raw identifier of the node, where `root_id` is the identifier of
    /// the document's root node.
    pub fn into_raw_id(self, root_id: usize) -> (res: usize)
        ensures
            res == match self {
                NodeId::Root => root_id,
                NodeId::Node(id) => id,
            },
    {
        match self {
            NodeId::Root => root_id,
            NodeId::Node(id) => id,
        }
    }
}

/// An attribute of an element: its local name and its value.
pub struct Attribute {
    pub name: String,
    pub value: String,
}

/// The views of a list of attributes, as (name, value) pairs.
pub open spec fn attribute_views(attrs: Seq<Attribute>) -> Seq<(Seq<char>, Seq<char>)> {
    attrs.map_values(|a: Attribute| (a.name@, a.value@))
}

/// The value of the first attribute in `attrs` named `name`.
pub open spec fn first_attribute(attrs: Seq<(Seq<char>, Seq<char>)>, name: Seq<char>) -> Option<
    Seq<char>,
>
    decreases attrs.len(),
{
    if attrs.len() == 0 {
        None
    } else if attrs[0].0 == name {
        Some(attrs[0].1)
    } else {
        first_attribute(attrs.drop_first(), name)
    }
}

/// Returns the value of the first attribute named `name`, if there is one.
pub fn find_attribute(attrs: &Vec<Attribute>, name: &str) -> (res: Option<String>)
    ensures
        match res {
            Some(v) => first_attribute(attribute_views(attrs@), name@) == Some(v@),
            None => first_attribute(attribute_views(attrs@), name@) is None,
        },
{
    let wanted = String::from_str(name);
    let n = attrs.len();
    let mut i: usize = 0;
    assert(attribute_views(attrs@).skip(0) =~= attribute_views(attrs@));
    while i < n
        invariant
            n == attrs@.len(),
            i <= n,
            wanted@ == name@,
            first_attribute(attribute_views(attrs@), name@) == first_attribute(
                attribute_views(attrs@).skip(i as int),
                name@,
            ),
        decreases n - i,
    {
        let ghost rest = attribute_views(attrs@).skip(i as int);
        assert(rest[0] == (attrs@[i as int].name@, attrs@[i as int].value@));
        assert(rest.drop_first() =~= attribute_views(attrs@).skip(i + 1));
        if attrs[i].name == wanted {
            return Some(attrs[i].value.clone());
        }
        i = i + 1;
    }
    None
}

/// Whether `c` is an ASCII decimal digit.
pub open spec fn is_decimal_digit(c: char) -> bool {
    '0' <= c && c <= '9'
}

/// The number written by the decimal digits `s`.
pub open spec fn decimal_value(s: Seq<char>) -> int
    decreases s.len(),
{
    if s.len() == 0 {
        0
    } else {
        decimal_value(s.drop_last()) * 10 + (s.last() as int - '0' as int)
    }
}

/// The digits of a number written `s`: `s` without its leading `+`, if it
/// has one.
pub open spec fn digits_part(s: Seq<char>) -> Seq<char> {
    if s.len() > 0 && s[0] == '+' {
        s.drop_first()
    } else {
        s
    }
}

/// Every character of `s` is a decimal digit.
pub open spec fn all_decimal_digits(s: Seq<char>) -> bool {
    forall|i: int| 0 <= i < s.len() ==> is_decimal_digit(#[trigger] s[i])
}

/// What `usize::from_str` gives for `s`: an optional `+` followed by at
/// least one decimal digit, whose value fits in a `usize`.
pub open spec fn parsed_usize(s: Seq<char>) -> Option<usize> {
    let digits = digits_part(s);
    if digits.len() > 0 && all_decimal_digits(digits) && decimal_value(digits) <= usize::MAX {
        Some(decimal_value(digits) as usize)
    } else {
        None
    }
}

/// The value of a prefix of digits is at most that of a longer prefix.
proof fn lemma_decimal_value_grows(s: Seq<char>, i: int, j: int)
    requires
        0 <= i <= j <= s.len(),
        forall|k: int| 0 <= k < s.len() ==> is_decimal_digit(#[trigger] s[k]),
    ensures
        0 <= decimal_value(s.take(i)) <= decimal_value(s.take(j)),
    decreases j - i,
{
    if i < j {
        lemma_decimal_value_grows(s, i, j - 1);
        assert(s.take(j).drop_last() =~= s.take(j - 1));
        assert(s.take(j).last() == s[j - 1]);
    } else {
        lemma_decimal_value_nonneg(s.take(i));
    }
}

proof fn lemma_decimal_value_nonneg(s: Seq<char>)
    requires
        forall|k: int| 0 <= k < s.len() ==> is_decimal_digit(#[trigger] s[k]),
    ensures
        decimal_value(s) >= 0,
    decreases s.len(),
{
    if s.len() > 0 {
        assert(forall|k: int| 0 <= k < s.drop_last().len() ==> s.drop_last()[k] == s[k]);
        lemma_decimal_value_nonneg(s.drop_last());
    }
}

/// Parses `s` as a decimal `usize`, as `usize::from_str` does.
pub fn parse_usize(s: &str) -> (res: Option<usize>)
    ensures
        res == parsed_usize(s@),
{
    let chars = chars_of(s);
    let ghost digits = digits_part(s@);
    let start: usize = if chars.len() > 0 && chars[0] == '+' {
        1
    } else {
        0
    };
    let n = chars.len();
    assert(digits =~= s@.skip(start as int));
    if start == n {
        return None;
    }
    let mut value: usize = 0;
    let mut i: usize = start;
    while i < n
        invariant
            chars@ == s@,
            n == s@.len(),
            start <= i <= n,
            start < n,
            digits =~= s@.skip(start as int),
            digits == digits_part(s@),
            forall|k: int| 0 <= k < i - start ==> is_decimal_digit(#[trigger] digits[k]),
            value == decimal_value(digits.take(i - start)),
        decreases n - i,
    {
        let c = chars[i];
        assert(digits[i - start] == c);
        if !('0' <= c && c <= '9') {
            assert(!is_decimal_digit(digits[i - start]));
            assert(digits.len() > 0);
            assert(!all_decimal_digits(digits));
            return None;
        }
        let d = (c as u32 - '0' as u32) as usize;
        assert(digits.take(i - start + 1).drop_last() =~= digits.take(i - start));
        assert(digits.take(i - start + 1).last() == c);
        let limit = (usize::MAX - d) / 10;
        if value > limit {
            proof {
                assert(value * 10 + d > usize::MAX) by (nonlinear_arith)
                    requires
                        value > limit,
                        limit == (usize::MAX - d) / 10,
                        d <= 9,
                ;
                assert(decimal_value(digits.take(i - start + 1)) == value * 10 + d);
                if all_decimal_digits(digits) {
                    lemma_decimal_value_grows(digits, i - start + 1, digits.len() as int);
                    assert(digits.take(digits.len() as int) =~= digits);
                }
            }
            return None;
        }
        assert(value * 10 + d <= usize::MAX) by (nonlinear_arith)
            requires
                value <= limit,
                limit == (usize::MAX - d) / 10,
                d <= 9,
        ;
        value = value * 10 + d;
        i = i + 1;
    }
    assert(digits.take(n - start) =~= digits);
    Some(value)
}

/// The attribute in which Dioxus records the identifier of the virtual DOM
/// element that a node renders.
pub open spec fn dioxus_id_attribute() -> Seq<char> {
    "data-dioxus-id"@
}

/// The Dioxus element identifier recorded in `attrs`, if any.
pub open spec fn spec_element_id(attrs: Seq<(Seq<char>, Seq<char>)>) -> Option<usize> {
    match first_attribute(attrs, dioxus_id_attribute()) {
        Some(v) => parsed_usize(v),
        None => None,
    }
}

/// Returns the Dioxus element identifier of an element with attributes
/// `attrs`: the value of its first `data-dioxus-id` attribute, read as a
/// decimal number. Elements without one, or with one that is not a number,
/// have none.
pub fn element_id_from_attributes(attrs: &Vec<Attribute>) -> (res: Option<usize>)
    ensures
        res == spec_element_id(attribute_views(attrs@)),
{
    match find_attribute(attrs, "data-dioxus-id") {
        Some(v) => parse_usize(v.as_str()),
        None => None,
    }
}

/// Whether the node `this` has the keyboard focus, given the node that has
/// it, if any.
pub fn has_focus(focused: Option<usize>, this: usize) -> (res: bool)
    ensures
        res == (focused == Some(this)),
{
    match focused {
        Some(f) => f == this,
        None => false,
    }
}

/// The events that a change of keyboard focus sends.
#[derive(Clone, Copy, Debug, PartialEq, Eq, Structural)]
pub enum FocusEventKind {
    Blur,
    FocusOut,
    Focus,
    FocusIn,
}

/// Whether an event of kind `k` propagates to the ancestors of its target.
pub open spec fn spec_bubbles(k: FocusEventKind) -> bool {
    k == FocusEventKind::FocusOut || k == FocusEventKind::FocusIn
}

/// The name under which the event is dispatched.
pub open spec fn spec_event_name(k: FocusEventKind) -> Seq<char> {
    match k {
        FocusEventKind::Blur => "blur"@,
        FocusEventKind::FocusOut => "focusout"@,
        FocusEventKind::Focus => "focus"@,
        FocusEventKind::FocusIn => "focusin"@,
    }
}

impl FocusEventKind {
    /// The name under which the event is dispatched.
    pub fn name(&self) -> (res: &'static str)
        ensures
            res@ == spec_event_name(*self),
    {
        match self {
            FocusEventKind::Blur => "blur",
            FocusEventKind::FocusOut => "focusout",
            FocusEventKind::Focus => "focus",
            FocusEventKind::FocusIn => "focusin",
        }
    }

    /// Whether the event propagates to the ancestors of its target.
    pub fn bubbles(&self) -> (res: bool)
        ensures
            res == spec_bubbles(*self),
    {
        match self {
            FocusEventKind::FocusOut | FocusEventKind::FocusIn => true,
            _ => false,
        }
    }
}

/// One event to dispatch: its kind and the Dioxus element that receives it.
#[derive(Clone, Copy, Debug, PartialEq, Eq, Structural)]
pub struct FocusDispatch {
    pub kind: FocusEventKind,
    pub element: usize,
}

/// The events that moving the focus sends, in order: `blur` then `focusout`
/// to the element that loses the focus, then `focus` then `focusin` to the
/// element that gains it; each pair only where that node renders a Dioxus
/// element.
pub open spec fn spec_focus_change_events(old_element: Option<usize>, new_element: Option<usize>) -> Seq<
    FocusDispatch,
> {
    let lost = match old_element {
        Some(e) => seq![
            FocusDispatch { kind: FocusEventKind::Blur, element: e },
            FocusDispatch { kind: FocusEventKind::FocusOut, element: e },
        ],
        None => Seq::empty(),
    };
    let gained = match new_element {
        Some(e) => seq![
            FocusDispatch { kind: FocusEventKind::Focus, element: e },
            FocusDispatch { kind: FocusEventKind::FocusIn, element: e },
        ],
        None => Seq::empty(),
    };
    lost + gained
}

/// Plans a change of keyboard focus: `old_element` is the Dioxus element of
/// the node that had the focus (if it had one), `new_element` that of the
/// node that gets it.
pub fn focus_change_events(old_element: Option<usize>, new_element: Option<usize>) -> (res: Vec<
    FocusDispatch,
>)
    ensures
        res@ == spec_focus_change_events(old_element, new_element),
{
    let mut res: Vec<FocusDispatch> = Vec::new();
    match old_element {
        Some(e) => {
            res.push(FocusDispatch { kind: FocusEventKind::Blur, element: e });
            res.push(FocusDispatch { kind: FocusEventKind::FocusOut, element: e });
        },
        None => {},
    }
    match new_element {
        Some(e) => {
            res.push(FocusDispatch { kind: FocusEventKind::Focus, element: e });
            res.push(FocusDispatch { kind: FocusEventKind::FocusIn, element: e });
        },
        None => {},
    }
    assert(res@ =~= spec_focus_change_events(old_element, new_element));
    res
}

/// Decides whether an event named `event_name` can be sent to an element:
/// it can when the element renders a Dioxus element (`element_id`), which
/// is then its target; otherwise the result is the error that names the
/// event and holds `outer_html`, the rendered element.
pub fn check_interactive(event_name: &str, element_id: Option<usize>, outer_html: String) -> (res:
    Result<usize, TesterError>)
    ensures
        match element_id {
            Some(id) => res == Ok::<usize, TesterError>(id),
            None => res matches Err(TesterError::InteractionWithNonInteractiveElement(e, h)) && e@
                == event_name@ && h@ == outer_html@,
        },
{
    match element_id {
        Some(id) => Ok(id),
        None => Err(
            TesterError::InteractionWithNonInteractiveElement(String::from_str(event_name), outer_html),
        ),
    }
}

/// The concatenation of the parts that are present.
pub open spec fn concat_present(parts: Seq<Option<Seq<char>>>) -> Seq<char>
    decreases parts.len(),
{
    if parts.len() == 0 {
        Seq::empty()
    } else {
        concat_present(parts.drop_last()) + match parts.last() {
            Some(p) => p,
            None => Seq::empty(),
        }
    }
}

/// The views of optional strings.
pub open spec fn optional_views(parts: Seq<Option<String>>) -> Seq<Option<Seq<char>>> {
    parts.map_values(
        |p: Option<String>|
            match p {
                Some(s) => Some(s@),
                None => None,
            },
    )
}

/// The inner HTML of an element from the outer HTML of each of its
/// children: the children that are still attached (`Some`) in order, with
/// nothing between them.
pub fn join_child_html(parts: &Vec<Option<String>>) -> (res: String)
    ensures
        res@ == concat_present(optional_views(parts@)),
{
    let mut res = String::new();
    let n = parts.len();
    for i in 0..n
        invariant
            n == parts@.len(),
            res@ == concat_present(optional_views(parts@).take(i as int)),
    {
        assert(optional_views(parts@).take(i + 1).drop_last() =~= optional_views(parts@).take(
            i as int,
        ));
        match &parts[i] {
            Some(p) => {
                res.append(p.as_str());
            },
            None => {},
        }
    }
    assert(optional_views(parts@).take(n as int) =~= optional_views(parts@));
    res
}

} // verus!
