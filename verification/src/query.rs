//! Queries that select elements of a document: by CSS selector, by test ID
//! and by ARIA role, each possibly nested inside a parent query.
//!
//! A query together with its ancestors forms a chain, listed from the
//! outermost query to the innermost. Each level searches within the first
//! element matched by the level before it.

use vstd::prelude::*;
use crate::aria::{AriaNode, AriaTree, all_matches, depth_budget, first_match, node_matches, opt_view};
use crate::error::TesterError;
use crate::role::{Role, role_name};
use crate::text::chars_of;

verus! {

/// One level of a query chain.
pub enum QueryKind {
    /// Elements matching a CSS selector.
    CssSelector(String),
    /// Elements whose `data-testid` attribute has the given value.
    TestId(String),
    /// Elements with an ARIA role and, where given, an accessible name that
    /// contains the given text.
    Role(Role, Option<String>),
}

/// A copy of an optional string.
fn copy_optional(o: &Option<String>) -> (res: Option<String>)
    ensures
        opt_view(res) == opt_view(*o),
{
    match o {
        Some(s) => Some(s.clone()),
        None => None,
    }
}

/// The text a query by test ID displays as: `[data-testid="<id>"]`, with
/// the test ID as it is.
pub open spec fn testid_display(id: Seq<char>) -> Seq<char> {
    "[data-testid=\""@ + id + "\"]"@
}

/// How `c` is written inside a double-quoted CSS string: a quote and a
/// backslash behind a backslash; a line feed, a carriage return and a form
/// feed, which would end the string, as hex escapes closed by a space; any
/// other character as itself.
pub open spec fn css_escape_char(c: char) -> Seq<char> {
    if c == '"' {
        "\\\""@
    } else if c == '\\' {
        "\\\\"@
    } else if c == '\n' {
        "\\a "@
    } else if c == '\r' {
        "\\d "@
    } else if c == '\u{c}' {
        "\\c "@
    } else {
        seq![c]
    }
}

/// `s` written as the contents of a double-quoted CSS string.
pub open spec fn css_string_escape(s: Seq<char>) -> Seq<char>
    decreases s.len(),
{
    if s.len() == 0 {
        Seq::empty()
    } else {
        css_string_escape(s.drop_last()) + css_escape_char(s.last())
    }
}

/// The CSS selector that finds the elements whose `data-testid` attribute
/// is `id`: `[data-testid="<id>"]`, with `id` escaped as a CSS string.
pub open spec fn testid_selector(id: Seq<char>) -> Seq<char> {
    "[data-testid=\""@ + css_string_escape(id) + "\"]"@
}

/// Whether `c` is written as itself inside a CSS string.
pub open spec fn needs_no_escape(c: char) -> bool {
    c != '"' && c != '\\' && c != '\n' && c != '\r' && c != '\u{c}'
}

/// A test ID without quotes, backslashes, line feeds, carriage returns or
/// form feeds is written in its selector as it is, so that the selector of
/// a query by such a test ID is the text the query displays as.
pub proof fn lemma_plain_testid_selector_is_display(id: Seq<char>)
    requires
        forall|i: int| 0 <= i < id.len() ==> needs_no_escape(#[trigger] id[i]),
    ensures
        css_string_escape(id) == id,
        testid_selector(id) == testid_display(id),
    decreases id.len(),
{
    if id.len() > 0 {
        let p = id.drop_last();
        assert forall|i: int| 0 <= i < p.len() implies needs_no_escape(#[trigger] p[i]) by {
            assert(p[i] == id[i]);
        }
        lemma_plain_testid_selector_is_display(p);
        assert(needs_no_escape(id[id.len() - 1]));
        assert(p + seq![id.last()] =~= id);
    }
}

/// The text of a query by role: `role="<Role>"`, followed by
/// ` having name "<name>"` where a name is asked for.
pub open spec fn role_query_text(role: Role, name: Option<Seq<char>>) -> Seq<char> {
    "role=\""@ + role_name(role) + "\""@ + match name {
        Some(n) => " having name \""@ + n + "\""@,
        None => Seq::empty(),
    }
}

/// How a role query is named in the error raised when it matches nothing.
pub open spec fn role_failure_text(role: Role, name: Option<Seq<char>>) -> Seq<char> {
    role_name(role) + match name {
        Some(n) => " having accessible name `"@ + n + "`"@,
        None => Seq::empty(),
    }
}

/// The text a query level displays as. It does not tell the kinds of level
/// apart: a CSS selector level can display as a test ID level does.
pub open spec fn kind_text(k: QueryKind) -> Seq<char> {
    match k {
        QueryKind::CssSelector(s) => s@,
        QueryKind::TestId(id) => testid_display(id@),
        QueryKind::Role(role, name) => role_query_text(role, opt_view(name)),
    }
}

/// The CSS selector a query level searches with: its own selector, the
/// selector of its test ID, or none for a level by role.
pub open spec fn level_selector(k: QueryKind) -> Option<Seq<char>> {
    match k {
        QueryKind::CssSelector(s) => Some(s@),
        QueryKind::TestId(id) => Some(testid_selector(id@)),
        QueryKind::Role(..) => None,
    }
}

/// Whether `e` is the error raised when the query level `k` matches nothing
/// and `dom` is the rendered DOM it searched.
pub open spec fn is_failure_of(k: QueryKind, dom: Seq<char>, e: TesterError) -> bool {
    match k {
        QueryKind::CssSelector(s) => e matches TesterError::NoSuchElementWithCssSelector(a, b)
            && a@ == s@ && b@ == dom,
        QueryKind::TestId(id) => e matches TesterError::NoSuchElementWithTestId(a, b) && a@ == id@
            && b@ == dom,
        QueryKind::Role(role, name) => e matches TesterError::NoSuchElementWithRole(a, b) && a@
            == role_failure_text(role, opt_view(name)) && b@ == dom,
    }
}

/// Whether `a` and `b` are the same query level.
pub open spec fn same_kind(a: QueryKind, b: QueryKind) -> bool {
    match (a, b) {
        (QueryKind::CssSelector(x), QueryKind::CssSelector(y)) => x@ == y@,
        (QueryKind::TestId(x), QueryKind::TestId(y)) => x@ == y@,
        (QueryKind::Role(r, x), QueryKind::Role(s, y)) => r == s && opt_view(x) == opt_view(y),
        _ => false,
    }
}

/// Whether the chains `a` and `b` have the same levels.
pub open spec fn same_chain(a: Seq<QueryKind>, b: Seq<QueryKind>) -> bool {
    a.len() == b.len() && forall|i: int| 0 <= i < a.len() ==> same_kind(#[trigger] a[i], b[i])
}

/// Builds `[data-testid="<id>"]` with the test ID as it is.
fn testid_text(id: &String) -> (res: String)
    ensures
        res@ == testid_display(id@),
{
    let mut s = String::new();
    s.append("[data-testid=\"");
    s.append(id.as_str());
    s.append("\"]");
    s
}

/// Appends `text` to `s`, escaped as the contents of a CSS string.
fn append_css_string(s: &mut String, text: &str)
    ensures
        final(s)@ == old(s)@ + css_string_escape(text@),
{
    let chars = chars_of(text);
    let n = chars.len();
    for i in 0..n
        invariant
            n == text@.len(),
            chars@ == text@,
            s@ == old(s)@ + css_string_escape(text@.take(i as int)),
    {
        let c = chars[i];
        if c == '"' {
            s.append("\\\"");
        } else if c == '\\' {
            s.append("\\\\");
        } else if c == '\n' {
            s.append("\\a ");
        } else if c == '\r' {
            s.append("\\d ");
        } else if c == '\u{c}' {
            s.append("\\c ");
        } else {
            let one = text.substring_char(i, i + 1);
            assert(one@ =~= seq![c]);
            s.append(one);
        }
        assert(text@.take(i + 1).drop_last() =~= text@.take(i as int));
    }
    assert(text@.take(n as int) =~= text@);
}

/// Builds the CSS selector `[data-testid="<id>"]` with `id` escaped.
fn testid_selector_text(id: &String) -> (res: String)
    ensures
        res@ == testid_selector(id@),
{
    let mut s = String::new();
    s.append("[data-testid=\"");
    append_css_string(&mut s, id.as_str());
    s.append("\"]");
    s
}

/// Builds the text of a role query.
fn role_text(role: Role, name: &Option<String>) -> (res: String)
    ensures
        res@ == role_query_text(role, opt_view(*name)),
{
    let mut s = String::new();
    s.append("role=\"");
    s.append(role.name());
    s.append("\"");
    match name {
        Some(n) => {
            s.append(" having name \"");
            s.append(n.as_str());
            s.append("\"");
        },
        None => {},
    }
    s
}

/// Builds the name of a role query used in errors.
fn role_failure(role: Role, name: &Option<String>) -> (res: String)
    ensures
        res@ == role_failure_text(role, opt_view(*name)),
{
    let mut s = String::new();
    s.append(role.name());
    match name {
        Some(n) => {
            s.append(" having accessible name `");
            s.append(n.as_str());
            s.append("`");
        },
        None => {},
    }
    s
}

impl QueryKind {
    /// A copy of this query level.
    pub fn duplicate(&self) -> (res: QueryKind)
        ensures
            same_kind(res, *self),
    {
        match self {
            QueryKind::CssSelector(s) => QueryKind::CssSelector(s.clone()),
            QueryKind::TestId(id) => QueryKind::TestId(id.clone()),
            QueryKind::Role(role, name) => QueryKind::Role(*role, copy_optional(name)),
        }
    }

    /// The text this query level displays as: the selector, the test ID
    /// selector, or the role with the name asked for.
    pub fn describe(&self) -> (res: String)
        ensures
            res@ == kind_text(*self),
    {
        match self {
            QueryKind::CssSelector(s) => s.clone(),
            QueryKind::TestId(id) => testid_text(id),
            QueryKind::Role(role, name) => role_text(*role, name),
        }
    }

    /// The CSS selector this level searches with; `None` for a level by
    /// role.
    pub fn selector(&self) -> (res: Option<String>)
        ensures
            opt_view(res) == level_selector(*self),
    {
        match self {
            QueryKind::CssSelector(s) => Some(s.clone()),
            QueryKind::TestId(id) => Some(testid_selector_text(id)),
            QueryKind::Role(..) => None,
        }
    }

    /// The error raised when this query level matches nothing, where `dom`
    /// is the rendered DOM that was searched.
    pub fn failure(&self, dom: String) -> (res: TesterError)
        ensures
            is_failure_of(*self, dom@, res),
    {
        match self {
            QueryKind::CssSelector(s) => TesterError::NoSuchElementWithCssSelector(s.clone(), dom),
            QueryKind::TestId(id) => TesterError::NoSuchElementWithTestId(id.clone(), dom),
            QueryKind::Role(role, name) => TesterError::NoSuchElementWithRole(
                role_failure(*role, name),
                dom,
            ),
        }
    }
}

/// A copy of a chain of query levels.
pub fn copy_chain(chain: &Vec<QueryKind>) -> (res: Vec<QueryKind>)
    ensures
        same_chain(res@, chain@),
{
    let mut res: Vec<QueryKind> = Vec::new();
    let n = chain.len();
    for i in 0..n
        invariant
            n == chain@.len(),
            res@.len() == i,
            forall|k: int| 0 <= k < i ==> same_kind(#[trigger] res@[k], chain@[k]),
    {
        res.push(chain[i].duplicate());
    }
    res
}

/// A query based on an arbitrary CSS selector.
pub struct CssSelectorQuery {
    /// The selector.
    pub selector: String,
    /// The chain of queries within whose match this one searches, outermost
    /// first; empty for a query on the whole document.
    pub parents: Vec<QueryKind>,
}

/// A query for elements whose `data-testid` attribute has a given value.
pub struct QueryByTestId {
    /// The test ID.
    pub testid: String,
    /// The chain of enclosing queries, outermost first.
    pub parents: Vec<QueryKind>,
}

/// A query for elements with a given ARIA role.
pub struct QueryByRole {
    /// The role.
    pub role: Role,
    /// Where given, text that the accessible name must contain.
    pub name: Option<String>,
    /// The chain of enclosing queries, outermost first.
    pub parents: Vec<QueryKind>,
}

/// Returns the query for the CSS selector `selector`, on the whole document.
pub fn into_query(selector: String) -> (res: CssSelectorQuery)
    ensures
        res.selector@ == selector@,
        res.parents@.len() == 0,
{
    CssSelectorQuery { selector, parents: Vec::new() }
}

/// Returns a query matching elements with the given value in the
/// `data-testid` attribute.
///
/// This attribute is a common convention for marking DOM components with
/// which tests interact; see
/// <https://testing-library.com/docs/queries/bytestid/>.
pub fn by_testid(testid: &str) -> (res: QueryByTestId)
    ensures
        res.testid@ == testid@,
        res.parents@.len() == 0,
{
    QueryByTestId { testid: String::from_str(testid), parents: Vec::new() }
}

/// Returns a query matching elements with the given ARIA role.
pub fn by_role(role: Role) -> (res: QueryByRole)
    ensures
        res.role == role,
        res.name is None,
        res.parents@.len() == 0,
{
    QueryByRole { role, name: None, parents: Vec::new() }
}

impl CssSelectorQuery {
    /// This query as a level of a chain.
    pub fn kind(&self) -> (res: QueryKind)
        ensures
            res matches QueryKind::CssSelector(s) && s@ == self.selector@,
    {
        QueryKind::CssSelector(self.selector.clone())
    }

    /// The text this query displays as: its selector.
    pub fn describe(&self) -> (res: String)
        ensures
            res@ == self.selector@,
    {
        self.selector.clone()
    }

    /// This query with its enclosing queries replaced by `parent`, the chain
    /// of the parent query.
    pub fn with_parent(self, parent: Vec<QueryKind>) -> (res: CssSelectorQuery)
        ensures
            res.selector@ == self.selector@,
            res.parents@ == parent@,
    {
        CssSelectorQuery { selector: self.selector, parents: parent }
    }

    /// The error for a selector that does not parse: it holds the selector.
    pub fn invalid_selector_error(&self) -> (res: TesterError)
        ensures
            res matches TesterError::InvalidCssSelector(m) && m@ == self.selector@,
    {
        TesterError::InvalidCssSelector(self.selector.clone())
    }
}

impl QueryByTestId {
    /// This query as a level of a chain.
    pub fn kind(&self) -> (res: QueryKind)
        ensures
            res matches QueryKind::TestId(id) && id@ == self.testid@,
    {
        QueryKind::TestId(self.testid.clone())
    }

    /// The CSS selector that finds the elements of this query:
    /// `[data-testid="<id>"]`, with the test ID escaped as a CSS string so
    /// that the selector parses and matches that value whatever it holds.
    pub fn create_selector(&self) -> (res: String)
        ensures
            res@ == testid_selector(self.testid@),
    {
        testid_selector_text(&self.testid)
    }

    /// The text this query displays as: `[data-testid="<id>"]`.
    pub fn describe(&self) -> (res: String)
        ensures
            res@ == testid_display(self.testid@),
    {
        testid_text(&self.testid)
    }

    /// This query with its enclosing queries replaced by `parent`.
    pub fn with_parent(self, parent: Vec<QueryKind>) -> (res: QueryByTestId)
        ensures
            res.testid@ == self.testid@,
            res.parents@ == parent@,
    {
        QueryByTestId { testid: self.testid, parents: parent }
    }
}

impl QueryByRole {
    /// Restricts this query to elements having an accessible name that
    /// contains `name`; see <https://w3c.github.io/accname/#dfn-accessible-name>.
    pub fn having_name(self, name: String) -> (res: QueryByRole)
        ensures
            res.role == self.role,
            opt_view(res.name) == Some(name@),
            res.parents@ == self.parents@,
    {
        QueryByRole { name: Some(name), ..self }
    }

    /// This query as a level of a chain.
    pub fn kind(&self) -> (res: QueryKind)
        ensures
            res matches QueryKind::Role(r, n) && r == self.role && opt_view(n) == opt_view(
                self.name,
            ),
    {
        QueryKind::Role(self.role, copy_optional(&self.name))
    }

    /// The text this query displays as.
    pub fn describe(&self) -> (res: String)
        ensures
            res@ == role_query_text(self.role, opt_view(self.name)),
    {
        role_text(self.role, &self.name)
    }

    /// This query with its enclosing queries replaced by `parent`.
    pub fn with_parent(self, parent: Vec<QueryKind>) -> (res: QueryByRole)
        ensures
            res.role == self.role,
            res.name == self.name,
            res.parents@ == parent@,
    {
        QueryByRole { parents: parent, ..self }
    }

    /// Whether `node` matches this query: it has the role, and its accessible
    /// name contains the name asked for, if any.
    pub fn element_matches(&self, node: &AriaNode, aria_tree: &AriaTree) -> (res: bool)
        ensures
            res == node_matches(aria_tree@, node@, self.role, opt_view(self.name)),
    {
        aria_tree.element_matches(node, self.role, &self.name)
    }

    /// The first node, in document order from `node_id` (that node
    /// included), that matches this query.
    pub fn find_first_element_starting_at(&self, node_id: u64, aria_tree: &AriaTree) -> (res:
        Option<u64>)
        ensures
            res == first_match(
                aria_tree@,
                self.role,
                opt_view(self.name),
                node_id,
                depth_budget(aria_tree@),
            ),
    {
        aria_tree.find_first(self.role, &self.name, node_id)
    }

    /// All nodes from `node_id` down that match this query: for each child
    /// in turn the matches below it, then `node_id` itself.
    pub fn find_all_elements_starting_at(&self, node_id: u64, aria_tree: &AriaTree) -> (res: Vec<
        u64,
    >)
        ensures
            res@ == all_matches(
                aria_tree@,
                self.role,
                opt_view(self.name),
                node_id,
                depth_budget(aria_tree@),
            ),
    {
        aria_tree.find_all(self.role, &self.name, node_id)
    }
}

/// Which DOM an error about a query level shows.
#[derive(Clone, Copy, Debug, PartialEq, Eq, Structural)]
pub enum RenderTarget {
    /// The whole document, from its root element.
    Document,
    /// The first element matched by the query level with this index.
    MatchOf(usize),
}

/// The DOM surrounding level `level` of a chain, where `found[k]` tells
/// whether level `k` matched an element: the element matched by its parent
/// if the parent matched one, the DOM surrounding the parent if it did not,
/// and the whole document for the outermost level.
pub open spec fn spec_render_target(found: Seq<bool>, level: int) -> RenderTarget
    decreases level,
{
    if level <= 0 {
        RenderTarget::Document
    } else if found[level - 1] {
        RenderTarget::MatchOf((level - 1) as usize)
    } else {
        spec_render_target(found, level - 1)
    }
}

/// The level of a chain an error reports when the query at level `level`
/// matches nothing: the level itself if its parent matched (or it has
/// none), else the level its parent reports.
pub open spec fn spec_failing_level(found: Seq<bool>, level: int) -> int
    decreases level,
{
    if level <= 0 {
        0
    } else if found[level - 1] {
        level
    } else {
        spec_failing_level(found, level - 1)
    }
}

/// Returns which DOM surrounds level `level` of a chain.
pub fn render_target(found: &Vec<bool>, level: usize) -> (res: RenderTarget)
    requires
        level < found@.len(),
    ensures
        res == spec_render_target(found@, level as int),
{
    let mut j = level;
    while j > 0 && !found[j - 1]
        invariant
            j <= level < found@.len(),
            spec_render_target(found@, level as int) == spec_render_target(found@, j as int),
        decreases j,
    {
        j = j - 1;
    }
    if j == 0 {
        RenderTarget::Document
    } else {
        RenderTarget::MatchOf(j - 1)
    }
}

/// Returns the level an error reports for a chain whose innermost query,
/// at the last level, matches nothing.
pub fn failing_level(found: &Vec<bool>) -> (res: usize)
    requires
        found@.len() > 0,
    ensures
        res as int == spec_failing_level(found@, found@.len() - 1),
{
    let mut j = found.len() - 1;
    while j > 0 && !found[j - 1]
        invariant
            j < found@.len(),
            spec_failing_level(found@, found@.len() - 1) == spec_failing_level(found@, j as int),
        decreases j,
    {
        j = j - 1;
    }
    j
}

/// Where the innermost level of a chain matches nothing, the level the
/// error reports is the outermost one or one whose parent matched, no level
/// between it and the innermost one has a matching parent, and the DOM it
/// shows is the parent's match or the whole document.
pub proof fn lemma_failure_reports_innermost_matched_parent(found: Seq<bool>)
    requires
        found.len() > 0,
    ensures
        ({
            let l = spec_failing_level(found, found.len() - 1);
            &&& 0 <= l < found.len()
            &&& l == 0 || found[l - 1]
            &&& forall|k: int| l <= k < found.len() - 1 ==> !#[trigger] found[k]
            &&& spec_render_target(found, l) == if l == 0 {
                RenderTarget::Document
            } else {
                RenderTarget::MatchOf((l - 1) as usize)
            }
        }),
{
    lemma_failing_level_facts(found, found.len() - 1);
}

proof fn lemma_failing_level_facts(found: Seq<bool>, level: int)
    requires
        0 <= level < found.len(),
    ensures
        ({
            let l = spec_failing_level(found, level);
            &&& 0 <= l <= level
            &&& l == 0 || found[l - 1]
            &&& forall|k: int| l <= k < level ==> !#[trigger] found[k]
        }),
    decreases level,
{
    if level > 0 && !found[level - 1] {
        lemma_failing_level_facts(found, level - 1);
    }
}

} // verus!
