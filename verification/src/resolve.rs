//! Resolution of a query chain against a rendered document.
//!
//! A chain resolves level by level: each level looks for its first match
//! from the node matched by the level before it (the outermost level from
//! the root of the document), and the walk stops at the first level that
//! matches nothing. Levels by role search the accessibility tree; levels by
//! CSS selector or test ID run the document's selector matching. Before any
//! lookup, every selector of the chain must parse.

use vstd::prelude::*;
use dioxus_native_dom::DioxusDocument;
use crate::aria::{AriaTree, all_matches, depth_budget, first_match, opt_view, AriaNodeView};
use crate::chain::{ChainSearch, ChainSearchView, shown_node};
use crate::error::TesterError;
use crate::query::{level_selector, spec_failing_level, QueryKind};

verus! {

#[verifier::external_type_specification]
#[verifier::external_body]
pub struct ExDioxusDocument(DioxusDocument);

/// Whether `selector` parses as a list of CSS selectors.
pub uninterp spec fn css_selector_parses(selector: Seq<char>) -> bool;

/// Parses `selector` with the document's selector parser
/// (`BaseDocument::try_parse_selector_list`) and tells whether it parsed.
/// The contract claims that the answer depends on the selector alone.
#[verifier::external_body]
fn selector_parses(document: &DioxusDocument, selector: &str) -> (res: bool)
    ensures
        res == css_selector_parses(selector@),
{
    document.try_parse_selector_list(selector).is_ok()
}

/// The first node below node `start`, in document order, that the selector
/// matches, as stylo's `query_selector` with `QueryFirst` finds it (after
/// parsing the selector and finding the start node). Which node that is
/// depends on the document; the contract claims only that it is not the
/// start node itself, since the search covers the start node's descendants
/// alone.
#[verifier::external_body]
fn select_first(document: &DioxusDocument, selector: &str, start: u64) -> (res: Option<u64>)
    requires
        css_selector_parses(selector@),
    ensures
        res != Some(start),
{
    let list = document.try_parse_selector_list(selector).ok()?;
    let node = document.get_node(start as usize)?;
    let mut result = None;
    style::dom_apis::query_selector::<&blitz_dom::Node, style::dom_apis::QueryFirst>(
        node,
        &list,
        &mut result,
        style::dom_apis::MayUseInvalidation::Yes,
    );
    result.map(|found| found.id as u64)
}

/// All nodes below node `start` that the selector matches, as stylo's
/// `query_selector` with `QueryAll` finds them (after parsing the selector
/// and finding the start node). Which nodes those are depends on the
/// document; the contract claims only that the start node is not among
/// them, since the search covers its descendants alone.
#[verifier::external_body]
fn select_all(document: &DioxusDocument, selector: &str, start: u64) -> (res: Vec<u64>)
    requires
        css_selector_parses(selector@),
    ensures
        !res@.contains(start),
{
    let (Ok(list), Some(node)) = (document.try_parse_selector_list(selector), document.get_node(start as usize)) else {
        return Vec::new();
    };
    let mut result = smallvec::SmallVec::new();
    style::dom_apis::query_selector::<&blitz_dom::Node, style::dom_apis::QueryAll>(
        node,
        &list,
        &mut result,
        style::dom_apis::MayUseInvalidation::Yes,
    );
    result.into_iter().map(|found| found.id as u64).collect()
}

/// The id of the document's root node (`BaseDocument::root_node`): the
/// document node, which the document creates first, as node 0.
#[verifier::external_body]
fn root_node_id(document: &DioxusDocument) -> (res: u64)
    ensures
        res == 0,
{
    document.root_node().id as u64
}

/// Whether the selector of level `k` of `chain` does not parse.
pub open spec fn unparsable_at(chain: Seq<QueryKind>, k: int) -> bool {
    match level_selector(chain[k]) {
        Some(s) => !css_selector_parses(s),
        None => false,
    }
}

/// Whether every selector of `chain` parses.
pub open spec fn all_parse(chain: Seq<QueryKind>) -> bool {
    forall|k: int| 0 <= k < chain.len() ==> !#[trigger] unparsable_at(chain, k)
}

/// Whether `e` is the error for the innermost level of `chain` whose
/// selector does not parse.
pub open spec fn reports_invalid(chain: Seq<QueryKind>, e: TesterError) -> bool {
    exists|k: int|
        {
            &&& 0 <= k < chain.len()
            &&& #[trigger] unparsable_at(chain, k)
            &&& forall|j: int| k < j < chain.len() ==> !unparsable_at(chain, j)
            &&& e matches TesterError::InvalidCssSelector(s) && level_selector(chain[k]) == Some(
                s@,
            )
        }
}

/// Whether `found` can be the first match of the level `kind` from `start`
/// in the accessibility tree `t`: for a level by role it is that match; a
/// level by selector finds a node below `start`, which the document decides,
/// so never `start` itself.
pub open spec fn level_agrees(
    t: Map<u64, AriaNodeView>,
    kind: QueryKind,
    start: u64,
    found: Option<u64>,
) -> bool {
    match kind {
        QueryKind::Role(role, name) => first_match(t, role, opt_view(name), start, depth_budget(t))
            == found,
        _ => found != Some(start),
    }
}

/// Whether `found` can be all matches of the level `kind` from `start`: for
/// a level by role they are all its matches in `t`; for a level by selector
/// they are nodes below `start`, which the document decides, so `start` is
/// not among them.
pub open spec fn level_all_agrees(
    t: Map<u64, AriaNodeView>,
    kind: QueryKind,
    start: u64,
    found: Seq<u64>,
) -> bool {
    match kind {
        QueryKind::Role(role, name) => all_matches(t, role, opt_view(name), start, depth_budget(t))
            == found,
        _ => !found.contains(start),
    }
}

/// Whether each lookup of the walk `s` gave what its level finds from the
/// node the walk started it at: the match of each matched level, and no
/// match for the level at which the walk stopped.
pub open spec fn lookups_agree(t: Map<u64, AriaNodeView>, chain: Seq<QueryKind>, s: ChainSearchView) -> bool {
    &&& forall|k: int|
        0 <= k < s.matches.len() ==> level_agrees(t, chain[k], s.start_of(k), Some(#[trigger] s.matches[k]))
    &&& s.stopped ==> level_agrees(
        t,
        chain[s.matches.len() as int],
        s.start_of(s.matches.len() as int),
        None,
    )
}

/// Whether `s` is a finished walk down the first `levels` levels of `chain`
/// that starts at the document's root node, node 0.
pub open spec fn walked(t: Map<u64, AriaNodeView>, chain: Seq<QueryKind>, levels: nat, s: ChainSearchView) -> bool {
    &&& s.root == 0
    &&& s.wf()
    &&& !s.pending()
    &&& s.levels == levels
    &&& lookups_agree(t, chain, s)
}

/// How a chain failed to resolve to an element.
pub enum ChainMiss {
    /// A selector of the chain does not parse: the error that names it.
    Invalid(TesterError),
    /// Level `level` is the one the error names; the error shows the DOM of
    /// node `shown`, or of the whole document where it is `None`.
    Unmatched { level: usize, shown: Option<u64> },
}

/// Whether `res` is what the finished walk `s` resolves to: the match of
/// the innermost level where every level matched, else the level the error
/// names and the node whose DOM it shows.
pub open spec fn resolves_to(s: ChainSearchView, res: Result<u64, ChainMiss>) -> bool {
    match res {
        Ok(id) => s.complete() && s.levels > 0 && id == s.matches.last(),
        Err(ChainMiss::Unmatched { level, shown }) => {
            &&& s.stopped
            &&& level == spec_failing_level(s.found(), s.levels - 1)
            &&& shown == shown_node(s, level as int)
        },
        Err(ChainMiss::Invalid(_)) => false,
    }
}

/// The selector of the innermost level of `chain` that does not parse, if
/// any.
fn find_unparsable(document: &DioxusDocument, chain: &Vec<QueryKind>) -> (res: Option<String>)
    ensures
        res is None <==> all_parse(chain@),
        res matches Some(s) ==> reports_invalid(chain@, TesterError::InvalidCssSelector(s)),
{
    let mut k = chain.len();
    while k > 0
        invariant
            k <= chain@.len(),
            forall|j: int| k <= j < chain@.len() ==> !#[trigger] unparsable_at(chain@, j),
        decreases k,
    {
        let level = k - 1;
        match chain[level].selector() {
            Some(sel) => {
                if !selector_parses(document, sel.as_str()) {
                    assert(unparsable_at(chain@, level as int));
                    return Some(sel);
                }
            },
            None => {},
        }
        assert(!unparsable_at(chain@, level as int));
        k = level;
    }
    None
}

/// The first match of the level `kind` searched from node `start`.
fn lookup_first(document: &DioxusDocument, tree: &AriaTree, kind: &QueryKind, start: u64) -> (res:
    Option<u64>)
    requires
        level_selector(*kind) matches Some(s) ==> css_selector_parses(s),
    ensures
        level_agrees(tree@, *kind, start, res),
{
    match kind {
        QueryKind::Role(role, name) => tree.find_first(*role, name, start),
        _ => match kind.selector() {
            Some(sel) => select_first(document, sel.as_str(), start),
            None => None,
        },
    }
}

/// All matches of the level `kind` searched from node `start`.
fn lookup_all(document: &DioxusDocument, tree: &AriaTree, kind: &QueryKind, start: u64) -> (res:
    Vec<u64>)
    requires
        level_selector(*kind) matches Some(s) ==> css_selector_parses(s),
    ensures
        level_all_agrees(tree@, *kind, start, res@),
{
    match kind {
        QueryKind::Role(role, name) => tree.find_all(*role, name, start),
        _ => match kind.selector() {
            Some(sel) => select_all(document, sel.as_str(), start),
            None => Vec::new(),
        },
    }
}

/// Walks the first `levels` levels of `chain`: looks up each level the
/// walk asks for, from the node it names, and hands the walk the result.
fn walk(document: &DioxusDocument, tree: &AriaTree, chain: &Vec<QueryKind>, levels: usize) -> (res:
    ChainSearch)
    requires
        levels <= chain@.len(),
        all_parse(chain@),
    ensures
        walked(tree@, chain@, levels as nat, res@),
{
    let mut search = ChainSearch::new(root_node_id(document), levels);
    loop
        invariant
            levels <= chain@.len(),
            all_parse(chain@),
            search@.root == 0,
            search@.wf(),
            search@.levels == levels,
            lookups_agree(tree@, chain@, search@),
        ensures
            !search@.pending(),
        decreases levels - search@.matches.len() + if search@.stopped {
            0int
        } else {
            1int
        },
    {
        match search.next_lookup() {
            None => break,
            Some((level, start)) => {
                assert(!unparsable_at(chain@, level as int));
                let found = lookup_first(document, tree, &chain[level], start);
                let ghost before = search@;
                search.record(found);
                proof {
                    let after = search@;
                    assert forall|k: int| 0 <= k < after.matches.len() implies level_agrees(
                        tree@,
                        chain@[k],
                        after.start_of(k),
                        Some(#[trigger] after.matches[k]),
                    ) by {
                        if k < before.matches.len() {
                            assert(after.matches[k] == before.matches[k]);
                            assert(after.start_of(k) == before.start_of(k));
                        }
                    }
                }
            },
        }
    }
    search
}

/// Resolves `chain` in `document`, whose accessibility tree is `tree`: the
/// match of its innermost level, or how it failed. It fails with the error
/// for the innermost level whose selector does not parse, where there is
/// one; else the walk down the chain decides: the outermost level searches
/// from the document's root node, each other level from the match of the
/// level before it, and where a level matches nothing the
/// failure names the level the chain's error is about and the node whose
/// DOM it shows.
pub fn resolve_chain(document: &DioxusDocument, tree: &AriaTree, chain: &Vec<QueryKind>) -> (res:
    Result<u64, ChainMiss>)
    requires
        chain@.len() > 0,
    ensures
        (res matches Err(ChainMiss::Invalid(_))) <==> !all_parse(chain@),
        res matches Err(ChainMiss::Invalid(e)) ==> reports_invalid(chain@, e),
        all_parse(chain@) ==> exists|s: ChainSearchView|
            walked(tree@, chain@, chain@.len(), s) && #[trigger] resolves_to(s, res),
{
    match find_unparsable(document, chain) {
        Some(sel) => {
            return Err(ChainMiss::Invalid(TesterError::InvalidCssSelector(sel)));
        },
        None => {},
    }
    let search = walk(document, tree, chain, chain.len());
    let res = match search.innermost_match() {
        Some(id) => Ok(id),
        None => {
            let (level, shown) = search.failure_site();
            Err(ChainMiss::Unmatched { level, shown })
        },
    };
    assert(resolves_to(search@, res));
    res
}

/// Resolves all elements that `chain` matches in `document`, whose
/// accessibility tree is `tree`: the matches of the innermost level from
/// the match of the level before it, or from the document's root node for
/// a chain of one level; none where a parent level matches nothing. It fails with the
/// error for the innermost level whose selector does not parse, where there
/// is one.
pub fn resolve_all(document: &DioxusDocument, tree: &AriaTree, chain: &Vec<QueryKind>) -> (res:
    Result<Vec<u64>, TesterError>)
    requires
        chain@.len() > 0,
    ensures
        res is Err <==> !all_parse(chain@),
        res matches Err(e) ==> reports_invalid(chain@, e),
        res matches Ok(found) ==> exists|s: ChainSearchView|
            {
                &&& #[trigger] walked(tree@, chain@, (chain@.len() - 1) as nat, s)
                &&& s.complete() ==> level_all_agrees(
                    tree@,
                    chain@.last(),
                    s.start_of(s.levels as int),
                    found@,
                )
                &&& !s.complete() ==> found@.len() == 0
            },
{
    match find_unparsable(document, chain) {
        Some(sel) => {
            return Err(TesterError::InvalidCssSelector(sel));
        },
        None => {},
    }
    let last = chain.len() - 1;
    let search = walk(document, tree, chain, last);
    let found = match search.continuation_start() {
        Some(start) => {
            assert(!unparsable_at(chain@, last as int));
            lookup_all(document, tree, &chain[last], start)
        },
        None => Vec::new(),
    };
    assert(walked(tree@, chain@, (chain@.len() - 1) as nat, search@));
    Ok(found)
}

} // verus!
