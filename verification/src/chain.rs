//! The walk down a query chain: which node each level searches from, and
//! what the walk has found so far.
//!
//! Each level of a chain searches for its first match starting at the node
//! matched by the level before it; the outermost level starts at the root of
//! the document. Where a level matches nothing, no later level is searched.
//! The lookups themselves run on the live document; a [`ChainSearch`] takes
//! the result of each one and decides what is looked up next.

use vstd::prelude::*;
use crate::query::{spec_failing_level, spec_render_target, RenderTarget};

verus! {

/// The state of a walk down the first `levels` levels of a query chain.
/// Made by [`ChainSearch::new`] and changed only by [`ChainSearch::record`],
/// it keeps [`ChainSearchView::wf`].
pub struct ChainSearch {
    root: u64,
    levels: usize,
    matches: Vec<u64>,
    stopped: bool,
}

/// The model of a [`ChainSearch`].
pub struct ChainSearchView {
    /// The node the outermost level searches from.
    pub root: u64,
    /// How many levels the walk covers.
    pub levels: nat,
    /// The first match of each level searched so far, outermost first.
    pub matches: Seq<u64>,
    /// Whether a level matched nothing, which ends the walk.
    pub stopped: bool,
}

impl ChainSearchView {
    /// The walk never holds more matches than levels, and it stops only at
    /// a level it covers.
    pub open spec fn wf(self) -> bool {
        &&& self.matches.len() <= self.levels
        &&& self.stopped ==> self.matches.len() < self.levels
    }

    /// Whether a level is still to be looked up: the walk has not stopped
    /// and has not reached the end of the levels it covers.
    pub open spec fn pending(self) -> bool {
        !self.stopped && self.matches.len() < self.levels
    }

    /// The node level `level` searches from: the root for the outermost
    /// level, else the match of the level before it.
    pub open spec fn start_of(self, level: int) -> u64 {
        if level == 0 {
            self.root
        } else {
            self.matches[level - 1]
        }
    }

    /// For each level the walk covers, whether it matched an element.
    pub open spec fn found(self) -> Seq<bool> {
        Seq::new(self.levels, |k: int| k < self.matches.len())
    }

    /// Whether every level the walk covers matched.
    pub open spec fn complete(self) -> bool {
        !self.stopped && self.matches.len() == self.levels
    }
}

/// The node whose DOM an error about level `level` of the walk `s` shows:
/// the match of the level the DOM is taken from, or `None` for the whole
/// document.
pub open spec fn shown_node(s: ChainSearchView, level: int) -> Option<u64> {
    match spec_render_target(s.found(), level) {
        RenderTarget::Document => None,
        RenderTarget::MatchOf(k) => Some(s.matches[k as int]),
    }
}

impl View for ChainSearch {
    type V = ChainSearchView;

    closed spec fn view(&self) -> ChainSearchView {
        ChainSearchView {
            root: self.root,
            levels: self.levels as nat,
            matches: self.matches@,
            stopped: self.stopped,
        }
    }
}

impl ChainSearch {
    /// A walk down `levels` levels whose outermost level searches from
    /// `root`; nothing has been looked up yet.
    pub fn new(root: u64, levels: usize) -> (res: ChainSearch)
        ensures
            res@.wf(),
            res@.root == root,
            res@.levels == levels,
            res@.matches.len() == 0,
            !res@.stopped,
    {
        ChainSearch { root, levels, matches: Vec::new(), stopped: false }
    }

    /// The level to look up next and the node it searches from, or `None`
    /// where the walk has stopped or covered all its levels.
    pub fn next_lookup(&self) -> (res: Option<(usize, u64)>)
        ensures
            self@.pending() <==> res is Some,
            res matches Some((level, start)) ==> level == self@.matches.len() && start
                == self@.start_of(level as int),
    {
        if self.stopped || self.matches.len() >= self.levels {
            None
        } else if self.matches.len() == 0 {
            Some((0, self.root))
        } else {
            let level = self.matches.len();
            Some((level, self.matches[level - 1]))
        }
    }

    /// Takes the result of looking up the pending level: its first match,
    /// or `None` where it matched nothing, which stops the walk. Where no
    /// level is pending the walk is left as it is.
    pub fn record(&mut self, found: Option<u64>)
        ensures
            old(self)@.wf() ==> final(self)@.wf(),
            final(self)@.root == old(self)@.root,
            final(self)@.levels == old(self)@.levels,
            old(self)@.pending() && found is Some ==> final(self)@.matches == old(
                self,
            )@.matches.push(found->0) && !final(self)@.stopped,
            old(self)@.pending() && found is None ==> final(self)@.matches == old(self)@.matches
                && final(self)@.stopped,
            !old(self)@.pending() ==> final(self)@ == old(self)@,
    {
        if !self.stopped && self.matches.len() < self.levels {
            match found {
                Some(id) => {
                    self.matches.push(id);
                },
                None => {
                    self.stopped = true;
                },
            }
        }
    }

    /// The match of the innermost level, where every level matched.
    pub fn innermost_match(&self) -> (res: Option<u64>)
        ensures
            res is Some <==> self@.complete() && self@.levels > 0,
            res matches Some(id) ==> id == self@.matches.last(),
    {
        let n = self.matches.len();
        if !self.stopped && n == self.levels && n > 0 {
            Some(self.matches[n - 1])
        } else {
            None
        }
    }

    /// The node a level after the covered ones would search from: the
    /// match of the last covered level, or the root where the walk covers
    /// none; `None` unless every covered level matched.
    pub fn continuation_start(&self) -> (res: Option<u64>)
        ensures
            res is Some <==> self@.complete(),
            res matches Some(id) ==> id == self@.start_of(self@.levels as int),
    {
        let n = self.matches.len();
        if self.stopped || n != self.levels {
            None
        } else if n == 0 {
            Some(self.root)
        } else {
            Some(self.matches[n - 1])
        }
    }

    /// The first match of level `level`, where it was looked up and matched.
    pub fn match_of(&self, level: usize) -> (res: Option<u64>)
        ensures
            res is Some <==> level < self@.matches.len(),
            res matches Some(id) ==> id == self@.matches[level as int],
    {
        if level < self.matches.len() {
            Some(self.matches[level])
        } else {
            None
        }
    }

    /// Where the walk stopped: the level the error for the chain names, and
    /// the node whose DOM the error shows (`None` for the whole document).
    pub fn failure_site(&self) -> (res: (usize, Option<u64>))
        requires
            self@.wf(),
            self@.stopped,
        ensures
            res.0 == spec_failing_level(self@.found(), self@.levels - 1),
            res.1 == shown_node(self@, res.0 as int),
    {
        proof {
            lemma_stopped_search_reports_first_unmatched_level(self@);
        }
        let m = self.matches.len();
        if m == 0 {
            (0, None)
        } else {
            (m, Some(self.matches[m - 1]))
        }
    }

    /// For each level the walk covers, whether it matched an element.
    pub fn found_levels(&self) -> (res: Vec<bool>)
        ensures
            res@ == self@.found(),
    {
        let mut res: Vec<bool> = Vec::new();
        let n = self.levels;
        let m = self.matches.len();
        for k in 0..n
            invariant
                n == self@.levels,
                m == self@.matches.len(),
                res@.len() == k,
                forall|j: int| 0 <= j < k ==> res@[j] == (j < m),
        {
            res.push(k < m);
        }
        assert(res@ =~= self@.found());
        res
    }
}

/// Where a walk stops because a level matched nothing, the error for the
/// chain names that level, the first one without a match, and shows the
/// DOM of the match of the level before it, or the whole document where it
/// is the outermost level.
pub proof fn lemma_stopped_search_reports_first_unmatched_level(s: ChainSearchView)
    requires
        s.wf(),
        s.stopped,
    ensures
        spec_failing_level(s.found(), s.levels - 1) == s.matches.len(),
        spec_render_target(s.found(), s.matches.len() as int) == if s.matches.len() == 0 {
            RenderTarget::Document
        } else {
            RenderTarget::MatchOf((s.matches.len() - 1) as usize)
        },
{
    lemma_failing_level_of_found(s, s.levels - 1);
}

proof fn lemma_failing_level_of_found(s: ChainSearchView, level: int)
    requires
        s.wf(),
        s.matches.len() <= level < s.levels,
    ensures
        spec_failing_level(s.found(), level) == s.matches.len(),
    decreases level,
{
    if level > s.matches.len() {
        assert(!s.found()[level - 1]);
        lemma_failing_level_of_found(s, level - 1);
    } else if level > 0 {
        assert(s.found()[level - 1]);
    }
}

} // verus!
