//! A model of the accessibility (ARIA) tree of a rendered document, with the
//! computation of accessible names and the search for nodes by role.
//!
//! The tree maps node identifiers to nodes; each node names its children by
//! identifier. All recursive walks carry a depth budget equal to the number
//! of nodes in the tree: on a tree (an acyclic graph) no walk from any node
//! descends further than that, so the budget never cuts a walk short.

use std::collections::HashMap;
use vstd::prelude::*;
use crate::role::{Role, spec_supports_name_from_content};
use crate::text::{contains_seq, contains_text, join_seq, join_strings, string_views};

verus! {

broadcast use vstd::std_specs::hash::group_hash_axioms;

/// One node of the accessibility tree, holding what name computation and
/// role search read of it.
pub struct AriaNode {
    /// The ARIA role of the node.
    pub role: Role,
    /// The value of the node; for a text run, its text.
    pub value: Option<String>,
    /// The identifiers of the children of the node, in document order.
    pub children: Vec<u64>,
}

/// The mathematical value of an [`AriaNode`].
pub struct AriaNodeView {
    pub role: Role,
    pub value: Option<Seq<char>>,
    pub children: Seq<u64>,
}

/// The view of an optional string.
pub open spec fn opt_view(o: Option<String>) -> Option<Seq<char>> {
    match o {
        Some(s) => Some(s@),
        None => None,
    }
}

impl View for AriaNode {
    type V = AriaNodeView;

    open spec fn view(&self) -> AriaNodeView {
        AriaNodeView { role: self.role, value: opt_view(self.value), children: self.children@ }
    }
}

/// The accessibility tree of a document: the nodes by identifier.
pub struct AriaTree {
    nodes: HashMap<u64, AriaNode>,
}

impl View for AriaTree {
    type V = Map<u64, AriaNodeView>;

    closed spec fn view(&self) -> Map<u64, AriaNodeView> {
        self.nodes@.map_values(|n: AriaNode| n@)
    }
}

/// The map that results from inserting `entries` in order into an empty
/// map: where an identifier occurs twice, the later node wins.
pub open spec fn map_of_entries(entries: Seq<(u64, AriaNodeView)>) -> Map<u64, AriaNodeView>
    decreases entries.len(),
{
    if entries.len() == 0 {
        Map::empty()
    } else {
        map_of_entries(entries.drop_last()).insert(entries.last().0, entries.last().1)
    }
}

/// The views of a sequence of identified nodes.
pub open spec fn entry_views(entries: Seq<(u64, AriaNode)>) -> Seq<(u64, AriaNodeView)> {
    entries.map_values(|e: (u64, AriaNode)| (e.0, e.1@))
}

/// The depth budget of walks in `t`: its number of nodes.
pub open spec fn depth_budget(t: Map<u64, AriaNodeView>) -> nat {
    t.dom().len()
}

/// The accessible name of `n` computed from its content and the text of
/// text runs, after <https://w3c.github.io/aria/accname/#computation-steps>,
/// looking at most `fuel` levels below `n`. With `allow` set, the content
/// is used whatever the role of `n`.
pub open spec fn name_of(t: Map<u64, AriaNodeView>, n: AriaNodeView, allow: bool, fuel: nat) -> Option<
    Seq<char>,
>
    decreases fuel, 2nat, 0nat,
{
    let content = if allow || spec_supports_name_from_content(n.role) {
        text_content_of(t, n.children, fuel)
    } else {
        None
    };
    if content is Some {
        content
    } else if n.role == Role::TextRun && n.value is Some {
        n.value
    } else {
        None
    }
}

/// The text content of a node with children `kids`: the names of those
/// children that are in the tree and have one, joined by single spaces, or
/// nothing when there is no such name.
pub open spec fn text_content_of(t: Map<u64, AriaNodeView>, kids: Seq<u64>, fuel: nat) -> Option<
    Seq<char>,
>
    decreases fuel, 1nat, 0nat,
{
    let parts = child_names(t, kids, fuel);
    if parts.len() > 0 {
        Some(join_seq(parts, " "@))
    } else {
        None
    }
}

/// The names, in order, of those of `kids` that are in the tree and have a
/// name computed from their content.
pub open spec fn child_names(t: Map<u64, AriaNodeView>, kids: Seq<u64>, fuel: nat) -> Seq<Seq<char>>
    decreases fuel, 0nat, kids.len(),
{
    if kids.len() == 0 || fuel == 0 {
        Seq::empty()
    } else {
        let rest = child_names(t, kids.drop_last(), fuel);
        let c = kids.last();
        if t.contains_key(c) {
            match name_of(t, t[c], true, (fuel - 1) as nat) {
                Some(s) => rest.push(s),
                None => rest,
            }
        } else {
            rest
        }
    }
}

/// The accessible name of `n`, or the empty string when it has none.
pub open spec fn accessible_name(t: Map<u64, AriaNodeView>, n: AriaNodeView) -> Seq<char> {
    match name_of(t, n, false, depth_budget(t)) {
        Some(s) => s,
        None => Seq::empty(),
    }
}

/// Whether `n` has the role `role` and, where `name` is given, an accessible
/// name that contains it.
pub open spec fn node_matches(
    t: Map<u64, AriaNodeView>,
    n: AriaNodeView,
    role: Role,
    name: Option<Seq<char>>,
) -> bool {
    &&& n.role == role
    &&& match name {
        Some(s) => contains_seq(accessible_name(t, n), s),
        None => true,
    }
}

/// The first node in pre-order from `id` that matches, looking at most
/// `fuel` levels deep.
pub open spec fn first_match(
    t: Map<u64, AriaNodeView>,
    role: Role,
    name: Option<Seq<char>>,
    id: u64,
    fuel: nat,
) -> Option<u64>
    decreases fuel, 0nat, 0nat,
{
    if fuel == 0 || !t.contains_key(id) {
        None
    } else if node_matches(t, t[id], role, name) {
        Some(id)
    } else {
        first_match_in(t, role, name, t[id].children, (fuel - 1) as nat)
    }
}

/// The first match found from the nodes `kids`, tried in order.
pub open spec fn first_match_in(
    t: Map<u64, AriaNodeView>,
    role: Role,
    name: Option<Seq<char>>,
    kids: Seq<u64>,
    fuel: nat,
) -> Option<u64>
    decreases fuel, 1nat, kids.len(),
{
    if kids.len() == 0 {
        None
    } else {
        match first_match(t, role, name, kids[0], fuel) {
            Some(x) => Some(x),
            None => first_match_in(t, role, name, kids.drop_first(), fuel),
        }
    }
}

/// All matching nodes from `id` down, in post-order: the matches below each
/// child in turn, then `id` itself if it matches.
pub open spec fn all_matches(
    t: Map<u64, AriaNodeView>,
    role: Role,
    name: Option<Seq<char>>,
    id: u64,
    fuel: nat,
) -> Seq<u64>
    decreases fuel, 0nat, 0nat,
{
    if fuel == 0 || !t.contains_key(id) {
        Seq::empty()
    } else {
        let below = all_matches_in(t, role, name, t[id].children, (fuel - 1) as nat);
        if node_matches(t, t[id], role, name) {
            below.push(id)
        } else {
            below
        }
    }
}

/// The matches from each of `kids` in turn, concatenated.
pub open spec fn all_matches_in(
    t: Map<u64, AriaNodeView>,
    role: Role,
    name: Option<Seq<char>>,
    kids: Seq<u64>,
    fuel: nat,
) -> Seq<u64>
    decreases fuel, 1nat, kids.len(),
{
    if kids.len() == 0 {
        Seq::empty()
    } else {
        all_matches_in(t, role, name, kids.drop_last(), fuel) + all_matches(
            t,
            role,
            name,
            kids.last(),
            fuel,
        )
    }
}

impl AriaTree {
    /// Builds the tree from identified nodes. Where an identifier occurs more
    /// than once, the later node is kept.
    pub fn from_entries(entries: Vec<(u64, AriaNode)>) -> (res: AriaTree)
        ensures
            res@ == map_of_entries(entry_views(entries@)),
    {
        let ghost all = entries@;
        let mut nodes: HashMap<u64, AriaNode> = HashMap::new();
        for e in it: entries.into_iter()
            invariant
                it.seq() == all,
                nodes@.map_values(|n: AriaNode| n@) == map_of_entries(
                    entry_views(all.take(it.index() as int)),
                ),
        {
            let ghost i = it.index() as int;
            let ghost before = nodes@;
            let (id, node) = e;
            let ghost nv = node@;
            nodes.insert(id, node);
            proof {
                assert(entry_views(all.take(i + 1)).drop_last() =~= entry_views(all.take(i)));
                assert(nodes@.map_values(|n: AriaNode| n@) =~= before.map_values(
                    |n: AriaNode| n@,
                ).insert(id, nv));
            }
        }
        proof {
            assert(all.take(all.len() as int) =~= all);
        }
        AriaTree { nodes }
    }

    /// Returns the node with identifier `id`, if the tree has one.
    pub fn get_node(&self, id: u64) -> (res: Option<&AriaNode>)
        ensures
            match res {
                Some(n) => self@.contains_key(id) && self@[id] == n@,
                None => !self@.contains_key(id),
            },
    {
        self.nodes.get(&id)
    }

    /// The number of nodes, which bounds the depth of every walk.
    fn budget(&self) -> (n: usize)
        ensures
            n as nat == depth_budget(self@),
    {
        assert(self@.dom() =~= self.nodes@.dom());
        self.nodes.len()
    }

    /// The name of `node` from its content or text, looking at most `fuel`
    /// levels below it.
    fn name_rec(&self, node: &AriaNode, allow: bool, fuel: usize) -> (res: Option<String>)
        ensures
            opt_view(res) == name_of(self@, node@, allow, fuel as nat),
        decreases fuel, 1usize,
    {
        let content = if allow || node.role.supports_name_from_content() {
            self.text_content(&node.children, fuel)
        } else {
            None
        };
        if content.is_some() {
            content
        } else if node.role == Role::TextRun {
            match &node.value {
                Some(v) => Some(v.clone()),
                None => None,
            }
        } else {
            None
        }
    }

    /// The names of the children `kids` that have one, joined by spaces.
    fn text_content(&self, kids: &Vec<u64>, fuel: usize) -> (res: Option<String>)
        ensures
            opt_view(res) == text_content_of(self@, kids@, fuel as nat),
        decreases fuel, 0usize,
    {
        let mut parts: Vec<String> = Vec::new();
        if fuel > 0 {
            let n = kids.len();
            for i in 0..n
                invariant
                    n == kids@.len(),
                    fuel > 0,
                    string_views(parts@) == child_names(self@, kids@.take(i as int), fuel as nat),
            {
                let ghost before = parts@;
                let c = kids[i];
                proof {
                    assert(kids@.take(i + 1).drop_last() =~= kids@.take(i as int));
                    assert(kids@.take(i + 1).last() == c);
                }
                match self.nodes.get(&c) {
                    Some(child) => {
                        let named = self.name_rec(child, true, fuel - 1);
                        match named {
                            Some(s) => {
                                parts.push(s);
                                assert(string_views(parts@) =~= string_views(before).push(
                                    parts@.last()@,
                                ));
                            },
                            None => {},
                        }
                    },
                    None => {},
                }
            }
            assert(kids@.take(n as int) =~= kids@);
        }
        if parts.len() > 0 {
            Some(join_strings(&parts, " "))
        } else {
            None
        }
    }

    /// Computes the accessible name of `node`, after
    /// <https://w3c.github.io/aria/accname/#computation-steps>, from the text
    /// content of its descendants. Labels, tooltips and ARIA label attributes
    /// are not taken into account. A node without a name gets the empty
    /// string.
    pub fn compute_accessible_name(&self, node: &AriaNode) -> (res: String)
        ensures
            res@ == accessible_name(self@, node@),
    {
        let fuel = self.budget();
        match self.name_rec(node, false, fuel) {
            Some(s) => s,
            None => String::new(),
        }
    }

    /// Whether `node` has role `role` and, where `name` is given, an
    /// accessible name containing it.
    pub fn element_matches(&self, node: &AriaNode, role: Role, name: &Option<String>) -> (res: bool)
        ensures
            res == node_matches(self@, node@, role, opt_view(*name)),
    {
        if node.role != role {
            false
        } else {
            match name {
                Some(wanted) => {
                    let computed = self.compute_accessible_name(node);
                    contains_text(computed.as_str(), wanted.as_str())
                },
                None => true,
            }
        }
    }

    fn first_rec(&self, role: Role, name: &Option<String>, id: u64, fuel: usize) -> (res: Option<u64>)
        ensures
            res == first_match(self@, role, opt_view(*name), id, fuel as nat),
        decreases fuel,
    {
        if fuel == 0 {
            return None;
        }
        match self.nodes.get(&id) {
            None => None,
            Some(node) => {
                if self.element_matches(node, role, name) {
                    Some(id)
                } else {
                    let ghost kids = node.children@;
                    assert(self@[id] == node@);
                    assert(kids.skip(0) =~= kids);
                    let n = node.children.len();
                    let mut i: usize = 0;
                    while i < n
                        invariant
                            n == kids.len(),
                            kids == node.children@,
                            fuel > 0,
                            i <= n,
                            self@.contains_key(id),
                            self@[id].children == kids,
                            !node_matches(self@, self@[id], role, opt_view(*name)),
                            first_match_in(self@, role, opt_view(*name), kids, (fuel - 1) as nat)
                                == first_match_in(
                                self@,
                                role,
                                opt_view(*name),
                                kids.skip(i as int),
                                (fuel - 1) as nat,
                            ),
                        decreases n - i,
                    {
                        proof {
                            assert(kids.skip(i as int).drop_first() =~= kids.skip(i + 1));
                            assert(kids.skip(i as int)[0] == kids[i as int]);
                        }
                        let found = self.first_rec(role, name, node.children[i], fuel - 1);
                        if found.is_some() {
                            assert(first_match_in(
                                self@,
                                role,
                                opt_view(*name),
                                kids.skip(i as int),
                                (fuel - 1) as nat,
                            ) == found);
                            return found;
                        }
                        i = i + 1;
                    }
                    None
                }
            },
        }
    }

    /// The first node, in pre-order from `id`, with role `role` and, where
    /// `name` is given, an accessible name containing it.
    pub fn find_first(&self, role: Role, name: &Option<String>, id: u64) -> (res: Option<u64>)
        ensures
            res == first_match(self@, role, opt_view(*name), id, depth_budget(self@)),
    {
        let fuel = self.budget();
        self.first_rec(role, name, id, fuel)
    }

    fn all_rec(&self, role: Role, name: &Option<String>, id: u64, fuel: usize) -> (res: Vec<u64>)
        ensures
            res@ == all_matches(self@, role, opt_view(*name), id, fuel as nat),
        decreases fuel,
    {
        let mut result: Vec<u64> = Vec::new();
        if fuel == 0 {
            return result;
        }
        match self.nodes.get(&id) {
            None => result,
            Some(node) => {
                let ghost kids = node.children@;
                let n = node.children.len();
                for i in 0..n
                    invariant
                        n == kids.len(),
                        kids == node.children@,
                        fuel > 0,
                        result@ == all_matches_in(
                            self@,
                            role,
                            opt_view(*name),
                            kids.take(i as int),
                            (fuel - 1) as nat,
                        ),
                {
                    proof {
                        assert(kids.take(i + 1).drop_last() =~= kids.take(i as int));
                    }
                    let mut below = self.all_rec(role, name, node.children[i], fuel - 1);
                    result.append(&mut below);
                }
                assert(kids.take(n as int) =~= kids);
                if self.element_matches(node, role, name) {
                    result.push(id);
                }
                result
            },
        }
    }

    /// All nodes from `id` down with role `role` and, where `name` is given,
    /// an accessible name containing it: for each child in turn the matches
    /// below it, then `id` itself.
    pub fn find_all(&self, role: Role, name: &Option<String>, id: u64) -> (res: Vec<u64>)
        ensures
            res@ == all_matches(self@, role, opt_view(*name), id, depth_budget(self@)),
    {
        let fuel = self.budget();
        self.all_rec(role, name, id, fuel)
    }
}

/// The matches from `kids` are those from the first of them followed by
/// those from the rest.
proof fn lemma_all_matches_in_first(
    t: Map<u64, AriaNodeView>,
    role: Role,
    name: Option<Seq<char>>,
    kids: Seq<u64>,
    fuel: nat,
)
    requires
        kids.len() > 0,
    ensures
        all_matches_in(t, role, name, kids, fuel) == all_matches(t, role, name, kids[0], fuel)
            + all_matches_in(t, role, name, kids.drop_first(), fuel),
    decreases kids.len(),
{
    if kids.len() == 1 {
        assert(kids.drop_last().len() == 0);
        assert(kids.drop_first().len() == 0);
        assert(kids.last() == kids[0]);
        let a = all_matches(t, role, name, kids[0], fuel);
        assert(all_matches_in(t, role, name, kids.drop_last(), fuel) == Seq::<u64>::empty());
        assert(all_matches_in(t, role, name, kids.drop_first(), fuel) == Seq::<u64>::empty());
        assert(all_matches_in(t, role, name, kids, fuel) == Seq::<u64>::empty() + a);
        assert(all_matches_in(t, role, name, kids, fuel) =~= all_matches(
            t,
            role,
            name,
            kids[0],
            fuel,
        ) + all_matches_in(t, role, name, kids.drop_first(), fuel));
    } else {
        lemma_all_matches_in_first(t, role, name, kids.drop_last(), fuel);
        assert(kids.drop_last().drop_first() =~= kids.drop_first().drop_last());
        assert(kids.drop_first().last() == kids.last());
        assert(kids.drop_last()[0] == kids[0]);
        let mid = all_matches_in(t, role, name, kids.drop_last().drop_first(), fuel);
        let l = all_matches(t, role, name, kids.last(), fuel);
        assert(all_matches_in(t, role, name, kids.drop_first(), fuel) == mid + l);
        assert(all_matches_in(t, role, name, kids, fuel) == all_matches_in(
            t,
            role,
            name,
            kids.drop_last(),
            fuel,
        ) + l);
        assert(all_matches_in(t, role, name, kids, fuel) =~= all_matches(
            t,
            role,
            name,
            kids[0],
            fuel,
        ) + all_matches_in(t, role, name, kids.drop_first(), fuel));
    }
}

/// Searching for the first match finds one exactly when the search for all
/// matches finds any, and what it finds is among them.
pub proof fn lemma_first_match_among_all(
    t: Map<u64, AriaNodeView>,
    role: Role,
    name: Option<Seq<char>>,
    id: u64,
    fuel: nat,
)
    ensures
        first_match(t, role, name, id, fuel) is None <==> all_matches(t, role, name, id, fuel).len()
            == 0,
        first_match(t, role, name, id, fuel) matches Some(x) ==> all_matches(
            t,
            role,
            name,
            id,
            fuel,
        ).contains(x),
    decreases fuel, 0nat, 0nat,
{
    if fuel == 0 || !t.contains_key(id) {
    } else {
        let kids = t[id].children;
        lemma_first_match_in_among_all(t, role, name, kids, (fuel - 1) as nat);
        let below = all_matches_in(t, role, name, kids, (fuel - 1) as nat);
        if node_matches(t, t[id], role, name) {
            assert(below.push(id)[below.len() as int] == id);
        }
    }
}

/// The counterpart of [`lemma_first_match_among_all`] for a list of nodes.
pub proof fn lemma_first_match_in_among_all(
    t: Map<u64, AriaNodeView>,
    role: Role,
    name: Option<Seq<char>>,
    kids: Seq<u64>,
    fuel: nat,
)
    ensures
        first_match_in(t, role, name, kids, fuel) is None <==> all_matches_in(
            t,
            role,
            name,
            kids,
            fuel,
        ).len() == 0,
        first_match_in(t, role, name, kids, fuel) matches Some(x) ==> all_matches_in(
            t,
            role,
            name,
            kids,
            fuel,
        ).contains(x),
    decreases fuel, 1nat, kids.len(),
{
    if kids.len() > 0 {
        lemma_all_matches_in_first(t, role, name, kids, fuel);
        lemma_first_match_among_all(t, role, name, kids[0], fuel);
        lemma_first_match_in_among_all(t, role, name, kids.drop_first(), fuel);
        let a = all_matches(t, role, name, kids[0], fuel);
        let b = all_matches_in(t, role, name, kids.drop_first(), fuel);
        match first_match(t, role, name, kids[0], fuel) {
            Some(x) => {
                let k = choose|k: int| 0 <= k < a.len() && a[k] == x;
                assert((a + b)[k] == x);
            },
            None => {
                assert(a + b =~= b);
            },
        }
    }
}

/// The nodes of `t` from `id` down in pre-order, each node before the nodes
/// below it and children in order, looking at most `fuel` levels deep.
pub open spec fn preorder(t: Map<u64, AriaNodeView>, id: u64, fuel: nat) -> Seq<u64>
    decreases fuel, 0nat, 0nat,
{
    if fuel == 0 || !t.contains_key(id) {
        Seq::empty()
    } else {
        seq![id] + preorder_in(t, t[id].children, (fuel - 1) as nat)
    }
}

/// The pre-order nodes from each of `kids` in turn, concatenated.
pub open spec fn preorder_in(t: Map<u64, AriaNodeView>, kids: Seq<u64>, fuel: nat) -> Seq<u64>
    decreases fuel, 1nat, kids.len(),
{
    if kids.len() == 0 {
        Seq::empty()
    } else {
        preorder(t, kids[0], fuel) + preorder_in(t, kids.drop_first(), fuel)
    }
}

/// The nodes of `t` from `id` down in post-order, the nodes below each
/// child in turn before the node itself, looking at most `fuel` levels deep.
pub open spec fn postorder(t: Map<u64, AriaNodeView>, id: u64, fuel: nat) -> Seq<u64>
    decreases fuel, 0nat, 0nat,
{
    if fuel == 0 || !t.contains_key(id) {
        Seq::empty()
    } else {
        postorder_in(t, t[id].children, (fuel - 1) as nat).push(id)
    }
}

/// The post-order nodes from each of `kids` in turn, concatenated.
pub open spec fn postorder_in(t: Map<u64, AriaNodeView>, kids: Seq<u64>, fuel: nat) -> Seq<u64>
    decreases fuel, 1nat, kids.len(),
{
    if kids.len() == 0 {
        Seq::empty()
    } else {
        postorder_in(t, kids.drop_last(), fuel) + postorder(t, kids.last(), fuel)
    }
}

/// Whether the node with identifier `x` is in `t` and matches `role` and
/// `name`.
pub open spec fn matching(t: Map<u64, AriaNodeView>, role: Role, name: Option<Seq<char>>) -> spec_fn(u64) -> bool {
    |x: u64| t.contains_key(x) && node_matches(t, t[x], role, name)
}

/// The first element of `s`, if any.
pub open spec fn head(s: Seq<u64>) -> Option<u64> {
    if s.len() == 0 {
        None
    } else {
        Some(s[0])
    }
}

/// The first match from `id` is the first matching node in pre-order: the
/// node itself where it matches, else the earliest matching node below it,
/// a match nested in another match never coming before it. It matches, and
/// where the start node is in the tree and matches, it is the start node.
pub proof fn lemma_first_match_is_first_in_preorder(
    t: Map<u64, AriaNodeView>,
    role: Role,
    name: Option<Seq<char>>,
    id: u64,
    fuel: nat,
)
    ensures
        first_match(t, role, name, id, fuel) == head(preorder(t, id, fuel).filter(matching(t, role, name))),
        first_match(t, role, name, id, fuel) matches Some(x) ==> t.contains_key(x) && node_matches(
            t,
            t[x],
            role,
            name,
        ) && preorder(t, id, fuel).contains(x),
        fuel > 0 && t.contains_key(id) && node_matches(t, t[id], role, name) ==> first_match(
            t,
            role,
            name,
            id,
            fuel,
        ) == Some(id),
    decreases fuel, 0nat, 0nat,
{
    reveal(Seq::filter);
    let p = matching(t, role, name);
    if fuel == 0 || !t.contains_key(id) {
    } else {
        let kids = t[id].children;
        let rest = preorder_in(t, kids, (fuel - 1) as nat);
        lemma_first_match_in_is_first_in_preorder(t, role, name, kids, (fuel - 1) as nat);
        Seq::filter_distributes_over_add(seq![id], rest, p);
        assert(seq![id].drop_last() =~= Seq::<u64>::empty());
        assert(seq![id].drop_last().filter(p) =~= Seq::<u64>::empty());
        if p(id) {
            assert(seq![id].filter(p) =~= seq![id]);
        } else {
            assert(seq![id].filter(p) =~= Seq::<u64>::empty());
            assert(seq![id].filter(p) + rest.filter(p) =~= rest.filter(p));
        }
    }
    let all = preorder(t, id, fuel);
    if all.filter(p).len() > 0 {
        all.lemma_filter_pred(p, 0);
        all.lemma_filter_contains_rev(p, all.filter(p)[0]);
    }
}

/// The counterpart of [`lemma_first_match_is_first_in_preorder`] for a list
/// of nodes.
pub proof fn lemma_first_match_in_is_first_in_preorder(
    t: Map<u64, AriaNodeView>,
    role: Role,
    name: Option<Seq<char>>,
    kids: Seq<u64>,
    fuel: nat,
)
    ensures
        first_match_in(t, role, name, kids, fuel) == head(
            preorder_in(t, kids, fuel).filter(matching(t, role, name)),
        ),
    decreases fuel, 1nat, kids.len(),
{
    reveal(Seq::filter);
    let p = matching(t, role, name);
    if kids.len() > 0 {
        lemma_first_match_is_first_in_preorder(t, role, name, kids[0], fuel);
        lemma_first_match_in_is_first_in_preorder(t, role, name, kids.drop_first(), fuel);
        let a = preorder(t, kids[0], fuel);
        let b = preorder_in(t, kids.drop_first(), fuel);
        Seq::filter_distributes_over_add(a, b, p);
        if a.filter(p).len() == 0 {
            assert(a.filter(p) + b.filter(p) =~= b.filter(p));
        } else {
            assert((a.filter(p) + b.filter(p))[0] == a.filter(p)[0]);
        }
    }
}

/// All matches from `id` are exactly the matching nodes from `id` down, in
/// post-order: every node below `id` that matches is among them, whether or
/// not a node above it matches, and nothing else is.
pub proof fn lemma_all_matches_are_matching_postorder(
    t: Map<u64, AriaNodeView>,
    role: Role,
    name: Option<Seq<char>>,
    id: u64,
    fuel: nat,
)
    ensures
        all_matches(t, role, name, id, fuel) == postorder(t, id, fuel).filter(matching(t, role, name)),
        forall|x: u64|
            postorder(t, id, fuel).contains(x) && t.contains_key(x) && node_matches(t, t[x], role, name)
                ==> #[trigger] all_matches(t, role, name, id, fuel).contains(x),
        forall|x: u64| #[trigger]
            all_matches(t, role, name, id, fuel).contains(x) ==> postorder(t, id, fuel).contains(x)
                && t.contains_key(x) && node_matches(t, t[x], role, name),
    decreases fuel, 0nat, 0nat,
{
    reveal(Seq::filter);
    let p = matching(t, role, name);
    if fuel == 0 || !t.contains_key(id) {
    } else {
        let below = postorder_in(t, t[id].children, (fuel - 1) as nat);
        lemma_all_matches_in_are_matching_postorder(t, role, name, t[id].children, (fuel - 1) as nat);
        assert(below.push(id).drop_last() =~= below);
        assert(below.push(id).last() == id);
    }
    let all = postorder(t, id, fuel);
    assert forall|x: u64| all.contains(x) && t.contains_key(x) && node_matches(t, t[x], role, name)
        implies #[trigger] all_matches(t, role, name, id, fuel).contains(x) by {
        let i = choose|i: int| 0 <= i < all.len() && all[i] == x;
        all.lemma_filter_contains(p, i);
    }
    assert forall|x: u64| #[trigger] all_matches(t, role, name, id, fuel).contains(x) implies all.contains(x)
        && t.contains_key(x) && node_matches(t, t[x], role, name) by {
        all.lemma_filter_contains_rev(p, x);
        let f = all.filter(p);
        let i = choose|i: int| 0 <= i < f.len() && f[i] == x;
        all.lemma_filter_pred(p, i);
    }
}

/// The counterpart of [`lemma_all_matches_are_matching_postorder`] for a
/// list of nodes.
pub proof fn lemma_all_matches_in_are_matching_postorder(
    t: Map<u64, AriaNodeView>,
    role: Role,
    name: Option<Seq<char>>,
    kids: Seq<u64>,
    fuel: nat,
)
    ensures
        all_matches_in(t, role, name, kids, fuel) == postorder_in(t, kids, fuel).filter(
            matching(t, role, name),
        ),
    decreases fuel, 1nat, kids.len(),
{
    if kids.len() > 0 {
        lemma_all_matches_in_are_matching_postorder(t, role, name, kids.drop_last(), fuel);
        lemma_all_matches_are_matching_postorder(t, role, name, kids.last(), fuel);
        Seq::filter_distributes_over_add(
            postorder_in(t, kids.drop_last(), fuel),
            postorder(t, kids.last(), fuel),
            matching(t, role, name),
        );
    }
}

/// A node whose role takes its name from content (button, cell, checkbox,
/// column header, comment, grid cell, heading, link, menu item, menu item
/// checkbox, menu item radio, list box option, radio button, row, row
/// header, switch, tab and tree item, after
/// <https://w3c.github.io/aria/#namefromcontent>) is named by the text of
/// its content where it has any; with no content text, only a text run
/// would have a name, so it has none.
pub proof fn lemma_content_names_content_roles(t: Map<u64, AriaNodeView>, n: AriaNodeView)
    requires
        n.role == Role::Button
            || n.role == Role::Cell
            || n.role == Role::CheckBox
            || n.role == Role::ColumnHeader
            || n.role == Role::Comment
            || n.role == Role::GridCell
            || n.role == Role::Heading
            || n.role == Role::Link
            || n.role == Role::MenuItem
            || n.role == Role::MenuItemCheckBox
            || n.role == Role::MenuItemRadio
            || n.role == Role::ListBoxOption
            || n.role == Role::RadioButton
            || n.role == Role::Row
            || n.role == Role::RowHeader
            || n.role == Role::Switch
            || n.role == Role::Tab
            || n.role == Role::TreeItem,
    ensures
        text_content_of(t, n.children, depth_budget(t)) matches Some(c) ==> accessible_name(t, n)
            == c,
        text_content_of(t, n.children, depth_budget(t)) is None ==> accessible_name(t, n)
            == Seq::<char>::empty(),
{
}

/// A node of any other role takes no name from its content: a text run is
/// named by its text, and every other node has the empty name.
pub proof fn lemma_other_roles_take_no_name_from_content(t: Map<u64, AriaNodeView>, n: AriaNodeView)
    requires
        !(n.role == Role::Button
            || n.role == Role::Cell
            || n.role == Role::CheckBox
            || n.role == Role::ColumnHeader
            || n.role == Role::Comment
            || n.role == Role::GridCell
            || n.role == Role::Heading
            || n.role == Role::Link
            || n.role == Role::MenuItem
            || n.role == Role::MenuItemCheckBox
            || n.role == Role::MenuItemRadio
            || n.role == Role::ListBoxOption
            || n.role == Role::RadioButton
            || n.role == Role::Row
            || n.role == Role::RowHeader
            || n.role == Role::Switch
            || n.role == Role::Tab
            || n.role == Role::TreeItem),
    ensures
        n.role == Role::TextRun && n.value is Some ==> accessible_name(t, n) == n.value->0,
        !(n.role == Role::TextRun && n.value is Some) ==> accessible_name(t, n) == Seq::<char>::empty(),
{
}

/// Asking for a name only narrows a search by role: a node that matches a
/// role together with a name also matches the role alone.
pub proof fn lemma_name_narrows_match(
    t: Map<u64, AriaNodeView>,
    n: AriaNodeView,
    role: Role,
    name: Seq<char>,
)
    ensures
        node_matches(t, n, role, Some(name)) ==> node_matches(t, n, role, None),
{
}

/// Asking for the empty name is the same as asking for no name: every
/// accessible name contains the empty string.
pub proof fn lemma_empty_name_matches_like_none(t: Map<u64, AriaNodeView>, n: AriaNodeView, role: Role)
    ensures
        node_matches(t, n, role, Some(Seq::empty())) == node_matches(t, n, role, None),
{
    let a = accessible_name(t, n);
    assert(a.subrange(0, 0) =~= Seq::<char>::empty());
    assert(crate::text::occurs_at(a, Seq::empty(), 0));
}

/// Every node of `kids` that is in `t` ranks below `bound`.
pub open spec fn ranks_below(t: Map<u64, AriaNodeView>, rank: Map<u64, nat>, kids: Seq<u64>, bound: nat) -> bool {
    forall|i: int| 0 <= i < kids.len() && t.contains_key(kids[i]) ==> rank[#[trigger] kids[i]] < bound
}

/// `rank` ranks the nodes of `t`: each node has a rank, and each child of a
/// node that is in `t` ranks below it. A tree admits a ranking exactly when
/// no node is its own descendant.
pub open spec fn is_ranking(t: Map<u64, AriaNodeView>, rank: Map<u64, nat>) -> bool {
    forall|id: u64| #[trigger]
        t.contains_key(id) ==> rank.contains_key(id) && ranks_below(t, rank, t[id].children, rank[id])
}

proof fn lemma_ranks_below_drop_first(t: Map<u64, AriaNodeView>, rank: Map<u64, nat>, kids: Seq<u64>, bound: nat)
    requires
        kids.len() > 0,
        ranks_below(t, rank, kids, bound),
    ensures
        ranks_below(t, rank, kids.drop_first(), bound),
        t.contains_key(kids[0]) ==> rank[kids[0]] < bound,
{
    assert forall|i: int| 0 <= i < kids.drop_first().len() && t.contains_key(kids.drop_first()[i]) implies rank[#[trigger] kids.drop_first()[i]] < bound by {
        assert(kids.drop_first()[i] == kids[i + 1]);
    }
}

proof fn lemma_ranks_below_drop_last(t: Map<u64, AriaNodeView>, rank: Map<u64, nat>, kids: Seq<u64>, bound: nat)
    requires
        kids.len() > 0,
        ranks_below(t, rank, kids, bound),
    ensures
        ranks_below(t, rank, kids.drop_last(), bound),
        t.contains_key(kids.last()) ==> rank[kids.last()] < bound,
{
    assert forall|i: int| 0 <= i < kids.drop_last().len() && t.contains_key(kids.drop_last()[i]) implies rank[#[trigger] kids.drop_last()[i]] < bound by {
        assert(kids.drop_last()[i] == kids[i]);
    }
}

proof fn lemma_first_match_budget(
    t: Map<u64, AriaNodeView>,
    rank: Map<u64, nat>,
    role: Role,
    name: Option<Seq<char>>,
    id: u64,
    f1: nat,
    f2: nat,
)
    requires
        is_ranking(t, rank),
        t.contains_key(id) ==> rank[id] < f1 && rank[id] < f2,
    ensures
        first_match(t, role, name, id, f1) == first_match(t, role, name, id, f2),
    decreases f1, 0nat, 0nat,
{
    if t.contains_key(id) {
        lemma_first_match_in_budget(t, rank, role, name, t[id].children, (f1 - 1) as nat, (f2 - 1) as nat);
    }
}

proof fn lemma_first_match_in_budget(
    t: Map<u64, AriaNodeView>,
    rank: Map<u64, nat>,
    role: Role,
    name: Option<Seq<char>>,
    kids: Seq<u64>,
    f1: nat,
    f2: nat,
)
    requires
        is_ranking(t, rank),
        ranks_below(t, rank, kids, f1),
        ranks_below(t, rank, kids, f2),
    ensures
        first_match_in(t, role, name, kids, f1) == first_match_in(t, role, name, kids, f2),
    decreases f1, 1nat, kids.len(),
{
    if kids.len() > 0 {
        lemma_ranks_below_drop_first(t, rank, kids, f1);
        lemma_ranks_below_drop_first(t, rank, kids, f2);
        lemma_first_match_budget(t, rank, role, name, kids[0], f1, f2);
        lemma_first_match_in_budget(t, rank, role, name, kids.drop_first(), f1, f2);
    }
}

proof fn lemma_all_matches_budget(
    t: Map<u64, AriaNodeView>,
    rank: Map<u64, nat>,
    role: Role,
    name: Option<Seq<char>>,
    id: u64,
    f1: nat,
    f2: nat,
)
    requires
        is_ranking(t, rank),
        t.contains_key(id) ==> rank[id] < f1 && rank[id] < f2,
    ensures
        all_matches(t, role, name, id, f1) == all_matches(t, role, name, id, f2),
    decreases f1, 0nat, 0nat,
{
    if t.contains_key(id) {
        lemma_all_matches_in_budget(t, rank, role, name, t[id].children, (f1 - 1) as nat, (f2 - 1) as nat);
    }
}

proof fn lemma_all_matches_in_budget(
    t: Map<u64, AriaNodeView>,
    rank: Map<u64, nat>,
    role: Role,
    name: Option<Seq<char>>,
    kids: Seq<u64>,
    f1: nat,
    f2: nat,
)
    requires
        is_ranking(t, rank),
        ranks_below(t, rank, kids, f1),
        ranks_below(t, rank, kids, f2),
    ensures
        all_matches_in(t, role, name, kids, f1) == all_matches_in(t, role, name, kids, f2),
    decreases f1, 1nat, kids.len(),
{
    if kids.len() > 0 {
        lemma_ranks_below_drop_last(t, rank, kids, f1);
        lemma_ranks_below_drop_last(t, rank, kids, f2);
        lemma_all_matches_budget(t, rank, role, name, kids.last(), f1, f2);
        lemma_all_matches_in_budget(t, rank, role, name, kids.drop_last(), f1, f2);
    }
}

/// Children that are not in the tree contribute no names.
proof fn lemma_child_names_absent(t: Map<u64, AriaNodeView>, kids: Seq<u64>, fuel: nat)
    requires
        forall|i: int| 0 <= i < kids.len() ==> !t.contains_key(#[trigger] kids[i]),
    ensures
        child_names(t, kids, fuel) == Seq::<Seq<char>>::empty(),
    decreases kids.len(),
{
    if kids.len() > 0 && fuel > 0 {
        assert(forall|i: int| 0 <= i < kids.drop_last().len() ==> kids.drop_last()[i] == kids[i]);
        lemma_child_names_absent(t, kids.drop_last(), fuel);
        assert(!t.contains_key(kids[kids.len() - 1]));
    }
}

proof fn lemma_name_budget(
    t: Map<u64, AriaNodeView>,
    rank: Map<u64, nat>,
    n: AriaNodeView,
    allow: bool,
    r: nat,
    f1: nat,
    f2: nat,
)
    requires
        is_ranking(t, rank),
        ranks_below(t, rank, n.children, r),
        r <= f1,
        r <= f2,
    ensures
        name_of(t, n, allow, f1) == name_of(t, n, allow, f2),
    decreases f1, 2nat, 0nat,
{
    lemma_child_names_budget(t, rank, n.children, f1, f2);
}

proof fn lemma_child_names_budget(
    t: Map<u64, AriaNodeView>,
    rank: Map<u64, nat>,
    kids: Seq<u64>,
    f1: nat,
    f2: nat,
)
    requires
        is_ranking(t, rank),
        ranks_below(t, rank, kids, f1),
        ranks_below(t, rank, kids, f2),
    ensures
        child_names(t, kids, f1) == child_names(t, kids, f2),
    decreases f1, 0nat, kids.len(),
{
    if kids.len() > 0 {
        if f1 == 0 || f2 == 0 {
            assert forall|i: int| 0 <= i < kids.len() implies !t.contains_key(#[trigger] kids[i]) by {
                if t.contains_key(kids[i]) {
                    assert(rank[kids[i]] < f1 && rank[kids[i]] < f2);
                }
            }
            lemma_child_names_absent(t, kids, f1);
            lemma_child_names_absent(t, kids, f2);
        } else {
            lemma_ranks_below_drop_last(t, rank, kids, f1);
            lemma_ranks_below_drop_last(t, rank, kids, f2);
            lemma_child_names_budget(t, rank, kids.drop_last(), f1, f2);
            let c = kids.last();
            if t.contains_key(c) {
                assert(rank.contains_key(c) && ranks_below(t, rank, t[c].children, rank[c]));
                lemma_name_budget(t, rank, t[c], true, rank[c], (f1 - 1) as nat, (f2 - 1) as nat);
            }
        }
    }
}

/// On a tree whose nodes can be ranked below the number of nodes (a forest
/// in which every path is shorter than the node count), the depth budget
/// never cuts a walk short: the accessible name of a node, the first match
/// and all matches from a node are the same under any larger budget.
pub proof fn lemma_budget_suffices(
    t: Map<u64, AriaNodeView>,
    rank: Map<u64, nat>,
    role: Role,
    name: Option<Seq<char>>,
    id: u64,
    fuel: nat,
)
    requires
        is_ranking(t, rank),
        forall|k: u64| t.contains_key(k) ==> #[trigger] rank[k] < depth_budget(t),
        depth_budget(t) <= fuel,
    ensures
        first_match(t, role, name, id, depth_budget(t)) == first_match(t, role, name, id, fuel),
        all_matches(t, role, name, id, depth_budget(t)) == all_matches(t, role, name, id, fuel),
        t.contains_key(id) ==> name_of(t, t[id], false, depth_budget(t)) == name_of(
            t,
            t[id],
            false,
            fuel,
        ),
{
    lemma_first_match_budget(t, rank, role, name, id, depth_budget(t), fuel);
    lemma_all_matches_budget(t, rank, role, name, id, depth_budget(t), fuel);
    if t.contains_key(id) {
        lemma_name_budget(t, rank, t[id], false, rank[id], depth_budget(t), fuel);
    }
}

} // verus!
