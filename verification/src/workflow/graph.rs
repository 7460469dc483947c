//! Graph queries on workflow definitions: edge conditions, successors, start
//! nodes and cycle detection.
use vstd::prelude::*;
use vstd::set_lib::lemma_len_subset;
use crate::text::text_eq;
use crate::workflow::model::{
    edge_condition, has_edge, has_node_key, is_edge_target, text_views, WorkflowDefinition,
    WorkflowEdgeSpec,
};

verus! {

broadcast use {vstd::seq_lib::seq_to_set_is_finite, vstd::set::group_set_axioms};

/// Whether a predecessor that finished with `status` lets an edge with
/// `condition` fire: `always` fires after any terminal status, `on_failure`
/// after a failure, and every other condition after a success.
pub open spec fn condition_satisfied(status: Seq<char>, condition: Seq<char>) -> bool {
    if condition == "always"@ {
        status == "succeeded"@ || status == "failed"@ || status == "skipped"@
    } else if condition == "on_failure"@ {
        status == "failed"@
    } else {
        status == "succeeded"@
    }
}

/// Targets of the edges leaving `node_key` whose condition `status` satisfies,
/// in edge order.
pub open spec fn next_nodes(edges: Seq<WorkflowEdgeSpec>, node_key: Seq<char>, status: Seq<char>) -> Seq<Seq<char>>
    decreases edges.len(),
{
    if edges.len() == 0 {
        seq![]
    } else {
        let rest = next_nodes(edges.drop_last(), node_key, status);
        let e = edges.last();
        if e.from@ == node_key && condition_satisfied(status, edge_condition(e)) {
            rest.push(e.to@)
        } else {
            rest
        }
    }
}

/// Indices of the edges that enter `node_key`, ascending.
pub open spec fn incoming(edges: Seq<WorkflowEdgeSpec>, node_key: Seq<char>) -> Seq<usize>
    decreases edges.len(),
{
    if edges.len() == 0 {
        seq![]
    } else {
        let rest = incoming(edges.drop_last(), node_key);
        if edges.last().to@ == node_key {
            rest.push((edges.len() - 1) as usize)
        } else {
            rest
        }
    }
}

/// Whether `key` is a start node: a node key that no edge targets.
pub open spec fn is_start_key(definition: WorkflowDefinition, key: Seq<char>) -> bool {
    has_node_key(definition.nodes@, key) && !is_edge_target(definition.edges@, key)
}

/// A walk along edges: at least one key, each consecutive pair joined by an edge.
pub open spec fn is_walk(edges: Seq<WorkflowEdgeSpec>, w: Seq<Seq<char>>) -> bool {
    &&& w.len() >= 1
    &&& forall|i: int| 0 <= i < w.len() - 1 ==> #[trigger] has_edge(edges, w[i], w[i + 1])
}

/// A walk that visits some key twice.
pub open spec fn has_repeat(w: Seq<Seq<char>>) -> bool {
    exists|i: int, j: int| 0 <= i < j < w.len() && #[trigger] w[i] == #[trigger] w[j]
}

/// A cycle can be reached from `start` along edges.
pub open spec fn reaches_cycle(edges: Seq<WorkflowEdgeSpec>, start: Seq<char>) -> bool {
    exists|w: Seq<Seq<char>>| #[trigger] is_walk(edges, w) && w[0] == start && has_repeat(w)
}

/// A cycle can be reached from some node of the definition.
pub open spec fn definition_has_cycle(definition: WorkflowDefinition) -> bool {
    exists|i: int|
        0 <= i < definition.nodes@.len() && reaches_cycle(
            definition.edges@,
            #[trigger] definition.nodes@[i].key@,
        )
}

/// Decides whether a predecessor status lets an edge condition fire.
pub fn edge_condition_satisfied(status: &str, condition: &str) -> (res: bool)
    ensures
        res == condition_satisfied(status@, condition@),
{
    if text_eq(condition, "always") {
        text_eq(status, "succeeded") || text_eq(status, "failed") || text_eq(status, "skipped")
    } else if text_eq(condition, "on_failure") {
        text_eq(status, "failed")
    } else {
        text_eq(status, "succeeded")
    }
}

/// Condition of an edge, `always` when omitted.
pub fn edge_condition_text(edge: &WorkflowEdgeSpec) -> (res: &str)
    ensures
        res@ == edge_condition(*edge),
{
    match &edge.condition {
        Some(c) => c.as_str(),
        None => "always",
    }
}

/// Targets to schedule after `node_key` finished with `status`.
pub fn next_nodes_for_status(definition: &WorkflowDefinition, node_key: &str, status: &str) -> (res:
    Vec<String>)
    ensures
        text_views(res@) == next_nodes(definition.edges@, node_key@, status@),
{
    let edges = &definition.edges;
    let mut out: Vec<String> = Vec::new();
    let mut i: usize = 0;
    while i < edges.len()
        invariant
            i <= edges.len(),
            text_views(out@) == next_nodes(edges@.subrange(0, i as int), node_key@, status@),
        decreases edges.len() - i,
    {
        let e = &edges[i];
        let ghost pre = edges@.subrange(0, i + 1);
        assert(pre.drop_last() =~= edges@.subrange(0, i as int));
        assert(pre.last() == *e);
        if text_eq(e.from.as_str(), node_key) && edge_condition_satisfied(
            status,
            edge_condition_text(e),
        ) {
            out.push(e.to.clone());
            assert(text_views(out@) =~= next_nodes(edges@.subrange(0, i as int), node_key@, status@).push(e.to@));
        }
        i = i + 1;
    }
    assert(edges@.subrange(0, edges.len() as int) =~= edges@);
    out
}

/// Indices of the edges entering `node_key`, ascending: the predecessors whose
/// status decides whether the node may run.
pub fn incoming_edge_indices(definition: &WorkflowDefinition, node_key: &str) -> (res: Vec<usize>)
    ensures
        res@ == incoming(definition.edges@, node_key@),
{
    let edges = &definition.edges;
    let mut out: Vec<usize> = Vec::new();
    let mut i: usize = 0;
    while i < edges.len()
        invariant
            i <= edges.len(),
            out@ == incoming(edges@.subrange(0, i as int), node_key@),
        decreases edges.len() - i,
    {
        let ghost pre = edges@.subrange(0, i + 1);
        assert(pre.drop_last() =~= edges@.subrange(0, i as int));
        if text_eq(edges[i].to.as_str(), node_key) {
            out.push(i);
        }
        i = i + 1;
    }
    assert(edges@.subrange(0, edges.len() as int) =~= edges@);
    out
}

/// Whether a node may run, given the incoming edges at `idx` and the status
/// recorded for the predecessor of each: the first edge whose predecessor has no
/// record names that predecessor as missing, the first edge whose condition its
/// predecessor's status does not satisfy makes the answer `false`, and otherwise
/// the answer is `true`.
pub open spec fn predecessors_outcome(
    edges: Seq<WorkflowEdgeSpec>,
    idx: Seq<usize>,
    statuses: Seq<Option<Seq<char>>>,
) -> Result<bool, Seq<char>>
    decreases idx.len(),
{
    if idx.len() == 0 {
        Ok(true)
    } else {
        let e = edges[idx[0] as int];
        match statuses[0] {
            None => Err(e.from@),
            Some(st) => if !condition_satisfied(st, edge_condition(e)) {
                Ok(false)
            } else {
                predecessors_outcome(edges, idx.drop_first(), statuses.drop_first())
            },
        }
    }
}

/// Views of optional texts.
pub open spec fn optional_views(v: Seq<Option<String>>) -> Seq<Option<Seq<char>>> {
    v.map_values(|o: Option<String>| match o {
        Some(s) => Some(s@),
        None => None,
    })
}

/// Decides whether a node may run from the statuses recorded for its
/// predecessors, one per incoming edge in the order of `incoming_edge_indices`
/// (`None` where no record exists); `Err` names a predecessor without a record.
pub fn predecessors_satisfied(definition: &WorkflowDefinition, node_key: &str, statuses: &Vec<Option<String>>) -> (res:
    Result<bool, String>)
    requires
        statuses@.len() == incoming(definition.edges@, node_key@).len(),
    ensures
        match res {
            Ok(b) => predecessors_outcome(
                definition.edges@,
                incoming(definition.edges@, node_key@),
                optional_views(statuses@),
            ) == Ok::<bool, Seq<char>>(b),
            Err(from) => predecessors_outcome(
                definition.edges@,
                incoming(definition.edges@, node_key@),
                optional_views(statuses@),
            ) == Err::<bool, Seq<char>>(from@),
        },
{
    let idx = incoming_edge_indices(definition, node_key);
    let ghost all = idx@;
    let ghost views = optional_views(statuses@);
    proof {
        lemma_incoming_in_range(definition.edges@, node_key@);
        assert(all.skip(0) =~= all);
        assert(views.skip(0) =~= views);
    }
    let mut k: usize = 0;
    while k < idx.len()
        invariant
            k <= idx.len(),
            idx@ == all,
            all == incoming(definition.edges@, node_key@),
            statuses@.len() == all.len(),
            views == optional_views(statuses@),
            forall|t: int| 0 <= t < all.len() ==> (all[t] as int) < definition.edges@.len(),
            predecessors_outcome(definition.edges@, all, views) == predecessors_outcome(
                definition.edges@,
                all.skip(k as int),
                views.skip(k as int),
            ),
        decreases idx.len() - k,
    {
        let e = &definition.edges[idx[k]];
        let ghost rest_i = all.skip(k as int);
        let ghost rest_s = views.skip(k as int);
        assert(rest_i[0] == all[k as int]);
        assert(rest_s[0] == views[k as int]);
        assert(rest_i.drop_first() =~= all.skip(k + 1));
        assert(rest_s.drop_first() =~= views.skip(k + 1));
        match &statuses[k] {
            None => {
                return Err(e.from.clone());
            },
            Some(st) => {
                if !edge_condition_satisfied(st.as_str(), edge_condition_text(e)) {
                    return Ok(false);
                }
            },
        }
        k = k + 1;
    }
    Ok(true)
}

/// The predecessor of edge `i` has a record whose status satisfies the edge's condition.
pub open spec fn edge_allows(edges: Seq<WorkflowEdgeSpec>, i: usize, status: Option<Seq<char>>) -> bool {
    match status {
        Some(st) => condition_satisfied(st, edge_condition(edges[i as int])),
        None => false,
    }
}

/// A node may run exactly when every incoming edge has a predecessor record
/// whose status satisfies the edge's condition.
pub proof fn lemma_predecessors_all_satisfied(
    edges: Seq<WorkflowEdgeSpec>,
    idx: Seq<usize>,
    statuses: Seq<Option<Seq<char>>>,
)
    requires
        statuses.len() == idx.len(),
    ensures
        predecessors_outcome(edges, idx, statuses) == Ok::<bool, Seq<char>>(true) <==> forall|t: int|
            0 <= t < idx.len() ==> edge_allows(edges, idx[t], #[trigger] statuses[t]),
    decreases idx.len(),
{
    if idx.len() > 0 {
        let ri = idx.drop_first();
        let rs = statuses.drop_first();
        lemma_predecessors_all_satisfied(edges, ri, rs);
        if predecessors_outcome(edges, idx, statuses) == Ok::<bool, Seq<char>>(true) {
            assert forall|t: int| 0 <= t < idx.len() implies edge_allows(edges, idx[t], #[trigger] statuses[t]) by {
                if t > 0 {
                    assert(rs[t - 1] == statuses[t]);
                    assert(ri[t - 1] == idx[t]);
                }
            }
        }
        if forall|t: int|
            0 <= t < idx.len() ==> edge_allows(edges, idx[t], #[trigger] statuses[t]) {
            assert(edge_allows(edges, idx[0], statuses[0]));
            assert forall|t: int| 0 <= t < ri.len() implies edge_allows(edges, ri[t], #[trigger] rs[t]) by {
                assert(rs[t] == statuses[t + 1]);
                assert(ri[t] == idx[t + 1]);
            }
        }
    }
}

/// Incoming edge indices are edge positions.
proof fn lemma_incoming_in_range(edges: Seq<WorkflowEdgeSpec>, node_key: Seq<char>)
    ensures
        forall|t: int|
            0 <= t < incoming(edges, node_key).len() ==> (#[trigger] incoming(edges, node_key)[t] as int)
                < edges.len(),
    decreases edges.len(),
{
    if edges.len() > 0 {
        lemma_incoming_in_range(edges.drop_last(), node_key);
        let rest = incoming(edges.drop_last(), node_key);
        assert forall|t: int| 0 <= t < incoming(edges, node_key).len() implies (#[trigger] incoming(
            edges,
            node_key,
        )[t] as int) < edges.len() by {
            if t < rest.len() {
                assert(incoming(edges, node_key)[t] == rest[t]);
            }
        }
    }
}

/// Whether some edge targets `key`.
fn targets_key(edges: &Vec<WorkflowEdgeSpec>, key: &String) -> (res: bool)
    ensures
        res == is_edge_target(edges@, key@),
{
    let mut i: usize = 0;
    while i < edges.len()
        invariant
            i <= edges.len(),
            forall|k: int| 0 <= k < i ==> edges@[k].to@ != key@,
        decreases edges.len() - i,
    {
        if edges[i].to == *key {
            return true;
        }
        i = i + 1;
    }
    false
}

/// Whether a list of texts holds `key`.
fn holds_text(v: &Vec<String>, key: &String) -> (res: bool)
    ensures
        res == text_views(v@).contains(key@),
{
    let mut i: usize = 0;
    while i < v.len()
        invariant
            i <= v.len(),
            forall|k: int| 0 <= k < i ==> v@[k]@ != key@,
        decreases v.len() - i,
    {
        if v[i] == *key {
            assert(text_views(v@)[i as int] == key@);
            return true;
        }
        i = i + 1;
    }
    false
}

/// Node keys that no edge targets, each once, in node order.
pub fn start_node_keys(definition: &WorkflowDefinition) -> (res: Vec<String>)
    ensures
        text_views(res@).no_duplicates(),
        forall|k: Seq<char>| text_views(res@).contains(k) <==> is_start_key(*definition, k),
{
    let nodes = &definition.nodes;
    let mut out: Vec<String> = Vec::new();
    let mut i: usize = 0;
    while i < nodes.len()
        invariant
            i <= nodes.len(),
            nodes == &definition.nodes,
            text_views(out@).no_duplicates(),
            forall|k: Seq<char>|
                text_views(out@).contains(k) <==> (exists|j: int|
                    0 <= j < i && #[trigger] nodes@[j].key@ == k) && !is_edge_target(
                    definition.edges@,
                    k,
                ),
        decreases nodes.len() - i,
    {
        let key = &nodes[i].key;
        let ghost before = text_views(out@);
        let fresh = !targets_key(&definition.edges, key) && !holds_text(&out, key);
        if fresh {
            out.push(key.clone());
            assert(text_views(out@) =~= before.push(key@));
        }
        proof {
            let after = text_views(out@);
            assert(nodes@[i as int].key@ == key@);
            assert forall|k: Seq<char>|
                after.contains(k) implies (exists|j: int| 0 <= j < i + 1 && #[trigger] nodes@[j].key@ == k)
                    && !is_edge_target(definition.edges@, k) by {
                if fresh && k == key@ {
                } else {
                    if fresh {
                        let t = choose|t: int| 0 <= t < after.len() && after[t] == k;
                        assert(t < before.len());
                        assert(before[t] == k);
                    }
                    assert(before.contains(k));
                    let j = choose|j: int| 0 <= j < i && #[trigger] nodes@[j].key@ == k;
                    assert(nodes@[j].key@ == k);
                }
            }
            assert forall|k: Seq<char>|
                (exists|j: int| 0 <= j < i + 1 && #[trigger] nodes@[j].key@ == k)
                    && !is_edge_target(definition.edges@, k) implies after.contains(k) by {
                let j = choose|j: int| 0 <= j < i + 1 && #[trigger] nodes@[j].key@ == k;
                if j < i {
                    assert(before.contains(k));
                    let t = choose|t: int| 0 <= t < before.len() && before[t] == k;
                    assert(after[t] == k);
                } else {
                    assert(k == key@);
                    if fresh {
                        assert(after[after.len() - 1] == k);
                    } else {
                        assert(before.contains(k));
                    }
                }
            }
        }
        i = i + 1;
    }
    out
}

/// The keys a depth-first search can meet: node keys and edge targets.
pub open spec fn search_universe(definition: WorkflowDefinition) -> Set<Seq<char>> {
    definition.nodes@.map_values(|n: crate::workflow::model::WorkflowNodeSpec| n.key@).to_set().union(
        definition.edges@.map_values(|e: WorkflowEdgeSpec| e.to@).to_set(),
    )
}

/// Every edge leaving a finished key leads to a key finished before it.
pub open spec fn finished_closed(edges: Seq<WorkflowEdgeSpec>, done: Seq<Seq<char>>) -> bool {
    forall|i: int, k: int|
        0 <= i < done.len() && 0 <= k < edges.len() && #[trigger] edges[k].from@ == #[trigger] done[i]
            ==> exists|j: int| 0 <= j < i && #[trigger] done[j] == edges[k].to@
}

/// Two key lists share no key.
pub open spec fn keys_disjoint(a: Seq<Seq<char>>, b: Seq<Seq<char>>) -> bool {
    forall|x: Seq<char>| a.contains(x) ==> !b.contains(x)
}

proof fn lemma_no_dup_within(q: Seq<Seq<char>>, u: Set<Seq<char>>)
    requires
        q.no_duplicates(),
        u.finite(),
        forall|x: Seq<char>| q.contains(x) ==> u.contains(x),
    ensures
        q.len() <= u.len(),
{
    q.unique_seq_to_set();
    assert(q.to_set().subset_of(u));
    lemma_len_subset(q.to_set(), u);
}

proof fn lemma_concat_no_dup(a: Seq<Seq<char>>, b: Seq<Seq<char>>)
    requires
        a.no_duplicates(),
        b.no_duplicates(),
        keys_disjoint(a, b),
    ensures
        (a + b).no_duplicates(),
        forall|x: Seq<char>| (a + b).contains(x) <==> a.contains(x) || b.contains(x),
{
    let c = a + b;
    assert forall|i: int, j: int| 0 <= i < c.len() && 0 <= j < c.len() && i != j implies c[i]
        != c[j] by {
        if i < a.len() && j >= a.len() {
            assert(a.contains(c[i]));
            assert(b.contains(c[j]));
        } else if j < a.len() && i >= a.len() {
            assert(a.contains(c[j]));
            assert(b.contains(c[i]));
        }
    }
    assert forall|x: Seq<char>| c.contains(x) implies a.contains(x) || b.contains(x) by {
        let i = choose|i: int| 0 <= i < c.len() && c[i] == x;
        if i < a.len() {
            assert(a[i] == x);
        } else {
            assert(b[i - a.len()] == x);
        }
    }
    assert forall|x: Seq<char>| a.contains(x) || b.contains(x) implies c.contains(x) by {
        if a.contains(x) {
            let i = choose|i: int| 0 <= i < a.len() && a[i] == x;
            assert(c[i] == x);
        } else {
            let i = choose|i: int| 0 <= i < b.len() && b[i] == x;
            assert(c[i + a.len()] == x);
        }
    }
}

/// Position of a key in a list without duplicates.
spec fn position(done: Seq<Seq<char>>, x: Seq<char>) -> int {
    choose|j: int| 0 <= j < done.len() && done[j] == x
}

proof fn lemma_walk_descends(edges: Seq<WorkflowEdgeSpec>, done: Seq<Seq<char>>, w: Seq<Seq<char>>, k: int)
    requires
        finished_closed(edges, done),
        done.no_duplicates(),
        is_walk(edges, w),
        done.contains(w[0]),
        0 <= k < w.len(),
    ensures
        done.contains(w[k]),
        0 <= position(done, w[k]) < done.len(),
        done[position(done, w[k])] == w[k],
        forall|a: int| 0 <= a < k ==> position(done, w[k]) < position(done, #[trigger] w[a]),
    decreases k,
{
    if k > 0 {
        lemma_walk_descends(edges, done, w, k - 1);
        let p = position(done, w[k - 1]);
        let m = k - 1;
        assert(has_edge(edges, w[m], w[m + 1]));
        let e = choose|e: int| 0 <= e < edges.len() && #[trigger] edges[e].from@ == w[k - 1] && edges[e].to@ == w[k];
        assert(edges[e].from@ == done[p]);
        let j = choose|j: int| 0 <= j < p && #[trigger] done[j] == edges[e].to@;
        assert(done.contains(w[k]));
        let q = position(done, w[k]);
        assert(q == j);
    }
}

/// No cycle can be reached from a finished key.
proof fn lemma_finished_reaches_no_cycle(edges: Seq<WorkflowEdgeSpec>, done: Seq<Seq<char>>, x: Seq<char>)
    requires
        finished_closed(edges, done),
        done.no_duplicates(),
        done.contains(x),
    ensures
        !reaches_cycle(edges, x),
{
    if reaches_cycle(edges, x) {
        let w = choose|w: Seq<Seq<char>>| #[trigger] is_walk(edges, w) && w[0] == x && has_repeat(w);
        let (a, b) = choose|a: int, b: int| 0 <= a < b < w.len() && #[trigger] w[a] == #[trigger] w[b];
        lemma_walk_descends(edges, done, w, b);
    }
}

/// Text equality over string lists.
fn list_holds(v: &Vec<String>, key: &String) -> (res: bool)
    ensures
        res == text_views(v@).contains(key@),
{
    holds_text(v, key)
}

/// Depth-first search from `node`: whether a cycle is reachable, keeping the
/// keys on the current search path in `visiting` and the finished keys in
/// `visited`.
fn dfs_cycle(
    definition: &WorkflowDefinition,
    node: &String,
    visiting: &mut Vec<String>,
    visited: &mut Vec<String>,
    Ghost(root): Ghost<Seq<char>>,
) -> (res: bool)
    requires
        is_walk(definition.edges@, text_views(old(visiting)@).push(node@)),
        text_views(old(visiting)@).push(node@)[0] == root,
        text_views(old(visiting)@).no_duplicates(),
        text_views(old(visited)@).no_duplicates(),
        keys_disjoint(text_views(old(visiting)@), text_views(old(visited)@)),
        finished_closed(definition.edges@, text_views(old(visited)@)),
        search_universe(*definition).contains(node@),
        forall|x: Seq<char>| text_views(old(visiting)@).contains(x) ==> search_universe(*definition).contains(x),
        forall|x: Seq<char>| text_views(old(visited)@).contains(x) ==> search_universe(*definition).contains(x),
    ensures
        res ==> reaches_cycle(definition.edges@, root),
        !res ==> {
            &&& final(visiting)@ == old(visiting)@
            &&& text_views(final(visited)@).subrange(0, old(visited)@.len() as int) == text_views(old(visited)@)
            &&& old(visited)@.len() <= final(visited)@.len()
            &&& text_views(final(visited)@).contains(node@)
            &&& text_views(final(visited)@).no_duplicates()
            &&& keys_disjoint(text_views(old(visiting)@), text_views(final(visited)@))
            &&& finished_closed(definition.edges@, text_views(final(visited)@))
            &&& forall|x: Seq<char>| text_views(final(visited)@).contains(x) ==> search_universe(*definition).contains(x)
        },
    decreases search_universe(*definition).len() - visiting@.len() - visited@.len(),
{
    let ghost u = search_universe(*definition);
    let ghost edges = definition.edges@;
    let ghost s0 = text_views(visiting@);
    let ghost b0 = text_views(visited@);
    assert(u.finite());
    proof {
        lemma_concat_no_dup(s0, b0);
        lemma_no_dup_within(s0 + b0, u);
    }
    if list_holds(visited, node) {
        assert(text_views(visited@).subrange(0, visited@.len() as int) =~= text_views(visited@));
        return false;
    }
    if list_holds(visiting, node) {
        let ghost w = s0.push(node@);
        proof {
            let k = choose|k: int| 0 <= k < s0.len() && s0[k] == node@;
            assert(w[k] == w[w.len() - 1]);
            assert(has_repeat(w));
            assert(is_walk(edges, w));
        }
        return true;
    }
    visiting.push(node.clone());
    let ghost v1 = visiting@;
    assert(v1.drop_last() =~= old(visiting)@);
    let ghost s1 = text_views(visiting@);
    assert(s1 =~= s0.push(node@));
    assert(s1.no_duplicates());
    assert(forall|x: Seq<char>| s1.contains(x) ==> s0.contains(x) || x == node@);
    let mut i: usize = 0;
    while i < definition.edges.len()
        invariant
            i <= definition.edges.len(),
            edges == definition.edges@,
            u == search_universe(*definition),
            u.finite(),
            text_views(visiting@) == s1,
            visiting@ == v1,
            v1.drop_last() == old(visiting)@,
            s0 == text_views(old(visiting)@),
            b0 == text_views(old(visited)@),
            s1 == s0.push(node@),
            is_walk(edges, s1),
            s1[0] == root,
            s1.no_duplicates(),
            forall|x: Seq<char>| s1.contains(x) ==> u.contains(x),
            b0.len() <= visited@.len(),
            text_views(visited@).subrange(0, b0.len() as int) == b0,
            text_views(visited@).no_duplicates(),
            keys_disjoint(s1, text_views(visited@)),
            finished_closed(edges, text_views(visited@)),
            forall|x: Seq<char>| text_views(visited@).contains(x) ==> u.contains(x),
            forall|k: int|
                0 <= k < i && #[trigger] edges[k].from@ == node@ ==> text_views(visited@).contains(
                    edges[k].to@,
                ),
        decreases definition.edges.len() - i,
    {
        if definition.edges[i].from == *node {
            let ghost b1 = text_views(visited@);
            proof {
                let w = s1.push(definition.edges[i as int].to@);
                assert(has_edge(edges, node@, definition.edges[i as int].to@));
                assert forall|j: int| 0 <= j < w.len() - 1 implies #[trigger] has_edge(edges, w[j], w[j + 1]) by {
                    if j < s1.len() - 1 {
                        assert(w[j] == s1[j] && w[j + 1] == s1[j + 1]);
                    } else {
                        assert(w[j] == node@);
                    }
                }
                assert(is_walk(edges, w));
                assert(definition.edges@.map_values(|e: WorkflowEdgeSpec| e.to@)[i as int] == edges[i as int].to@);
                assert(u.contains(edges[i as int].to@));
                lemma_concat_no_dup(s1, b1);
                lemma_no_dup_within(s1 + b1, u);
                assert((s1 + b1).len() == s1.len() + b1.len());
                assert(visiting@.len() == s1.len());
                assert(visited@.len() == b1.len());
                assert(old(visiting)@.len() == s0.len());
                assert(old(visited)@.len() == b0.len());
                assert(b0.len() <= b1.len());
                assert(s1.len() == s0.len() + 1);
            }
            if dfs_cycle(definition, &definition.edges[i].to, visiting, visited, Ghost(root)) {
                return true;
            }
            proof {
                let b2 = text_views(visited@);
                assert forall|x: Seq<char>| b1.contains(x) implies b2.contains(x) by {
                    let j = choose|j: int| 0 <= j < b1.len() && b1[j] == x;
                    assert(b2.subrange(0, b1.len() as int)[j] == x);
                }
                assert(b2.subrange(0, b0.len() as int) =~= b1.subrange(0, b0.len() as int)) by {
                    assert forall|j: int| 0 <= j < b0.len() implies b2.subrange(0, b0.len() as int)[j] == b1.subrange(0, b0.len() as int)[j] by {
                        assert(b2.subrange(0, b1.len() as int)[j] == b1[j]);
                    }
                }
            }
        }
        i = i + 1;
    }
    let ghost b1 = text_views(visited@);
    visiting.pop();
    assert(visiting@ =~= old(visiting)@);
    proof {
        assert(!b1.contains(node@)) by {
            assert(s1.contains(node@)) by {
                assert(s1[s1.len() - 1] == node@);
            }
        }
    }
    visited.push(node.clone());
    proof {
        let b2 = text_views(visited@);
        assert(b2 =~= b1.push(node@));
        assert(b2.subrange(0, b0.len() as int) =~= b1.subrange(0, b0.len() as int));
        assert(b2.contains(node@)) by {
            assert(b2[b2.len() - 1] == node@);
        }
        assert(forall|x: Seq<char>| b2.contains(x) ==> b1.contains(x) || x == node@);
        assert forall|i: int, k: int|
            0 <= i < b2.len() && 0 <= k < edges.len() && #[trigger] edges[k].from@ == #[trigger] b2[i]
                implies exists|j: int| 0 <= j < i && #[trigger] b2[j] == edges[k].to@ by {
            if i < b1.len() {
                assert(b2[i] == b1[i]);
                let j = choose|j: int| 0 <= j < i && #[trigger] b1[j] == edges[k].to@;
                assert(b2[j] == b1[j]);
            } else {
                assert(edges[k].from@ == node@);
                assert(b1.contains(edges[k].to@));
                let j = choose|j: int| 0 <= j < b1.len() && b1[j] == edges[k].to@;
                assert(b2[j] == b1[j]);
            }
        }
        assert forall|x: Seq<char>| s0.contains(x) implies !b2.contains(x) by {
            let j = choose|j: int| 0 <= j < s0.len() && s0[j] == x;
            assert(s1[j] == x);
            assert(s1.contains(x));
        }
    }
    false
}

/// Whether a cycle can be reached from any node of the definition.
pub fn has_cycle(definition: &WorkflowDefinition) -> (res: bool)
    ensures
        res == definition_has_cycle(*definition),
{
    let mut visiting: Vec<String> = Vec::new();
    let mut visited: Vec<String> = Vec::new();
    let mut i: usize = 0;
    let ghost u = search_universe(*definition);
    while i < definition.nodes.len()
        invariant
            i <= definition.nodes.len(),
            u == search_universe(*definition),
            visiting@.len() == 0,
            text_views(visited@).no_duplicates(),
            finished_closed(definition.edges@, text_views(visited@)),
            forall|x: Seq<char>| text_views(visited@).contains(x) ==> u.contains(x),
            forall|k: int| 0 <= k < i ==> text_views(visited@).contains(#[trigger] definition.nodes@[k].key@),
        decreases definition.nodes.len() - i,
    {
        let node = &definition.nodes[i].key;
        let ghost b1 = text_views(visited@);
        proof {
            let w = text_views(visiting@).push(node@);
            assert(w =~= seq![node@]);
            assert(definition.nodes@.map_values(|n: crate::workflow::model::WorkflowNodeSpec| n.key@)[i as int] == node@);
            assert(u.contains(node@));
            assert(text_views(visiting@) =~= Seq::<Seq<char>>::empty());
        }
        if dfs_cycle(definition, node, &mut visiting, &mut visited, Ghost(node@)) {
            proof {
                assert(reaches_cycle(definition.edges@, definition.nodes@[i as int].key@));
            }
            return true;
        }
        proof {
            let b2 = text_views(visited@);
            assert forall|x: Seq<char>| b1.contains(x) implies b2.contains(x) by {
                let j = choose|j: int| 0 <= j < b1.len() && b1[j] == x;
                assert(b2.subrange(0, b1.len() as int)[j] == x);
            }
        }
        i = i + 1;
    }
    proof {
        if definition_has_cycle(*definition) {
            let k = choose|k: int| 0 <= k < definition.nodes@.len() && reaches_cycle(definition.edges@, #[trigger] definition.nodes@[k].key@);
            lemma_finished_reaches_no_cycle(definition.edges@, text_views(visited@), definition.nodes@[k].key@);
        }
    }
    false
}

/// Edge conditions: `on_success` and `on_failure` never both fire after the same
/// predecessor status, and whenever either fires an `always` edge fires too.
pub proof fn lemma_conditions_exclusive(status: Seq<char>)
    ensures
        !(condition_satisfied(status, "on_success"@) && condition_satisfied(status, "on_failure"@)),
        condition_satisfied(status, "on_success"@) ==> condition_satisfied(status, "always"@),
        condition_satisfied(status, "on_failure"@) ==> condition_satisfied(status, "always"@),
{
    reveal_strlit("always");
    reveal_strlit("on_success");
    reveal_strlit("on_failure");
    reveal_strlit("succeeded");
    reveal_strlit("failed");
    assert("on_success"@ != "always"@) by {
        assert("on_success"@.len() != "always"@.len());
    }
    assert("on_failure"@ != "always"@) by {
        assert("on_failure"@.len() != "always"@.len());
    }
    assert("on_success"@ != "on_failure"@) by {
        assert("on_success"@[3] != "on_failure"@[3]);
    }
    assert("succeeded"@ != "failed"@) by {
        assert("succeeded"@.len() != "failed"@.len());
    }
}

/// Successors after a status: a key is scheduled after `node_key` finished with
/// `status` exactly when some edge leads from `node_key` to it under a condition
/// that `status` satisfies.
pub proof fn lemma_next_nodes_members(
    edges: Seq<WorkflowEdgeSpec>,
    node_key: Seq<char>,
    status: Seq<char>,
    target: Seq<char>,
)
    ensures
        next_nodes(edges, node_key, status).contains(target) <==> exists|k: int|
            0 <= k < edges.len() && #[trigger] edges[k].from@ == node_key && edges[k].to@ == target
                && condition_satisfied(status, edge_condition(edges[k])),
    decreases edges.len(),
{
    if edges.len() > 0 {
        let prev = edges.drop_last();
        lemma_next_nodes_members(prev, node_key, status, target);
        let rest = next_nodes(prev, node_key, status);
        let e = edges.last();
        if next_nodes(edges, node_key, status).contains(target) {
            if e.from@ == node_key && condition_satisfied(status, edge_condition(e)) && e.to@ == target {
                assert(edges[edges.len() - 1].from@ == node_key);
            } else {
                let t = choose|t: int|
                    0 <= t < next_nodes(edges, node_key, status).len()
                        && next_nodes(edges, node_key, status)[t] == target;
                if e.from@ == node_key && condition_satisfied(status, edge_condition(e)) {
                    assert(t < rest.len());
                    assert(rest[t] == target);
                }
                assert(rest.contains(target));
                let k = choose|k: int|
                    0 <= k < prev.len() && #[trigger] prev[k].from@ == node_key && prev[k].to@ == target
                        && condition_satisfied(status, edge_condition(prev[k]));
                assert(edges[k] == prev[k]);
            }
        }
        if exists|k: int|
            0 <= k < edges.len() && #[trigger] edges[k].from@ == node_key && edges[k].to@ == target
                && condition_satisfied(status, edge_condition(edges[k])) {
            let k = choose|k: int|
                0 <= k < edges.len() && #[trigger] edges[k].from@ == node_key && edges[k].to@ == target
                    && condition_satisfied(status, edge_condition(edges[k]));
            if k == edges.len() - 1 {
                let r = next_nodes(edges, node_key, status);
                assert(r[r.len() - 1] == target);
            } else {
                assert(prev[k] == edges[k]);
                assert(rest.contains(target));
                let t = choose|t: int| 0 <= t < rest.len() && rest[t] == target;
                let r = next_nodes(edges, node_key, status);
                assert(r[t] == target);
            }
        }
    }
}

/// What each edge condition waits for: an `on_failure` edge fires exactly
/// after `failed`, an `on_success` edge exactly after `succeeded`, and an
/// `always` edge after any of `succeeded`, `failed` or `skipped`; in particular
/// `skipped` fires only `always` edges.
pub proof fn lemma_condition_meaning(status: Seq<char>)
    ensures
        condition_satisfied(status, "on_failure"@) <==> status == "failed"@,
        condition_satisfied(status, "on_success"@) <==> status == "succeeded"@,
        condition_satisfied(status, "always"@) <==> (status == "succeeded"@ || status == "failed"@
            || status == "skipped"@),
        status == "skipped"@ ==> !condition_satisfied(status, "on_failure"@) && !condition_satisfied(
            status,
            "on_success"@,
        ),
{
    reveal_strlit("always");
    reveal_strlit("on_success");
    reveal_strlit("on_failure");
    reveal_strlit("succeeded");
    reveal_strlit("failed");
    reveal_strlit("skipped");
    assert("on_success"@ != "always"@) by {
        assert("on_success"@.len() != "always"@.len());
    }
    assert("on_failure"@ != "always"@) by {
        assert("on_failure"@.len() != "always"@.len());
    }
    assert("on_success"@ != "on_failure"@) by {
        assert("on_success"@[3] != "on_failure"@[3]);
    }
    assert("skipped"@ != "failed"@) by {
        assert("skipped"@.len() != "failed"@.len());
    }
    assert("skipped"@ != "succeeded"@) by {
        assert("skipped"@.len() != "succeeded"@.len());
    }
}

/// After a predecessor that did not fail, no `on_failure` edge leading out of
/// it contributes a successor: every scheduled key is the target of an edge
/// out of `node_key` whose condition is not `on_failure`.
pub proof fn lemma_failure_edges_need_failure(
    edges: Seq<WorkflowEdgeSpec>,
    node_key: Seq<char>,
    status: Seq<char>,
    target: Seq<char>,
)
    requires
        status != "failed"@,
        next_nodes(edges, node_key, status).contains(target),
    ensures
        exists|k: int|
            0 <= k < edges.len() && #[trigger] edges[k].from@ == node_key && edges[k].to@ == target
                && edge_condition(edges[k]) != "on_failure"@,
{
    lemma_next_nodes_members(edges, node_key, status, target);
    let k = choose|k: int|
        0 <= k < edges.len() && #[trigger] edges[k].from@ == node_key && edges[k].to@ == target
            && condition_satisfied(status, edge_condition(edges[k]));
    lemma_condition_meaning(status);
    assert(edges[k].from@ == node_key);
}

} // verus!
