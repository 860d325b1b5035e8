//! Scheduling of render passes by the resources they read and write.
use crate::context::{AttachmentLoadOp, AttachmentStoreOp};
use crate::image::Layout;
use vstd::prelude::*;

verus! {

/// The edges of one pass in the dependency graph: which passes feed it and
/// which passes consume what it writes.
pub struct RenderGraphNode {
    pub input_nodes: Vec<usize>,
    pub output_nodes: Vec<usize>,
}

/// The out-edges (producer to consumer) of every node.
pub open spec fn adjacency(nodes: Seq<RenderGraphNode>) -> Seq<Seq<usize>> {
    Seq::new(nodes.len(), |i: int| nodes[i].output_nodes@)
}

/// Every edge points at an existing node.
pub open spec fn edges_in_bounds(adj: Seq<Seq<usize>>) -> bool {
    forall|i: int, k: int|
        0 <= i < adj.len() && 0 <= k < adj[i].len() ==> #[trigger] adj[i][k] < adj.len()
}

/// `r` numbers the nodes so that every edge between two different nodes goes from a
/// lower to a higher number; an edge from a node to itself is no constraint.
pub open spec fn is_ranking(adj: Seq<Seq<usize>>, r: Seq<int>) -> bool {
    &&& r.len() == adj.len()
    &&& forall|i: int, k: int|
        0 <= i < adj.len() && 0 <= k < adj[i].len() && adj[i][k] as int != i ==> r[i] < r[
            #[trigger] adj[i][k] as int]
}

/// The graph has no cycle through two or more nodes: some numbering increases along
/// every edge between different nodes.
pub open spec fn acyclic(adj: Seq<Seq<usize>>) -> bool {
    exists|r: Seq<int>| is_ranking(adj, r)
}

/// Every successor of the node at position `a`, other than that node itself, appears at
/// an earlier position.
pub open spec fn successors_first(order: Seq<usize>, adj: Seq<Seq<usize>>) -> bool {
    forall|a: int, k: int|
        0 <= a < order.len() && 0 <= k < adj[order[a] as int].len() && adj[order[a] as int][k]
            != order[a] ==> order.take(a).contains(#[trigger] adj[order[a] as int][k])
}

/// Number of entries of `s` below `k`.
pub open spec fn count_below(s: Seq<u8>, k: u8) -> nat
    decreases s.len(),
{
    if s.len() == 0 {
        0
    } else {
        count_below(s.drop_last(), k) + if s.last() < k {
            1nat
        } else {
            0nat
        }
    }
}

proof fn lemma_count_below_bound(s: Seq<u8>, k: u8)
    ensures
        count_below(s, k) <= s.len(),
    decreases s.len(),
{
    if s.len() > 0 {
        lemma_count_below_bound(s.drop_last(), k);
    }
}

proof fn lemma_count_below_none(s: Seq<u8>, k: u8)
    requires
        forall|i: int| 0 <= i < s.len() ==> s[i] >= k,
    ensures
        count_below(s, k) == 0,
    decreases s.len(),
{
    if s.len() > 0 {
        lemma_count_below_none(s.drop_last(), k);
    }
}

proof fn lemma_count_below_update(s: Seq<u8>, i: int, v: u8, k: u8)
    requires
        0 <= i < s.len(),
    ensures
        count_below(s.update(i, v), k) + (if s[i] < k {
            1int
        } else {
            0int
        }) == count_below(s, k) + (if v < k {
            1int
        } else {
            0int
        }),
    decreases s.len(),
{
    let t = s.update(i, v);
    if i == s.len() - 1 {
        assert(t.drop_last() =~= s.drop_last());
    } else {
        assert(t.drop_last() =~= s.drop_last().update(i, v));
        lemma_count_below_update(s.drop_last(), i, v, k);
    }
}

proof fn lemma_count_below_all(n: nat, v: u8, k: u8)
    ensures
        count_below(Seq::new(n, |j: int| v), k) == if v < k {
            n
        } else {
            0
        },
    decreases n,
{
    if n > 0 {
        assert(Seq::new(n, |j: int| v).drop_last() =~= Seq::new((n - 1) as nat, |j: int| v));
        lemma_count_below_all((n - 1) as nat, v, k);
    }
}

/// Visit states are white (0), on the current path (1) or finished (2); the
/// finished nodes are exactly the output so far, each once.
spec fn finished_are_output(visited: Seq<u8>, sorted: Seq<usize>) -> bool {
    &&& forall|i: int| 0 <= i < visited.len() ==> visited[i] <= 2
    &&& sorted.no_duplicates()
    &&& forall|k: int| 0 <= k < sorted.len() ==> sorted[k] < visited.len() && visited[sorted[k] as int] == 2
    &&& forall|i: int| 0 <= i < visited.len() && visited[i] == 2 ==> sorted.contains(i as usize)
    &&& sorted.len() + count_below(visited, 2) == visited.len()
}

/// Each node on the current path sits on the stack at the position where it was expanded.
spec fn path_on_stack(visited: Seq<u8>, stack: Seq<usize>, act: Seq<int>) -> bool {
    &&& act.len() == visited.len()
    &&& forall|q: int| 0 <= q < stack.len() ==> stack[q] < visited.len()
    &&& forall|g: int|
        0 <= g < visited.len() && visited[g] == 1 ==> 0 <= act[g] < stack.len() && stack[act[g]]
            == g
}

/// Every successor of a node on the path, other than the node itself, is finished or
/// still waits above it on the stack.
spec fn successors_pending(
    adj: Seq<Seq<usize>>,
    visited: Seq<u8>,
    stack: Seq<usize>,
    act: Seq<int>,
) -> bool {
    forall|g: int, k: int|
        #![trigger adj[g][k]]
        0 <= g < visited.len() && visited[g] == 1 && 0 <= k < adj[g].len() && adj[g][k] as int != g
            ==> visited[adj[g][k] as int] == 2 || exists|q: int| act[g] < q < stack.len() && #[trigger] stack[q]
            == adj[g][k]
}

/// Above a node on the path, the stack only holds nodes of higher rank.
spec fn ranks_rise(visited: Seq<u8>, stack: Seq<usize>, act: Seq<int>, r: Seq<int>) -> bool {
    forall|g: int, q: int|
        #![trigger act[g], stack[q]]
        0 <= g < visited.len() && visited[g] == 1 && act[g] < q < stack.len() ==> r[g] < r[
            stack[q] as int]
}

/// Orders the passes so that every pass comes after all other passes that consume its
/// outputs (depth-first, by finishing time); a pass that consumes its own output is no
/// obstacle. Executing the result back to front runs producers before consumers.
pub fn sorted_nodes(nodes: &Vec<RenderGraphNode>) -> (sorted: Vec<usize>)
    requires
        edges_in_bounds(adjacency(nodes@)),
    ensures
        sorted.len() == nodes.len(),
        sorted@.no_duplicates(),
        forall|k: int| 0 <= k < sorted.len() ==> sorted[k] < nodes.len(),
        forall|i: usize| i < nodes.len() ==> #[trigger] sorted@.contains(i),
        acyclic(adjacency(nodes@)) ==> successors_first(sorted@, adjacency(nodes@)),
{
    let n = nodes.len();
    let ghost adj = adjacency(nodes@);
    let ghost acyc = acyclic(adj);
    let ghost r: Seq<int> = if acyc {
        choose|r: Seq<int>| is_ranking(adj, r)
    } else {
        Seq::new(n as nat, |j: int| 0int)
    };
    let mut sorted: Vec<usize> = Vec::new();
    let mut stack: Vec<usize> = Vec::new();
    let mut visited: Vec<u8> = Vec::new();
    while visited.len() < n
        invariant
            visited.len() <= n,
            forall|j: int| 0 <= j < visited.len() ==> visited[j] == 0,
        decreases n - visited.len(),
    {
        visited.push(0);
    }
    proof {
        assert(visited@ =~= Seq::new(n as nat, |j: int| 0u8));
        lemma_count_below_all(n as nat, 0, 2);
    }
    let ghost mut act: Seq<int> = Seq::new(n as nat, |j: int| 0int);
    let mut pass_idx: usize = 0;
    while pass_idx < n
        invariant
            n == nodes.len(),
            adj == adjacency(nodes@),
            edges_in_bounds(adj),
            acyc == acyclic(adj),
            acyc ==> is_ranking(adj, r),
            visited.len() == n,
            pass_idx <= n,
            stack.len() == 0,
            finished_are_output(visited@, sorted@),
            path_on_stack(visited@, stack@, act),
            forall|i: int| 0 <= i < n ==> visited[i] != 1,
            forall|i: int| 0 <= i < pass_idx ==> visited[i] == 2,
            acyc ==> successors_first(sorted@, adj),
        decreases n - pass_idx,
    {
        stack.push(pass_idx);
        while stack.len() > 0
            invariant
                n == nodes.len(),
                adj == adjacency(nodes@),
                edges_in_bounds(adj),
                acyc ==> is_ranking(adj, r),
                visited.len() == n,
                pass_idx < n,
                stack.len() > 0 ==> stack[0] == pass_idx,
                stack.len() == 0 ==> visited[pass_idx as int] == 2,
                finished_are_output(visited@, sorted@),
                path_on_stack(visited@, stack@, act),
                forall|i: int| 0 <= i < pass_idx ==> visited[i] == 2,
                acyc ==> successors_pending(adj, visited@, stack@, act),
                acyc ==> ranks_rise(visited@, stack@, act, r),
                acyc ==> successors_first(sorted@, adj),
            decreases count_below(visited@, 1), count_below(visited@, 2), stack.len(),
        {
            let top = stack.len() - 1;
            let to_visit = stack[top];
            let state = visited[to_visit];
            if state == 0 {
                let ghost pre = visited@;
                let ghost old_act = act;
                proof {
                    lemma_count_below_update(visited@, to_visit as int, 1, 1);
                    lemma_count_below_update(visited@, to_visit as int, 1, 2);
                    if acyc {
                        assert forall|k: int| 0 <= k < adj[to_visit as int].len() && adj[to_visit as int][k]
                            != to_visit implies visited[#[trigger] adj[to_visit as int][k] as int] != 1 by {
                            let c = adj[to_visit as int][k] as int;
                            assert(r[to_visit as int] < r[c]);
                            if visited[c] == 1 {
                                assert(stack[act[c]] == c);
                                assert(act[c] < top);
                                assert(r[c] < r[stack[top as int] as int]);
                            }
                        }
                    }
                }
                visited.set(to_visit, 1);
                proof {
                    act = act.update(to_visit as int, top as int);
                }
                let ghost base = stack@;
                let ghost vis = visited@;
                let children = &nodes[to_visit].output_nodes;
                assert(children@ == adj[to_visit as int]);
                let mut k: usize = 0;
                while k < children.len()
                    invariant
                        n == nodes.len(),
                        adj == adjacency(nodes@),
                        edges_in_bounds(adj),
                        acyc ==> is_ranking(adj, r),
                        children@ == adj[to_visit as int],
                        to_visit < n,
                        top < base.len(),
                        base[top as int] == to_visit,
                        visited@ == vis,
                        vis.len() == n,
                        vis[to_visit as int] == 1,
                        act.len() == n,
                        act[to_visit as int] == top,
                        k <= children.len(),
                        stack.len() >= base.len(),
                        stack@.take(base.len() as int) == base,
                        forall|q: int|
                            base.len() <= q < stack.len() ==> children@.contains(#[trigger] stack[q]),
                        forall|q: int| base.len() <= q < stack.len() ==> vis[#[trigger] stack[q] as int] == 0,
                        forall|j: int|
                            0 <= j < k ==> vis[children[j] as int] != 0 || exists|q: int|
                                top < q < stack.len() && #[trigger] stack[q] == children[j],
                    decreases children.len() - k,
                {
                    let ghost before = stack@;
                    let child = children[k];
                    if visited[child] == 0 {
                        stack.push(child);
                    }
                    proof {
                        assert forall|j: int|
                            0 <= j < k + 1 implies vis[children[j] as int] != 0 || exists|q: int|
                            top < q < stack.len() && #[trigger] stack[q] == children[j] by {
                            if j < k && vis[children[j] as int] == 0 {
                                let q = choose|q: int|
                                    top < q < before.len() && #[trigger] before[q] == children[j];
                                assert(stack@[q] == before[q]);
                            }
                            if j == k && vis[children[j] as int] == 0 {
                                assert(stack[stack.len() - 1] == children[j]);
                            }
                        }
                        assert(stack@.take(base.len() as int) =~= base);
                        assert forall|q: int|
                            base.len() <= q < stack.len() implies children@.contains(
                            #[trigger] stack[q]) by {
                            if q < before.len() {
                                assert(stack@[q] == before[q]);
                            } else {
                                assert(stack[q] == children[k as int]);
                            }
                        }
                        assert forall|q: int| base.len() <= q < stack.len() implies vis[#[trigger] stack[q] as int]
                            == 0 by {
                            if q < before.len() {
                                assert(stack@[q] == before[q]);
                            }
                        }
                    }
                    k += 1;
                }
                proof {
                    assert(stack@[top as int] == base[top as int]);
                    assert forall|g: int|
                        0 <= g < n && visited[g] == 1 implies 0 <= act[g] < stack.len()
                        && stack[act[g]] == g by {
                        if g != to_visit {
                            assert(stack@[act[g]] == base[act[g]]);
                        }
                    }
                    assert forall|q: int| 0 <= q < stack.len() implies stack[q] < n by {
                        if q >= base.len() {
                            let kk = choose|kk: int| 0 <= kk < children.len() && children[kk] == stack[q];
                            assert(adj[to_visit as int][kk] < n);
                        } else {
                            assert(stack@[q] == base[q]);
                        }
                    }
                    if acyc {
                        assert forall|g: int, kk: int|
                            #![trigger adj[g][kk]]
                            0 <= g < n && visited[g] == 1 && 0 <= kk < adj[g].len() && adj[g][kk] as int != g implies visited[adj[g][kk] as int]
                            == 2 || exists|q: int| act[g] < q < stack.len() && #[trigger] stack[q] == adj[g][kk] by {
                            let c = adj[g][kk];
                            if g == to_visit {
                                assert(children[kk] == c);
                                assert(pre[c as int] != 1);
                            } else {
                                assert(pre[g] == 1);
                                if pre[c as int] != 2 {
                                    let q = choose|q: int| old_act[g] < q < base.len() && #[trigger] base[q] == c;
                                    assert(stack@[q] == base[q]);
                                }
                            }
                        }
                        assert forall|g: int, q: int|
                            #![trigger act[g], stack[q]]
                            0 <= g < n && visited[g] == 1 && act[g] < q < stack.len() implies r[g] < r[
                            stack[q] as int] by {
                            if q >= base.len() {
                                let kk = choose|kk: int| 0 <= kk < children.len() && children[kk] == stack[q];
                                assert(vis[stack[q] as int] == 0);
                                assert(r[to_visit as int] < r[adj[to_visit as int][kk] as int]);
                                if g != to_visit {
                                    assert(pre[g] == 1);
                                    assert(base[old_act[g]] == g);
                                    assert(old_act[g] < top);
                                    assert(r[g] < r[base[top as int] as int]);
                                }
                            } else {
                                assert(stack@[q] == base[q]);
                            }
                        }
                    }
                }
            } else if state == 1 {
                proof {
                    lemma_count_below_update(visited@, to_visit as int, 2, 1);
                    lemma_count_below_update(visited@, to_visit as int, 2, 2);
                }
                let ghost old_sorted = sorted@;
                let ghost old_stack = stack@;
                let ghost old_visited = visited@;
                proof {
                    if acyc && act[to_visit as int] != top {
                        assert(r[to_visit as int] < r[stack[top as int] as int]);
                    }
                    assert(!sorted@.contains(to_visit));
                }
                visited.set(to_visit, 2);
                sorted.push(to_visit);
                stack.pop();
                proof {
                    assert forall|i: int| 0 <= i < n && visited[i] == 2 implies sorted@.contains(
                        i as usize) by {
                        if i != to_visit {
                            assert(old_visited[i] == 2);
                            let kk = choose|kk: int| 0 <= kk < old_sorted.len() && old_sorted[kk] == i as usize;
                            assert(sorted@[kk] == old_sorted[kk]);
                        } else {
                            assert(sorted@[sorted.len() - 1] == to_visit);
                        }
                    }
                    assert forall|g: int|
                        0 <= g < n && visited[g] == 1 implies 0 <= act[g] < stack.len()
                        && stack[act[g]] == g by {
                        assert(old_stack[act[g]] == g);
                        assert(act[g] != top);
                        assert(stack@[act[g]] == old_stack[act[g]]);
                    }
                    if acyc {
                        assert(act[to_visit as int] == top);
                        assert forall|kk: int| 0 <= kk < adj[to_visit as int].len() && adj[to_visit as int][kk]
                            != to_visit implies old_visited[#[trigger] adj[to_visit as int][kk] as int] == 2 by {
                            let c = adj[to_visit as int][kk];
                            if old_visited[c as int] != 2 {
                                let q = choose|q: int| act[to_visit as int] < q < old_stack.len() && #[trigger] old_stack[q] == c;
                                assert(false);
                            }
                        }
                        assert forall|a: int, kk: int|
                            0 <= a < sorted.len() && 0 <= kk < adj[sorted[a] as int].len() && adj[sorted[a] as int][kk]
                            != sorted[a] implies sorted@.take(a).contains(
                            #[trigger] adj[sorted[a] as int][kk]) by {
                            if a < old_sorted.len() {
                                assert(sorted@.take(a) =~= old_sorted.take(a));
                                assert(sorted@[a] == old_sorted[a]);
                            } else {
                                assert(sorted@.take(a) =~= old_sorted);
                                assert(sorted@[a] == to_visit);
                                assert(old_visited[adj[to_visit as int][kk] as int] == 2);
                            }
                        }
                        assert forall|g: int, kk: int|
                            #![trigger adj[g][kk]]
                            0 <= g < n && visited[g] == 1 && 0 <= kk < adj[g].len() && adj[g][kk] as int != g implies visited[adj[g][kk] as int]
                            == 2 || exists|q: int| act[g] < q < stack.len() && #[trigger] stack[q] == adj[g][kk] by {
                            let c = adj[g][kk];
                            assert(old_visited[g] == 1);
                            if old_visited[c as int] != 2 {
                                let q = choose|q: int| act[g] < q < old_stack.len() && #[trigger] old_stack[q] == c;
                                if q == top {
                                    assert(c == to_visit);
                                } else {
                                    assert(stack@[q] == old_stack[q]);
                                }
                            }
                        }
                    }
                }
            } else {
                let ghost old_stack = stack@;
                stack.pop();
                proof {
                    assert forall|g: int|
                        0 <= g < n && visited[g] == 1 implies 0 <= act[g] < stack.len()
                        && stack[act[g]] == g by {
                        assert(old_stack[act[g]] == g);
                        assert(act[g] != top);
                        assert(stack@[act[g]] == old_stack[act[g]]);
                    }
                    if acyc {
                        assert forall|g: int, kk: int|
                            #![trigger adj[g][kk]]
                            0 <= g < n && visited[g] == 1 && 0 <= kk < adj[g].len() && adj[g][kk] as int != g implies visited[adj[g][kk] as int]
                            == 2 || exists|q: int| act[g] < q < stack.len() && #[trigger] stack[q] == adj[g][kk] by {
                            let c = adj[g][kk];
                            if visited[c as int] != 2 {
                                let q = choose|q: int| act[g] < q < old_stack.len() && #[trigger] old_stack[q] == c;
                                if q == top {
                                    assert(c == to_visit);
                                } else {
                                    assert(stack@[q] == old_stack[q]);
                                }
                            }
                        }
                    }
                }
            }
        }
        pass_idx += 1;
    }
    proof {
        assert forall|i: int| 0 <= i < n implies visited@[i] >= 2 by {}
        lemma_count_below_none(visited@, 2);
        assert forall|i: usize| i < n implies #[trigger] sorted@.contains(i) by {
            assert(visited[i as int] == 2);
        }
    }
    sorted
}

} // verus!

verus! {

/// A resource that passes read from and write to.
#[derive(Debug, Clone, Copy, PartialEq, Eq, Structural)]
pub enum RenderPassResource {
    SwapchainImage,
    /// An image, by the id of its handle in the resource manager.
    Image(usize),
}

/// Different resources are filed under different keys: the swapchain image never
/// shares a key with an image, and two images share one only when they are the same.
pub proof fn resource_keys_are_distinct(a: RenderPassResource, b: RenderPassResource)
    ensures
        a.spec_key() == b.spec_key() <==> a == b,
{
}

impl RenderPassResource {
    /// The key under which the graph files uses of this resource.
    pub open spec fn spec_key(self) -> (u8, usize) {
        match self {
            RenderPassResource::SwapchainImage => (0u8, 0usize),
            RenderPassResource::Image(id) => (1u8, id),
        }
    }

    pub fn key(&self) -> (k: (u8, usize))
        ensures
            k == self.spec_key(),
    {
        match self {
            RenderPassResource::SwapchainImage => (0u8, 0usize),
            RenderPassResource::Image(id) => (1u8, *id),
        }
    }
}

/// For each resource key, the set of passes that use it, held in a hashbrown map of
/// hashbrown sets. The order in which a set is walked is left to hashbrown.
#[verifier::external_body]
pub struct PassUseMap {
    map: hashbrown::HashMap<(u8, usize), hashbrown::HashSet<usize>>,
}

/// What a [`PassUseMap`] holds.
pub uninterp spec fn pass_uses(m: PassUseMap) -> Map<(u8, usize), Set<usize>>;

/// Calls `hashbrown::HashMap::new`: the map starts empty.
#[verifier::external_body]
fn pass_use_map_new() -> (fresh: PassUseMap)
    ensures
        pass_uses(fresh) =~= Map::empty(),
{
    PassUseMap { map: hashbrown::HashMap::new() }
}

/// Calls `entry(key).or_insert_with(HashSet::new).insert(pass)` on the hashbrown map:
/// the set filed under `key` (empty when there was none) gains `pass`; every other key
/// keeps its set.
#[verifier::external_body]
fn pass_use_map_add(m: &mut PassUseMap, key: (u8, usize), pass: usize)
    ensures
        pass_uses(*final(m)) == pass_uses(*old(m)).insert(
            key,
            if pass_uses(*old(m)).contains_key(key) {
                pass_uses(*old(m))[key].insert(pass)
            } else {
                Set::<usize>::empty().insert(pass)
            },
        ),
{
    m.map.entry(key).or_insert_with(hashbrown::HashSet::new).insert(pass);
}

/// Calls `get(&key)` on the hashbrown map and walks the set it finds: the result lists
/// that set's members once each, in the order hashbrown walks them, and is empty when no
/// set is filed under `key`.
#[verifier::external_body]
fn pass_use_map_get(m: &PassUseMap, key: (u8, usize)) -> (v: Vec<usize>)
    ensures
        v@.no_duplicates(),
        pass_uses(*m).contains_key(key) ==> v@.to_set() == pass_uses(*m)[key],
        !pass_uses(*m).contains_key(key) ==> v@.len() == 0,
{
    match m.map.get(&key) {
        Some(set) => set.iter().copied().collect(),
        None => Vec::new(),
    }
}

/// A rectangle in pixels: an offset and a size.
#[derive(Debug, Clone, Copy, PartialEq, Eq, Structural)]
pub struct Rect2D {
    pub x: i32,
    pub y: i32,
    pub width: u32,
    pub height: u32,
}

impl Rect2D {
    /// A rectangle at the origin.
    pub fn from_width_height(width: u32, height: u32) -> (r: Rect2D)
        ensures
            r == (Rect2D { x: 0, y: 0, width, height }),
    {
        Rect2D { x: 0, y: 0, width, height }
    }
}

/// What an attachment of a pass is: the swapchain image, or an image by the id of its
/// handle in the resource manager.
#[derive(Debug, Clone, Copy, PartialEq, Eq, Structural)]
pub enum AttachmentType {
    SwapchainImage,
    Reference(usize),
}

/// How a pass uses an attachment: what it does with the contents when rendering begins
/// and ends, and the layout the attachment is in. The clear value stays with the caller.
#[derive(Debug, Clone, Copy, PartialEq, Eq, Structural)]
pub struct AttachmentDesc {
    pub load_op: AttachmentLoadOp,
    pub store_op: AttachmentStoreOp,
    pub layout: Layout,
}

/// The color attachments after `ty` is set to `desc`: an attachment of the same type is
/// replaced where it stands, a new one goes last.
pub open spec fn set_color_attachment(
    colors: Seq<(AttachmentType, AttachmentDesc)>,
    ty: AttachmentType,
    desc: AttachmentDesc,
) -> Seq<(AttachmentType, AttachmentDesc)> {
    if exists|i: int| 0 <= i < colors.len() && #[trigger] colors[i].0 == ty {
        colors.update(choose|i: int| 0 <= i < colors.len() && #[trigger] colors[i].0 == ty, (ty, desc))
    } else {
        colors.push((ty, desc))
    }
}

/// No attachment type appears twice.
pub open spec fn attachment_types_unique(colors: Seq<(AttachmentType, AttachmentDesc)>) -> bool {
    forall|i: int, j: int| 0 <= i < j < colors.len() ==> #[trigger] colors[i].0 != #[trigger] colors[j].0
}

/// What the graph knows of a pass: the resources it reads and writes and how it draws.
pub struct RenderPass {
    pub inputs: Vec<RenderPassResource>,
    pub outputs: Vec<RenderPassResource>,
    pub color_attachments: Vec<(AttachmentType, AttachmentDesc)>,
    pub depth_attachment: Option<(AttachmentType, AttachmentDesc)>,
    pub render_area: Option<Rect2D>,
    pub flipped_viewport: bool,
    pub name: Option<String>,
}

impl RenderPass {
    /// A pass with no resources and no attachments, drawing over the whole surface with
    /// a flipped viewport.
    pub fn new() -> (p: RenderPass)
        ensures
            p.inputs@.len() == 0,
            p.outputs@.len() == 0,
            p.color_attachments@.len() == 0,
            p.depth_attachment.is_none(),
            p.render_area.is_none(),
            p.flipped_viewport,
            p.name.is_none(),
    {
        RenderPass {
            inputs: Vec::new(),
            outputs: Vec::new(),
            color_attachments: Vec::new(),
            depth_attachment: None,
            render_area: None,
            flipped_viewport: true,
            name: None,
        }
    }

    pub fn with_render_area(self, render_area: Rect2D) -> (p: RenderPass)
        ensures
            p.render_area == Some(render_area),
            p.inputs@ == self.inputs@,
            p.outputs@ == self.outputs@,
            p.color_attachments@ == self.color_attachments@,
            p.depth_attachment == self.depth_attachment,
            p.flipped_viewport == self.flipped_viewport,
            p.name == self.name,
    {
        let mut p = self;
        p.render_area = Some(render_area);
        p
    }

    pub fn with_flipped_viewport(self, flipped: bool) -> (p: RenderPass)
        ensures
            p.flipped_viewport == flipped,
            p.render_area == self.render_area,
            p.inputs@ == self.inputs@,
            p.outputs@ == self.outputs@,
            p.color_attachments@ == self.color_attachments@,
            p.depth_attachment == self.depth_attachment,
            p.name == self.name,
    {
        let mut p = self;
        p.flipped_viewport = flipped;
        p
    }

    pub fn with_name(self, name: String) -> (p: RenderPass)
        ensures
            p.name == Some(name),
            p.flipped_viewport == self.flipped_viewport,
            p.render_area == self.render_area,
            p.inputs@ == self.inputs@,
            p.outputs@ == self.outputs@,
            p.color_attachments@ == self.color_attachments@,
            p.depth_attachment == self.depth_attachment,
    {
        let mut p = self;
        p.name = Some(name);
        p
    }

    pub fn add_input(self, input: RenderPassResource) -> (p: RenderPass)
        ensures
            p.inputs@ == self.inputs@.push(input),
            p.outputs@ == self.outputs@,
            p.color_attachments@ == self.color_attachments@,
            p.depth_attachment == self.depth_attachment,
            p.render_area == self.render_area,
            p.flipped_viewport == self.flipped_viewport,
            p.name == self.name,
    {
        let mut p = self;
        p.inputs.push(input);
        p
    }

    pub fn add_output(self, output: RenderPassResource) -> (p: RenderPass)
        ensures
            p.outputs@ == self.outputs@.push(output),
            p.inputs@ == self.inputs@,
            p.color_attachments@ == self.color_attachments@,
            p.depth_attachment == self.depth_attachment,
            p.render_area == self.render_area,
            p.flipped_viewport == self.flipped_viewport,
            p.name == self.name,
    {
        let mut p = self;
        p.outputs.push(output);
        p
    }

    /// Sets the color attachment of type `ty` (see [`set_color_attachment`]).
    pub fn add_color_attachment(self, ty: AttachmentType, desc: AttachmentDesc) -> (p: RenderPass)
        requires
            attachment_types_unique(self.color_attachments@),
        ensures
            attachment_types_unique(p.color_attachments@),
            p.color_attachments@ == set_color_attachment(self.color_attachments@, ty, desc),
            p.inputs@ == self.inputs@,
            p.outputs@ == self.outputs@,
            p.depth_attachment == self.depth_attachment,
            p.render_area == self.render_area,
            p.flipped_viewport == self.flipped_viewport,
            p.name == self.name,
    {
        let mut p = self;
        let mut i: usize = 0;
        while i < p.color_attachments.len()
            invariant
                i <= p.color_attachments@.len(),
                p.color_attachments@ == self.color_attachments@,
                attachment_types_unique(self.color_attachments@),
                p.inputs@ == self.inputs@,
                p.outputs@ == self.outputs@,
                p.depth_attachment == self.depth_attachment,
                p.render_area == self.render_area,
                p.flipped_viewport == self.flipped_viewport,
                p.name == self.name,
                forall|j: int| 0 <= j < i ==> #[trigger] p.color_attachments@[j].0 != ty,
            decreases p.color_attachments@.len() - i,
        {
            if p.color_attachments[i].0 == ty {
                proof {
                    let w = choose|w: int| 0 <= w < p.color_attachments@.len() && #[trigger] p.color_attachments@[w].0 == ty;
                    if w != i {
                        if w < i {
                            assert(p.color_attachments@[w].0 != ty);
                        } else {
                            assert(p.color_attachments@[i as int].0 != p.color_attachments@[w].0);
                        }
                    }
                }
                p.color_attachments.set(i, (ty, desc));
                proof {
                    assert forall|a: int, b: int| 0 <= a < b < p.color_attachments@.len()
                        implies #[trigger] p.color_attachments@[a].0 != #[trigger] p.color_attachments@[b].0 by {
                        assert(self.color_attachments@[a].0 != self.color_attachments@[b].0);
                    }
                }
                return p;
            }
            i += 1;
        }
        p.color_attachments.push((ty, desc));
        proof {
            assert(!exists|w: int| 0 <= w < self.color_attachments@.len() && #[trigger] self.color_attachments@[w].0 == ty);
            assert forall|a: int, b: int| 0 <= a < b < p.color_attachments@.len()
                implies #[trigger] p.color_attachments@[a].0 != #[trigger] p.color_attachments@[b].0 by {
                if b < self.color_attachments@.len() {
                    assert(self.color_attachments@[a].0 != self.color_attachments@[b].0);
                }
            }
        }
        p
    }

    pub fn set_depth_attachment(self, ty: AttachmentType, desc: AttachmentDesc) -> (p: RenderPass)
        ensures
            p.depth_attachment == Some((ty, desc)),
            p.color_attachments@ == self.color_attachments@,
            p.inputs@ == self.inputs@,
            p.outputs@ == self.outputs@,
            p.render_area == self.render_area,
            p.flipped_viewport == self.flipped_viewport,
            p.name == self.name,
    {
        let mut p = self;
        p.depth_attachment = Some((ty, desc));
        p
    }
}

/// The keys of a list of resources.
pub open spec fn keys_of(rs: Seq<RenderPassResource>) -> Seq<(u8, usize)> {
    rs.map_values(|r: RenderPassResource| r.spec_key())
}

/// The keys a pass reads (`writes == false`) or writes (`writes == true`).
pub open spec fn pass_keys(p: RenderPass, writes: bool) -> Seq<(u8, usize)> {
    if writes {
        keys_of(p.outputs@)
    } else {
        keys_of(p.inputs@)
    }
}

/// The passes that read (or write) the resource with key `k`.
pub open spec fn users(passes: Seq<RenderPass>, writes: bool, k: (u8, usize)) -> Set<usize> {
    Set::new(|i: usize| i < passes.len() && pass_keys(passes[i as int], writes).contains(k))
}

/// The map from each used key to its users.
pub open spec fn use_map(passes: Seq<RenderPass>, writes: bool) -> Map<(u8, usize), Set<usize>> {
    Map::new(
        |k: (u8, usize)| users(passes, writes, k) != Set::<usize>::empty(),
        |k: (u8, usize)| users(passes, writes, k),
    )
}

/// Pass `j` reads a resource that pass `i` writes.
pub open spec fn feeds(passes: Seq<RenderPass>, i: int, j: int) -> bool {
    exists|t: int|
        0 <= t < passes[i].outputs@.len() && keys_of(passes[j].inputs@).contains(
            #[trigger] passes[i].outputs@[t].spec_key(),
        )
}

/// A pass feeds another exactly when the other reads a resource that it writes: one
/// and the same resource, not merely one filed under the same key.
pub proof fn feeds_means_a_shared_resource(passes: Seq<RenderPass>, i: int, j: int)
    requires
        0 <= i < passes.len(),
        0 <= j < passes.len(),
    ensures
        feeds(passes, i, j) <==> exists|t: int, u: int|
            0 <= t < passes[i].outputs@.len() && 0 <= u < passes[j].inputs@.len() && #[trigger] passes[i].outputs@[t]
                == #[trigger] passes[j].inputs@[u],
{
    let outs = passes[i].outputs@;
    let ins = passes[j].inputs@;
    if feeds(passes, i, j) {
        let t = choose|t: int| 0 <= t < outs.len() && keys_of(ins).contains(#[trigger] outs[t].spec_key());
        let u = choose|u: int| 0 <= u < keys_of(ins).len() && keys_of(ins)[u] == outs[t].spec_key();
        assert(keys_of(ins)[u] == ins[u].spec_key());
        resource_keys_are_distinct(outs[t], ins[u]);
        assert(outs[t] == ins[u]);
    }
    if exists|t: int, u: int| 0 <= t < outs.len() && 0 <= u < ins.len() && #[trigger] outs[t] == #[trigger] ins[u] {
        let (t, u) = choose|t: int, u: int| 0 <= t < outs.len() && 0 <= u < ins.len() && #[trigger] outs[t] == #[trigger] ins[u];
        assert(keys_of(ins)[u] == outs[t].spec_key());
        assert(keys_of(ins).contains(outs[t].spec_key()));
    }
}

/// No chain of two or more passes feeds a pass back into itself: some numbering of the
/// passes increases from every pass to every other pass it feeds. A pass that reads
/// what it writes itself is no cycle.
pub open spec fn dependencies_acyclic(passes: Seq<RenderPass>) -> bool {
    exists|r: Seq<int>|
        r.len() == passes.len() && forall|i: int, j: int|
            0 <= i < passes.len() && 0 <= j < passes.len() && i != j && #[trigger] feeds(passes, i, j)
                ==> r[i] < r[j]
}

/// Adding a pass files it, under its index, with the readers of every resource it reads
/// and the writers of every resource it writes, and leaves every other set of users as
/// it was.
pub proof fn added_pass_is_filed(passes: Seq<RenderPass>, pass: RenderPass, writes: bool, k: (u8, usize))
    requires
        passes.len() < usize::MAX,
    ensures
        users(passes.push(pass), writes, k) == if pass_keys(pass, writes).contains(k) {
            users(passes, writes, k).insert(passes.len() as usize)
        } else {
            users(passes, writes, k)
        },
{
    let after = passes.push(pass);
    assert forall|i: usize| i < passes.len() implies (pass_keys(after[i as int], writes).contains(k) <==> pass_keys(
        passes[i as int],
        writes,
    ).contains(k)) by {
        assert(after[i as int] == passes[i as int]);
    }
    assert(after[passes.len() as int] == pass);
    if pass_keys(pass, writes).contains(k) {
        assert(users(after, writes, k) =~= users(passes, writes, k).insert(passes.len() as usize));
    } else {
        assert(users(after, writes, k) =~= users(passes, writes, k));
    }
}

/// The users of `k` among `passes`, together with the pass about to be added (index
/// `passes.len()`) when `extra`, the keys of that pass seen so far, holds `k`.
spec fn users_with(passes: Seq<RenderPass>, writes: bool, extra: Seq<(u8, usize)>, k: (u8, usize)) -> Set<usize> {
    if extra.contains(k) {
        users(passes, writes, k).insert(passes.len() as usize)
    } else {
        users(passes, writes, k)
    }
}

spec fn use_map_with(passes: Seq<RenderPass>, writes: bool, extra: Seq<(u8, usize)>) -> Map<(u8, usize), Set<usize>> {
    Map::new(
        |k: (u8, usize)| users_with(passes, writes, extra, k) != Set::<usize>::empty(),
        |k: (u8, usize)| users_with(passes, writes, extra, k),
    )
}

proof fn lemma_use_map_with_none(passes: Seq<RenderPass>, writes: bool, extra: Seq<(u8, usize)>)
    requires
        extra.len() == 0,
    ensures
        use_map_with(passes, writes, extra) == use_map(passes, writes),
{
    assert(use_map_with(passes, writes, extra) =~= use_map(passes, writes));
}

proof fn lemma_use_map_with_step(
    passes: Seq<RenderPass>,
    writes: bool,
    keys: Seq<(u8, usize)>,
    j: int,
)
    requires
        0 <= j < keys.len(),
        passes.len() < usize::MAX,
    ensures
        ({
            let before = use_map_with(passes, writes, keys.take(j));
            let key = keys[j];
            let id = passes.len() as usize;
            before.insert(
                key,
                if before.contains_key(key) {
                    before[key].insert(id)
                } else {
                    Set::<usize>::empty().insert(id)
                },
            ) == use_map_with(passes, writes, keys.take(j + 1))
        }),
{
    let before = use_map_with(passes, writes, keys.take(j));
    let after = use_map_with(passes, writes, keys.take(j + 1));
    let key = keys[j];
    let id = passes.len() as usize;
    let updated = before.insert(
        key,
        if before.contains_key(key) {
            before[key].insert(id)
        } else {
            Set::<usize>::empty().insert(id)
        },
    );
    assert forall|k: (u8, usize)| #[trigger] keys.take(j + 1).contains(k) <==> (keys.take(j).contains(k) || k == key) by {
        if keys.take(j + 1).contains(k) {
            let t = choose|t: int| 0 <= t < j + 1 && #[trigger] keys.take(j + 1)[t] == k;
            if t < j {
                assert(keys.take(j)[t] == k);
            }
        }
        if keys.take(j).contains(k) {
            let t = choose|t: int| 0 <= t < j && #[trigger] keys.take(j)[t] == k;
            assert(keys.take(j + 1)[t] == k);
        }
        if k == key {
            assert(keys.take(j + 1)[j] == k);
        }
    }
    assert forall|k: (u8, usize)| #[trigger] users_with(passes, writes, keys.take(j + 1), k) == if k == key {
        users(passes, writes, k).insert(id)
    } else {
        users_with(passes, writes, keys.take(j), k)
    } by {
        assert(keys.take(j + 1).contains(k) <==> (keys.take(j).contains(k) || k == key));
    }
    assert(users_with(passes, writes, keys.take(j + 1), key).contains(id));
    assert forall|k: (u8, usize)| updated.contains_key(k) <==> after.contains_key(k) by {
        if k == key {
            assert(users_with(passes, writes, keys.take(j + 1), k).contains(id));
        }
    }
    assert forall|k: (u8, usize)| updated.contains_key(k) implies updated[k] == after[k] by {
        if k == key {
            if before.contains_key(key) {
                assert(before[key].insert(id) =~= users(passes, writes, k).insert(id));
            } else {
                assert(users(passes, writes, k) =~= Set::<usize>::empty());
                assert(Set::<usize>::empty().insert(id) =~= users(passes, writes, k).insert(id));
            }
        }
    }
    assert(updated =~= after);
}

proof fn lemma_use_map_with_all(passes: Seq<RenderPass>, writes: bool, p: RenderPass)
    requires
        passes.len() < usize::MAX,
    ensures
        use_map_with(passes, writes, pass_keys(p, writes)) == use_map(passes.push(p), writes),
{
    let grown = passes.push(p);
    assert forall|k: (u8, usize)| #[trigger] users(grown, writes, k) == users_with(passes, writes, pass_keys(p, writes), k) by {
        assert forall|i: usize| #[trigger] users(grown, writes, k).contains(i) <==> users_with(passes, writes, pass_keys(p, writes), k).contains(i) by {
            if i < passes.len() {
                assert(grown[i as int] == passes[i as int]);
            }
            if i == passes.len() {
                assert(grown[i as int] == p);
            }
        }
        assert(users(grown, writes, k) =~= users_with(passes, writes, pass_keys(p, writes), k));
    }
    assert(use_map_with(passes, writes, pass_keys(p, writes)) =~= use_map(grown, writes));
}


/// The passes filed in `map` under any of the resources `rs`, in the order of `rs`.
fn collect_users(
    map: &PassUseMap,
    rs: &Vec<RenderPassResource>,
    Ghost(passes): Ghost<Seq<RenderPass>>,
    Ghost(writes): Ghost<bool>,
) -> (found: Vec<usize>)
    requires
        pass_uses(*map) == use_map(passes, writes),
    ensures
        forall|x: usize|
            #![trigger found@.contains(x)]
            found@.contains(x) <==> exists|t: int|
                0 <= t < rs.len() && #[trigger] users(passes, writes, rs@[t].spec_key()).contains(x),
{
    let mut found: Vec<usize> = Vec::new();
    let mut k: usize = 0;
    while k < rs.len()
        invariant
            k <= rs.len(),
            pass_uses(*map) == use_map(passes, writes),
            forall|x: usize|
                #![trigger found@.contains(x)]
                found@.contains(x) <==> exists|t: int|
                    0 <= t < k && #[trigger] users(passes, writes, rs@[t].spec_key()).contains(x),
        decreases rs.len() - k,
    {
        let key = rs[k].key();
        let mut more = pass_use_map_get(map, key);
        let ghost old_found = found@;
        let ghost got = more@;
        proof {
            if !pass_uses(*map).contains_key(key) {
                assert(users(passes, writes, key) =~= Set::<usize>::empty());
            }
        }
        found.append(&mut more);
        proof {
            assert forall|x: usize|
                #![trigger found@.contains(x)]
                found@.contains(x) <==> exists|t: int|
                    0 <= t < k + 1 && #[trigger] users(passes, writes, rs@[t].spec_key()).contains(x) by {
                if found@.contains(x) {
                    let p = choose|p: int| 0 <= p < found@.len() && found@[p] == x;
                    if p < old_found.len() {
                        assert(old_found[p] == x);
                        assert(old_found.contains(x));
                    } else {
                        assert(got[p - old_found.len()] == x);
                        assert(got.contains(x));
                        assert(got.to_set().contains(x));
                        assert(users(passes, writes, rs@[k as int].spec_key()).contains(x));
                    }
                }
                if exists|t: int| 0 <= t < k + 1 && #[trigger] users(passes, writes, rs@[t].spec_key()).contains(x) {
                    let t = choose|t: int| 0 <= t < k + 1 && #[trigger] users(passes, writes, rs@[t].spec_key()).contains(x);
                    if t < k {
                        assert(old_found.contains(x));
                        let p = choose|p: int| 0 <= p < old_found.len() && old_found[p] == x;
                        assert(found@[p] == x);
                    } else {
                        assert(got.to_set().contains(x));
                        let p = choose|p: int| 0 <= p < got.len() && got[p] == x;
                        assert(found@[old_found.len() + p] == x);
                    }
                }
            }
        }
        k += 1;
    }
    found
}

/// The passes of a frame, with for each resource the passes that read and write it.
pub struct RenderGraph {
    passes: Vec<RenderPass>,
    input_map: PassUseMap,
    output_map: PassUseMap,
}

impl RenderGraph {
    /// The passes added so far, in order.
    pub closed spec fn passes(self) -> Seq<RenderPass> {
        self.passes@
    }

    /// The passes filed under resource key `k` in the graph's map of readers
    /// (`writes == false`) or writers (`writes == true`); none where the key is not filed.
    pub closed spec fn filed_users(self, writes: bool, k: (u8, usize)) -> Set<usize> {
        let m = if writes { pass_uses(self.output_map) } else { pass_uses(self.input_map) };
        if m.contains_key(k) {
            m[k]
        } else {
            Set::empty()
        }
    }

    /// In a well-formed graph the maps file under each resource exactly the passes that
    /// read (or write) it.
    pub proof fn lemma_filed_users(self, writes: bool, k: (u8, usize))
        requires
            self.wf(),
        ensures
            self.filed_users(writes, k) == users(self.passes(), writes, k),
    {
        let u = users(self.passes(), writes, k);
        if u == Set::<usize>::empty() {
            assert(!use_map(self.passes@, writes).contains_key(k));
        }
    }

    /// The use maps agree with the passes.
    pub closed spec fn wf(self) -> bool {
        &&& pass_uses(self.input_map) == use_map(self.passes@, false)
        &&& pass_uses(self.output_map) == use_map(self.passes@, true)
    }

    pub fn new() -> (g: RenderGraph)
        ensures
            g.wf(),
            g.passes().len() == 0,
    {
        let g = RenderGraph {
            passes: Vec::new(),
            input_map: pass_use_map_new(),
            output_map: pass_use_map_new(),
        };
        proof {
            assert forall|w: bool, k: (u8, usize)| #[trigger] users(g.passes@, w, k) == Set::<usize>::empty() by {
                assert(users(g.passes@, w, k) =~= Set::<usize>::empty());
            }
            assert(use_map(g.passes@, false) =~= Map::empty());
            assert(use_map(g.passes@, true) =~= Map::empty());
        }
        g
    }

    /// How many passes the graph has.
    pub fn pass_count(&self) -> (n: usize)
        ensures
            n == self.passes().len(),
    {
        self.passes.len()
    }

    /// Whether a frame can record every pass: color attachments on the swapchain image
    /// only, and depth attachments on images only.
    pub fn recordable(&self) -> (ok: bool)
        ensures
            ok == forall|i: int| 0 <= i < self.passes().len() ==> attachments_recordable(#[trigger] self.passes()[i]),
    {
        let mut i: usize = 0;
        while i < self.passes.len()
            invariant
                i <= self.passes@.len(),
                forall|j: int| 0 <= j < i ==> attachments_recordable(#[trigger] self.passes@[j]),
            decreases self.passes@.len() - i,
        {
            let pass = &self.passes[i];
            let mut c: usize = 0;
            while c < pass.color_attachments.len()
                invariant
                    i < self.passes@.len(),
                    *pass == self.passes@[i as int],
                    c <= pass.color_attachments@.len(),
                    forall|k: int| 0 <= k < c ==> (#[trigger] pass.color_attachments@[k]).0 == AttachmentType::SwapchainImage,
                decreases pass.color_attachments@.len() - c,
            {
                match pass.color_attachments[c].0 {
                    AttachmentType::SwapchainImage => {},
                    AttachmentType::Reference(_) => {
                        assert(!attachments_recordable(self.passes()[i as int]));
                        return false;
                    },
                }
                c += 1;
            }
            match &pass.depth_attachment {
                Some((AttachmentType::SwapchainImage, _)) => {
                    assert(!attachments_recordable(self.passes()[i as int]));
                    return false;
                },
                _ => {},
            }
            assert(attachments_recordable(self.passes@[i as int]));
            i += 1;
        }
        true
    }

    /// Adds a pass; it gets the next index, and the use maps file it under every
    /// resource it reads and writes.
    pub fn add_pass(&mut self, pass: RenderPass)
        requires
            old(self).wf(),
            old(self).passes().len() < usize::MAX,
        ensures
            final(self).wf(),
            final(self).passes() == old(self).passes().push(pass),
    {
        let id = self.passes.len();
        let ghost start = self.passes@;
        let ghost in_keys = keys_of(pass.inputs@);
        let ghost out_keys = keys_of(pass.outputs@);
        proof {
            lemma_use_map_with_none(self.passes@, false, in_keys.take(0));
            lemma_use_map_with_none(self.passes@, true, out_keys.take(0));
        }
        let mut j: usize = 0;
        while j < pass.inputs.len()
            invariant
                id == self.passes.len(),
                self.passes@ == start,
                id < usize::MAX,
                j <= pass.inputs.len(),
                in_keys == keys_of(pass.inputs@),
                pass_uses(self.input_map) == use_map_with(self.passes@, false, in_keys.take(j as int)),
                pass_uses(self.output_map) == use_map(self.passes@, true),
            decreases pass.inputs.len() - j,
        {
            let key = pass.inputs[j].key();
            proof {
                lemma_use_map_with_step(self.passes@, false, in_keys, j as int);
            }
            pass_use_map_add(&mut self.input_map, key, id);
            j += 1;
        }
        proof {
            assert(in_keys.take(pass.inputs.len() as int) =~= in_keys);
            lemma_use_map_with_none(self.passes@, true, out_keys.take(0));
        }
        let mut j: usize = 0;
        while j < pass.outputs.len()
            invariant
                id == self.passes.len(),
                self.passes@ == start,
                id < usize::MAX,
                j <= pass.outputs.len(),
                out_keys == keys_of(pass.outputs@),
                pass_uses(self.input_map) == use_map_with(self.passes@, false, in_keys),
                in_keys == keys_of(pass.inputs@),
                pass_uses(self.output_map) == use_map_with(self.passes@, true, out_keys.take(j as int)),
            decreases pass.outputs.len() - j,
        {
            let key = pass.outputs[j].key();
            proof {
                lemma_use_map_with_step(self.passes@, true, out_keys, j as int);
            }
            pass_use_map_add(&mut self.output_map, key, id);
            j += 1;
        }
        proof {
            assert(out_keys.take(pass.outputs.len() as int) =~= out_keys);
            lemma_use_map_with_all(self.passes@, false, pass);
            lemma_use_map_with_all(self.passes@, true, pass);
        }
        self.passes.push(pass);
    }

    /// The dependency graph: for each pass, the passes that write what it reads and the
    /// passes that read what it writes.
    #[verifier::spinoff_prover]
    pub fn compile_nodes(&self) -> (nodes: Vec<RenderGraphNode>)
        requires
            self.wf(),
        ensures
            nodes.len() == self.passes().len(),
            forall|i: int, j: usize|
                0 <= i < nodes.len() ==> (#[trigger] nodes[i].output_nodes@.contains(j) <==> (j
                    < nodes.len() && feeds(self.passes(), i, j as int))),
            forall|i: int, j: usize|
                0 <= i < nodes.len() ==> (#[trigger] nodes[i].input_nodes@.contains(j) <==> (j
                    < nodes.len() && feeds(self.passes(), j as int, i))),
    {
        let ghost passes = self.passes@;
        let mut nodes: Vec<RenderGraphNode> = Vec::new();
        let mut i: usize = 0;
        while i < self.passes.len()
            invariant
                passes == self.passes@,
                self.wf(),
                i <= passes.len(),
                nodes.len() == i,
                forall|a: int, j: usize|
                    0 <= a < i ==> (#[trigger] nodes[a].output_nodes@.contains(j) <==> (j
                        < passes.len() && feeds(passes, a, j as int))),
                forall|a: int, j: usize|
                    0 <= a < i ==> (#[trigger] nodes[a].input_nodes@.contains(j) <==> (j
                        < passes.len() && feeds(passes, j as int, a))),
            decreases passes.len() - i,
        {
            let pass = &self.passes[i];
            let input_nodes = collect_users(&self.output_map, &pass.inputs, Ghost(passes), Ghost(true));
            let output_nodes = collect_users(&self.input_map, &pass.outputs, Ghost(passes), Ghost(false));
            proof {
                assert forall|j: usize| #[trigger] output_nodes@.contains(j) <==> (j < passes.len()
                    && feeds(passes, i as int, j as int)) by {
                    if output_nodes@.contains(j) {
                        let t = choose|t: int| 0 <= t < pass.outputs.len() && #[trigger] users(passes, false, pass.outputs@[t].spec_key()).contains(j);
                        assert(keys_of(passes[j as int].inputs@).contains(passes[i as int].outputs@[t].spec_key()));
                    }
                    if j < passes.len() && feeds(passes, i as int, j as int) {
                        let t = choose|t: int| 0 <= t < passes[i as int].outputs@.len() && keys_of(passes[j as int].inputs@).contains(
                            #[trigger] passes[i as int].outputs@[t].spec_key());
                        assert(users(passes, false, pass.outputs@[t].spec_key()).contains(j));
                    }
                }
                assert forall|j: usize| #[trigger] input_nodes@.contains(j) <==> (j < passes.len()
                    && feeds(passes, j as int, i as int)) by {
                    if input_nodes@.contains(j) {
                        let t = choose|t: int| 0 <= t < pass.inputs.len() && #[trigger] users(passes, true, pass.inputs@[t].spec_key()).contains(j);
                        let key = pass.inputs@[t].spec_key();
                        assert(keys_of(passes[j as int].outputs@).contains(key));
                        let u = choose|u: int| 0 <= u < keys_of(passes[j as int].outputs@).len() && keys_of(passes[j as int].outputs@)[u] == key;
                        assert(keys_of(passes[i as int].inputs@)[t] == key);
                        assert(keys_of(passes[i as int].inputs@).contains(passes[j as int].outputs@[u].spec_key()));
                    }
                    if j < passes.len() && feeds(passes, j as int, i as int) {
                        let u = choose|u: int| 0 <= u < passes[j as int].outputs@.len() && keys_of(passes[i as int].inputs@).contains(
                            #[trigger] passes[j as int].outputs@[u].spec_key());
                        let key = passes[j as int].outputs@[u].spec_key();
                        let t = choose|t: int| 0 <= t < keys_of(passes[i as int].inputs@).len() && keys_of(passes[i as int].inputs@)[t] == key;
                        assert(keys_of(passes[j as int].outputs@)[u] == key);
                        assert(users(passes, true, pass.inputs@[t].spec_key()).contains(j));
                    }
                }
            }
            nodes.push(RenderGraphNode { input_nodes, output_nodes });
            i += 1;
        }
        nodes
    }

    /// The order in which the passes run: each pass once, and, when no chain of two or
    /// more passes feeds a pass back into itself, every pass after all the other passes
    /// that write what it reads. A pass that reads what it writes itself does not stop
    /// this.
    pub fn execution_order(&self) -> (order: Vec<usize>)
        requires
            self.wf(),
        ensures
            order.len() == self.passes().len(),
            order@.no_duplicates(),
            forall|k: int| 0 <= k < order.len() ==> order[k] < self.passes().len(),
            forall|i: usize| i < self.passes().len() ==> #[trigger] order@.contains(i),
            dependencies_acyclic(self.passes()) ==> forall|a: int, b: int|
                0 <= a < order.len() && 0 <= b < order.len() && order[a] != order[b] && #[trigger] feeds(
                    self.passes(),
                    order[a] as int,
                    order[b] as int,
                ) ==> a < b,
    {
        let nodes = self.compile_nodes();
        let ghost passes = self.passes@;
        let ghost adj = adjacency(nodes@);
        proof {
            assert forall|i: int, k: int| 0 <= i < adj.len() && 0 <= k < adj[i].len() implies #[trigger] adj[i][k] < adj.len() by {
                assert(nodes[i].output_nodes@.contains(adj[i][k]));
            }
            if dependencies_acyclic(passes) {
                let r = choose|r: Seq<int>|
                    r.len() == passes.len() && forall|i: int, j: int|
                        0 <= i < passes.len() && 0 <= j < passes.len() && i != j && #[trigger] feeds(passes, i, j) ==> r[i] < r[j];
                assert forall|i: int, k: int| 0 <= i < adj.len() && 0 <= k < adj[i].len() && adj[i][k] as int != i implies r[i] < r[#[trigger] adj[i][k] as int] by {
                    assert(nodes[i].output_nodes@.contains(adj[i][k]));
                    assert(feeds(passes, i, adj[i][k] as int));
                }
                assert(is_ranking(adj, r));
            }
        }
        let sorted = sorted_nodes(&nodes);
        let n = sorted.len();
        let mut order: Vec<usize> = Vec::new();
        let mut t: usize = 0;
        while t < n
            invariant
                n == sorted.len(),
                t <= n,
                order.len() == t,
                forall|p: int| 0 <= p < t ==> order[p] == sorted[n - 1 - p],
            decreases n - t,
        {
            order.push(sorted[n - 1 - t]);
            t += 1;
        }
        proof {
            assert forall|a: int, b: int| 0 <= a < n && 0 <= b < n && a != b implies order[a] != order[b] by {
                assert(sorted[n - 1 - a] != sorted[n - 1 - b]);
            }
            assert forall|i: usize| i < passes.len() implies #[trigger] order@.contains(i) by {
                assert(sorted@.contains(i));
                let p = choose|p: int| 0 <= p < n && sorted[p] == i;
                assert(order[n - 1 - p] == i);
            }
            if dependencies_acyclic(passes) {
                assert forall|a: int, b: int|
                    0 <= a < n && 0 <= b < n && order[a] != order[b] && #[trigger] feeds(passes, order[a] as int, order[b] as int) implies a < b by {
                    let i = order[a];
                    let j = order[b];
                    let pa = n - 1 - a;
                    assert(sorted[pa] == i);
                    assert(nodes[i as int].output_nodes@.contains(j));
                    let k = choose|k: int| 0 <= k < adj[i as int].len() && adj[i as int][k] == j;
                    assert(sorted@.take(pa).contains(adj[sorted[pa] as int][k]));
                    let p = choose|p: int| 0 <= p < pa && sorted@.take(pa)[p] == j;
                    assert(sorted[p] == j);
                    assert(sorted[n - 1 - b] == j);
                }
            }
        }
        order
    }

    /// What a frame records, pass by pass in execution order: the pass, the area it
    /// renders to (its own, or else the whole surface) and whether its viewport is
    /// flipped. The viewport and scissor cover the surface.
    pub fn frame_plan(&self, surface_rect: Rect2D) -> (plan: Vec<PassPlan>)
        requires
            self.wf(),
            forall|i: int| 0 <= i < self.passes().len() ==> attachments_recordable(#[trigger] self.passes()[i]),
        ensures
            forall|k: int| 0 <= k < plan.len() ==> (#[trigger] plan[k]).colors@ == self.passes()[plan[k].pass as int].color_attachments@.map_values(
                |e: (AttachmentType, AttachmentDesc)| e.1),
            forall|k: int| 0 <= k < plan.len() ==> (#[trigger] plan[k]).depth == depth_target(self.passes()[plan[k].pass as int]),
            plan.len() == self.passes().len(),
            forall|k: int| 0 <= k < plan.len() ==> plan[k].pass < self.passes().len(),
            forall|a: int, b: int| 0 <= a < b < plan.len() ==> plan[a].pass != plan[b].pass,
            forall|k: int| 0 <= k < plan.len() ==> (#[trigger] plan[k]).render_area == match self.passes()[plan[k].pass as int].render_area {
                Some(area) => area,
                None => surface_rect,
            },
            forall|k: int| 0 <= k < plan.len() ==> (#[trigger] plan[k]).flipped_viewport == self.passes()[plan[k].pass as int].flipped_viewport,
            dependencies_acyclic(self.passes()) ==> forall|a: int, b: int|
                0 <= a < plan.len() && 0 <= b < plan.len() && plan[a].pass != plan[b].pass && #[trigger] feeds(
                    self.passes(),
                    plan[a].pass as int,
                    plan[b].pass as int,
                ) ==> a < b,
    {
        let order = self.execution_order();
        let mut plan: Vec<PassPlan> = Vec::new();
        let mut k: usize = 0;
        while k < order.len()
            invariant
                k <= order.len(),
                order.len() == self.passes().len(),
                forall|q: int| 0 <= q < order.len() ==> order[q] < self.passes().len(),
                plan.len() == k,
                forall|q: int| 0 <= q < k ==> (#[trigger] plan[q]).pass == order[q],
                forall|q: int| 0 <= q < k ==> (#[trigger] plan[q]).render_area == match self.passes()[order[q] as int].render_area {
                    Some(area) => area,
                    None => surface_rect,
                },
                forall|q: int| 0 <= q < k ==> (#[trigger] plan[q]).flipped_viewport == self.passes()[order[q] as int].flipped_viewport,
                forall|q: int| 0 <= q < k ==> (#[trigger] plan[q]).colors@ == self.passes()[order[q] as int].color_attachments@.map_values(
                    |e: (AttachmentType, AttachmentDesc)| e.1),
                forall|q: int| 0 <= q < k ==> (#[trigger] plan[q]).depth == depth_target(self.passes()[order[q] as int]),
            decreases order.len() - k,
        {
            let pass = &self.passes[order[k]];
            let render_area = match pass.render_area {
                Some(area) => area,
                None => surface_rect,
            };
            let depth = match &pass.depth_attachment {
                Some((AttachmentType::Reference(id), d)) => Some((*id, *d)),
                _ => None,
            };
            plan.push(PassPlan {
                pass: order[k],
                render_area,
                flipped_viewport: pass.flipped_viewport,
                colors: color_descs(&pass.color_attachments),
                depth,
            });
            k += 1;
        }
        proof {
            assert forall|a: int, b: int| 0 <= a < b < plan.len() implies plan[a].pass != plan[b].pass by {
                assert(order@[a] != order@[b]);
            }
        }
        plan
    }
}

/// One pass of a frame as it is recorded: the pass, the area it renders to, whether its
/// viewport is flipped, its color attachments (all on the swapchain image) and its depth
/// attachment (an image by id).
pub struct PassPlan {
    pub pass: usize,
    pub render_area: Rect2D,
    pub flipped_viewport: bool,
    pub colors: Vec<AttachmentDesc>,
    pub depth: Option<(usize, AttachmentDesc)>,
}

/// The attachments a frame can record: color attachments on the swapchain image only,
/// and a depth attachment on an image only.
pub open spec fn attachments_recordable(p: RenderPass) -> bool {
    &&& forall|i: int| 0 <= i < p.color_attachments@.len() ==> (#[trigger] p.color_attachments@[i]).0 == AttachmentType::SwapchainImage
    &&& match p.depth_attachment {
        Some((AttachmentType::SwapchainImage, _)) => false,
        _ => true,
    }
}

/// The depth attachment of a pass as an image id and its description.
pub open spec fn depth_target(p: RenderPass) -> Option<(usize, AttachmentDesc)> {
    match p.depth_attachment {
        Some((AttachmentType::Reference(id), d)) => Some((id, d)),
        _ => None,
    }
}

fn color_descs(colors: &Vec<(AttachmentType, AttachmentDesc)>) -> (descs: Vec<AttachmentDesc>)
    ensures
        descs@ == colors@.map_values(|e: (AttachmentType, AttachmentDesc)| e.1),
{
    let mut descs: Vec<AttachmentDesc> = Vec::new();
    let mut i: usize = 0;
    while i < colors.len()
        invariant
            i <= colors@.len(),
            descs@ =~= colors@.take(i as int).map_values(|e: (AttachmentType, AttachmentDesc)| e.1),
        decreases colors@.len() - i,
    {
        descs.push(colors[i].1);
        i += 1;
    }
    assert(colors@.take(colors@.len() as int) =~= colors@);
    descs
}

} // verus!
