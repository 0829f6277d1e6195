//! Dependency graph between drivers: which driver needs which, and the order
//! in which they start.
use vstd::prelude::*;
use crate::text::str_eq;

verus! {

/// Strength of a dependency.
#[derive(Debug, Clone, Copy, PartialEq, Eq, Structural)]
pub enum DependencyType {
    /// The driver fails without it.
    Hard,
    /// The driver works, with less, without it.
    Soft,
}

/// A driver in the graph.
#[derive(Debug, Clone)]
pub struct DependencyNode {
    pub name: &'static str,
    pub depends_on: Vec<(&'static str, DependencyType)>,
    /// Lower starts earlier.
    pub priority: u8,
    pub initialized: bool,
}

/// The graph.
pub struct DependencyGraph {
    pub nodes: Vec<DependencyNode>,
    pub initialized: bool,
}

/// Index of the first node named `name`, or the length when there is none.
pub open spec fn node_index(s: Seq<DependencyNode>, name: Seq<char>) -> int
    decreases s.len(),
{
    if s.len() == 0 {
        0
    } else if s[0].name@ == name {
        0
    } else {
        1 + node_index(s.drop_first(), name)
    }
}

proof fn lemma_node_index(s: Seq<DependencyNode>, name: Seq<char>, i: int)
    requires
        0 <= i <= s.len(),
        forall|k: int| 0 <= k < i ==> #[trigger] s[k].name@ != name,
        i == s.len() || s[i].name@ == name,
    ensures
        node_index(s, name) == i,
    decreases s.len(),
{
    if s.len() > 0 && i > 0 {
        assert forall|k: int| 0 <= k < i - 1 implies #[trigger] s.drop_first()[k].name@ != name by {
            assert(s.drop_first()[k] == s[k + 1]);
        }
        lemma_node_index(s.drop_first(), name, i - 1);
    }
}

fn find_node(nodes: &Vec<DependencyNode>, name: &str) -> (i: usize)
    ensures
        i == node_index(nodes@, name@),
        i <= nodes@.len(),
{
    let mut i: usize = 0;
    while i < nodes.len() && !str_eq(nodes[i].name, name)
        invariant
            0 <= i <= nodes@.len(),
            forall|k: int| 0 <= k < i ==> #[trigger] nodes@[k].name@ != name@,
        decreases nodes@.len() - i,
    {
        i = i + 1;
    }
    proof {
        lemma_node_index(nodes@, name@, i as int);
    }
    i
}

/// Abstract view of a node: name, dependencies (name, strength), priority.
pub open spec fn node_view(n: DependencyNode) -> (Seq<char>, Seq<(Seq<char>, DependencyType)>, u8) {
    (n.name@, n.depends_on@.map_values(|d: (&'static str, DependencyType)| (d.0@, d.1)), n.priority)
}

/// The drivers the kernel knows the dependencies of: PCI first; AHCI, NVMe,
/// xHCI and VirtIO on PCI; USB HID and storage on xHCI; VirtIO block and net
/// on VirtIO.
pub open spec fn builtin_view() -> Seq<(Seq<char>, Seq<(Seq<char>, DependencyType)>, u8)> {
    seq![
        ("pci"@, seq![], 1u8),
        ("ahci"@, seq![("pci"@, DependencyType::Hard)], 10u8),
        ("nvme"@, seq![("pci"@, DependencyType::Hard)], 10u8),
        ("xhci"@, seq![("pci"@, DependencyType::Hard)], 10u8),
        ("usb-hid"@, seq![("xhci"@, DependencyType::Hard)], 20u8),
        ("usb-storage"@, seq![("xhci"@, DependencyType::Hard)], 20u8),
        ("virtio"@, seq![("pci"@, DependencyType::Hard)], 10u8),
        ("virtio-blk"@, seq![("virtio"@, DependencyType::Hard)], 15u8),
        ("virtio-net"@, seq![("virtio"@, DependencyType::Hard)], 15u8),
    ]
}

fn builtin_node(name: &'static str, dep: Option<&'static str>, priority: u8) -> (n: DependencyNode)
    ensures
        n.name == name,
        n.priority == priority,
        !n.initialized,
        node_view(n) == (name@, match dep { Some(d) => seq![(d@, DependencyType::Hard)], None => Seq::empty() }, priority),
{
    let mut deps: Vec<(&'static str, DependencyType)> = Vec::new();
    match dep {
        Some(d) => deps.push((d, DependencyType::Hard)),
        None => {},
    }
    let n = DependencyNode { name, depends_on: deps, priority, initialized: false };
    assert(node_view(n).1 =~= match dep { Some(d) => seq![(d@, DependencyType::Hard)], None => Seq::empty() });
    n
}

/// Adds the built-in nodes, none initialized.
fn register_builtin_dependencies(graph: &mut DependencyGraph)
    ensures
        final(graph).nodes@.len() == old(graph).nodes@.len() + 9,
        forall|k: int| 0 <= k < old(graph).nodes@.len() ==> #[trigger] final(graph).nodes@[k] == old(graph).nodes@[k],
        forall|k: int| 0 <= k < 9 ==> node_view(#[trigger] final(graph).nodes@[old(graph).nodes@.len() + k]) == builtin_view()[k]
            && !final(graph).nodes@[old(graph).nodes@.len() + k].initialized,
        final(graph).initialized == old(graph).initialized,
{
    let ghost n0 = graph.nodes@.len();
    graph.nodes.push(builtin_node("pci", None, 1));
    graph.nodes.push(builtin_node("ahci", Some("pci"), 10));
    graph.nodes.push(builtin_node("nvme", Some("pci"), 10));
    graph.nodes.push(builtin_node("xhci", Some("pci"), 10));
    graph.nodes.push(builtin_node("usb-hid", Some("xhci"), 20));
    graph.nodes.push(builtin_node("usb-storage", Some("xhci"), 20));
    graph.nodes.push(builtin_node("virtio", Some("pci"), 10));
    graph.nodes.push(builtin_node("virtio-blk", Some("virtio"), 15));
    graph.nodes.push(builtin_node("virtio-net", Some("virtio"), 15));
    assert forall|k: int| 0 <= k < 9 implies node_view(#[trigger] graph.nodes@[n0 + k]) == builtin_view()[k]
        && !graph.nodes@[n0 + k].initialized by {
    }
}

/// The graph with the built-in dependencies, initialized.
pub fn init() -> (g: DependencyGraph)
    ensures
        g.initialized,
        g.nodes@.len() == 9,
        forall|k: int| 0 <= k < 9 ==> node_view(#[trigger] g.nodes@[k]) == builtin_view()[k] && !g.nodes@[k].initialized,
{
    let mut g = DependencyGraph { nodes: Vec::new(), initialized: true };
    register_builtin_dependencies(&mut g);
    assert forall|k: int| 0 <= k < 9 implies node_view(#[trigger] g.nodes@[k]) == builtin_view()[k] && !g.nodes@[k].initialized by {
        assert(g.nodes@[0 + k] == g.nodes@[k]);
    }
    g
}

/// Adds a node unless one with the same name exists.
pub fn register(graph: &mut DependencyGraph, node: DependencyNode)
    ensures
        node_index(old(graph).nodes@, node.name@) < old(graph).nodes@.len() ==> final(graph).nodes@ == old(graph).nodes@,
        node_index(old(graph).nodes@, node.name@) == old(graph).nodes@.len() ==> final(graph).nodes@ == old(graph).nodes@.push(node),
        final(graph).initialized == old(graph).initialized,
{
    let i = find_node(&graph.nodes, node.name);
    if i < graph.nodes.len() {
        return;
    }
    graph.nodes.push(node);
}

/// Index of the node that the `e`-th dependency of node `j` names (the
/// length of `nodes` when no registered node has that name).
pub open spec fn dep_target(nodes: Seq<DependencyNode>, j: int, e: int) -> int {
    node_index(nodes, nodes[j].depends_on@[e].0@)
}

/// Node `j` can start once the nodes in `placed` have: each of its
/// dependencies that names a registered node names one of them.
pub open spec fn is_ready(nodes: Seq<DependencyNode>, placed: Seq<usize>, j: int) -> bool {
    forall|e: int| 0 <= e < nodes[j].depends_on@.len() && #[trigger] dep_target(nodes, j, e) < nodes.len()
        ==> placed.contains(dep_target(nodes, j, e) as usize)
}

/// Node `i` comes before node `j` among candidates: lower priority first,
/// and for equal priority the node registered first.
pub open spec fn starts_before(nodes: Seq<DependencyNode>, i: int, j: int) -> bool {
    nodes[i].priority < nodes[j].priority || (nodes[i].priority == nodes[j].priority && i < j)
}

/// Some node not in `placed` can start.
pub open spec fn some_ready(nodes: Seq<DependencyNode>, placed: Seq<usize>) -> bool {
    exists|i: int| 0 <= i < nodes.len() && !placed.contains(i as usize) && #[trigger] is_ready(nodes, placed, i)
}

/// `order[k]` is the node picked after `order[0..k]` have started: among the
/// nodes that can start, the first by priority (then registration); when
/// none can (a cycle), the first by priority among those left.
pub open spec fn picked_at(nodes: Seq<DependencyNode>, order: Seq<usize>, k: int) -> bool {
    let placed = order.take(k);
    let j = order[k] as int;
    if some_ready(nodes, placed) {
        &&& is_ready(nodes, placed, j)
        &&& forall|i: int| 0 <= i < nodes.len() && i != j && !placed.contains(i as usize)
                && #[trigger] is_ready(nodes, placed, i) ==> starts_before(nodes, j, i)
    } else {
        forall|i: int| 0 <= i < nodes.len() && i != j && #[trigger] placed.contains(i as usize) == false
            ==> starts_before(nodes, j, i)
    }
}

/// `order` lists each of the indices `0..n` exactly once.
pub open spec fn is_index_permutation(order: Seq<usize>, n: int) -> bool {
    &&& order.len() == n
    &&& forall|a: int| 0 <= a < order.len() ==> #[trigger] order[a] < n
    &&& forall|a: int, b: int| 0 <= a < b < order.len() ==> #[trigger] order[a] != #[trigger] order[b]
}

/// The start-up order: every node once, each picked as `picked_at` says.
pub open spec fn dependency_order(nodes: Seq<DependencyNode>, order: Seq<usize>) -> bool {
    &&& is_index_permutation(order, nodes.len() as int)
    &&& forall|k: int| 0 <= k < order.len() ==> #[trigger] picked_at(nodes, order, k)
}

fn deps_started(nodes: &Vec<DependencyNode>, placed: &Vec<bool>, j: usize) -> (r: bool)
    requires
        j < nodes@.len(),
        placed@.len() == nodes@.len(),
    ensures
        r == (forall|e: int| 0 <= e < nodes@[j as int].depends_on@.len()
            && #[trigger] dep_target(nodes@, j as int, e) < nodes@.len() ==> placed@[dep_target(nodes@, j as int, e)]),
{
    let deps = &nodes[j].depends_on;
    let mut e: usize = 0;
    while e < deps.len()
        invariant
            0 <= e <= deps@.len(),
            j < nodes@.len(),
            placed@.len() == nodes@.len(),
            deps@ == nodes@[j as int].depends_on@,
            forall|f: int| 0 <= f < e && #[trigger] dep_target(nodes@, j as int, f) < nodes@.len()
                ==> placed@[dep_target(nodes@, j as int, f)],
        decreases deps@.len() - e,
    {
        let t = find_node(nodes, deps[e].0);
        assert(t == dep_target(nodes@, j as int, e as int));
        if t < nodes.len() && !placed[t] {
            return false;
        }
        e = e + 1;
    }
    true
}

/// The order of start-up, as indices: dependencies first, then priority.
/// Repeatedly picks, among the nodes whose registered dependencies have all
/// been picked, the one of lowest priority (the earliest registered on a
/// tie); a node on a cycle is picked by priority alone once nothing else can.
pub fn init_order_indices(graph: &DependencyGraph) -> (order: Vec<usize>)
    ensures
        dependency_order(graph.nodes@, order@),
{
    let nodes = &graph.nodes;
    let n = nodes.len();
    let mut order: Vec<usize> = Vec::new();
    let mut remaining: Vec<usize> = Vec::new();
    let mut placed: Vec<bool> = Vec::new();
    let mut i: usize = 0;
    while i < n
        invariant
            0 <= i <= n,
            n == nodes@.len(),
            remaining@.len() == i,
            placed@.len() == i,
            forall|q: int| 0 <= q < i ==> #[trigger] remaining@[q] == q,
            forall|q: int| 0 <= q < i ==> !#[trigger] placed@[q],
        decreases n - i,
    {
        remaining.push(i);
        placed.push(false);
        i = i + 1;
    }
    assert forall|x: int| 0 <= x < n implies (remaining@.contains(x as usize) <==> !#[trigger] order@.contains(x as usize)) by {
        assert(remaining@[x] == x);
    }
    while remaining.len() > 0
        invariant
            n == nodes@.len(),
            placed@.len() == n,
            remaining@.len() + order@.len() == n,
            forall|a: int| 0 <= a < remaining@.len() ==> #[trigger] remaining@[a] < n,
            forall|a: int, b: int| 0 <= a < b < remaining@.len() ==> #[trigger] remaining@[a] != #[trigger] remaining@[b],
            forall|a: int| 0 <= a < order@.len() ==> #[trigger] order@[a] < n,
            forall|a: int, b: int| 0 <= a < b < order@.len() ==> #[trigger] order@[a] != #[trigger] order@[b],
            forall|x: int| 0 <= x < n ==> (remaining@.contains(x as usize) <==> !#[trigger] order@.contains(x as usize)),
            forall|x: int| 0 <= x < n ==> #[trigger] placed@[x] == order@.contains(x as usize),
            forall|k: int| 0 <= k < order@.len() ==> #[trigger] picked_at(nodes@, order@, k),
        decreases remaining@.len(),
    {
        let len = remaining.len();
        let ghost r = remaining@;
        let ghost o = order@;
        let mut best_any: usize = len;
        let mut best_ready: usize = len;
        let mut p: usize = 0;
        while p < len
            invariant
                n == nodes@.len(),
                placed@.len() == n,
                len == r.len(),
                len > 0,
                r == remaining@,
                o == order@,
                0 <= p <= len,
                forall|a: int| 0 <= a < r.len() ==> #[trigger] r[a] < n,
                forall|a: int, b: int| 0 <= a < b < r.len() ==> #[trigger] r[a] != #[trigger] r[b],
                forall|x: int| 0 <= x < n ==> #[trigger] placed@[x] == o.contains(x as usize),
                best_any <= len,
                best_ready <= len,
                best_any == len <==> p == 0,
                best_any < len ==> best_any < p,
                best_any < len ==> forall|q: int| 0 <= q < p && q != best_any
                    ==> #[trigger] starts_before(nodes@, r[best_any as int] as int, r[q] as int),
                best_ready < len ==> best_ready < p && is_ready(nodes@, o, r[best_ready as int] as int),
                best_ready < len ==> forall|q: int| 0 <= q < p && q != best_ready && #[trigger] is_ready(nodes@, o, r[q] as int)
                    ==> starts_before(nodes@, r[best_ready as int] as int, r[q] as int),
                best_ready == len ==> forall|q: int| 0 <= q < p ==> !#[trigger] is_ready(nodes@, o, r[q] as int),
            decreases len - p,
        {
            let c = remaining[p];
            let ready = deps_started(nodes, &placed, c);
            assert(ready == is_ready(nodes@, o, c as int)) by {
                if ready {
                    assert forall|e: int| 0 <= e < nodes@[c as int].depends_on@.len()
                        && #[trigger] dep_target(nodes@, c as int, e) < nodes@.len()
                        implies o.contains(dep_target(nodes@, c as int, e) as usize) by {
                        lemma_node_index_bounds(nodes@, nodes@[c as int].depends_on@[e].0@);
                        assert(placed@[dep_target(nodes@, c as int, e)]);
                    }
                } else {
                    let e = choose|e: int| 0 <= e < nodes@[c as int].depends_on@.len()
                        && #[trigger] dep_target(nodes@, c as int, e) < nodes@.len() && !placed@[dep_target(nodes@, c as int, e)];
                    lemma_node_index_bounds(nodes@, nodes@[c as int].depends_on@[e].0@);
                    assert(!o.contains(dep_target(nodes@, c as int, e) as usize));
                }
            }
            let ghost ob = best_any;
            if best_any == len || nodes[c].priority < nodes[remaining[best_any]].priority
                || (nodes[c].priority == nodes[remaining[best_any]].priority && c < remaining[best_any]) {
                best_any = p;
            }
            proof {
                if ob < len {
                    assert(r[ob as int] != r[p as int]);
                    if best_any == p {
                        assert forall|q: int| 0 <= q < p + 1 && q != p
                            implies #[trigger] starts_before(nodes@, r[p as int] as int, r[q] as int) by {
                            if q != ob {
                                assert(starts_before(nodes@, r[ob as int] as int, r[q] as int));
                            }
                        }
                    }
                }
            }
            if ready {
                if best_ready == len || nodes[c].priority < nodes[remaining[best_ready]].priority
                    || (nodes[c].priority == nodes[remaining[best_ready]].priority && c < remaining[best_ready]) {
                    best_ready = p;
                }
            }
            p = p + 1;
        }
        let pos = if best_ready < len { best_ready } else { best_any };
        let pick = remaining[pos];
        proof {
            let j = pick as int;
            assert(o.take(o.len() as int) =~= o);
            if best_ready < len {
                assert(some_ready(nodes@, o)) by {
                    assert(!o.contains(j as usize));
                }
                assert forall|x: int| 0 <= x < n && x != j && !o.contains(x as usize) && #[trigger] is_ready(nodes@, o, x)
                    implies starts_before(nodes@, j, x) by {
                    assert(r.contains(x as usize));
                    let q = choose|q: int| 0 <= q < r.len() && r[q] == x as usize;
                    assert(is_ready(nodes@, o, r[q] as int));
                }
            } else {
                assert(!some_ready(nodes@, o)) by {
                    if some_ready(nodes@, o) {
                        let x = choose|x: int| 0 <= x < n && !o.contains(x as usize) && #[trigger] is_ready(nodes@, o, x);
                        assert(r.contains(x as usize));
                        let q = choose|q: int| 0 <= q < r.len() && r[q] == x as usize;
                        assert(!is_ready(nodes@, o, r[q] as int));
                    }
                }
                assert forall|x: int| 0 <= x < n && x != j && #[trigger] o.contains(x as usize) == false
                    implies starts_before(nodes@, j, x) by {
                    assert(r.contains(x as usize));
                    let q = choose|q: int| 0 <= q < r.len() && r[q] == x as usize;
                    assert(starts_before(nodes@, r[pos as int] as int, r[q] as int));
                }
            }
            assert(picked_at(nodes@, o.push(pick), o.len() as int)) by {
                assert(o.push(pick).take(o.len() as int) =~= o);
            }
        }
        remaining.remove(pos);
        order.push(pick);
        placed.set(pick, true);
        proof {
            let o2 = order@;
            let r2 = remaining@;
            assert(o2 == o.push(pick));
            assert(r2 == r.remove(pos as int));
            assert forall|k: int| 0 <= k < o2.len() implies #[trigger] picked_at(nodes@, o2, k) by {
                if k < o.len() {
                    assert(o2.take(k) =~= o.take(k));
                    assert(o2[k] == o[k]);
                    assert(picked_at(nodes@, o, k));
                }
            }
            assert forall|a: int| 0 <= a < r2.len() implies #[trigger] r2[a] < n by {
                if a < pos { assert(r2[a] == r[a]); } else { assert(r2[a] == r[a + 1]); }
            }
            assert forall|a: int, b: int| 0 <= a < b < r2.len() implies #[trigger] r2[a] != #[trigger] r2[b] by {
                let a1 = if a < pos { a } else { a + 1 };
                let b1 = if b < pos { b } else { b + 1 };
                assert(r2[a] == r[a1] && r2[b] == r[b1]);
            }
            assert forall|a: int, b: int| 0 <= a < b < o2.len() implies #[trigger] o2[a] != #[trigger] o2[b] by {
                assert(o2[a] == o[a]);
                if b == o.len() {
                    assert(o.contains(o[a]));
                    assert(r[pos as int] == pick);
                    assert(r.contains(pick));
                    if o[a] == pick {
                        assert(o.contains(o[a] as int as usize));
                    }
                } else {
                    assert(o2[b] == o[b]);
                }
            }
            assert forall|x: int| 0 <= x < n implies (r2.contains(x as usize) <==> !#[trigger] o2.contains(x as usize)) by {
                if x == pick as int {
                    assert(o2[o.len() as int] == pick);
                    if r2.contains(x as usize) {
                        let a = choose|a: int| 0 <= a < r2.len() && r2[a] == x as usize;
                        let a1 = if a < pos { a } else { a + 1 };
                        assert(r2[a] == r[a1]);
                    }
                } else {
                    if o2.contains(x as usize) {
                        let a = choose|a: int| 0 <= a < o2.len() && o2[a] == x as usize;
                        assert(o.contains(x as usize)) by { assert(o[a] == x as usize); }
                    }
                    if o.contains(x as usize) {
                        let a = choose|a: int| 0 <= a < o.len() && o[a] == x as usize;
                        assert(o2[a] == x as usize);
                    }
                    if r2.contains(x as usize) {
                        let a = choose|a: int| 0 <= a < r2.len() && r2[a] == x as usize;
                        let a1 = if a < pos { a } else { a + 1 };
                        assert(r2[a] == r[a1]);
                    }
                    if r.contains(x as usize) {
                        let a = choose|a: int| 0 <= a < r.len() && r[a] == x as usize;
                        assert(a != pos);
                        let a2 = if a < pos { a } else { a - 1 };
                        assert(r2[a2] == x as usize);
                    }
                }
            }
            assert forall|x: int| 0 <= x < n implies #[trigger] placed@[x] == o2.contains(x as usize) by {
                if x == pick as int {
                    assert(o2[o.len() as int] == pick);
                } else {
                    if o2.contains(x as usize) {
                        let a = choose|a: int| 0 <= a < o2.len() && o2[a] == x as usize;
                        assert(o.contains(x as usize)) by { assert(o[a] == x as usize); }
                    }
                    if o.contains(x as usize) {
                        let a = choose|a: int| 0 <= a < o.len() && o[a] == x as usize;
                        assert(o2[a] == x as usize);
                    }
                }
            }
        }
    }
    order
}

/// Names of the nodes in start-up order (see `init_order_indices`).
pub fn get_init_order(graph: &DependencyGraph) -> (names: Vec<&'static str>)
    ensures
        exists|order: Seq<usize>| {
            &&& dependency_order(graph.nodes@, order)
            &&& names@.len() == order.len()
            &&& forall|k: int| 0 <= k < order.len() ==> #[trigger] names@[k] == graph.nodes@[order[k] as int].name
        },
{
    let order = init_order_indices(graph);
    let mut names: Vec<&'static str> = Vec::new();
    let mut k: usize = 0;
    while k < order.len()
        invariant
            0 <= k <= order@.len(),
            is_index_permutation(order@, graph.nodes@.len() as int),
            names@.len() == k,
            forall|j: int| 0 <= j < k ==> #[trigger] names@[j] == graph.nodes@[order@[j] as int].name,
        decreases order@.len() - k,
    {
        names.push(graph.nodes[order[k]].name);
        k = k + 1;
    }
    names
}

/// Whether the dependency named `dep` is met: its node exists and is initialized.
pub open spec fn dep_satisfied(nodes: Seq<DependencyNode>, dep: Seq<char>) -> bool {
    let i = node_index(nodes, dep);
    i < nodes.len() && nodes[i].initialized
}

/// The hard dependencies in `deps` that are not met, in order.
pub open spec fn missing_hard(nodes: Seq<DependencyNode>, deps: Seq<(&'static str, DependencyType)>) -> Seq<&'static str>
    decreases deps.len(),
{
    if deps.len() == 0 {
        Seq::empty()
    } else {
        let rest = missing_hard(nodes, deps.drop_last());
        let d = deps.last();
        if d.1 == DependencyType::Hard && !dep_satisfied(nodes, d.0@) {
            rest.push(d.0)
        } else {
            rest
        }
    }
}

/// Checks the dependencies of `driver_name`: `Err` with the names of the
/// hard dependencies not yet initialized, `Ok` when there are none or the
/// driver is unknown. Soft dependencies never fail the check.
pub fn check_dependencies(graph: &DependencyGraph, driver_name: &str) -> (r: Result<(), Vec<&'static str>>)
    ensures
        ({
            let s = graph.nodes@;
            let i = node_index(s, driver_name@);
            let missing = if i < s.len() { missing_hard(s, s[i].depends_on@) } else { Seq::empty() };
            match r {
                Ok(()) => missing.len() == 0,
                Err(m) => m@ == missing && missing.len() > 0,
            }
        }),
{
    let i = find_node(&graph.nodes, driver_name);
    if i == graph.nodes.len() {
        return Ok(());
    }
    let node = &graph.nodes[i];
    let mut missing: Vec<&'static str> = Vec::new();
    let mut k: usize = 0;
    while k < node.depends_on.len()
        invariant
            0 <= k <= node.depends_on@.len(),
            missing@ == missing_hard(graph.nodes@, node.depends_on@.take(k as int)),
        decreases node.depends_on@.len() - k,
    {
        let (dep_name, dep_type) = node.depends_on[k];
        proof {
            assert(node.depends_on@.take(k + 1).drop_last() =~= node.depends_on@.take(k as int));
        }
        let j = find_node(&graph.nodes, dep_name);
        let satisfied = j < graph.nodes.len() && graph.nodes[j].initialized;
        if !satisfied {
            match dep_type {
                DependencyType::Hard => {
                    missing.push(dep_name);
                },
                DependencyType::Soft => {},
            }
        }
        k = k + 1;
    }
    assert(node.depends_on@.take(node.depends_on@.len() as int) =~= node.depends_on@);
    if missing.len() == 0 {
        Ok(())
    } else {
        Err(missing)
    }
}

/// Marks the first node named `driver_name` initialized.
pub fn mark_initialized(graph: &mut DependencyGraph, driver_name: &str)
    ensures
        ({
            let s = old(graph).nodes@;
            let i = node_index(s, driver_name@);
            final(graph).nodes@ == (if i < s.len() { s.update(i, DependencyNode { initialized: true, ..s[i] }) } else { s })
        }),
        final(graph).initialized == old(graph).initialized,
{
    let i = find_node(&graph.nodes, driver_name);
    if i < graph.nodes.len() {
        graph.nodes[i].initialized = true;
    }
}

/// Whether a node lists `name` among its dependencies.
pub open spec fn depends_on_name(n: DependencyNode, name: Seq<char>) -> bool {
    exists|k: int| 0 <= k < n.depends_on@.len() && (#[trigger] n.depends_on@[k]).0@ == name
}

fn node_depends_on(n: &DependencyNode, name: &str) -> (r: bool)
    ensures
        r == depends_on_name(*n, name@),
{
    let mut k: usize = 0;
    while k < n.depends_on.len()
        invariant
            0 <= k <= n.depends_on@.len(),
            forall|j: int| 0 <= j < k ==> (#[trigger] n.depends_on@[j]).0@ != name@,
        decreases n.depends_on@.len() - k,
    {
        if str_eq(n.depends_on[k].0, name) {
            return true;
        }
        k = k + 1;
    }
    false
}

/// Names of the nodes that depend on `driver_name`, in graph order.
pub fn get_dependents(graph: &DependencyGraph, driver_name: &str) -> (names: Vec<&'static str>)
    ensures
        names@ == graph.nodes@.filter(|n: DependencyNode| depends_on_name(n, driver_name@)).map_values(|n: DependencyNode| n.name),
{
    let ghost pred = |n: DependencyNode| depends_on_name(n, driver_name@);
    let ghost f = |n: DependencyNode| n.name;
    let mut names: Vec<&'static str> = Vec::new();
    let mut i: usize = 0;
    while i < graph.nodes.len()
        invariant
            0 <= i <= graph.nodes@.len(),
            pred == (|n: DependencyNode| depends_on_name(n, driver_name@)),
            f == (|n: DependencyNode| n.name),
            names@ == graph.nodes@.take(i as int).filter(pred).map_values(f),
        decreases graph.nodes@.len() - i,
    {
        proof {
            crate::seqs::lemma_take_succ(graph.nodes@, i as int);
            crate::seqs::lemma_filter_push(graph.nodes@.take(i as int), graph.nodes@[i as int], pred);
        }
        if node_depends_on(&graph.nodes[i], driver_name) {
            let ghost prev = graph.nodes@.take(i as int).filter(pred);
            names.push(graph.nodes[i].name);
            assert(prev.push(graph.nodes@[i as int]).map_values(f) =~= prev.map_values(f).push(graph.nodes@[i as int].name));
        }
        i = i + 1;
    }
    assert(graph.nodes@.take(graph.nodes@.len() as int) =~= graph.nodes@);
    names
}

/// A ranking of the nodes: each dependency that names a registered node
/// ranks below the node that has it. A graph has one exactly when its
/// registered dependencies form no cycle.
pub open spec fn ranked(nodes: Seq<DependencyNode>, rank: Seq<nat>) -> bool {
    &&& rank.len() == nodes.len()
    &&& forall|j: int, e: int| 0 <= j < nodes.len() && 0 <= e < nodes[j].depends_on@.len()
            && #[trigger] dep_target(nodes, j, e) < nodes.len()
            ==> rank[dep_target(nodes, j, e)] < rank[j]
}

/// In a graph without cycles, while some node is left one of those left can start.
proof fn lemma_some_ready(nodes: Seq<DependencyNode>, placed: Seq<usize>, rank: Seq<nat>, j: int)
    requires
        ranked(nodes, rank),
        0 <= j < nodes.len(),
        !placed.contains(j as usize),
    ensures
        some_ready(nodes, placed),
    decreases rank[j],
{
    if is_ready(nodes, placed, j) {
    } else {
        let e = choose|e: int| 0 <= e < nodes[j].depends_on@.len() && #[trigger] dep_target(nodes, j, e) < nodes.len()
            && !placed.contains(dep_target(nodes, j, e) as usize);
        let t = dep_target(nodes, j, e);
        assert(0 <= t) by { lemma_node_index_bounds(nodes, nodes[j].depends_on@[e].0@); }
        lemma_some_ready(nodes, placed, rank, t);
    }
}

proof fn lemma_node_index_bounds(s: Seq<DependencyNode>, name: Seq<char>)
    ensures
        0 <= node_index(s, name) <= s.len(),
        node_index(s, name) < s.len() ==> s[node_index(s, name)].name@ == name,
    decreases s.len(),
{
    if s.len() > 0 && s[0].name@ != name {
        lemma_node_index_bounds(s.drop_first(), name);
    }
}

/// Dependencies start first: in a graph without cycles, every node comes
/// after each registered node that it depends on.
pub proof fn lemma_dependencies_start_first(nodes: Seq<DependencyNode>, order: Seq<usize>, rank: Seq<nat>, a: int, b: int, e: int)
    requires
        dependency_order(nodes, order),
        ranked(nodes, rank),
        0 <= a < order.len(),
        0 <= b < order.len(),
        0 <= e < nodes[order[b] as int].depends_on@.len(),
        order[a] as int == dep_target(nodes, order[b] as int, e),
    ensures
        a < b,
{
    let placed = order.take(b);
    let j = order[b] as int;
    assert(!placed.contains(j as usize)) by {
        if placed.contains(j as usize) {
            let c = choose|c: int| 0 <= c < placed.len() && placed[c] == j as usize;
            assert(order[c] == order[b]);
        }
    }
    lemma_some_ready(nodes, placed, rank, j);
    assert(picked_at(nodes, order, b));
    assert(is_ready(nodes, placed, j));
    assert(placed.contains(dep_target(nodes, j, e) as usize));
    let c = choose|c: int| 0 <= c < placed.len() && placed[c] == dep_target(nodes, j, e) as usize;
    assert(order[c] == order[a]);
}

/// The start-up order is topological on a graph without cycles: for every
/// node and every dependency of it that names a registered node, that node
/// comes earlier in the order.
pub proof fn lemma_init_order_topological(nodes: Seq<DependencyNode>, order: Seq<usize>, rank: Seq<nat>)
    requires
        dependency_order(nodes, order),
        ranked(nodes, rank),
        nodes.len() <= usize::MAX,
    ensures
        forall|b: int, e: int| 0 <= b < order.len() && 0 <= e < nodes[order[b] as int].depends_on@.len()
            && #[trigger] dep_target(nodes, order[b] as int, e) < nodes.len()
            ==> exists|a: int| 0 <= a < b && order[a] as int == dep_target(nodes, order[b] as int, e),
{
    assert forall|b: int, e: int| 0 <= b < order.len() && 0 <= e < nodes[order[b] as int].depends_on@.len()
        && #[trigger] dep_target(nodes, order[b] as int, e) < nodes.len()
        implies exists|a: int| 0 <= a < b && order[a] as int == dep_target(nodes, order[b] as int, e) by {
        let t = dep_target(nodes, order[b] as int, e);
        lemma_node_index_bounds(nodes, nodes[order[b] as int].depends_on@[e].0@);
        let placed = order.take(b);
        let j = order[b] as int;
        assert(!placed.contains(j as usize)) by {
            if placed.contains(j as usize) {
                let c = choose|c: int| 0 <= c < placed.len() && placed[c] == j as usize;
                assert(order[c] == order[b]);
            }
        }
        lemma_some_ready(nodes, placed, rank, j);
        assert(picked_at(nodes, order, b));
        assert(placed.contains(t as usize));
        let c = choose|c: int| 0 <= c < placed.len() && placed[c] == t as usize;
        assert(placed[c] == order[c]);
        assert(order[c] as int == t);
    }
}

/// Node `j` depends on the node named like node `i`.
pub open spec fn depends_on_node(nodes: Seq<DependencyNode>, j: int, i: int) -> bool {
    exists|e: int| 0 <= e < nodes[j].depends_on@.len() && (#[trigger] nodes[j].depends_on@[e]).0@ == nodes[i].name@
}

/// Every dependency has a lower priority than the node that depends on it.
pub open spec fn priorities_follow_dependencies(nodes: Seq<DependencyNode>) -> bool {
    forall|i: int, j: int| 0 <= i < nodes.len() && 0 <= j < nodes.len() && #[trigger] depends_on_node(nodes, j, i)
        ==> nodes[i].priority < nodes[j].priority
}

/// Priorities that follow the dependencies rank the graph, so it has no cycle.
pub proof fn lemma_priorities_rank(nodes: Seq<DependencyNode>)
    requires
        priorities_follow_dependencies(nodes),
    ensures
        ranked(nodes, Seq::new(nodes.len(), |i: int| nodes[i].priority as nat)),
{
    let rank = Seq::new(nodes.len(), |i: int| nodes[i].priority as nat);
    assert forall|j: int, e: int| 0 <= j < nodes.len() && 0 <= e < nodes[j].depends_on@.len()
        && #[trigger] dep_target(nodes, j, e) < nodes.len() implies rank[dep_target(nodes, j, e)] < rank[j] by {
        let t = dep_target(nodes, j, e);
        lemma_node_index_bounds(nodes, nodes[j].depends_on@[e].0@);
        assert(depends_on_node(nodes, j, t));
    }
}

/// The built-in graph gives each dependency a lower priority than the
/// drivers that depend on it.
pub proof fn lemma_builtin_priorities_follow_dependencies(nodes: Seq<DependencyNode>)
    requires
        nodes.len() == 9,
        forall|k: int| 0 <= k < 9 ==> node_view(#[trigger] nodes[k]) == builtin_view()[k],
    ensures
        priorities_follow_dependencies(nodes),
{
    reveal_strlit("pci");
    reveal_strlit("ahci");
    reveal_strlit("nvme");
    reveal_strlit("xhci");
    reveal_strlit("usb-hid");
    reveal_strlit("usb-storage");
    reveal_strlit("virtio");
    reveal_strlit("virtio-blk");
    reveal_strlit("virtio-net");
    assert forall|i: int, j: int| 0 <= i < nodes.len() && 0 <= j < nodes.len() && #[trigger] depends_on_node(nodes, j, i)
        implies nodes[i].priority < nodes[j].priority by {
        let e = choose|e: int| 0 <= e < nodes[j].depends_on@.len() && (#[trigger] nodes[j].depends_on@[e]).0@ == nodes[i].name@;
        let vi = node_view(nodes[i]);
        let vj = node_view(nodes[j]);
        assert(vi == builtin_view()[i]);
        assert(vj == builtin_view()[j]);
        assert(vj.1[e] == (nodes[j].depends_on@[e].0@, nodes[j].depends_on@[e].1));
        assert(vj.1[e].0 == vi.0);
        assert(vj.1.len() == nodes[j].depends_on@.len());
        let names = seq!["pci"@, "ahci"@, "nvme"@, "xhci"@, "usb-hid"@, "usb-storage"@, "virtio"@, "virtio-blk"@, "virtio-net"@];
        let prios = seq![1u8, 10u8, 10u8, 10u8, 20u8, 20u8, 10u8, 15u8, 15u8];
        assert forall|k: int| 0 <= k < 9 implies #[trigger] builtin_view()[k].0 == names[k] && builtin_view()[k].2 == prios[k] by {
            if k == 0 {} else if k == 1 {} else if k == 2 {} else if k == 3 {} else if k == 4 {}
            else if k == 5 {} else if k == 6 {} else if k == 7 {} else {}
        }
        assert(builtin_view()[i].0 == names[i]);
        assert(builtin_view()[j].0 == names[j]);
        if j == 0 {
            assert(builtin_view()[0].1.len() == 0);
        } else if j == 1 || j == 2 || j == 3 || j == 6 {
            assert(builtin_view()[j].1 == seq![("pci"@, DependencyType::Hard)]);
            assert(vj.1 == seq![("pci"@, DependencyType::Hard)]);
            assert(e == 0);
            assert(vj.1[0].0 == "pci"@);
            assert(vi.0 == "pci"@);
            assert(i == 0) by {
                if i != 0 {
                    assert(names[i] != "pci"@) by {
                        if i == 1 || i == 2 || i == 3 { assert(names[i].len() != 3); }
                        else if i == 4 { assert(names[i].len() != 3); }
                        else if i == 5 { assert(names[i].len() != 3); }
                        else if i == 6 { assert(names[i].len() != 3); }
                        else { assert(names[i].len() != 3); }
                    }
                }
            }
        } else if j == 4 || j == 5 {
            assert(builtin_view()[j].1 == seq![("xhci"@, DependencyType::Hard)]);
            assert(vj.1 == seq![("xhci"@, DependencyType::Hard)]);
            assert(e == 0);
            assert(vj.1[0].0 == "xhci"@);
            assert(vi.0 == "xhci"@);
            assert(i == 3) by {
                if i != 3 {
                    assert(names[i] != "xhci"@) by {
                        if i == 1 || i == 2 { assert(names[i][0] != "xhci"@[0]); }
                        else { assert(names[i].len() != 4); }
                    }
                }
            }
        } else {
            assert(builtin_view()[j].1 == seq![("virtio"@, DependencyType::Hard)]);
            assert(vj.1 == seq![("virtio"@, DependencyType::Hard)]);
            assert(e == 0);
            assert(vj.1[0].0 == "virtio"@);
            assert(vi.0 == "virtio"@);
            assert(i == 6) by {
                if i != 6 {
                    assert(names[i] != "virtio"@) by {
                        assert(names[i].len() != 6);
                    }
                }
            }
        }
    }
}

/// The built-in graph has no cycle: its priorities rank it, so its
/// start-up order is topological.
pub proof fn lemma_builtin_ranked(nodes: Seq<DependencyNode>)
    requires
        nodes.len() == 9,
        forall|k: int| 0 <= k < 9 ==> node_view(#[trigger] nodes[k]) == builtin_view()[k],
    ensures
        ranked(nodes, Seq::new(nodes.len(), |i: int| nodes[i].priority as nat)),
{
    lemma_builtin_priorities_follow_dependencies(nodes);
    lemma_priorities_rank(nodes);
}

} // verus!
