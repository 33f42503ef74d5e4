//! The room routing graph.
//!
//! Rooms are the vertices of a ternary-weighted graph from the
//! `ternary_graph` crate: a trusted route weighs +1, a blocked route -1, and
//! no relationship 0.  The graph starts undirected; in that mode every route
//! is set in both directions.  Community detection, spectral clustering and
//! the trusted components are the crate's algorithms, run on the graph the
//! library built.  (Path lengths and the Laplacians are floating-point
//! matrices and stay outside the library.)

use vstd::prelude::*;
use ternary_graph::{connected_components, label_propagation, spectral_clustering, Ternary, TernaryGraph};

verus! {

/// The graphs of the `ternary_graph` crate.
#[verifier::external_type_specification]
#[verifier::external_body]
pub struct ExTernaryGraph(TernaryGraph);

/// The weights held by a graph, row by row: `adj[i][j]` is the weight of the
/// edge `i → j` as `-1`, `0` or `+1`.
pub uninterp spec fn adjacency_of(g: TernaryGraph) -> Seq<Seq<int>>;

/// The number of vertices a graph was made with (its field `n`).
pub uninterp spec fn vertex_count(g: TernaryGraph) -> nat;

/// Whether the graph's edges are one-way (its field `directed`).
pub uninterp spec fn is_directed(g: TernaryGraph) -> bool;

/// The labels `connected_components` gives a graph with these weights.
pub uninterp spec fn trusted_labels(adj: Seq<Seq<int>>) -> Seq<usize>;

/// The labels `spectral_clustering` gives a graph with these weights when
/// asked for `k` clusters.
pub uninterp spec fn spectral_labels(adj: Seq<Seq<int>>, k: usize) -> Seq<usize>;

/// `walk` goes from vertex `i` to vertex `j` along edges of `adj`, each
/// taken in either direction.
pub open spec fn is_walk(adj: Seq<Seq<int>>, walk: Seq<int>, i: int, j: int) -> bool {
    &&& walk.len() >= 1
    &&& walk[0] == i
    &&& walk.last() == j
    &&& forall|k: int| 0 <= k < walk.len() ==> 0 <= #[trigger] walk[k] < adj.len()
    &&& forall|k: int|
        0 <= k < walk.len() - 1 ==> #[trigger] adj[walk[k]][walk[k + 1]] != 0 || adj[walk[k + 1]][walk[k]] != 0
}

/// Vertices `i` and `j` are joined by a walk of nonzero edges, whatever
/// their directions.
pub open spec fn linked(adj: Seq<Seq<int>>, i: int, j: int) -> bool {
    exists|walk: Seq<int>| #[trigger] is_walk(adj, walk, i, j)
}

/// `adj` is an `n × n` matrix.
pub open spec fn is_square(adj: Seq<Seq<int>>, n: nat) -> bool {
    &&& adj.len() == n
    &&& forall|i: int| 0 <= i < n ==> #[trigger] adj[i].len() == n
}

/// The graph's matrix has one row and one column per vertex.
pub open spec fn graph_wf(g: TernaryGraph) -> bool {
    is_square(adjacency_of(g), vertex_count(g))
}

/// The `n × n` matrix of zeros.
pub open spec fn zero_matrix(n: nat) -> Seq<Seq<int>> {
    Seq::new(n, |i: int| Seq::new(n, |j: int| 0int))
}

/// `adj` with the weight of `u → v` set to `w`.
pub open spec fn set_weight(adj: Seq<Seq<int>>, u: int, v: int, w: int) -> Seq<Seq<int>> {
    adj.update(u, adj[u].update(v, w))
}

/// `adj` after `add_edge(u, v, w)`: the edge `u → v`, and in an undirected
/// graph `v → u` as well.
pub open spec fn with_edge(adj: Seq<Seq<int>>, u: int, v: int, w: int, directed: bool) -> Seq<Seq<int>> {
    let once = set_weight(adj, u, v, w);
    if directed {
        once
    } else {
        set_weight(once, v, u, w)
    }
}

/// How many weights of a row are not zero.
pub open spec fn nonzero_count(row: Seq<int>) -> nat
    decreases row.len(),
{
    if row.len() == 0 {
        0
    } else {
        nonzero_count(row.drop_last()) + if row.last() != 0 {
            1nat
        } else {
            0nat
        }
    }
}

/// `TernaryGraph` derives `Clone`: the clone has the same fields.
pub assume_specification[ <TernaryGraph as Clone>::clone ](g: &TernaryGraph) -> (r: TernaryGraph)
    ensures
        adjacency_of(r) == adjacency_of(*g),
        vertex_count(r) == vertex_count(*g),
        is_directed(r) == is_directed(*g),
;

/// `TernaryGraph::new(n, directed)`: `n` vertices and every weight zero.
/// It allocates a vector of `n` rows, so `n` rows must fit in memory.
#[verifier::external_body]
fn new_graph(n: usize, directed: bool) -> (g: TernaryGraph)
    requires
        n * 24 <= isize::MAX,
    ensures
        adjacency_of(g) == zero_matrix(n as nat),
        vertex_count(g) == n,
        is_directed(g) == directed,
{
    TernaryGraph::new(n, directed)
}

/// `TernaryGraph::add_edge(u, v, w)` with `w` +1 when `trusted` and -1
/// otherwise: sets `u → v`, and `v → u` too when the graph is undirected.
#[verifier::external_body]
fn set_edge(g: &mut TernaryGraph, u: usize, v: usize, trusted: bool)
    requires
        graph_wf(*old(g)),
        u < vertex_count(*old(g)),
        v < vertex_count(*old(g)),
    ensures
        adjacency_of(*final(g)) == with_edge(
            adjacency_of(*old(g)),
            u as int,
            v as int,
            if trusted { 1int } else { -1int },
            is_directed(*old(g)),
        ),
        vertex_count(*final(g)) == vertex_count(*old(g)),
        is_directed(*final(g)) == is_directed(*old(g)),
{
    let weight = if trusted { Ternary::Pos } else { Ternary::Neg };
    g.add_edge(u, v, weight)
}

/// Sets the graph's `directed` field.
#[verifier::external_body]
fn make_directed(g: &mut TernaryGraph)
    ensures
        adjacency_of(*final(g)) == adjacency_of(*old(g)),
        vertex_count(*final(g)) == vertex_count(*old(g)),
        is_directed(*final(g)),
{
    g.directed = true;
}

/// `TernaryGraph::degree(v)`: the number of non-zero weights in row `v`.
#[verifier::external_body]
fn graph_degree(g: &TernaryGraph, v: usize) -> (d: usize)
    requires
        graph_wf(*g),
        v < vertex_count(*g),
    ensures
        d == nonzero_count(adjacency_of(*g)[v as int]),
{
    g.degree(v)
}

/// `ternary_graph::connected_components`: a label per vertex, from a
/// breadth-first search over the positive edges.
#[verifier::external_body]
fn graph_components(g: &TernaryGraph) -> (labels: Vec<usize>)
    requires
        graph_wf(*g),
    ensures
        labels@ == trusted_labels(adjacency_of(*g)),
        labels@.len() == vertex_count(*g),
{
    connected_components(g)
}

/// `ternary_graph::spectral_clustering`: a cluster below `k` per vertex; all
/// zero when `k` is one.  It divides by `k`, which must therefore be
/// positive unless the graph is empty.
#[verifier::external_body]
fn graph_spectral(g: &TernaryGraph, k: usize) -> (labels: Vec<usize>)
    requires
        graph_wf(*g),
        k > 0 || vertex_count(*g) == 0,
        k < usize::MAX,
    ensures
        labels@ == spectral_labels(adjacency_of(*g), k),
        labels@.len() == vertex_count(*g),
        forall|i: int| 0 <= i < labels@.len() ==> #[trigger] labels@[i] < k,
        k == 1 ==> forall|i: int| 0 <= i < labels@.len() ==> #[trigger] labels@[i] == 0,
{
    spectral_clustering(g, k)
}

/// `ternary_graph::label_propagation`: a community label per vertex.  Each
/// vertex starts with its own index as label; a round gives each vertex
/// with neighbours the label of one of them, so a label only ever moves
/// along a nonzero edge; at the end the labels are renumbered one-to-one in
/// order of first appearance.  Ties between votes are broken in the order a
/// `HashMap` with a per-process seed is walked, so which labels come out is
/// not stated.  What holds whatever that order: vertex `i` gets a label at
/// most `i`; a label above zero first appears after the label below it;
/// vertices with one label are linked by edges; and with no rounds each
/// vertex keeps its own index.
#[verifier::external_body]
fn graph_communities(g: &TernaryGraph, max_iters: usize) -> (labels: Vec<usize>)
    requires
        graph_wf(*g),
    ensures
        labels@.len() == vertex_count(*g),
        forall|i: int| 0 <= i < labels@.len() ==> #[trigger] labels@[i] <= i,
        forall|i: int|
            0 <= i < labels@.len() && #[trigger] labels@[i] > 0 ==> exists|j: int|
                0 <= j < i && labels@[j] == labels@[i] - 1,
        forall|i: int, j: int|
            0 <= i < labels@.len() && 0 <= j < labels@.len() && #[trigger] labels@[i] == #[trigger] labels@[j]
                ==> linked(adjacency_of(*g), i, j),
        max_iters == 0 ==> forall|i: int| 0 <= i < labels@.len() ==> #[trigger] labels@[i] == i,
{
    label_propagation(g, max_iters)
}

/// A named node in the routing graph.
///
/// Each `Room` represents an addressable space in the pincher mesh — it could be
/// a physical room, a virtual partition, or a logical agent group.
#[derive(Clone, Debug)]
pub struct Room {
    pub id: usize,
    pub name: String,
    pub agents: Vec<String>,
}

/// The top-level routing graph: a ternary graph with one vertex per room.
#[derive(Clone, Debug)]
pub struct RoomGraph {
    pub graph: TernaryGraph,
    pub rooms: Vec<Room>,
}

impl RoomGraph {
    /// One vertex per room, and a matrix that matches.
    pub open spec fn wf(&self) -> bool {
        &&& graph_wf(self.graph)
        &&& vertex_count(self.graph) == self.rooms@.len()
    }

    /// The route weights between rooms.
    pub open spec fn routes(&self) -> Seq<Seq<int>> {
        adjacency_of(self.graph)
    }

    /// Routes are one-way.
    pub open spec fn is_one_way(&self) -> bool {
        is_directed(self.graph)
    }

    /// Create a new room graph from a set of rooms: undirected, no routes.
    pub fn new(rooms: Vec<Room>) -> (g: Self)
        requires
            rooms@.len() * 24 <= isize::MAX,
        ensures
            g.wf(),
            g.rooms@ == rooms@,
            g.routes() == zero_matrix(rooms@.len()),
            !g.is_one_way(),
    {
        let n = rooms.len();
        RoomGraph { graph: new_graph(n, false), rooms }
    }

    /// Convert the underlying graph to directed mode: routes added from
    /// now on are one-way.
    pub fn into_directed(self) -> (g: Self)
        requires
            self.wf(),
        ensures
            g.wf(),
            g.rooms@ == self.rooms@,
            g.routes() == self.routes(),
            g.is_one_way(),
    {
        let mut s = self;
        make_directed(&mut s.graph);
        s
    }

    /// Add a trusted (positive-weight) route between two rooms.
    pub fn add_trusted_route(&mut self, a: usize, b: usize)
        requires
            old(self).wf(),
            a < old(self).rooms@.len(),
            b < old(self).rooms@.len(),
        ensures
            final(self).wf(),
            final(self).rooms@ == old(self).rooms@,
            final(self).is_one_way() == old(self).is_one_way(),
            final(self).routes() == with_edge(old(self).routes(), a as int, b as int, 1, old(self).is_one_way()),
    {
        set_edge(&mut self.graph, a, b, true);
        proof {
            lemma_with_edge_square(adjacency_of(old(self).graph), a as int, b as int, 1, is_directed(old(self).graph), vertex_count(old(self).graph));
        }
    }

    /// Add a blocked (negative-weight) route between two rooms.
    ///
    /// In an undirected graph the route is blocked both ways.
    pub fn add_blocked_route(&mut self, a: usize, b: usize)
        requires
            old(self).wf(),
            a < old(self).rooms@.len(),
            b < old(self).rooms@.len(),
        ensures
            final(self).wf(),
            final(self).rooms@ == old(self).rooms@,
            final(self).is_one_way() == old(self).is_one_way(),
            final(self).routes() == with_edge(old(self).routes(), a as int, b as int, -1, old(self).is_one_way()),
    {
        set_edge(&mut self.graph, a, b, false);
        proof {
            lemma_with_edge_square(adjacency_of(old(self).graph), a as int, b as int, -1, is_directed(old(self).graph), vertex_count(old(self).graph));
        }
    }

    /// Detect room communities using label propagation (at most
    /// `max_iters` rounds): a label per room, numbered in order of first
    /// appearance.  Rooms in one community are linked by routes; with no
    /// rounds every room is a community of its own.
    pub fn detect_communities(&self, max_iters: usize) -> (labels: Vec<usize>)
        requires
            self.wf(),
        ensures
            labels@.len() == self.rooms@.len(),
            forall|i: int| 0 <= i < labels@.len() ==> #[trigger] labels@[i] <= i,
            forall|i: int|
                0 <= i < labels@.len() && #[trigger] labels@[i] > 0 ==> exists|j: int|
                    0 <= j < i && labels@[j] == labels@[i] - 1,
            forall|i: int, j: int|
                0 <= i < labels@.len() && 0 <= j < labels@.len() && #[trigger] labels@[i] == #[trigger] labels@[j]
                    ==> linked(self.routes(), i, j),
            max_iters == 0 ==> forall|i: int| 0 <= i < labels@.len() ==> #[trigger] labels@[i] == i,
    {
        graph_communities(&self.graph, max_iters)
    }

    /// Cluster rooms into `k` groups via spectral clustering.
    pub fn cluster_rooms(&self, k: usize) -> (labels: Vec<usize>)
        requires
            self.wf(),
            k > 0 || self.rooms@.len() == 0,
            k < usize::MAX,
        ensures
            labels@ == spectral_labels(self.routes(), k),
            labels@.len() == self.rooms@.len(),
            forall|i: int| 0 <= i < labels@.len() ==> #[trigger] labels@[i] < k,
    {
        graph_spectral(&self.graph, k)
    }

    /// Connected components over the trusted (positive) routes only.
    pub fn trusted_components(&self) -> (labels: Vec<usize>)
        requires
            self.wf(),
        ensures
            labels@ == trusted_labels(self.routes()),
            labels@.len() == self.rooms@.len(),
    {
        graph_components(&self.graph)
    }

    /// The degree of a room: how many routes, trusted or blocked, leave it.
    pub fn degree(&self, room: usize) -> (d: usize)
        requires
            self.wf(),
            room < self.rooms@.len(),
        ensures
            d == nonzero_count(self.routes()[room as int]),
    {
        graph_degree(&self.graph, room)
    }
}

/// Setting weights keeps a matrix square.
proof fn lemma_with_edge_square(adj: Seq<Seq<int>>, u: int, v: int, w: int, directed: bool, n: nat)
    requires
        is_square(adj, n),
        0 <= u < n,
        0 <= v < n,
    ensures
        is_square(with_edge(adj, u, v, w, directed), n),
{
    let once = set_weight(adj, u, v, w);
    assert(is_square(once, n));
    assert(is_square(set_weight(once, v, u, w), n));
}

/// Every weight `u → v` equals the weight `v → u`.
pub open spec fn is_symmetric(adj: Seq<Seq<int>>, n: nat) -> bool {
    forall|u: int, v: int| 0 <= u < n && 0 <= v < n ==> #[trigger] adj[u][v] == adj[v][u]
}

/// In an undirected graph a route is two-way: adding one, trusted or
/// blocked, to a symmetric matrix leaves it symmetric.
pub proof fn law_undirected_routes_stay_symmetric(adj: Seq<Seq<int>>, n: nat, u: int, v: int, w: int)
    requires
        is_square(adj, n),
        is_symmetric(adj, n),
        0 <= u < n,
        0 <= v < n,
    ensures
        is_symmetric(with_edge(adj, u, v, w, false), n),
        with_edge(adj, u, v, w, false)[u][v] == w,
        with_edge(adj, u, v, w, false)[v][u] == w,
{
    let r = with_edge(adj, u, v, w, false);
    assert forall|a: int, b: int| 0 <= a < n && 0 <= b < n implies #[trigger] r[a][b] == r[b][a] by {
        assert(adj[a][b] == adj[b][a]);
    }
}

/// A new room graph has no routes, and the zero matrix is symmetric.
pub proof fn law_new_graph_is_symmetric(n: nat)
    ensures
        is_square(zero_matrix(n), n),
        is_symmetric(zero_matrix(n), n),
{
}

/// Build a routing graph from a list of room names: room `i` has id `i`,
/// the `i`-th name and no agents.
pub fn build_routing_graph(room_names: &[&str]) -> (g: RoomGraph)
    requires
        room_names@.len() * 24 <= isize::MAX,
    ensures
        g.wf(),
        !g.is_one_way(),
        g.routes() == zero_matrix(room_names@.len()),
        g.rooms@.len() == room_names@.len(),
        forall|i: int|
            0 <= i < room_names@.len() ==> {
                &&& (#[trigger] g.rooms@[i]).id == i
                &&& g.rooms@[i].name@ == room_names@[i]@
                &&& g.rooms@[i].agents@.len() == 0
            },
{
    let mut rooms: Vec<Room> = Vec::new();
    let mut i: usize = 0;
    while i < room_names.len()
        invariant
            i <= room_names@.len(),
            rooms@.len() == i,
            forall|j: int|
                0 <= j < i ==> {
                    &&& (#[trigger] rooms@[j]).id == j
                    &&& rooms@[j].name@ == room_names@[j]@
                    &&& rooms@[j].agents@.len() == 0
                },
        decreases room_names@.len() - i,
    {
        let name = room_names[i].to_owned();
        rooms.push(Room { id: i, name, agents: Vec::new() });
        i += 1;
    }
    RoomGraph::new(rooms)
}

} // verus!
