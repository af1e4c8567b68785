//! The travel router: a weighted undirected graph of location names, built
//! from an edge-list description, answering least-cost travel time between
//! two named locations.
//!
//! The graph itself is a `petgraph` graph driven through trusted wrappers;
//! its mathematical image is a sequence of node names plus a sequence of
//! `(from, to, distance)` edges, and travel cost is stated as the least cost
//! of any walk through those edges.
use vstd::prelude::*;
use crate::text::{
    at_digit, digit_end, digits_val, find_char, find_char_exec, is_dec_digit, lemma_find_char,
    lit_at, matches_at, scan_u32,
};

verus! {

/// Largest number of edges the builder puts into one graph. Stays well below
/// the graph library's own index limit and keeps every walk cost inside
/// sixty-four bits.
pub const MAX_GRAPH_EDGES: usize = 0x4000_0000;

/// Largest number of nodes the builder puts into one graph, just below the
/// graph library's index limit.
pub const MAX_GRAPH_NODES: usize = 0xFFFF_FFFE;

/// Ticks of in-game time per unit of distance travelled.
pub const TICKS_PER_DISTANCE: u64 = 10;

/// Distance and gold cost of one direct connection between two locations.
#[derive(Debug, Clone, Copy, PartialEq, Eq, Structural)]
pub struct JourneyInfo {
    pub distance: u32,
    pub cost: u32,
}

// ---------------------------------------------------------------------------
// The mathematical graph: edges as (from, to, distance) triples.
// ---------------------------------------------------------------------------

/// One undirected step of weight `w` between `u` and `v`: some edge joins
/// them in either orientation.
pub open spec fn edge_step(edges: Seq<(nat, nat, nat)>, u: nat, v: nat, w: nat) -> bool {
    exists|i: int|
        0 <= i < edges.len() && (edges[i] == (u, v, w) || edges[i] == (v, u, w))
}

/// A walk from `u` to `v`: each entry names the vertex stepped to and the
/// weight of the edge used. The empty walk stands still.
pub open spec fn is_walk(edges: Seq<(nat, nat, nat)>, u: nat, v: nat, steps: Seq<(nat, nat)>) -> bool
    decreases steps.len(),
{
    if steps.len() == 0 {
        u == v
    } else {
        edge_step(edges, u, steps[0].0, steps[0].1) && is_walk(edges, steps[0].0, v, steps.drop_first())
    }
}

/// Total weight of a walk.
pub open spec fn walk_cost(steps: Seq<(nat, nat)>) -> nat
    decreases steps.len(),
{
    if steps.len() == 0 {
        0
    } else {
        steps[0].1 + walk_cost(steps.drop_first())
    }
}

/// Some walk from `u` to `v` costs exactly `c`.
pub open spec fn has_walk_cost(edges: Seq<(nat, nat, nat)>, u: nat, v: nat, c: nat) -> bool {
    exists|steps: Seq<(nat, nat)>| is_walk(edges, u, v, steps) && walk_cost(steps) == c
}

/// Some walk joins `u` to `v`.
pub open spec fn connected(edges: Seq<(nat, nat, nat)>, u: nat, v: nat) -> bool {
    exists|c: nat| has_walk_cost(edges, u, v, c)
}

/// `c` is the cost of a cheapest walk from `u` to `v`.
pub open spec fn is_min_walk_cost(edges: Seq<(nat, nat, nat)>, u: nat, v: nat, c: nat) -> bool {
    &&& has_walk_cost(edges, u, v, c)
    &&& forall|c2: nat| has_walk_cost(edges, u, v, c2) ==> c <= c2
}

/// The cost of a cheapest walk from `u` to `v`; meaningful when `u` and `v`
/// are connected and a cheapest walk exists.
pub open spec fn min_walk_cost(edges: Seq<(nat, nat, nat)>, u: nat, v: nat) -> nat {
    choose|c: nat| is_min_walk_cost(edges, u, v, c)
}

/// Two cheapest-walk costs between the same pair are the same cost.
pub proof fn lemma_min_walk_cost_unique(edges: Seq<(nat, nat, nat)>, u: nat, v: nat, c: nat)
    requires
        is_min_walk_cost(edges, u, v, c),
    ensures
        min_walk_cost(edges, u, v) == c,
{
    let c0 = choose|c0: nat| is_min_walk_cost(edges, u, v, c0);
    assert(is_min_walk_cost(edges, u, v, c0));
    assert(c <= c0 && c0 <= c);
}

/// Extending a walk from `u` to `v` by one step from `v` to `z` gives a walk
/// from `u` to `z`, one step-weight dearer.
proof fn lemma_walk_push(
    edges: Seq<(nat, nat, nat)>,
    u: nat,
    v: nat,
    steps: Seq<(nat, nat)>,
    z: nat,
    w: nat,
)
    requires
        is_walk(edges, u, v, steps),
        edge_step(edges, v, z, w),
    ensures
        is_walk(edges, u, z, steps.push((z, w))),
        walk_cost(steps.push((z, w))) == walk_cost(steps) + w,
    decreases steps.len(),
{
    let longer = steps.push((z, w));
    if steps.len() == 0 {
        assert(longer[0] == (z, w));
        assert(longer.drop_first() =~= Seq::<(nat, nat)>::empty());
        assert(is_walk(edges, z, z, longer.drop_first()));
        assert(walk_cost(longer.drop_first()) == 0);
    } else {
        lemma_walk_push(edges, steps[0].0, v, steps.drop_first(), z, w);
        assert(longer[0] == steps[0]);
        assert(longer.drop_first() =~= steps.drop_first().push((z, w)));
        assert(is_walk(edges, steps[0].0, z, longer.drop_first()));
    }
}

/// Among the costs of walks joining a connected pair there is a least one.
proof fn lemma_min_exists_below(edges: Seq<(nat, nat, nat)>, u: nat, v: nat, c: nat)
    requires
        has_walk_cost(edges, u, v, c),
    ensures
        exists|m: nat| is_min_walk_cost(edges, u, v, m),
    decreases c,
{
    if forall|c2: nat| has_walk_cost(edges, u, v, c2) ==> c <= c2 {
        assert(is_min_walk_cost(edges, u, v, c));
    } else {
        let c2 = choose|c2: nat| has_walk_cost(edges, u, v, c2) && !(c <= c2);
        lemma_min_exists_below(edges, u, v, c2);
    }
}

/// A connected pair has a cheapest walk.
pub proof fn lemma_min_exists(edges: Seq<(nat, nat, nat)>, u: nat, v: nat)
    requires
        connected(edges, u, v),
    ensures
        exists|m: nat| is_min_walk_cost(edges, u, v, m),
{
    let c = choose|c: nat| has_walk_cost(edges, u, v, c);
    lemma_min_exists_below(edges, u, v, c);
}

/// Every walk can be walked backwards at the same cost: the graph is
/// undirected.
proof fn lemma_walk_reverse(edges: Seq<(nat, nat, nat)>, u: nat, v: nat, steps: Seq<(nat, nat)>)
    requires
        is_walk(edges, u, v, steps),
    ensures
        exists|back: Seq<(nat, nat)>|
            is_walk(edges, v, u, back) && walk_cost(back) == walk_cost(steps),
    decreases steps.len(),
{
    if steps.len() == 0 {
        let back = Seq::<(nat, nat)>::empty();
        assert(is_walk(edges, v, u, back) && walk_cost(back) == walk_cost(steps));
    } else {
        let m = steps[0].0;
        let w = steps[0].1;
        lemma_walk_reverse(edges, m, v, steps.drop_first());
        let back1 = choose|back1: Seq<(nat, nat)>|
            is_walk(edges, v, m, back1) && walk_cost(back1) == walk_cost(steps.drop_first());
        lemma_walk_push(edges, v, m, back1, u, w);
        let back = back1.push((u, w));
        assert(is_walk(edges, v, u, back) && walk_cost(back) == walk_cost(steps));
    }
}

/// Walk costs between a pair of locations do not depend on the direction of
/// travel.
pub proof fn lemma_walk_cost_symmetric(edges: Seq<(nat, nat, nat)>, u: nat, v: nat, c: nat)
    ensures
        has_walk_cost(edges, u, v, c) == has_walk_cost(edges, v, u, c),
{
    if has_walk_cost(edges, u, v, c) {
        let steps = choose|steps: Seq<(nat, nat)>|
            is_walk(edges, u, v, steps) && walk_cost(steps) == c;
        lemma_walk_reverse(edges, u, v, steps);
    }
    if has_walk_cost(edges, v, u, c) {
        let steps = choose|steps: Seq<(nat, nat)>|
            is_walk(edges, v, u, steps) && walk_cost(steps) == c;
        lemma_walk_reverse(edges, v, u, steps);
    }
}

// ---------------------------------------------------------------------------
// The edge-list grammar. One edge per line:
//     "<NameA>" -- "<NameB>" [label="<distance> mi / <cost> gold"]
// Lines of any other shape are ignored.
// ---------------------------------------------------------------------------

/// Whitespace inside a line: space, tab, or carriage return.
pub open spec fn is_line_ws(c: char) -> bool {
    c == ' ' || c == '\t' || c == '\r'
}

/// First position at or after `i` holding something other than line
/// whitespace; the length when only whitespace remains.
pub open spec fn skip_ws(s: Seq<char>, i: int) -> int
    decreases s.len() - i,
{
    if 0 <= i < s.len() && is_line_ws(s[i]) {
        skip_ws(s, i + 1)
    } else {
        i
    }
}

/// What a well-shaped edge line denotes: the two location names and the raw
/// label text, or nothing for a line of any other shape. The shape is:
/// optional indentation, the first quoted name, ` -- `, the second quoted
/// name, ` [label="` the label text `"]`, optional trailing whitespace.
pub open spec fn spec_parse_edge_line(s: Seq<char>) -> Option<(Seq<char>, Seq<char>, Seq<char>)> {
    let i0 = skip_ws(s, 0);
    if !(i0 < s.len() && s[i0] == '"') {
        None
    } else {
        let a_start = i0 + 1;
        match find_char(s, a_start, '"') {
            None => None,
            Some(a_end) => if a_end == a_start {
                None
            } else {
                let sep = a_end + 1;
                if !matches_at(s, sep, seq![' ', '-', '-', ' ', '"']) {
                    None
                } else {
                    let b_start = sep + 5;
                    match find_char(s, b_start, '"') {
                        None => None,
                        Some(b_end) => if b_end == b_start {
                            None
                        } else {
                            let lab = b_end + 1;
                            if !matches_at(s, lab, seq![' ', '[', 'l', 'a', 'b', 'e', 'l', '=', '"']) {
                                None
                            } else {
                                let lab_start = lab + 9;
                                match find_char(s, lab_start, '"') {
                                    None => None,
                                    Some(lab_end) => {
                                        let close = lab_end + 1;
                                        if !(close < s.len() && s[close] == ']') {
                                            None
                                        } else if skip_ws(s, close + 1) != s.len() {
                                            None
                                        } else {
                                            Some(
                                                (
                                                    s.subrange(a_start, a_end),
                                                    s.subrange(b_start, b_end),
                                                    s.subrange(lab_start, lab_end),
                                                ),
                                            )
                                        }
                                    },
                                }
                            }
                        },
                    }
                }
            },
        }
    }
}

/// What a well-shaped label denotes: the distance and gold cost of the
/// journey, or nothing. The shape is `<distance> mi / <cost> gold` with both
/// numbers in decimal and small enough for thirty-two bits.
pub open spec fn spec_from_label(s: Seq<char>) -> Option<JourneyInfo> {
    let d_end = digit_end(s, 0);
    if d_end == 0 || digits_val(s, 0, d_end) > u32::MAX {
        None
    } else if !matches_at(s, d_end, seq![' ', 'm', 'i', ' ', '/', ' ']) {
        None
    } else {
        let c_start = d_end + 6;
        let c_end = digit_end(s, c_start);
        if c_end == c_start || digits_val(s, c_start, c_end) > u32::MAX {
            None
        } else if !matches_at(s, c_end, seq![' ', 'g', 'o', 'l', 'd']) {
            None
        } else if c_end + 5 != s.len() {
            None
        } else {
            Some(
                JourneyInfo {
                    distance: digits_val(s, 0, d_end) as u32,
                    cost: digits_val(s, c_start, c_end) as u32,
                },
            )
        }
    }
}

/// First position at or after `i` holding something other than line
/// whitespace.
fn skip_ws_exec(v: &Vec<char>, i: usize) -> (r: usize)
    requires
        i <= v@.len(),
    ensures
        r == skip_ws(v@, i as int),
        i <= r <= v@.len(),
{
    let mut k: usize = i;
    while k < v.len() && (v[k] == ' ' || v[k] == '\t' || v[k] == '\r')
        invariant
            i <= k <= v@.len(),
            skip_ws(v@, i as int) == skip_ws(v@, k as int),
        decreases v@.len() - k,
    {
        k = k + 1;
    }
    k
}

/// Parses one line of the edge list, yielding the two location names and
/// the raw label text of a well-shaped line.
pub fn parse_edge_line(line: &str) -> (r: Option<(String, String, String)>)
    ensures
        match r {
            Some(t) => spec_parse_edge_line(line@) == Some((t.0@, t.1@, t.2@)),
            None => spec_parse_edge_line(line@) is None,
        },
{
    let v = crate::text::str_to_chars(line);
    let i0 = skip_ws_exec(&v, 0);
    if !(i0 < v.len() && v[i0] == '"') {
        return None;
    }
    let a_start = i0 + 1;
    let a_end = match find_char_exec(&v, a_start, '"') {
        None => { return None; },
        Some(j) => j,
    };
    if a_end == a_start {
        return None;
    }
    let sep = a_end + 1;
    let sep_lit: Vec<char> = vec![' ', '-', '-', ' ', '"'];
    if !lit_at(&v, sep, &sep_lit) {
        return None;
    }
    let b_start = sep + 5;
    let b_end = match find_char_exec(&v, b_start, '"') {
        None => { return None; },
        Some(j) => j,
    };
    if b_end == b_start {
        return None;
    }
    let lab = b_end + 1;
    let lab_lit: Vec<char> = vec![' ', '[', 'l', 'a', 'b', 'e', 'l', '=', '"'];
    if !lit_at(&v, lab, &lab_lit) {
        return None;
    }
    let lab_start = lab + 9;
    let lab_end = match find_char_exec(&v, lab_start, '"') {
        None => { return None; },
        Some(j) => j,
    };
    let close = lab_end + 1;
    if !(close < v.len() && v[close] == ']') {
        return None;
    }
    if skip_ws_exec(&v, close + 1) != v.len() {
        return None;
    }
    let a = crate::text::chars_to_string(&crate::text::subvec(&v, a_start, a_end));
    let b = crate::text::chars_to_string(&crate::text::subvec(&v, b_start, b_end));
    let l = crate::text::chars_to_string(&crate::text::subvec(&v, lab_start, lab_end));
    Some((a, b, l))
}

impl JourneyInfo {
    /// Parses a journey description of the shape
    /// `<distance> mi / <cost> gold`.
    pub fn from_label(label: &str) -> (r: Option<JourneyInfo>)
        ensures
            r == spec_from_label(label@),
    {
        let v = crate::text::str_to_chars(label);
        let (d_opt, d_end) = scan_u32(&v, 0);
        if d_end == 0 {
            return None;
        }
        let distance = match d_opt {
            None => { return None; },
            Some(x) => x,
        };
        let mi_lit: Vec<char> = vec![' ', 'm', 'i', ' ', '/', ' '];
        if !lit_at(&v, d_end, &mi_lit) {
            return None;
        }
        proof {
            assert(v@.len() == v.len());
        }
        let c_start = d_end + 6;
        let (c_opt, c_end) = scan_u32(&v, c_start);
        if c_end == c_start {
            return None;
        }
        let cost = match c_opt {
            None => { return None; },
            Some(x) => x,
        };
        let gold_lit: Vec<char> = vec![' ', 'g', 'o', 'l', 'd'];
        if !lit_at(&v, c_end, &gold_lit) {
            return None;
        }
        if c_end + 5 != v.len() {
            return None;
        }
        Some(JourneyInfo { distance, cost })
    }
}

/// The lines of `s` from position `i` on, split at newline characters; the
/// guards keep the recursion well founded and are never hit for positions
/// inside the text.
pub open spec fn spec_lines_at(s: Seq<char>, i: int) -> Seq<Seq<char>>
    decreases s.len() - i,
{
    if !(0 <= i <= s.len()) {
        Seq::empty()
    } else {
        match find_char(s, i, '\n') {
            None => seq![s.subrange(i, s.len() as int)],
            Some(j) => if i <= j < s.len() {
                seq![s.subrange(i, j)] + spec_lines_at(s, j + 1)
            } else {
                Seq::empty()
            },
        }
    }
}

/// The lines of `s`, split at newline characters.
pub open spec fn spec_lines(s: Seq<char>) -> Seq<Seq<char>> {
    spec_lines_at(s, 0)
}

/// The views of a sequence of character vectors.
pub open spec fn seq_views(s: Seq<Vec<char>>) -> Seq<Seq<char>> {
    s.map(|k: int, x: Vec<char>| x@)
}

/// Splits `v` into its lines.
fn split_lines(v: &Vec<char>) -> (r: Vec<Vec<char>>)
    ensures
        r@.len() == spec_lines(v@).len(),
        forall|j: int| 0 <= j < r@.len() ==> (#[trigger] r@[j])@ == spec_lines(v@)[j],
{
    let mut r: Vec<Vec<char>> = Vec::new();
    let mut p: usize = 0;
    let mut done = false;
    proof {
        assert(seq_views(r@) =~= Seq::<Seq<char>>::empty());
    }
    while !done
        invariant
            p <= v@.len(),
            v@.len() == v.len(),
            !done ==> spec_lines(v@) == seq_views(r@) + spec_lines_at(v@, p as int),
            done ==> spec_lines(v@) == seq_views(r@),
        decreases v@.len() - p + (if done { 0int } else { 1int }),
    {
        let ghost old_map = seq_views(r@);
        match find_char_exec(v, p, '\n') {
            Some(j) => {
                proof {
                    lemma_find_char(v@, p as int, '\n');
                }
                let line = crate::text::subvec(v, p, j);
                r.push(line);
                proof {
                    assert(seq_views(r@) =~= old_map.push(line@));
                    assert(spec_lines_at(v@, p as int) =~= seq![v@.subrange(p as int, j as int)]
                        + spec_lines_at(v@, j as int + 1));
                    assert(old_map + spec_lines_at(v@, p as int) =~= seq_views(r@) + spec_lines_at(
                        v@,
                        j as int + 1,
                    ));
                }
                p = j + 1;
            },
            None => {
                let line = crate::text::subvec(v, p, v.len());
                r.push(line);
                proof {
                    assert(seq_views(r@) =~= old_map.push(line@));
                    assert(spec_lines_at(v@, p as int) =~= seq![
                        v@.subrange(p as int, v@.len() as int),
                    ]);
                    assert(old_map + spec_lines_at(v@, p as int) =~= seq_views(r@));
                }
                done = true;
            },
        }
    }
    proof {
        assert forall|j: int| 0 <= j < r@.len() implies (#[trigger] r@[j])@ == spec_lines(v@)[j] by {
            assert(seq_views(r@)[j] == r@[j]@);
        }
    }
    r
}

/// Inserting a name into the name list: the list unchanged and the position
/// of the existing entry, or the list grown by the name at its end.
pub open spec fn spec_insert_name(names: Seq<Seq<char>>, n: Seq<char>) -> (Seq<Seq<char>>, int) {
    match name_index(names, n) {
        Some(k) => (names, k),
        None => (names.push(n), names.len() as int),
    }
}

/// One line's effect on the graph under construction: a well-shaped line
/// inserts its two location names (when the size caps leave room) and, when
/// its label is well shaped too, appends the edge; any other line changes
/// nothing.
pub open spec fn spec_build_step(
    names: Seq<Seq<char>>,
    edges: Seq<(nat, nat, nat)>,
    line: Seq<char>,
) -> (Seq<Seq<char>>, Seq<(nat, nat, nat)>) {
    match spec_parse_edge_line(line) {
        None => (names, edges),
        Some(t) => if edges.len() >= MAX_GRAPH_EDGES as int || names.len() + 2 > MAX_GRAPH_NODES
            as int {
            (names, edges)
        } else {
            let ni_a = spec_insert_name(names, t.0);
            let ni_b = spec_insert_name(ni_a.0, t.1);
            match spec_from_label(t.2) {
                None => (ni_b.0, edges),
                Some(info) => (
                    ni_b.0,
                    edges.push((ni_a.1 as nat, ni_b.1 as nat, info.distance as nat)),
                ),
            }
        },
    }
}

/// The graph grown from the first `k` lines.
pub open spec fn spec_build_upto(lines: Seq<Seq<char>>, k: int) -> (
    Seq<Seq<char>>,
    Seq<(nat, nat, nat)>,
)
    decreases k,
{
    if k <= 0 {
        (Seq::<Seq<char>>::empty(), Seq::<(nat, nat, nat)>::empty())
    } else {
        let prev = spec_build_upto(lines, k - 1);
        spec_build_step(prev.0, prev.1, lines[k - 1])
    }
}

/// The graph described by an edge list, line by line.
pub open spec fn spec_build(lines: Seq<Seq<char>>) -> (Seq<Seq<char>>, Seq<(nat, nat, nat)>) {
    spec_build_upto(lines, lines.len() as int)
}



// ---------------------------------------------------------------------------
// Trusted face of the petgraph graph.
// ---------------------------------------------------------------------------

#[verifier::external_type_specification]
#[verifier::external_body]
#[verifier::reject_recursive_types(N)]
#[verifier::reject_recursive_types(E)]
#[verifier::reject_recursive_types(Ty)]
#[verifier::reject_recursive_types(Ix)]
pub struct ExGraph<N, E, Ty, Ix>(petgraph::graph::Graph<N, E, Ty, Ix>);

#[verifier::external_type_specification]
#[verifier::external_body]
pub struct ExUndirected(petgraph::Undirected);

/// What the graph value holds: its edges, as `(from, to, distance)` triples
/// over node indices, in insertion order.
pub uninterp spec fn graph_edges(
    g: petgraph::graph::Graph<String, JourneyInfo, petgraph::Undirected, u32>,
) -> Seq<(nat, nat, nat)>;

/// How many nodes the graph value holds.
pub uninterp spec fn graph_node_count(
    g: petgraph::graph::Graph<String, JourneyInfo, petgraph::Undirected, u32>,
) -> nat;

/// Relies on `petgraph::Graph::new_undirected`: a graph with no nodes and no
/// edges.
#[verifier::external_body]
fn graph_new() -> (g: petgraph::graph::Graph<String, JourneyInfo, petgraph::Undirected, u32>)
    ensures
        graph_node_count(g) == 0,
        graph_edges(g) == Seq::<(nat, nat, nat)>::empty(),
{
    petgraph::graph::Graph::new_undirected()
}

/// Relies on `petgraph::Graph::add_node`: appends one node and hands out
/// node indices consecutively from zero, so the new node's index is the old
/// node count. Edges stay as they were. The node limit of the index type is
/// kept away by the precondition.
#[verifier::external_body]
fn graph_add_node(
    g: &mut petgraph::graph::Graph<String, JourneyInfo, petgraph::Undirected, u32>,
    name: String,
)
    requires
        graph_node_count(*old(g)) < 0xFFFF_FFFF,
    ensures
        graph_node_count(*final(g)) == graph_node_count(*old(g)) + 1,
        graph_edges(*final(g)) == graph_edges(*old(g)),
{
    g.add_node(name);
}

/// Relies on `petgraph::Graph::add_edge`: appends one edge between two
/// existing nodes; parallel edges are allowed. Nodes stay as they were. The
/// edge limit of the index type is kept away by the precondition.
#[verifier::external_body]
fn graph_add_edge(
    g: &mut petgraph::graph::Graph<String, JourneyInfo, petgraph::Undirected, u32>,
    a: usize,
    b: usize,
    info: JourneyInfo,
)
    requires
        a < graph_node_count(*old(g)),
        b < graph_node_count(*old(g)),
        graph_edges(*old(g)).len() < 0xFFFF_FFFF,
    ensures
        graph_node_count(*final(g)) == graph_node_count(*old(g)),
        graph_edges(*final(g)) == graph_edges(*old(g)).push(
            (a as nat, b as nat, info.distance as nat),
        ),
{
    g.add_edge(
        petgraph::graph::NodeIndex::new(a),
        petgraph::graph::NodeIndex::new(b),
        info,
    );
}

/// Relies on `petgraph::algo::dijkstra` with the edge distance as the cost
/// measure: for a reachable goal the returned score map holds the goal at
/// the cost of a cheapest walk from the start, and an unreachable goal is
/// absent from the map. The preconditions bound every intermediate sum far
/// below the cost type's range, so the library's additions cannot overflow.
#[verifier::external_body]
fn graph_shortest(
    g: &petgraph::graph::Graph<String, JourneyInfo, petgraph::Undirected, u32>,
    from: usize,
    to: usize,
) -> (r: Option<u64>)
    requires
        from < graph_node_count(*g),
        to < graph_node_count(*g),
        graph_edges(*g).len() <= MAX_GRAPH_EDGES,
        forall|i: int|
            0 <= i < graph_edges(*g).len() ==> #[trigger] graph_edges(*g)[i].2 < 0x1_0000_0000,
    ensures
        match r {
            Some(c) => is_min_walk_cost(graph_edges(*g), from as nat, to as nat, c as nat),
            None => !connected(graph_edges(*g), from as nat, to as nat),
        },
{
    let scores = petgraph::algo::dijkstra(
        g,
        petgraph::graph::NodeIndex::new(from),
        Some(petgraph::graph::NodeIndex::new(to)),
        |e| e.weight().distance as u64,
    );
    scores.get(&petgraph::graph::NodeIndex::new(to)).copied()
}

// ---------------------------------------------------------------------------
// The router.
// ---------------------------------------------------------------------------

/// The travel graph: named locations and the weighted connections between
/// them. Node indices into the graph match positions in `names`.
pub struct TravelGraph {
    names: Vec<String>,
    graph: petgraph::graph::Graph<String, JourneyInfo, petgraph::Undirected, u32>,
}

/// Position of the first name equal to `n`, if any.
pub open spec fn name_index(names: Seq<Seq<char>>, n: Seq<char>) -> Option<int>
    decreases names.len(),
{
    if names.len() == 0 {
        None
    } else if names[0] == n {
        Some(0int)
    } else {
        match name_index(names.drop_first(), n) {
            Some(k) => Some(k + 1),
            None => None,
        }
    }
}

/// A found name's position lies inside the sequence.
pub proof fn lemma_name_index_in_range(names: Seq<Seq<char>>, n: Seq<char>)
    ensures
        match name_index(names, n) {
            Some(k) => 0 <= k < names.len() && names[k] == n,
            None => true,
        },
    decreases names.len(),
{
    if names.len() > 0 && names[0] != n {
        lemma_name_index_in_range(names.drop_first(), n);
    }
}

/// Travel time between two named locations over the given graph image: ten
/// ticks per distance unit of a cheapest walk, saturating at the largest
/// sixty-four-bit value; zero when either name is absent or no walk joins
/// the two.
pub open spec fn spec_travel_time(
    names: Seq<Seq<char>>,
    edges: Seq<(nat, nat, nat)>,
    origin: Seq<char>,
    destination: Seq<char>,
) -> u64 {
    match (name_index(names, origin), name_index(names, destination)) {
        (Some(i), Some(j)) => {
            if connected(edges, i as nat, j as nat) {
                let ticks = TICKS_PER_DISTANCE * min_walk_cost(edges, i as nat, j as nat);
                if ticks <= u64::MAX {
                    ticks as u64
                } else {
                    u64::MAX
                }
            } else {
                0
            }
        },
        _ => 0,
    }
}

/// Travel time is the same in both directions: the graph is undirected.
pub proof fn lemma_travel_time_symmetric(
    names: Seq<Seq<char>>,
    edges: Seq<(nat, nat, nat)>,
    origin: Seq<char>,
    destination: Seq<char>,
)
    ensures
        spec_travel_time(names, edges, origin, destination) == spec_travel_time(
            names,
            edges,
            destination,
            origin,
        ),
{
    match (name_index(names, origin), name_index(names, destination)) {
        (Some(i), Some(j)) => {
            let u = i as nat;
            let v = j as nat;
            assert forall|c: nat| has_walk_cost(edges, u, v, c) == has_walk_cost(edges, v, u, c) by {
                lemma_walk_cost_symmetric(edges, u, v, c);
            }
            if connected(edges, u, v) {
                assert(connected(edges, v, u));
                lemma_min_exists(edges, u, v);
                let c = min_walk_cost(edges, u, v);
                assert(is_min_walk_cost(edges, u, v, c));
                assert(is_min_walk_cost(edges, v, u, c));
                lemma_min_walk_cost_unique(edges, v, u, c);
            } else {
                assert(!connected(edges, v, u));
            }
        },
        _ => {},
    }
}

impl TravelGraph {
    /// A graph value is well formed when its name list matches its node
    /// count, its size stays inside the builder's caps, and every edge joins
    /// existing nodes with a distance that fits in thirty-two bits.
    pub closed spec fn wf(&self) -> bool {
        &&& self.names@.len() == graph_node_count(self.graph)
        &&& self.names@.len() <= MAX_GRAPH_NODES
        &&& graph_edges(self.graph).len() <= MAX_GRAPH_EDGES
        &&& forall|i: int|
            0 <= i < graph_edges(self.graph).len() ==> {
                &&& #[trigger] graph_edges(self.graph)[i].0 < self.names@.len()
                &&& graph_edges(self.graph)[i].1 < self.names@.len()
                &&& graph_edges(self.graph)[i].2 < 0x1_0000_0000
            }
    }

    /// The location names, as character sequences, in node-index order.
    pub closed spec fn spec_names(&self) -> Seq<Seq<char>> {
        self.names@.map(|i: int, s: String| s@)
    }

    /// The edges, as `(from, to, distance)` triples over node indices.
    pub closed spec fn spec_edges(&self) -> Seq<(nat, nat, nat)> {
        graph_edges(self.graph)
    }

    /// An empty router: no locations, no connections.
    pub fn new() -> (r: Self)
        ensures
            r.wf(),
            r.spec_names() == Seq::<Seq<char>>::empty(),
            r.spec_edges() == Seq::<(nat, nat, nat)>::empty(),
    {
        let r = Self { names: Vec::new(), graph: graph_new() };
        proof {
            assert(r.spec_names() =~= Seq::<Seq<char>>::empty());
        }
        r
    }

    /// Finds the node index of `n`, adding a fresh node for it if none
    /// exists yet.
    fn insert_name(&mut self, n: String) -> (ix: usize)
        requires
            old(self).wf(),
            old(self).names@.len() + 1 <= MAX_GRAPH_NODES,
        ensures
            final(self).wf(),
            spec_insert_name(old(self).spec_names(), n@) == (final(self).spec_names(), ix as int),
            final(self).spec_edges() == old(self).spec_edges(),
            old(self).spec_names().len() <= final(self).spec_names().len() <= old(
                self,
            ).spec_names().len() + 1,
            ix < final(self).spec_names().len(),
    {
        match self.find_name(n.as_str()) {
            Some(k) => {
                proof {
                    lemma_name_index_in_range(self.spec_names(), n@);
                }
                k
            },
            None => {
                let ix = self.names.len();
                graph_add_node(&mut self.graph, n.clone());
                self.names.push(n);
                proof {
                    assert(self.spec_names() =~= old(self).spec_names().push(n@));
                }
                ix
            },
        }
    }

    /// Builds the travel graph described by `source`: one edge per
    /// well-shaped line, location nodes made as their names first appear,
    /// every other line ignored.
    pub fn build(source: &str) -> (g: TravelGraph)
        ensures
            g.wf(),
            spec_build(spec_lines(source@)) == (g.spec_names(), g.spec_edges()),
    {
        let chars = crate::text::str_to_chars(source);
        let lines = split_lines(&chars);
        let ghost lviews = spec_lines(source@);
        let mut g = TravelGraph::new();
        let mut edge_count: usize = 0;
        let mut k: usize = 0;
        while k < lines.len()
            invariant
                k <= lines@.len(),
                lines@.len() == lviews.len(),
                forall|j: int| 0 <= j < lines@.len() ==> (#[trigger] lines@[j])@ == lviews[j],
                g.wf(),
                edge_count == g.spec_edges().len(),
                spec_build_upto(lviews, k as int) == (g.spec_names(), g.spec_edges()),
            decreases lines@.len() - k,
        {
            let ghost names0 = g.spec_names();
            let ghost edges0 = g.spec_edges();
            let line = crate::text::chars_to_string(&lines[k]);
            match parse_edge_line(line.as_str()) {
                None => {},
                Some(abl) => {
                    let (a, b, lab) = abl;
                    proof {
                        assert(g.names@.len() <= MAX_GRAPH_NODES);
                    }
                    if edge_count < MAX_GRAPH_EDGES && g.names.len() <= MAX_GRAPH_NODES - 2 {
                        let ia = g.insert_name(a);
                        let ib = g.insert_name(b);
                        match JourneyInfo::from_label(lab.as_str()) {
                            None => {},
                            Some(info) => {
                                let ghost pre_edges = g.spec_edges();
                                let ghost pre_names = g.spec_names();
                                graph_add_edge(&mut g.graph, ia, ib, info);
                                edge_count = edge_count + 1;
                                proof {
                                    let es = graph_edges(g.graph);
                                    assert forall|i: int| 0 <= i < es.len() implies {
                                        &&& (#[trigger] es[i]).0 < g.names@.len()
                                        &&& es[i].1 < g.names@.len()
                                        &&& es[i].2 < 0x1_0000_0000
                                    } by {
                                        if i < es.len() - 1 {
                                            assert(es[i] == pre_edges[i]);
                                            assert(pre_edges[i].0 < pre_names.len());
                                        } else {
                                            assert(es[i] == (ia as nat, ib as nat, info.distance as nat));
                                        }
                                    }
                                }
                            },
                        }
                    }
                },
            }
            proof {
                assert(spec_build_upto(lviews, k as int + 1) == spec_build_step(
                    names0,
                    edges0,
                    lviews[k as int],
                ));
            }
            k = k + 1;
        }
        g
    }

    /// Least travel time from `origin` to `destination`, in ticks: ten per
    /// distance unit along a cheapest walk; zero when either name is unknown
    /// or no walk joins the two.
    pub fn travel_time(&self, origin: &str, destination: &str) -> (r: u64)
        requires
            self.wf(),
        ensures
            r == spec_travel_time(self.spec_names(), self.spec_edges(), origin@, destination@),
    {
        let oi = self.find_name(origin);
        let di = self.find_name(destination);
        match (oi, di) {
            (Some(i), Some(j)) => {
                let edges = Ghost(self.spec_edges());
                proof {
                    lemma_name_index_in_range(self.spec_names(), origin@);
                    lemma_name_index_in_range(self.spec_names(), destination@);
                    assert forall|k: int|
                        0 <= k < graph_edges(self.graph).len() implies #[trigger] graph_edges(
                        self.graph,
                    )[k].2 < 0x1_0000_0000 by {
                        assert(graph_edges(self.graph)[k].0 < self.names@.len());
                    }
                }
                match graph_shortest(&self.graph, i, j) {
                    Some(c) => {
                        proof {
                            lemma_min_walk_cost_unique(edges@, i as nat, j as nat, c as nat);
                        }
                        if c <= u64::MAX / TICKS_PER_DISTANCE {
                            c * TICKS_PER_DISTANCE
                        } else {
                            u64::MAX
                        }
                    },
                    None => 0,
                }
            },
            _ => 0,
        }
    }

    /// Looks a location's node index up by name.
    fn find_name(&self, n: &str) -> (r: Option<usize>)
        ensures
            match r {
                Some(k) => name_index(self.spec_names(), n@) == Some(k as int),
                None => name_index(self.spec_names(), n@) is None,
            },
    {
        let ghost views = self.spec_names();
        proof {
            assert(views.skip(0) =~= views);
        }
        let mut i: usize = 0;
        while i < self.names.len()
            invariant
                i <= self.names@.len(),
                views == self.spec_names(),
                views.len() == self.names@.len(),
                forall|j: int| 0 <= j < views.len() ==> views[j] == self.names@[j]@,
                name_index(views, n@) == match name_index(views.skip(i as int), n@) {
                    Some(k) => Some(k + i),
                    None => None::<int>,
                },
            decreases self.names@.len() - i,
        {
            proof {
                assert(views.skip(i as int).drop_first() =~= views.skip(i as int + 1));
                assert(views.skip(i as int)[0] == views[i as int]);
            }
            if crate::text::str_eq(self.names[i].as_str(), n) {
                return Some(i);
            }
            i = i + 1;
        }
        None
    }
}

} // verus!
