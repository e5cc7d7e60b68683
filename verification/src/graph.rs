//! The node graph as the canvas reads it: nodes with their pin ids,
//! connections between pins, and the lookups that drawing wires and
//! highlighting the selection rely on. Positions and sizes, which are
//! floating-point, stay with the renderer; this module decides which nodes,
//! pins and rows a wire attaches to.

use vstd::prelude::*;
use crate::text::str_equal;

verus! {

/// The kind of a node, which also picks its header colour.
#[derive(Clone, Copy, Debug, PartialEq, Eq, Structural)]
pub enum NodeType {
    Event,
    Logic,
    Math,
    Object,
    Reroute,
    MacroEntry,
    MacroExit,
    MacroInstance,
}

/// A node: its id, kind and the ids of its input and output pins, in row order.
#[derive(Clone, Debug)]
pub struct GraphNode {
    pub id: String,
    pub node_type: NodeType,
    pub inputs: Vec<String>,
    pub outputs: Vec<String>,
}

/// A wire from an output pin of one node to an input pin of another.
#[derive(Clone, Debug)]
pub struct GraphConnection {
    pub source_node: String,
    pub source_pin: String,
    pub target_node: String,
    pub target_pin: String,
}

/// A wire being dragged out of an output pin, possibly hovering an input pin.
#[derive(Clone, Debug)]
pub struct WireDrag {
    pub source_node: String,
    pub source_pin: String,
    /// The node and pin under the pointer, if any.
    pub target: Option<(String, String)>,
}

/// Where on a node a wire attaches.
#[derive(Clone, Copy, Debug, PartialEq, Eq, Structural)]
pub enum PinAnchor {
    /// The node's own position: reroute nodes are a single dot.
    Center,
    /// The pin in this row of the node's body (counted from 0).
    Row(usize),
}

/// The endpoints of a wire to draw.
#[derive(Clone, Copy, Debug, PartialEq, Eq, Structural)]
pub struct ConnectionPlan {
    /// Index of the source node.
    pub from_node: usize,
    pub from_anchor: PinAnchor,
    /// Index of the target node.
    pub to_node: usize,
    pub to_anchor: PinAnchor,
    /// Row of the source pin among the source node's outputs, which gives the
    /// wire its colour; `None` draws it in the theme's primary colour.
    pub color_pin: Option<usize>,
}

/// Where a dragged wire ends.
#[derive(Clone, Copy, Debug, PartialEq, Eq, Structural)]
pub enum WireEnd {
    /// At the hovered input pin of the node with this index.
    Pin { node: usize, anchor: PinAnchor },
    /// At the pointer.
    Pointer,
}

/// The endpoints of a wire being dragged.
#[derive(Clone, Copy, Debug, PartialEq, Eq, Structural)]
pub struct DragPlan {
    pub from_node: usize,
    pub from_anchor: PinAnchor,
    pub end: WireEnd,
}

/// `i` is the first position of `x` in `s`.
pub open spec fn is_first_index(s: Seq<Seq<char>>, x: Seq<char>, i: int) -> bool {
    &&& 0 <= i < s.len()
    &&& s[i] == x
    &&& forall|j: int| 0 <= j < i ==> s[j] != x
}

/// The first position of `x` in `s`, if it occurs.
pub open spec fn first_index(s: Seq<Seq<char>>, x: Seq<char>) -> Option<int> {
    if exists|i: int| 0 <= i < s.len() && s[i] == x {
        Some(choose|i: int| is_first_index(s, x, i))
    } else {
        None
    }
}

/// The character sequences of a list of ids.
pub open spec fn id_seq(v: Seq<String>) -> Seq<Seq<char>> {
    v.map_values(|p: String| p@)
}

/// The ids of a list of nodes.
pub open spec fn node_ids(nodes: Seq<GraphNode>) -> Seq<Seq<char>> {
    nodes.map_values(|n: GraphNode| n.id@)
}

/// `r` reports the first position of `x` in `s`.
pub open spec fn reports_first(r: Option<usize>, s: Seq<Seq<char>>, x: Seq<char>) -> bool {
    match r {
        Some(i) => first_index(s, x) == Some(i as int),
        None => first_index(s, x) is None,
    }
}

proof fn lemma_first_occurrence_exists(s: Seq<Seq<char>>, x: Seq<char>, k: int)
    requires
        0 <= k < s.len(),
        s[k] == x,
    ensures
        exists|i: int| is_first_index(s, x, i),
    decreases k,
{
    if exists|j: int| 0 <= j < k && s[j] == x {
        let j = choose|j: int| 0 <= j < k && s[j] == x;
        lemma_first_occurrence_exists(s, x, j);
    } else {
        assert(is_first_index(s, x, k));
    }
}

/// `first_index` gives the first occurrence, and `None` only when there is none.
pub proof fn lemma_first_index(s: Seq<Seq<char>>, x: Seq<char>)
    ensures
        match first_index(s, x) {
            Some(i) => is_first_index(s, x, i),
            None => forall|j: int| 0 <= j < s.len() ==> s[j] != x,
        },
{
    if exists|k: int| 0 <= k < s.len() && s[k] == x {
        let k = choose|k: int| 0 <= k < s.len() && s[k] == x;
        lemma_first_occurrence_exists(s, x, k);
    }
}

proof fn lemma_first_index_found(s: Seq<Seq<char>>, x: Seq<char>, i: int)
    requires
        is_first_index(s, x, i),
    ensures
        first_index(s, x) == Some(i),
{
    assert(exists|k: int| 0 <= k < s.len() && s[k] == x);
    let j = choose|k: int| is_first_index(s, x, k);
    assert(is_first_index(s, x, j));
    if j < i {
        assert(s[j] != x);
    }
    if i < j {
        assert(s[i] != x);
    }
}

/// A connection whose source or target node does not exist is neither drawn
/// nor counted as visible.
pub proof fn law_dangling_connection_not_drawn(
    nodes: Seq<GraphNode>,
    visible: Seq<bool>,
    c: GraphConnection,
)
    requires
        !node_ids(nodes).contains(c.source_node@) || !node_ids(nodes).contains(c.target_node@),
    ensures
        plan_of(nodes, c) is None,
        !connection_visible_of(nodes, visible, c),
{
    lemma_first_index(node_ids(nodes), c.source_node@);
    lemma_first_index(node_ids(nodes), c.target_node@);
    if !node_ids(nodes).contains(c.source_node@) {
        assert(first_index(node_ids(nodes), c.source_node@) is None) by {
            if let Some(i) = first_index(node_ids(nodes), c.source_node@) {
                assert(node_ids(nodes)[i] == c.source_node@);
            }
        }
    } else {
        assert(first_index(node_ids(nodes), c.target_node@) is None) by {
            if let Some(i) = first_index(node_ids(nodes), c.target_node@) {
                assert(node_ids(nodes)[i] == c.target_node@);
            }
        }
    }
}

/// The wire drawn for a connection joins the same two nodes that decide its
/// visibility: it is on screen exactly when one of its endpoint nodes is.
pub proof fn law_drawn_wire_matches_visibility(
    nodes: Seq<GraphNode>,
    visible: Seq<bool>,
    c: GraphConnection,
)
    requires
        nodes.len() <= usize::MAX,
        plan_of(nodes, c) is Some,
    ensures
        ({
            let p = plan_of(nodes, c)->0;
            connection_visible_of(nodes, visible, c) == (visible[p.from_node as int]
                || visible[p.to_node as int])
        }),
{
    lemma_first_index(node_ids(nodes), c.source_node@);
    lemma_first_index(node_ids(nodes), c.target_node@);
}

/// A pin row names the first pin of the node with the requested id, on the
/// requested side; reroute nodes attach every pin at their centre.
pub proof fn law_anchor_row_names_the_pin(node: GraphNode, pin: Seq<char>, is_input: bool)
    ensures
        node.node_type == NodeType::Reroute ==> pin_anchor_of(node, pin, is_input) == Some(
            PinAnchor::Center,
        ),
        ({
            let pins = if is_input { id_seq(node.inputs@) } else { id_seq(node.outputs@) };
            pin_anchor_of(node, pin, is_input) matches Some(PinAnchor::Row(r)) ==> is_first_index(
                pins,
                pin,
                r as int,
            )
        }),
{
    lemma_first_index(id_seq(node.inputs@), pin);
    lemma_first_index(id_seq(node.outputs@), pin);
    assert(node.inputs@.len() == node.inputs.len());
    assert(node.outputs@.len() == node.outputs.len());
}

/// Where a wire meets a node: a reroute node always at its centre; any other
/// node never at its centre but at the row of the first pin on the requested
/// side whose id is `pin`, and nowhere when that side has no such pin.
pub proof fn law_anchor_is_first_matching_pin(node: GraphNode, pin: Seq<char>, is_input: bool)
    ensures
        node.node_type == NodeType::Reroute ==> pin_anchor_of(node, pin, is_input) == Some(
            PinAnchor::Center,
        ),
        ({
            let pins = if is_input { node.inputs@ } else { node.outputs@ };
            node.node_type != NodeType::Reroute ==> match pin_anchor_of(node, pin, is_input) {
                Some(PinAnchor::Row(r)) => {
                    &&& r < pins.len()
                    &&& pins[r as int]@ == pin
                    &&& forall|j: int| 0 <= j < r ==> pins[j]@ != pin
                },
                Some(PinAnchor::Center) => false,
                None => forall|j: int| 0 <= j < pins.len() ==> pins[j]@ != pin,
            }
        }),
{
    let pins = if is_input { node.inputs@ } else { node.outputs@ };
    let ids = id_seq(pins);
    assert(node.inputs@.len() == node.inputs.len());
    assert(node.outputs@.len() == node.outputs.len());
    assert(pins.len() <= usize::MAX);
    lemma_first_index(ids, pin);
    assert(ids.len() == pins.len());
    if node.node_type != NodeType::Reroute {
        if is_input {
            assert(id_seq(node.inputs@) == ids);
        } else {
            assert(id_seq(node.outputs@) == ids);
        }
        match first_index(ids, pin) {
            Some(i) => {
                assert(is_first_index(ids, pin, i));
                assert(i < pins.len());
                assert((i as usize) as int == i);
                assert forall|j: int| 0 <= j < i implies pins[j]@ != pin by {
                    assert(ids[j] == pins[j]@);
                }
                assert(ids[i] == pins[i]@);
            },
            None => {
                assert forall|j: int| 0 <= j < pins.len() implies pins[j]@ != pin by {
                    assert(ids[j] == pins[j]@);
                }
            },
        }
    }
}

/// The wire planned for a connection starts at the first node with the
/// source id and ends at the first node with the target id, and takes its
/// colour from the first output of the source node that has the source pin's
/// id, whatever kind of node that is (reroute dots included); it has no
/// colour pin only when no output has that id.
pub proof fn law_plan_colour_from_source_output(nodes: Seq<GraphNode>, c: GraphConnection)
    requires
        nodes.len() <= usize::MAX,
    ensures
        plan_of(nodes, c) matches Some(p) ==> {
            let outs = nodes[p.from_node as int].outputs@;
            &&& p.from_node < nodes.len()
            &&& nodes[p.from_node as int].id@ == c.source_node@
            &&& forall|j: int| 0 <= j < p.from_node ==> nodes[j].id@ != c.source_node@
            &&& p.to_node < nodes.len()
            &&& nodes[p.to_node as int].id@ == c.target_node@
            &&& forall|j: int| 0 <= j < p.to_node ==> nodes[j].id@ != c.target_node@
            &&& match p.color_pin {
                Some(i) => {
                    &&& i < outs.len()
                    &&& outs[i as int]@ == c.source_pin@
                    &&& forall|j: int| 0 <= j < i ==> outs[j]@ != c.source_pin@
                },
                None => forall|j: int| 0 <= j < outs.len() ==> outs[j]@ != c.source_pin@,
            }
        },
{
    let ids = node_ids(nodes);
    lemma_first_index(ids, c.source_node@);
    lemma_first_index(ids, c.target_node@);
    if plan_of(nodes, c) is Some {
        let p = plan_of(nodes, c)->0;
        let a = first_index(ids, c.source_node@)->0;
        let b = first_index(ids, c.target_node@)->0;
        assert(is_first_index(ids, c.source_node@, a));
        assert(is_first_index(ids, c.target_node@, b));
        assert(a < nodes.len() && b < nodes.len());
        assert((a as usize) as int == a && (b as usize) as int == b);
        assert(p.from_node as int == a && p.to_node as int == b);
        assert forall|j: int| 0 <= j < a implies nodes[j].id@ != c.source_node@ by {
            assert(ids[j] == nodes[j].id@);
        }
        assert forall|j: int| 0 <= j < b implies nodes[j].id@ != c.target_node@ by {
            assert(ids[j] == nodes[j].id@);
        }
        assert(ids[a] == nodes[a].id@);
        assert(ids[b] == nodes[b].id@);
        let outs = nodes[a].outputs@;
        let oids = id_seq(outs);
        assert(outs.len() == nodes[a].outputs.len());
        lemma_first_index(oids, c.source_pin@);
        match first_index(oids, c.source_pin@) {
            Some(i) => {
                assert(is_first_index(oids, c.source_pin@, i));
                assert forall|j: int| 0 <= j < i implies outs[j]@ != c.source_pin@ by {
                    assert(oids[j] == outs[j]@);
                }
                assert(oids[i] == outs[i]@);
            },
            None => {
                assert forall|j: int| 0 <= j < outs.len() implies outs[j]@ != c.source_pin@ by {
                    assert(oids[j] == outs[j]@);
                }
            },
        }
    }
}

/// While a wire is dragged over an input pin, its preview runs between the
/// same nodes and anchors as the wire that a connection to that pin draws.
pub proof fn law_drag_preview_matches_connection(
    nodes: Seq<GraphNode>,
    d: WireDrag,
    tn: String,
    tp: String,
)
    requires
        d.target == Some((tn, tp)),
        drag_plan_of(nodes, d) matches Some(p) && p.end is Pin,
    ensures
        ({
            let p = drag_plan_of(nodes, d)->0;
            let c = GraphConnection {
                source_node: d.source_node,
                source_pin: d.source_pin,
                target_node: tn,
                target_pin: tp,
            };
            plan_of(nodes, c) matches Some(q) && q.from_node == p.from_node && q.from_anchor
                == p.from_anchor && p.end == (WireEnd::Pin { node: q.to_node, anchor: q.to_anchor })
        }),
{
}

/// The position of the first id equal to `id`.
pub fn position_of(ids: &Vec<String>, id: &str) -> (r: Option<usize>)
    ensures
        reports_first(r, id_seq(ids@), id@),
        r matches Some(i) ==> i < ids.len(),
{
    let ghost s = id_seq(ids@);
    let mut i: usize = 0;
    while i < ids.len()
        invariant
            s == id_seq(ids@),
            i <= ids.len(),
            forall|j: int| 0 <= j < i ==> s[j] != id@,
        decreases ids.len() - i,
    {
        if str_equal(ids[i].as_str(), id) {
            proof {
                lemma_first_index_found(s, id@, i as int);
            }
            return Some(i);
        }
        i = i + 1;
    }
    None
}

/// The index of the first node with the given id.
pub fn find_node(nodes: &Vec<GraphNode>, id: &str) -> (r: Option<usize>)
    ensures
        reports_first(r, node_ids(nodes@), id@),
        r matches Some(i) ==> i < nodes.len(),
{
    let ghost s = node_ids(nodes@);
    let mut i: usize = 0;
    while i < nodes.len()
        invariant
            s == node_ids(nodes@),
            i <= nodes.len(),
            forall|j: int| 0 <= j < i ==> s[j] != id@,
        decreases nodes.len() - i,
    {
        if str_equal(nodes[i].id.as_str(), id) {
            proof {
                lemma_first_index_found(s, id@, i as int);
            }
            return Some(i);
        }
        i = i + 1;
    }
    None
}

/// Where a wire attaches to `node` at the pin `pin`: reroute nodes at their
/// centre, whatever the pin; other nodes at the row of the first input (or
/// output) pin with that id, or nowhere if there is none.
pub open spec fn pin_anchor_of(node: GraphNode, pin: Seq<char>, is_input: bool) -> Option<PinAnchor> {
    if node.node_type == NodeType::Reroute {
        Some(PinAnchor::Center)
    } else {
        let pins = if is_input { id_seq(node.inputs@) } else { id_seq(node.outputs@) };
        match first_index(pins, pin) {
            Some(i) => Some(PinAnchor::Row(i as usize)),
            None => None,
        }
    }
}

/// Where a wire attaches to `node` at the pin `pin_id`.
pub fn calculate_pin_anchor(node: &GraphNode, pin_id: &str, is_input: bool) -> (a: Option<PinAnchor>)
    ensures
        a == pin_anchor_of(*node, pin_id@, is_input),
{
    if node.node_type == NodeType::Reroute {
        return Some(PinAnchor::Center);
    }
    let row = if is_input {
        position_of(&node.inputs, pin_id)
    } else {
        position_of(&node.outputs, pin_id)
    };
    match row {
        Some(r) => Some(PinAnchor::Row(r)),
        None => None,
    }
}

/// A connection is drawn when both its nodes exist and at least one of them
/// is on screen (`visible[i]` tells whether node `i` is).
pub open spec fn connection_visible_of(
    nodes: Seq<GraphNode>,
    visible: Seq<bool>,
    c: GraphConnection,
) -> bool {
    match (first_index(node_ids(nodes), c.source_node@), first_index(node_ids(nodes), c.target_node@)) {
        (Some(a), Some(b)) => visible[a] || visible[b],
        _ => false,
    }
}

/// Whether a connection is drawn, given which nodes are on screen.
pub fn connection_visible(nodes: &Vec<GraphNode>, visible: &Vec<bool>, c: &GraphConnection) -> (v:
    bool)
    requires
        visible.len() == nodes.len(),
    ensures
        v == connection_visible_of(nodes@, visible@, *c),
{
    let from = find_node(nodes, c.source_node.as_str());
    let to = find_node(nodes, c.target_node.as_str());
    match (from, to) {
        (Some(a), Some(b)) => visible[a] || visible[b],
        _ => false,
    }
}

/// The wire to draw for a connection: both nodes must exist and both pins
/// must have an anchor; the colour comes from the source output pin.
pub open spec fn plan_of(nodes: Seq<GraphNode>, c: GraphConnection) -> Option<ConnectionPlan> {
    match (first_index(node_ids(nodes), c.source_node@), first_index(node_ids(nodes), c.target_node@)) {
        (Some(a), Some(b)) => match (
            pin_anchor_of(nodes[a], c.source_pin@, false),
            pin_anchor_of(nodes[b], c.target_pin@, true),
        ) {
            (Some(fa), Some(ta)) => Some(
                ConnectionPlan {
                    from_node: a as usize,
                    from_anchor: fa,
                    to_node: b as usize,
                    to_anchor: ta,
                    color_pin: match first_index(id_seq(nodes[a].outputs@), c.source_pin@) {
                        Some(i) => Some(i as usize),
                        None => None,
                    },
                },
            ),
            _ => None,
        },
        _ => None,
    }
}

/// The wire to draw for a connection, or `None` when it cannot be attached.
pub fn plan_connection(nodes: &Vec<GraphNode>, c: &GraphConnection) -> (p: Option<ConnectionPlan>)
    ensures
        p == plan_of(nodes@, *c),
{
    let a = match find_node(nodes, c.source_node.as_str()) {
        Some(a) => a,
        None => {
            return None;
        },
    };
    let b = match find_node(nodes, c.target_node.as_str()) {
        Some(b) => b,
        None => {
            return None;
        },
    };
    let fa = match calculate_pin_anchor(&nodes[a], c.source_pin.as_str(), false) {
        Some(x) => x,
        None => {
            return None;
        },
    };
    let ta = match calculate_pin_anchor(&nodes[b], c.target_pin.as_str(), true) {
        Some(x) => x,
        None => {
            return None;
        },
    };
    let color_pin = position_of(&nodes[a].outputs, c.source_pin.as_str());
    Some(ConnectionPlan { from_node: a, from_anchor: fa, to_node: b, to_anchor: ta, color_pin })
}

/// Where a dragged wire ends: at the hovered input pin when its node exists
/// and the pin has an anchor, else at the pointer.
pub open spec fn wire_end_of(nodes: Seq<GraphNode>, target: Option<(String, String)>) -> WireEnd {
    match target {
        Some((tn, tp)) => match first_index(node_ids(nodes), tn@) {
            Some(b) => match pin_anchor_of(nodes[b], tp@, true) {
                Some(ta) => WireEnd::Pin { node: b as usize, anchor: ta },
                None => WireEnd::Pointer,
            },
            None => WireEnd::Pointer,
        },
        None => WireEnd::Pointer,
    }
}

/// The wire to draw while dragging: its source node must exist and its pin
/// must have an anchor.
pub open spec fn drag_plan_of(nodes: Seq<GraphNode>, d: WireDrag) -> Option<DragPlan> {
    match first_index(node_ids(nodes), d.source_node@) {
        Some(a) => match pin_anchor_of(nodes[a], d.source_pin@, false) {
            Some(fa) => Some(
                DragPlan { from_node: a as usize, from_anchor: fa, end: wire_end_of(nodes, d.target) },
            ),
            None => None,
        },
        None => None,
    }
}

/// The wire to draw while dragging, or `None` when its source cannot be attached.
pub fn plan_wire_drag(nodes: &Vec<GraphNode>, d: &WireDrag) -> (p: Option<DragPlan>)
    ensures
        p == drag_plan_of(nodes@, *d),
{
    let a = match find_node(nodes, d.source_node.as_str()) {
        Some(a) => a,
        None => {
            return None;
        },
    };
    let fa = match calculate_pin_anchor(&nodes[a], d.source_pin.as_str(), false) {
        Some(x) => x,
        None => {
            return None;
        },
    };
    let end = match &d.target {
        Some((tn, tp)) => match find_node(nodes, tn.as_str()) {
            Some(b) => match calculate_pin_anchor(&nodes[b], tp.as_str(), true) {
                Some(ta) => WireEnd::Pin { node: b, anchor: ta },
                None => WireEnd::Pointer,
            },
            None => WireEnd::Pointer,
        },
        None => WireEnd::Pointer,
    };
    Some(DragPlan { from_node: a, from_anchor: fa, end })
}

/// Whether `id` is among the selected ids.
pub fn is_selected(selected: &Vec<String>, id: &str) -> (b: bool)
    ensures
        b == id_seq(selected@).contains(id@),
{
    let r = position_of(selected, id);
    proof {
        if id_seq(selected@).contains(id@) {
            let k = choose|k: int| 0 <= k < id_seq(selected@).len() && id_seq(selected@)[k] == id@;
            assert(0 <= k < id_seq(selected@).len() && id_seq(selected@)[k] == id@);
        }
    }
    r.is_some()
}

/// For each id (of a node or a comment), whether it is selected: the flag
/// that drawing uses to outline it.
pub fn selection_flags(ids: &Vec<String>, selected: &Vec<String>) -> (flags: Vec<bool>)
    ensures
        flags.len() == ids.len(),
        forall|i: int|
            0 <= i < ids.len() ==> flags[i] == id_seq(selected@).contains(#[trigger] ids@[i]@),
{
    let mut flags: Vec<bool> = Vec::new();
    let mut i: usize = 0;
    while i < ids.len()
        invariant
            i <= ids.len(),
            flags.len() == i,
            forall|j: int|
                0 <= j < i ==> flags[j] == id_seq(selected@).contains(#[trigger] ids@[j]@),
        decreases ids.len() - i,
    {
        let s = is_selected(selected, ids[i].as_str());
        flags.push(s);
        i = i + 1;
    }
    flags
}

/// The number of `true` flags among the first `n`.
pub open spec fn count_true(flags: Seq<bool>, n: int) -> nat
    decreases n,
{
    if n <= 0 {
        0
    } else {
        count_true(flags, n - 1) + if flags[n - 1] { 1nat } else { 0nat }
    }
}

/// Deleting the selection, stated over the selected ids themselves: no node
/// whose id is selected is left, nor any wire with a selected end; every node
/// whose id is not selected, and every wire with no selected end, stays; and
/// nothing is left that was not there before.
pub proof fn law_deletion_keeps_exactly_the_unselected(
    nodes: Seq<GraphNode>,
    connections: Seq<GraphConnection>,
    selected: Seq<Seq<char>>,
)
    ensures
        ({
            let kept = nodes.filter(kept_nodes(selected));
            &&& forall|i: int| 0 <= i < kept.len() ==> !selected.contains(#[trigger] kept[i].id@)
            &&& forall|i: int| 0 <= i < kept.len() ==> nodes.contains(#[trigger] kept[i])
            &&& forall|i: int|
                0 <= i < nodes.len() && !selected.contains(nodes[i].id@) ==> kept.contains(
                    #[trigger] nodes[i],
                )
        }),
        ({
            let kept = connections.filter(kept_connections(selected));
            &&& forall|i: int|
                0 <= i < kept.len() ==> !selected.contains(#[trigger] kept[i].source_node@)
                    && !selected.contains(kept[i].target_node@)
            &&& forall|i: int| 0 <= i < kept.len() ==> connections.contains(#[trigger] kept[i])
            &&& forall|i: int|
                0 <= i < connections.len() && !selected.contains(connections[i].source_node@)
                    && !selected.contains(connections[i].target_node@) ==> kept.contains(
                    #[trigger] connections[i],
                )
        }),
{
    broadcast use vstd::seq_lib::group_filter_ensures;

    let pn = kept_nodes(selected);
    let pc = kept_connections(selected);
    let kn = nodes.filter(pn);
    let kc = connections.filter(pc);
    assert forall|i: int| 0 <= i < kn.len() implies !selected.contains(#[trigger] kn[i].id@) by {
        nodes.lemma_filter_pred(pn, i);
    }
    assert forall|i: int| 0 <= i < kn.len() implies nodes.contains(#[trigger] kn[i]) by {
        lemma_filter_subset(nodes, pn, i);
    }
    assert forall|i: int|
        0 <= i < nodes.len() && !selected.contains(nodes[i].id@) implies kn.contains(
        #[trigger] nodes[i],
    ) by {
        nodes.lemma_filter_contains(pn, i);
    }
    assert forall|i: int| 0 <= i < kc.len() implies !selected.contains(
        #[trigger] kc[i].source_node@,
    ) && !selected.contains(kc[i].target_node@) by {
        connections.lemma_filter_pred(pc, i);
    }
    assert forall|i: int| 0 <= i < kc.len() implies connections.contains(#[trigger] kc[i]) by {
        lemma_filter_subset(connections, pc, i);
    }
    assert forall|i: int|
        0 <= i < connections.len() && !selected.contains(connections[i].source_node@)
            && !selected.contains(connections[i].target_node@) implies kc.contains(
        #[trigger] connections[i],
    ) by {
        connections.lemma_filter_contains(pc, i);
    }
}

proof fn lemma_filter_subset<A>(s: Seq<A>, pred: spec_fn(A) -> bool, i: int)
    requires
        0 <= i < s.filter(pred).len(),
    ensures
        s.contains(s.filter(pred)[i]),
    decreases s.len(),
{
    reveal_with_fuel(Seq::filter, 1);
    broadcast use vstd::seq_lib::group_filter_ensures;

    let sub = s.drop_last().filter(pred);
    if pred(s.last()) && i == sub.len() {
        assert(s[s.len() - 1] == s.last());
    } else {
        lemma_filter_subset(s.drop_last(), pred, i);
        let k = choose|k: int| 0 <= k < s.drop_last().len() && s.drop_last()[k] == sub[i];
        assert(s[k] == sub[i]);
    }
}

/// Whether deleting the selection keeps this node: its id is not selected.
pub open spec fn node_survives(selected: Seq<Seq<char>>, n: GraphNode) -> bool {
    !selected.contains(n.id@)
}

/// Whether deleting the selection keeps this wire: neither of its ends is on
/// a selected node.
pub open spec fn connection_survives(selected: Seq<Seq<char>>, c: GraphConnection) -> bool {
    !selected.contains(c.source_node@) && !selected.contains(c.target_node@)
}

/// `node_survives` for the given selection, as a predicate on nodes.
pub open spec fn kept_nodes(selected: Seq<Seq<char>>) -> spec_fn(GraphNode) -> bool {
    |n: GraphNode| node_survives(selected, n)
}

/// `connection_survives` for the given selection, as a predicate on wires.
pub open spec fn kept_connections(selected: Seq<Seq<char>>) -> spec_fn(GraphConnection) -> bool {
    |c: GraphConnection| connection_survives(selected, c)
}

proof fn lemma_filter_take_step<A>(s: Seq<A>, pred: spec_fn(A) -> bool, k: int)
    requires
        0 <= k < s.len(),
    ensures
        s.take(k + 1).filter(pred) == (if pred(s[k]) {
            s.take(k).filter(pred).push(s[k])
        } else {
            s.take(k).filter(pred)
        }),
{
    reveal_with_fuel(Seq::filter, 1);
    assert(s.take(k + 1).drop_last() =~= s.take(k));
}

fn remove_selected_nodes(nodes: &mut Vec<GraphNode>, selected: &Vec<String>)
    ensures
        final(nodes)@ == old(nodes)@.filter(kept_nodes(id_seq(selected@))),
{
    let ghost orig = nodes@;
    let ghost pred = kept_nodes(id_seq(selected@));
    let mut rest: Vec<GraphNode> = Vec::new();
    std::mem::swap(nodes, &mut rest);
    let ghost mut k: int = 0;
    assert(orig.take(0) =~= Seq::<GraphNode>::empty());
    assert(rest@ =~= orig.skip(0));
    proof {
        reveal_with_fuel(Seq::filter, 1);
    }
    while rest.len() > 0
        invariant
            0 <= k <= orig.len(),
            rest@ == orig.skip(k),
            nodes@ == orig.take(k).filter(pred),
            pred == kept_nodes(id_seq(selected@)),
        decreases rest.len(),
    {
        let n = rest.remove(0);
        proof {
            lemma_filter_take_step(orig, pred, k);
        }
        let drop = is_selected(selected, n.id.as_str());
        if !drop {
            nodes.push(n);
        }
        proof {
            k = k + 1;
        }
        assert(rest@ =~= orig.skip(k));
    }
    assert(orig.take(k) =~= orig);
}

fn remove_touching_connections(connections: &mut Vec<GraphConnection>, selected: &Vec<String>)
    ensures
        final(connections)@ == old(connections)@.filter(kept_connections(id_seq(selected@))),
{
    let ghost orig = connections@;
    let ghost pred = kept_connections(id_seq(selected@));
    let mut rest: Vec<GraphConnection> = Vec::new();
    std::mem::swap(connections, &mut rest);
    let ghost mut k: int = 0;
    assert(orig.take(0) =~= Seq::<GraphConnection>::empty());
    assert(rest@ =~= orig.skip(0));
    proof {
        reveal_with_fuel(Seq::filter, 1);
    }
    while rest.len() > 0
        invariant
            0 <= k <= orig.len(),
            rest@ == orig.skip(k),
            connections@ == orig.take(k).filter(pred),
            pred == kept_connections(id_seq(selected@)),
        decreases rest.len(),
    {
        let c = rest.remove(0);
        proof {
            lemma_filter_take_step(orig, pred, k);
        }
        let from_selected = is_selected(selected, c.source_node.as_str());
        let to_selected = is_selected(selected, c.target_node.as_str());
        if !from_selected && !to_selected {
            connections.push(c);
        }
        proof {
            k = k + 1;
        }
        assert(rest@ =~= orig.skip(k));
    }
    assert(orig.take(k) =~= orig);
}

/// Deletes the selected nodes and every wire that starts or ends on one of
/// them. The other nodes and wires stay, in their order.
pub fn delete_selected(
    nodes: &mut Vec<GraphNode>,
    connections: &mut Vec<GraphConnection>,
    selected: &Vec<String>,
)
    ensures
        final(nodes)@ == old(nodes)@.filter(kept_nodes(id_seq(selected@))),
        final(connections)@ == old(connections)@.filter(kept_connections(id_seq(selected@))),
{
    remove_selected_nodes(nodes, selected);
    remove_touching_connections(connections, selected);
}

/// After deleting the selection no selected node is left and no wire touches
/// one, while every node and wire that the selection does not involve stays.
pub proof fn law_deletion_removes_exactly_the_selection(
    nodes: Seq<GraphNode>,
    connections: Seq<GraphConnection>,
    selected: Seq<Seq<char>>,
)
    ensures
        forall|i: int|
            0 <= i < nodes.filter(kept_nodes(selected)).len() ==> node_survives(
                selected,
                #[trigger] nodes.filter(kept_nodes(selected))[i],
            ),
        forall|i: int|
            0 <= i < connections.filter(kept_connections(selected)).len() ==> connection_survives(
                selected,
                #[trigger] connections.filter(kept_connections(selected))[i],
            ),
        forall|i: int|
            0 <= i < nodes.len() && node_survives(selected, nodes[i]) ==> nodes.filter(
                kept_nodes(selected),
            ).contains(#[trigger] nodes[i]),
        forall|i: int|
            0 <= i < connections.len() && connection_survives(selected, connections[i])
                ==> connections.filter(kept_connections(selected)).contains(
                #[trigger] connections[i],
            ),
{
    broadcast use vstd::seq_lib::group_filter_ensures;

    let pn = kept_nodes(selected);
    let pc = kept_connections(selected);
    assert forall|i: int| 0 <= i < nodes.filter(pn).len() implies node_survives(
        selected,
        #[trigger] nodes.filter(pn)[i],
    ) by {
        nodes.lemma_filter_pred(pn, i);
    }
    assert forall|i: int| 0 <= i < connections.filter(pc).len() implies connection_survives(
        selected,
        #[trigger] connections.filter(pc)[i],
    ) by {
        connections.lemma_filter_pred(pc, i);
    }
    assert forall|i: int| 0 <= i < nodes.len() && node_survives(selected, nodes[i]) implies nodes.filter(
        pn,
    ).contains(#[trigger] nodes[i]) by {
        nodes.lemma_filter_contains(pn, i);
    }
    assert forall|i: int|
        0 <= i < connections.len() && connection_survives(selected, connections[i]) implies connections.filter(
        pc,
    ).contains(#[trigger] connections[i]) by {
        connections.lemma_filter_contains(pc, i);
    }
}

/// How many items are drawn and how many are culled, given which are on screen.
pub fn visibility_counts(visible: &Vec<bool>) -> (r: (usize, usize))
    ensures
        r.0 == count_true(visible@, visible@.len() as int),
        r.0 + r.1 == visible.len(),
{
    let mut shown: usize = 0;
    let mut i: usize = 0;
    while i < visible.len()
        invariant
            i <= visible.len(),
            shown == count_true(visible@, i as int),
            shown <= i,
        decreases visible.len() - i,
    {
        if visible[i] {
            shown = shown + 1;
        }
        i = i + 1;
    }
    (shown, visible.len() - shown)
}

} // verus!
