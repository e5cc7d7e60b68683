//! Decisions behind drawing a node card and reacting to clicks on it:
//! its colour, the macro badge, double clicks that open a macro, the pins
//! that light up while a wire is dragged, and how comment boxes look and
//! where their handles sit.

use vstd::prelude::*;
use vstd::string::*;
use crate::graph::{NodeType, id_seq, is_selected};
use crate::hex_color::{HexColor, hex_color_of, parse_hex_color};
use crate::text::str_equal;

verus! {

/// The prefix of the definition id of a node that calls a macro (a subgraph).
pub open spec fn subgraph_prefix() -> Seq<char> {
    "subgraph:"@
}

/// `s` starts with the subgraph prefix.
pub open spec fn has_subgraph_prefix(s: Seq<char>) -> bool {
    s.len() >= subgraph_prefix().len() && s.subrange(0, subgraph_prefix().len() as int)
        == subgraph_prefix()
}

/// Whether a node calls a macro; such nodes carry a "MACRO" badge.
pub fn is_macro_node(definition_id: &str) -> (b: bool)
    ensures
        b == has_subgraph_prefix(definition_id@),
{
    proof {
        reveal_strlit("subgraph:");
    }
    let n = definition_id.unicode_len();
    if n < 9 {
        return false;
    }
    let head = definition_id.substring_char(0, 9);
    str_equal(head, "subgraph:")
}

/// The macro a node calls: its definition id without the subgraph prefix,
/// or the whole id when the prefix is absent.
pub fn subgraph_id(definition_id: &str) -> (id: String)
    ensures
        has_subgraph_prefix(definition_id@) ==> id@ == definition_id@.subrange(
            subgraph_prefix().len() as int,
            definition_id@.len() as int,
        ),
        !has_subgraph_prefix(definition_id@) ==> id@ == definition_id@,
{
    proof {
        reveal_strlit("subgraph:");
    }
    if is_macro_node(definition_id) {
        let n = definition_id.unicode_len();
        String::from_str(definition_id.substring_char(9, n))
    } else {
        String::from_str(definition_id)
    }
}

/// A second click counts as a double click when it comes less than 500 ms
/// after the previous one and near it (`near`: within 10 pixels).
pub open spec fn is_double_click_of(since_last_ms: Option<u128>, near: bool) -> bool {
    since_last_ms matches Some(ms) && ms < 500 && near
}

/// Whether a click completes a double click; `since_last_ms` is the time
/// since the previous click on the canvas, if one is recorded.
pub fn is_double_click(since_last_ms: Option<u128>, near: bool) -> (b: bool)
    ensures
        b == is_double_click_of(since_last_ms, near),
{
    match since_last_ms {
        Some(ms) => ms < 500 && near,
        None => false,
    }
}

/// What pressing a node's title bar does.
#[derive(Clone, Debug, PartialEq, Eq)]
pub enum HeaderPress {
    /// Open the macro with this id and forget the recorded click.
    OpenSubgraph { subgraph_id: String },
    /// Select the node if it is not selected, start dragging it, and record the click.
    SelectAndDrag { select: bool },
}

/// Pressing a node's title bar: a double click on a macro node opens the
/// macro; any other press selects the node (unless it already is) and drags it.
pub fn header_press(definition_id: &str, double_click: bool, already_selected: bool) -> (p:
    HeaderPress)
    ensures
        has_subgraph_prefix(definition_id@) && double_click ==> (p matches HeaderPress::OpenSubgraph {
            subgraph_id,
        } && subgraph_id@ == definition_id@.subrange(
            subgraph_prefix().len() as int,
            definition_id@.len() as int,
        )),
        !(has_subgraph_prefix(definition_id@) && double_click) ==> p == (HeaderPress::SelectAndDrag {
            select: !already_selected,
        }),
{
    if is_macro_node(definition_id) && double_click {
        HeaderPress::OpenSubgraph { subgraph_id: subgraph_id(definition_id) }
    } else {
        HeaderPress::SelectAndDrag { select: !already_selected }
    }
}

/// Where an opened macro lives.
#[derive(Clone, Debug, PartialEq, Eq)]
pub enum MacroTarget {
    /// In the engine library with this id.
    Library { library_id: String },
    /// Among the blueprint's own macros, at this index.
    Local { index: usize },
    /// Nowhere: the click is only logged.
    NotFound,
}

/// Finds the macro to open: in an engine library when the library lookup
/// found it (`library_id`), else the first local macro with that id.
pub fn resolve_macro(subgraph: &str, library_id: Option<String>, local_macro_ids: &Vec<String>) -> (t:
    MacroTarget)
    ensures
        library_id matches Some(l) ==> (t matches MacroTarget::Library { library_id: x } && x@
            == l@),
        library_id is None ==> match crate::graph::first_index(id_seq(local_macro_ids@), subgraph@) {
            Some(i) => t == (MacroTarget::Local { index: i as usize }),
            None => t == MacroTarget::NotFound,
        },
{
    match library_id {
        Some(l) => MacroTarget::Library { library_id: l },
        None => match crate::graph::position_of(local_macro_ids, subgraph) {
            Some(i) => MacroTarget::Local { index: i },
            None => MacroTarget::NotFound,
        },
    }
}

/// The colour a node's title bar is drawn in.
#[derive(Clone, Copy, Debug, PartialEq, Eq, Structural)]
pub enum NodeColor {
    /// The node's own colour.
    Custom(HexColor),
    /// The colour of its kind.
    Category(NodeType),
}

/// The colour of a node's title bar: its own colour when it has one that
/// parses, else the colour of its kind.
pub open spec fn node_color_of(color: Option<Seq<u8>>, node_type: NodeType) -> NodeColor {
    match color {
        Some(b) => match hex_color_of(b) {
            Some(c) => NodeColor::Custom(c),
            None => NodeColor::Category(node_type),
        },
        None => NodeColor::Category(node_type),
    }
}

/// The colour of a node's title bar.
pub fn node_color(color: Option<&str>, node_type: NodeType) -> (c: NodeColor)
    ensures
        c == node_color_of(
            match color {
                Some(h) => Some(h.spec_bytes()),
                None => None,
            },
            node_type,
        ),
{
    match color {
        Some(h) => match parse_hex_color(h) {
            Some(c) => NodeColor::Custom(c),
            None => NodeColor::Category(node_type),
        },
        None => NodeColor::Category(node_type),
    }
}

/// The pin whose type colours a reroute dot.
#[derive(Clone, Copy, Debug, PartialEq, Eq, Structural)]
pub enum RerouteColor {
    FirstInput,
    FirstOutput,
    /// The theme's accent colour, for a reroute node without pins.
    Accent,
}

/// A reroute dot takes the colour of its first input pin, else of its first
/// output pin, else the accent colour.
pub fn reroute_color(input_count: usize, output_count: usize) -> (c: RerouteColor)
    ensures
        input_count > 0 ==> c == RerouteColor::FirstInput,
        input_count == 0 && output_count > 0 ==> c == RerouteColor::FirstOutput,
        input_count == 0 && output_count == 0 ==> c == RerouteColor::Accent,
{
    if input_count > 0 {
        RerouteColor::FirstInput
    } else if output_count > 0 {
        RerouteColor::FirstOutput
    } else {
        RerouteColor::Accent
    }
}

/// The number of pin rows in a node body: one per input or output, side by side.
pub fn body_row_count(input_count: usize, output_count: usize) -> (n: usize)
    ensures
        n == if input_count >= output_count { input_count } else { output_count },
{
    if input_count >= output_count {
        input_count
    } else {
        output_count
    }
}

/// A pin lights up as a drop target while a wire is dragged when it is an
/// input pin of another node than the wire's source and its type accepts
/// the wire's type (`types_compatible`).
pub fn highlights_as_drop_target(
    is_input: bool,
    node_id: &str,
    drag_source_node: Option<&str>,
    types_compatible: bool,
) -> (b: bool)
    ensures
        b == (drag_source_node matches Some(src) && is_input && node_id@ != src@
            && types_compatible),
{
    match drag_source_node {
        Some(src) => is_input && !str_equal(node_id, src) && types_compatible,
        None => false,
    }
}

/// Whether the node drawn is the one being dragged, which is drawn slightly
/// transparent.
pub fn is_dragged(dragging_node: Option<&str>, node_id: &str) -> (b: bool)
    ensures
        b == (dragging_node matches Some(d) && d@ == node_id@),
{
    match dragging_node {
        Some(d) => str_equal(d, node_id),
        None => false,
    }
}

/// Clicking a comment selects it alone, unless it is already selected.
pub fn select_comment(selected: &mut Vec<String>, comment_id: &str)
    ensures
        id_seq(old(selected)@).contains(comment_id@) ==> final(selected)@ == old(selected)@,
        !id_seq(old(selected)@).contains(comment_id@) ==> (final(selected)@.len() == 1
            && final(selected)@[0]@ == comment_id@),
{
    if !is_selected(selected, comment_id) {
        selected.clear();
        selected.push(String::from_str(comment_id));
    }
}

/// What pressing a comment's text does.
#[derive(Clone, Copy, Debug, PartialEq, Eq, Structural)]
pub enum CommentPress {
    /// Start editing its text and forget the recorded click.
    Edit,
    /// Start dragging it and record the click.
    Drag,
}

/// A double click on a comment edits it; a single click drags it.
pub fn comment_press(double_click: bool) -> (p: CommentPress)
    ensures
        p == if double_click { CommentPress::Edit } else { CommentPress::Drag },
{
    if double_click {
        CommentPress::Edit
    } else {
        CommentPress::Drag
    }
}

/// How a comment box is drawn.
#[derive(Clone, Copy, Debug, PartialEq, Eq, Structural)]
pub struct CommentLook {
    /// A selected comment has the highlight (yellow) border; others a
    /// lightened shade of their own colour.
    pub highlight_border: bool,
    /// A comment being dragged or resized is drawn slightly transparent.
    pub faded: bool,
    /// The comment being edited shows a text input in place of its text.
    pub text_input: bool,
}

/// How the comment `comment_id` is drawn, given whether it is selected and
/// which comments (if any) are being dragged, resized and edited.
pub fn comment_look(
    comment_id: &str,
    is_selected: bool,
    dragging: Option<&str>,
    resizing: Option<&str>,
    editing: Option<&str>,
) -> (l: CommentLook)
    ensures
        l.highlight_border == is_selected,
        l.faded == ((dragging matches Some(d) && d@ == comment_id@) || (resizing matches Some(r)
            && r@ == comment_id@)),
        l.text_input == (editing matches Some(e) && e@ == comment_id@),
{
    let dragged = is_dragged(dragging, comment_id);
    let resized = is_dragged(resizing, comment_id);
    let edited = is_dragged(editing, comment_id);
    CommentLook { highlight_border: is_selected, faded: dragged || resized, text_input: edited }
}

/// The eight handles on the border of a comment box.
#[derive(Clone, Copy, Debug, PartialEq, Eq, Structural)]
pub enum ResizeHandle {
    TopLeft,
    TopRight,
    BottomLeft,
    BottomRight,
    Top,
    Bottom,
    Left,
    Right,
}

/// The pointer shown over a handle.
#[derive(Clone, Copy, Debug, PartialEq, Eq, Structural)]
pub enum ResizeCursor {
    /// Diagonal, from top left to bottom right.
    UpLeftDownRight,
    /// Diagonal, from top right to bottom left.
    UpRightDownLeft,
    UpDown,
    LeftRight,
}

/// The shape of a handle.
#[derive(Clone, Copy, Debug, PartialEq, Eq, Structural)]
pub enum HandleShape {
    /// A square of the handle size.
    Corner,
    /// As wide as the box, the handle size high.
    HorizontalEdge,
    /// As high as the box, the handle size wide.
    VerticalEdge,
}

/// Where a handle sits: against the left edge (else the right), against the
/// top edge (else the bottom), its shape and its pointer.
#[derive(Clone, Copy, Debug, PartialEq, Eq, Structural)]
pub struct HandlePlacement {
    pub at_left: bool,
    pub at_top: bool,
    pub shape: HandleShape,
    pub cursor: ResizeCursor,
}

/// The placement of each resize handle.
pub open spec fn handle_placement_of(h: ResizeHandle) -> HandlePlacement {
    match h {
        ResizeHandle::TopLeft => HandlePlacement {
            at_left: true,
            at_top: true,
            shape: HandleShape::Corner,
            cursor: ResizeCursor::UpLeftDownRight,
        },
        ResizeHandle::TopRight => HandlePlacement {
            at_left: false,
            at_top: true,
            shape: HandleShape::Corner,
            cursor: ResizeCursor::UpRightDownLeft,
        },
        ResizeHandle::BottomLeft => HandlePlacement {
            at_left: true,
            at_top: false,
            shape: HandleShape::Corner,
            cursor: ResizeCursor::UpRightDownLeft,
        },
        ResizeHandle::BottomRight => HandlePlacement {
            at_left: false,
            at_top: false,
            shape: HandleShape::Corner,
            cursor: ResizeCursor::UpLeftDownRight,
        },
        ResizeHandle::Top => HandlePlacement {
            at_left: false,
            at_top: true,
            shape: HandleShape::HorizontalEdge,
            cursor: ResizeCursor::UpDown,
        },
        ResizeHandle::Bottom => HandlePlacement {
            at_left: false,
            at_top: false,
            shape: HandleShape::HorizontalEdge,
            cursor: ResizeCursor::UpDown,
        },
        ResizeHandle::Left => HandlePlacement {
            at_left: true,
            at_top: false,
            shape: HandleShape::VerticalEdge,
            cursor: ResizeCursor::LeftRight,
        },
        ResizeHandle::Right => HandlePlacement {
            at_left: false,
            at_top: false,
            shape: HandleShape::VerticalEdge,
            cursor: ResizeCursor::LeftRight,
        },
    }
}

/// The handle sits on the left side of the box.
pub open spec fn on_left_side(h: ResizeHandle) -> bool {
    h == ResizeHandle::TopLeft || h == ResizeHandle::BottomLeft || h == ResizeHandle::Left
}

/// The handle sits on the top side of the box.
pub open spec fn on_top_side(h: ResizeHandle) -> bool {
    h == ResizeHandle::TopLeft || h == ResizeHandle::TopRight || h == ResizeHandle::Top
}

/// The handle is one of the four corners.
pub open spec fn is_corner(h: ResizeHandle) -> bool {
    h == ResizeHandle::TopLeft || h == ResizeHandle::TopRight || h == ResizeHandle::BottomLeft
        || h == ResizeHandle::BottomRight
}

/// Each handle sits on the edges its name says: against the left edge
/// exactly for the left-hand handles and against the top edge exactly for the
/// top ones (the others against the right and bottom edges). Corners are
/// squares whose diagonal pointer runs through the handle and the opposite
/// corner; the top and bottom handles span the width and resize up and down;
/// the left and right handles span the height and resize left and right.
pub proof fn law_handles_sit_where_named(h: ResizeHandle)
    ensures
        handle_placement_of(h).at_left <==> on_left_side(h),
        handle_placement_of(h).at_top <==> on_top_side(h),
        is_corner(h) ==> handle_placement_of(h).shape == HandleShape::Corner,
        is_corner(h) ==> (handle_placement_of(h).cursor == ResizeCursor::UpLeftDownRight
            <==> on_left_side(h) == on_top_side(h)),
        is_corner(h) ==> (handle_placement_of(h).cursor == ResizeCursor::UpLeftDownRight
            || handle_placement_of(h).cursor == ResizeCursor::UpRightDownLeft),
        (h == ResizeHandle::Top || h == ResizeHandle::Bottom) ==> handle_placement_of(h).shape
            == HandleShape::HorizontalEdge && handle_placement_of(h).cursor == ResizeCursor::UpDown,
        (h == ResizeHandle::Left || h == ResizeHandle::Right) ==> handle_placement_of(h).shape
            == HandleShape::VerticalEdge && handle_placement_of(h).cursor
            == ResizeCursor::LeftRight,
{
}

/// Where a resize handle sits and which pointer it shows.
pub fn handle_placement(h: ResizeHandle) -> (p: HandlePlacement)
    ensures
        p == handle_placement_of(h),
{
    match h {
        ResizeHandle::TopLeft => HandlePlacement {
            at_left: true,
            at_top: true,
            shape: HandleShape::Corner,
            cursor: ResizeCursor::UpLeftDownRight,
        },
        ResizeHandle::TopRight => HandlePlacement {
            at_left: false,
            at_top: true,
            shape: HandleShape::Corner,
            cursor: ResizeCursor::UpRightDownLeft,
        },
        ResizeHandle::BottomLeft => HandlePlacement {
            at_left: true,
            at_top: false,
            shape: HandleShape::Corner,
            cursor: ResizeCursor::UpRightDownLeft,
        },
        ResizeHandle::BottomRight => HandlePlacement {
            at_left: false,
            at_top: false,
            shape: HandleShape::Corner,
            cursor: ResizeCursor::UpLeftDownRight,
        },
        ResizeHandle::Top => HandlePlacement {
            at_left: false,
            at_top: true,
            shape: HandleShape::HorizontalEdge,
            cursor: ResizeCursor::UpDown,
        },
        ResizeHandle::Bottom => HandlePlacement {
            at_left: false,
            at_top: false,
            shape: HandleShape::HorizontalEdge,
            cursor: ResizeCursor::UpDown,
        },
        ResizeHandle::Left => HandlePlacement {
            at_left: true,
            at_top: false,
            shape: HandleShape::VerticalEdge,
            cursor: ResizeCursor::LeftRight,
        },
        ResizeHandle::Right => HandlePlacement {
            at_left: false,
            at_top: false,
            shape: HandleShape::VerticalEdge,
            cursor: ResizeCursor::LeftRight,
        },
    }
}

} // verus!
