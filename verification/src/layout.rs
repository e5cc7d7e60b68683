//! Layout of a node card, in pixels at zoom 1. Every measure is a whole
//! number of pixels; the renderer scales them by the zoom level.

use vstd::prelude::*;

verus! {

/// Height of the title bar.
pub const HEADER_H: u64 = 27;

/// Height of the line between title bar and body.
pub const SEP_H: u64 = 1;

/// Padding around the pin rows.
pub const BODY_PAD: u64 = 8;

/// Height of one pin row.
pub const PIN_ROW_H: u64 = 16;

/// Space between two pin rows.
pub const PIN_GAP: u64 = 4;

/// Diameter of a pin.
pub const PIN_SIZE: u64 = 12;

/// Height of a node without its pin rows: title bar, separator and the body
/// padding above and below the rows (27 + 1 + 2 * 8 = 44).
pub const NODE_BASE_H: u64 = HEADER_H + SEP_H + BODY_PAD * 2;

/// The number of rows a node body shows: at least one.
pub open spec fn shown_rows(pin_rows: nat) -> nat {
    if pin_rows == 0 { 1 } else { pin_rows }
}

/// Height of a node whose body has `pin_rows` rows: the base height, the
/// rows, and a gap between each two rows.
pub open spec fn node_height(pin_rows: nat) -> int {
    let rows = shown_rows(pin_rows);
    NODE_BASE_H + rows * PIN_ROW_H + (rows - 1) * PIN_GAP
}

/// Height of a node whose body has `pin_rows` rows (an empty body still
/// takes one row).
pub fn node_height_for_pin_rows(pin_rows: usize) -> (h: u128)
    ensures
        h == node_height(pin_rows as nat),
{
    let rows: u128 = if pin_rows == 0 { 1 } else { pin_rows as u128 };
    assert(1 <= rows <= usize::MAX);
    let base: u128 = NODE_BASE_H as u128;
    let row_h: u128 = PIN_ROW_H as u128;
    let gap: u128 = PIN_GAP as u128;
    assert(base == 44 && row_h == 16 && gap == 4);
    base + rows * row_h + (rows - 1) * gap
}

/// A node's height for one row is the base height plus one row, an empty
/// body is as tall as a body of one row, and each further row adds a row and
/// a gap.
pub proof fn law_node_height_grows_by_row(pin_rows: nat)
    ensures
        node_height(0) == node_height(1),
        node_height(1) == NODE_BASE_H + PIN_ROW_H,
        pin_rows >= 1 ==> node_height(pin_rows + 1) == node_height(pin_rows) + PIN_ROW_H + PIN_GAP,
{
}

/// Distance from the top of a node card to the middle of pin row `row`
/// (counting from 0): title bar, separator, top padding, the rows above with
/// their gaps, and half a row. Wires meet a node's pins here.
pub open spec fn pin_row_center(row: nat) -> int {
    HEADER_H + SEP_H + BODY_PAD + row * (PIN_ROW_H + PIN_GAP) + PIN_ROW_H / 2
}

/// Distance from the top of a node card to the middle of pin row `row`.
pub fn pin_row_center_offset(row: usize) -> (y: u128)
    ensures
        y == pin_row_center(row as nat),
{
    let top: u128 = (HEADER_H + SEP_H + BODY_PAD) as u128;
    let step: u128 = (PIN_ROW_H + PIN_GAP) as u128;
    let half: u128 = (PIN_ROW_H / 2) as u128;
    assert(top == 36 && step == 20 && half == 8);
    top + (row as u128) * step + half
}

/// The pin rows fit the card whose height `node_height` gives: each shown
/// row lies below the title bar, separator and top padding; the next row
/// starts one row and one gap further down; and the last row ends exactly
/// one padding above the bottom of the card.
pub proof fn law_pin_rows_inside_node(pin_rows: nat, row: nat)
    requires
        row < shown_rows(pin_rows),
    ensures
        pin_row_center(row) - PIN_ROW_H / 2 >= HEADER_H + SEP_H + BODY_PAD,
        pin_row_center(row) + PIN_ROW_H / 2 + BODY_PAD <= node_height(pin_rows),
        row + 1 < shown_rows(pin_rows) ==> pin_row_center(row + 1) == pin_row_center(row)
            + PIN_ROW_H + PIN_GAP,
        row + 1 == shown_rows(pin_rows) ==> pin_row_center(row) + PIN_ROW_H / 2 + BODY_PAD
            == node_height(pin_rows),
{
}

/// How far a node added from the library is moved right and down from the
/// centre of the view, so that successive nodes do not cover each other: it
/// cycles through eight steps of 18 pixels with the number of nodes.
pub fn placement_stagger(node_count: usize) -> (s: u32)
    ensures
        s == (node_count % 8) * 18,
        s <= 126,
{
    ((node_count % 8) as u32) * 18
}

} // verus!
