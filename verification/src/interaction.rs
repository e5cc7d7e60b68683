//! Pointer and keyboard handling of the graph canvas.
//!
//! The canvas reacts to an event according to which gesture is under way.
//! [`CanvasState`] is a snapshot of those gesture flags; each handler decides
//! what the event does and applies the flag changes that the canvas makes
//! itself (arming a right click, starting or ending a pan, closing the
//! variable menu, leaving comment editing). The work the decision names, such
//! as moving a dragged node, is the caller's.

use vstd::prelude::*;
use crate::text::str_equal;
use crate::graph::{id_seq, is_selected};

verus! {

/// Which gestures and modes of the canvas are active.
#[derive(Clone, Copy, Debug, PartialEq, Eq, Structural)]
pub struct CanvasState {
    /// A comment's text is being edited.
    pub editing_comment: bool,
    /// The Get/Set menu shown after dropping a variable is open.
    pub variable_menu_open: bool,
    /// A wire is being dragged out of a pin.
    pub dragging_connection: bool,
    /// A node is being dragged.
    pub dragging_node: bool,
    /// A comment box is being dragged.
    pub dragging_comment: bool,
    /// A comment box is being resized.
    pub resizing_comment: bool,
    /// A variable from the variables panel is being dragged.
    pub dragging_variable: bool,
    /// A selection rectangle is being drawn.
    pub selecting: bool,
    /// The view is being panned.
    pub panning: bool,
    /// The right button went down and has not yet moved far enough to pan.
    pub right_click_pending: bool,
}

/// What a left button press on the canvas background does before hit testing.
#[derive(Clone, Copy, Debug, PartialEq, Eq, Structural)]
pub struct LeftPressEffects {
    /// Commit the comment being edited and leave edit mode.
    pub finish_comment_editing: bool,
    /// The variable menu was open and has been closed.
    pub close_variable_menu: bool,
}

/// The gesture update that a pointer move drives.
#[derive(Clone, Copy, Debug, PartialEq, Eq, Structural)]
pub enum MoveAction {
    UpdateCommentDrag,
    UpdateCommentResize,
    UpdateNodeDrag,
    UpdateConnectionDrag,
    UpdateSelection,
    UpdatePan,
    Idle,
}

/// The outcome of a pointer move.
#[derive(Clone, Copy, Debug, PartialEq, Eq, Structural)]
pub struct PointerMove {
    /// The pending right click became a pan, starting where the button went down.
    pub start_panning: bool,
    /// The gesture update to perform after that.
    pub action: MoveAction,
}

/// What releasing the left button ends.
#[derive(Clone, Copy, Debug, PartialEq, Eq, Structural)]
pub enum LeftRelease {
    EndCommentDrag,
    EndCommentResize,
    EndNodeDrag,
    /// Drop the dragged variable and offer Get/Set at the drop point.
    DropVariable,
    /// Open the node picker at the drop point and cancel the wire drag.
    DropConnection,
    EndSelection,
    EndPanning,
    Idle,
}

/// What releasing the right button does.
#[derive(Clone, Copy, Debug, PartialEq, Eq, Structural)]
pub enum RightRelease {
    EndPanning,
    /// The right click did not become a drag: open the node picker there.
    OpenNodePicker,
    Idle,
}

/// What a key press does.
#[derive(Clone, Copy, Debug, PartialEq, Eq, Structural)]
pub enum KeyAction {
    /// Leave comment editing without saving the text.
    CancelCommentEditing,
    /// Save the edited comment text.
    FinishCommentEditing,
    CloseVariableMenu,
    CancelConnectionDrag,
    DeleteSelectedNodes,
    /// Create a comment at the centre of the view.
    CreateComment,
    Idle,
}

/// The left press: commit comment editing and close the variable menu.
pub open spec fn left_press(s: CanvasState) -> (CanvasState, LeftPressEffects) {
    (
        CanvasState { variable_menu_open: false, ..s },
        LeftPressEffects {
            finish_comment_editing: s.editing_comment,
            close_variable_menu: s.variable_menu_open,
        },
    )
}

/// The right press arms a context click unless a wire or a node is being dragged.
pub open spec fn right_press(s: CanvasState) -> (CanvasState, bool) {
    if !s.dragging_connection && !s.dragging_node {
        (CanvasState { right_click_pending: true, ..s }, true)
    } else {
        (s, false)
    }
}

/// The gesture a pointer move updates, by priority.
pub open spec fn move_action(s: CanvasState) -> MoveAction {
    if s.dragging_comment {
        MoveAction::UpdateCommentDrag
    } else if s.resizing_comment {
        MoveAction::UpdateCommentResize
    } else if s.dragging_node {
        MoveAction::UpdateNodeDrag
    } else if s.dragging_connection {
        MoveAction::UpdateConnectionDrag
    } else if s.selecting {
        MoveAction::UpdateSelection
    } else if s.panning && !s.dragging_node {
        MoveAction::UpdatePan
    } else {
        MoveAction::Idle
    }
}

/// A pointer move: a pending right click that moved beyond the threshold
/// turns into a pan, then the active gesture is updated.
pub open spec fn pointer_move(s: CanvasState, beyond_threshold: bool) -> (CanvasState, PointerMove) {
    let start = s.right_click_pending && beyond_threshold;
    let s1 = if start {
        CanvasState { panning: true, right_click_pending: false, ..s }
    } else {
        s
    };
    (s1, PointerMove { start_panning: start, action: move_action(s1) })
}

/// The gesture a left release ends, by priority.
pub open spec fn left_release_action(s: CanvasState) -> LeftRelease {
    if s.dragging_comment {
        LeftRelease::EndCommentDrag
    } else if s.resizing_comment {
        LeftRelease::EndCommentResize
    } else if s.dragging_node {
        LeftRelease::EndNodeDrag
    } else if s.dragging_variable {
        LeftRelease::DropVariable
    } else if s.dragging_connection {
        LeftRelease::DropConnection
    } else if s.selecting {
        LeftRelease::EndSelection
    } else if s.panning {
        LeftRelease::EndPanning
    } else {
        LeftRelease::Idle
    }
}

/// The left release; ending a pan clears the panning flag.
pub open spec fn left_release(s: CanvasState) -> (CanvasState, LeftRelease) {
    let a = left_release_action(s);
    if a == LeftRelease::EndPanning {
        (CanvasState { panning: false, ..s }, a)
    } else {
        (s, a)
    }
}

/// The right release ends a pan, or turns a pending right click into the node picker.
pub open spec fn right_release(s: CanvasState) -> (CanvasState, RightRelease) {
    if s.panning {
        (CanvasState { panning: false, ..s }, RightRelease::EndPanning)
    } else if s.right_click_pending {
        (CanvasState { right_click_pending: false, ..s }, RightRelease::OpenNodePicker)
    } else {
        (s, RightRelease::Idle)
    }
}

/// The action of a key press, given the key's name in lower case.
pub open spec fn key_action(s: CanvasState, key: Seq<char>, ctrl: bool) -> KeyAction {
    if s.editing_comment {
        if key == "escape"@ {
            KeyAction::CancelCommentEditing
        } else if key == "enter"@ && ctrl {
            KeyAction::FinishCommentEditing
        } else {
            KeyAction::Idle
        }
    } else if key == "escape"@ {
        if s.variable_menu_open {
            KeyAction::CloseVariableMenu
        } else if s.dragging_connection {
            KeyAction::CancelConnectionDrag
        } else {
            KeyAction::Idle
        }
    } else if key == "delete"@ || key == "backspace"@ {
        KeyAction::DeleteSelectedNodes
    } else if key == "c"@ && ctrl {
        KeyAction::CreateComment
    } else {
        KeyAction::Idle
    }
}

/// A key press, given the key's name in lower case.
pub open spec fn key_press(s: CanvasState, key: Seq<char>, ctrl: bool) -> (CanvasState, KeyAction) {
    let a = key_action(s, key, ctrl);
    if a == KeyAction::CancelCommentEditing {
        (CanvasState { editing_comment: false, ..s }, a)
    } else if a == KeyAction::CloseVariableMenu {
        (CanvasState { variable_menu_open: false, ..s }, a)
    } else {
        (s, a)
    }
}

/// A right click on a canvas where no wire or node is being dragged and no
/// pan is under way opens the node picker when the button comes up, also
/// after pointer moves that stay within the panning threshold; afterwards no
/// right click is pending.
pub proof fn law_right_click_opens_node_picker(s: CanvasState, short_moves: nat)
    requires
        !s.dragging_connection,
        !s.dragging_node,
        !s.panning,
    ensures
        ({
            let (s1, armed) = right_press(s);
            let s2 = moved_within_threshold(s1, short_moves);
            let (s3, release) = right_release(s2);
            &&& armed
            &&& release == RightRelease::OpenNodePicker
            &&& !s3.right_click_pending
            &&& !s3.panning
        }),
{
    let (s1, armed) = right_press(s);
    lemma_short_moves_keep_state(s1, short_moves);
}

/// The state after `n` pointer moves that each stay within the panning threshold.
pub open spec fn moved_within_threshold(s: CanvasState, n: nat) -> CanvasState
    decreases n,
{
    if n == 0 {
        s
    } else {
        moved_within_threshold(pointer_move(s, false).0, (n - 1) as nat)
    }
}

proof fn lemma_short_moves_keep_state(s: CanvasState, n: nat)
    ensures
        moved_within_threshold(s, n) == s,
    decreases n,
{
    if n > 0 {
        lemma_short_moves_keep_state(pointer_move(s, false).0, (n - 1) as nat);
    }
}

/// A right click that moves beyond the panning threshold pans the view
/// instead: the move starts the pan from where the button went down and, with
/// no other gesture under way, updates it; releasing the button ends the pan
/// and does not open the node picker.
pub proof fn law_right_drag_pans(s: CanvasState)
    requires
        !s.dragging_connection,
        !s.dragging_node,
        !s.panning,
    ensures
        ({
            let (s1, _) = right_press(s);
            let (s2, mv) = pointer_move(s1, true);
            let (s3, release) = right_release(s2);
            &&& mv.start_panning
            &&& s2.panning
            &&& !s2.right_click_pending
            &&& (!s.dragging_comment && !s.resizing_comment && !s.selecting ==> mv.action
                == MoveAction::UpdatePan)
            &&& release == RightRelease::EndPanning
            &&& !s3.panning
            &&& !s3.right_click_pending
        }),
{
}

/// While a wire or a node is being dragged, a right press arms nothing and
/// changes nothing.
pub proof fn law_right_press_ignored_while_dragging(s: CanvasState)
    requires
        s.dragging_connection || s.dragging_node,
    ensures
        right_press(s) == (s, false),
{
}

/// A left release ends exactly one gesture, the first active one in the
/// order comment drag, comment resize, node drag, variable drag, wire drag,
/// selection, pan; and the pan flag stays set only if another gesture was ended.
pub proof fn law_left_release_ends_one_gesture(s: CanvasState)
    ensures
        ({
            let (s1, a) = left_release(s);
            &&& (a == LeftRelease::Idle <==> !(s.dragging_comment || s.resizing_comment
                || s.dragging_node || s.dragging_variable || s.dragging_connection || s.selecting
                || s.panning))
            &&& (a == LeftRelease::EndPanning ==> !s1.panning)
            &&& (a != LeftRelease::EndPanning ==> s1 == s)
        }),
{
}

/// A pointer move updates the pan only when no comment, node, wire or
/// selection gesture is under way.
pub proof fn law_pan_updates_only_alone(s: CanvasState, beyond_threshold: bool)
    ensures
        pointer_move(s, beyond_threshold).1.action == MoveAction::UpdatePan ==> !s.dragging_comment
            && !s.resizing_comment && !s.dragging_node && !s.dragging_connection && !s.selecting,
{
}

/// A left press on the canvas commits the comment being edited exactly when
/// one is being edited, whether or not the variable menu is open; it closes
/// the variable menu exactly when it is open; it leaves every other gesture
/// flag as it was; and a second press finds the menu closed.
pub proof fn law_left_press_commits_edit_and_closes_menu(s: CanvasState)
    ensures
        ({
            let (s1, e) = left_press(s);
            &&& e.finish_comment_editing == s.editing_comment
            &&& e.close_variable_menu == s.variable_menu_open
            &&& !s1.variable_menu_open
            &&& s1.editing_comment == s.editing_comment
            &&& s1.dragging_connection == s.dragging_connection
            &&& s1.dragging_node == s.dragging_node
            &&& s1.dragging_comment == s.dragging_comment
            &&& s1.resizing_comment == s.resizing_comment
            &&& s1.dragging_variable == s.dragging_variable
            &&& s1.selecting == s.selecting
            &&& s1.panning == s.panning
            &&& s1.right_click_pending == s.right_click_pending
            &&& !left_press(s1).1.close_variable_menu
        }),
{
}

/// While a comment is being edited, keys act on the editor only: no key
/// deletes nodes, creates a comment or cancels a wire drag.
pub proof fn law_keys_edit_comment_only(s: CanvasState, key: Seq<char>, ctrl: bool)
    requires
        s.editing_comment,
    ensures
        ({
            let a = key_action(s, key, ctrl);
            a == KeyAction::CancelCommentEditing || a == KeyAction::FinishCommentEditing || a
                == KeyAction::Idle
        }),
{
}

/// What a left press on the canvas does once hit testing has found the node
/// under the pointer, if any.
#[derive(Clone, Copy, Debug, PartialEq, Eq, Structural)]
pub enum CanvasPress {
    /// Select the node that was hit.
    SelectNode,
    /// The node hit is already selected: keep the selection, so that all
    /// selected nodes can be dragged together.
    KeepSelection,
    /// Nothing was hit: try a double click on a wire, else start a selection rectangle.
    EmptySpace,
}

/// The effect of a left press on the node `hit` (or on empty space).
pub fn press_target(selected: &Vec<String>, hit: Option<&str>) -> (p: CanvasPress)
    ensures
        hit is None ==> p == CanvasPress::EmptySpace,
        hit matches Some(id) ==> p == if id_seq(selected@).contains(id@) {
            CanvasPress::KeepSelection
        } else {
            CanvasPress::SelectNode
        },
{
    match hit {
        None => CanvasPress::EmptySpace,
        Some(id) => if is_selected(selected, id) {
            CanvasPress::KeepSelection
        } else {
            CanvasPress::SelectNode
        },
    }
}

/// The lower-case form of a string, as `str::to_lowercase` computes it.
pub uninterp spec fn lowercase(s: Seq<char>) -> Seq<char>;

/// Calls `str::to_lowercase`, which maps each character to its Unicode
/// lower-case form; its result is named `lowercase` and not spelled out.
#[verifier::external_body]
fn to_lowercase(s: &str) -> (r: String)
    ensures
        r@ == lowercase(s@),
{
    s.to_lowercase()
}

impl CanvasState {
    /// No gesture active and no menu or editor open.
    pub fn idle() -> (s: CanvasState)
        ensures
            !s.editing_comment && !s.variable_menu_open && !s.dragging_connection
                && !s.dragging_node && !s.dragging_comment && !s.resizing_comment
                && !s.dragging_variable && !s.selecting && !s.panning && !s.right_click_pending,
    {
        CanvasState {
            editing_comment: false,
            variable_menu_open: false,
            dragging_connection: false,
            dragging_node: false,
            dragging_comment: false,
            resizing_comment: false,
            dragging_variable: false,
            selecting: false,
            panning: false,
            right_click_pending: false,
        }
    }

    /// Left button pressed on the canvas background.
    pub fn on_left_press(&mut self) -> (e: LeftPressEffects)
        ensures
            (*final(self), e) == left_press(*old(self)),
    {
        let e = LeftPressEffects {
            finish_comment_editing: self.editing_comment,
            close_variable_menu: self.variable_menu_open,
        };
        self.variable_menu_open = false;
        e
    }

    /// Right button pressed; returns whether a context click was armed.
    pub fn on_right_press(&mut self) -> (armed: bool)
        ensures
            (*final(self), armed) == right_press(*old(self)),
    {
        if !self.dragging_connection && !self.dragging_node {
            self.right_click_pending = true;
            true
        } else {
            false
        }
    }

    /// Pointer moved; `beyond_threshold` tells whether it is now farther from
    /// the pending right click than the panning threshold.
    pub fn on_pointer_move(&mut self, beyond_threshold: bool) -> (m: PointerMove)
        ensures
            (*final(self), m) == pointer_move(*old(self), beyond_threshold),
    {
        let start = self.right_click_pending && beyond_threshold;
        if start {
            self.panning = true;
            self.right_click_pending = false;
        }
        let action = if self.dragging_comment {
            MoveAction::UpdateCommentDrag
        } else if self.resizing_comment {
            MoveAction::UpdateCommentResize
        } else if self.dragging_node {
            MoveAction::UpdateNodeDrag
        } else if self.dragging_connection {
            MoveAction::UpdateConnectionDrag
        } else if self.selecting {
            MoveAction::UpdateSelection
        } else if self.panning && !self.dragging_node {
            MoveAction::UpdatePan
        } else {
            MoveAction::Idle
        };
        PointerMove { start_panning: start, action }
    }

    /// Left button released.
    pub fn on_left_release(&mut self) -> (a: LeftRelease)
        ensures
            (*final(self), a) == left_release(*old(self)),
    {
        if self.dragging_comment {
            LeftRelease::EndCommentDrag
        } else if self.resizing_comment {
            LeftRelease::EndCommentResize
        } else if self.dragging_node {
            LeftRelease::EndNodeDrag
        } else if self.dragging_variable {
            LeftRelease::DropVariable
        } else if self.dragging_connection {
            LeftRelease::DropConnection
        } else if self.selecting {
            LeftRelease::EndSelection
        } else if self.panning {
            self.panning = false;
            LeftRelease::EndPanning
        } else {
            LeftRelease::Idle
        }
    }

    /// Right button released.
    pub fn on_right_release(&mut self) -> (a: RightRelease)
        ensures
            (*final(self), a) == right_release(*old(self)),
    {
        if self.panning {
            self.panning = false;
            RightRelease::EndPanning
        } else if self.right_click_pending {
            self.right_click_pending = false;
            RightRelease::OpenNodePicker
        } else {
            RightRelease::Idle
        }
    }

    /// Key pressed, given the key's name already in lower case.
    pub fn on_key(&mut self, key_lower: &str, ctrl: bool) -> (a: KeyAction)
        ensures
            (*final(self), a) == key_press(*old(self), key_lower@, ctrl),
    {
        let escape = str_equal(key_lower, "escape");
        if self.editing_comment {
            if escape {
                self.editing_comment = false;
                KeyAction::CancelCommentEditing
            } else if str_equal(key_lower, "enter") && ctrl {
                KeyAction::FinishCommentEditing
            } else {
                KeyAction::Idle
            }
        } else if escape {
            if self.variable_menu_open {
                self.variable_menu_open = false;
                KeyAction::CloseVariableMenu
            } else if self.dragging_connection {
                KeyAction::CancelConnectionDrag
            } else {
                KeyAction::Idle
            }
        } else if str_equal(key_lower, "delete") || str_equal(key_lower, "backspace") {
            KeyAction::DeleteSelectedNodes
        } else if str_equal(key_lower, "c") && ctrl {
            KeyAction::CreateComment
        } else {
            KeyAction::Idle
        }
    }

    /// Key pressed, given the key's name as the keyboard reports it; the
    /// name is compared in lower case.
    pub fn on_key_down(&mut self, key: &str, ctrl: bool) -> (a: KeyAction)
        ensures
            (*final(self), a) == key_press(*old(self), lowercase(key@), ctrl),
    {
        let lower = to_lowercase(key);
        self.on_key(lower.as_str(), ctrl)
    }
}

} // verus!
