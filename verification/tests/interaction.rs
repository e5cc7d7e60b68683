use blueprint_editor::interaction::{
    press_target, CanvasPress, CanvasState, KeyAction, LeftPressEffects, LeftRelease, MoveAction,
    PointerMove, RightRelease,
};

fn idle() -> CanvasState {
    CanvasState::idle()
}

#[test]
fn right_click_without_drag_opens_picker() {
    let mut s = idle();
    assert!(s.on_right_press());
    assert!(s.right_click_pending);
    let m = s.on_pointer_move(false);
    assert_eq!(m, PointerMove { start_panning: false, action: MoveAction::Idle });
    assert_eq!(s.on_right_release(), RightRelease::OpenNodePicker);
    assert!(!s.right_click_pending);
    assert!(!s.panning);
}

#[test]
fn right_drag_pans() {
    let mut s = idle();
    assert!(s.on_right_press());
    let m = s.on_pointer_move(true);
    assert_eq!(m, PointerMove { start_panning: true, action: MoveAction::UpdatePan });
    assert!(s.panning);
    assert!(!s.right_click_pending);
    assert_eq!(s.on_pointer_move(true), PointerMove { start_panning: false, action: MoveAction::UpdatePan });
    assert_eq!(s.on_right_release(), RightRelease::EndPanning);
    assert!(!s.panning);
    assert_eq!(s.on_right_release(), RightRelease::Idle);
}

#[test]
fn right_press_ignored_while_dragging_node() {
    let mut s = idle();
    s.dragging_node = true;
    assert!(!s.on_right_press());
    assert!(!s.right_click_pending);
    let mut t = idle();
    t.dragging_connection = true;
    assert!(!t.on_right_press());
}

#[test]
fn left_release_priority() {
    let mut s = idle();
    s.dragging_node = true;
    s.selecting = true;
    s.panning = true;
    assert_eq!(s.on_left_release(), LeftRelease::EndNodeDrag);
    assert!(s.panning);
    let mut t = idle();
    t.dragging_variable = true;
    t.dragging_connection = true;
    assert_eq!(t.on_left_release(), LeftRelease::DropVariable);
    let mut u = idle();
    u.dragging_connection = true;
    assert_eq!(u.on_left_release(), LeftRelease::DropConnection);
    let mut v = idle();
    v.panning = true;
    assert_eq!(v.on_left_release(), LeftRelease::EndPanning);
    assert!(!v.panning);
    let mut w = idle();
    assert_eq!(w.on_left_release(), LeftRelease::Idle);
    let mut x = idle();
    x.dragging_comment = true;
    x.resizing_comment = true;
    assert_eq!(x.on_left_release(), LeftRelease::EndCommentDrag);
    let mut y = idle();
    y.resizing_comment = true;
    assert_eq!(y.on_left_release(), LeftRelease::EndCommentResize);
    let mut z = idle();
    z.selecting = true;
    assert_eq!(z.on_left_release(), LeftRelease::EndSelection);
}

#[test]
fn pointer_move_priority() {
    let mut s = idle();
    s.resizing_comment = true;
    s.dragging_node = true;
    assert_eq!(s.on_pointer_move(false).action, MoveAction::UpdateCommentResize);
    let mut t = idle();
    t.dragging_connection = true;
    t.selecting = true;
    assert_eq!(t.on_pointer_move(false).action, MoveAction::UpdateConnectionDrag);
    let mut u = idle();
    u.selecting = true;
    u.panning = true;
    assert_eq!(u.on_pointer_move(false).action, MoveAction::UpdateSelection);
    let mut v = idle();
    v.dragging_comment = true;
    assert_eq!(v.on_pointer_move(false).action, MoveAction::UpdateCommentDrag);
    let mut w = idle();
    w.dragging_node = true;
    w.panning = true;
    assert_eq!(w.on_pointer_move(false).action, MoveAction::UpdateNodeDrag);
}

#[test]
fn left_press_finishes_editing_and_closes_menu() {
    let mut s = idle();
    s.editing_comment = true;
    s.variable_menu_open = true;
    let e = s.on_left_press();
    assert_eq!(e, LeftPressEffects { finish_comment_editing: true, close_variable_menu: true });
    assert!(!s.variable_menu_open);
    let mut t = idle();
    assert_eq!(
        t.on_left_press(),
        LeftPressEffects { finish_comment_editing: false, close_variable_menu: false }
    );
}

#[test]
fn keys_while_editing_comment() {
    let mut s = idle();
    s.editing_comment = true;
    assert_eq!(s.on_key("delete", false), KeyAction::Idle);
    assert_eq!(s.on_key("enter", false), KeyAction::Idle);
    assert_eq!(s.on_key("enter", true), KeyAction::FinishCommentEditing);
    assert!(s.editing_comment);
    assert_eq!(s.on_key("escape", false), KeyAction::CancelCommentEditing);
    assert!(!s.editing_comment);
}

#[test]
fn escape_closes_menu_then_cancels_wire() {
    let mut s = idle();
    s.variable_menu_open = true;
    s.dragging_connection = true;
    assert_eq!(s.on_key("escape", false), KeyAction::CloseVariableMenu);
    assert!(!s.variable_menu_open);
    assert_eq!(s.on_key("escape", false), KeyAction::CancelConnectionDrag);
    let mut t = idle();
    assert_eq!(t.on_key("escape", false), KeyAction::Idle);
}

#[test]
fn delete_and_comment_keys() {
    let mut s = idle();
    assert_eq!(s.on_key("delete", false), KeyAction::DeleteSelectedNodes);
    assert_eq!(s.on_key("backspace", true), KeyAction::DeleteSelectedNodes);
    assert_eq!(s.on_key("c", true), KeyAction::CreateComment);
    assert_eq!(s.on_key("c", false), KeyAction::Idle);
    assert_eq!(s.on_key("x", true), KeyAction::Idle);
}

#[test]
fn key_names_are_compared_in_lower_case() {
    let mut s = idle();
    assert_eq!(s.on_key_down("Delete", false), KeyAction::DeleteSelectedNodes);
    assert_eq!(s.on_key_down("BACKSPACE", false), KeyAction::DeleteSelectedNodes);
    assert_eq!(s.on_key_down("C", true), KeyAction::CreateComment);
    s.variable_menu_open = true;
    assert_eq!(s.on_key_down("Escape", false), KeyAction::CloseVariableMenu);
    // the lower-case name is matched exactly
    assert_eq!(s.on_key("Delete", false), KeyAction::Idle);
}

#[test]
fn press_target_respects_selection() {
    let selected = vec!["a".to_string(), "b".to_string()];
    assert_eq!(press_target(&selected, None), CanvasPress::EmptySpace);
    assert_eq!(press_target(&selected, Some("b")), CanvasPress::KeepSelection);
    assert_eq!(press_target(&selected, Some("c")), CanvasPress::SelectNode);
}
