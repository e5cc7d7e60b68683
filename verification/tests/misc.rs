use blueprint_editor::compiler::{
    entry_symbol, entry_tone, history_display_order, messages_label, status_label, status_tone,
    CompilationState, StatusTone,
};
use blueprint_editor::layout::{node_height_for_pin_rows, pin_row_center_offset, placement_stagger, NODE_BASE_H};
use blueprint_editor::node_card::{
    body_row_count, comment_look, comment_press, handle_placement, header_press, highlights_as_drop_target,
    is_double_click, is_dragged, is_macro_node, node_color, reroute_color, resolve_macro,
    select_comment, subgraph_id, CommentLook, CommentPress, HandleShape, HeaderPress, MacroTarget, NodeColor,
    RerouteColor, ResizeCursor, ResizeHandle,
};
use blueprint_editor::graph::NodeType;
use blueprint_editor::hex_color::HexColor;
use blueprint_editor::plugin::{
    blueprint_class_file_type, check_editor_id, editors, metadata, PluginError,
};
use blueprint_editor::registry::EditorRegistry;
use blueprint_editor::text::{decimal_string, str_equal};
use blueprint_editor::workspace::{categories_label, selection_summary, WorkspacePanel};

#[test]
fn decimal_rendering() {
    assert_eq!(decimal_string(0), "0");
    assert_eq!(decimal_string(7), "7");
    assert_eq!(decimal_string(10), "10");
    assert_eq!(decimal_string(90210), "90210");
    assert_eq!(decimal_string(usize::MAX), usize::MAX.to_string());
    assert!(str_equal("abc", "abc"));
    assert!(!str_equal("abc", "abd"));
}

#[test]
fn node_heights() {
    assert_eq!(NODE_BASE_H, 44);
    assert_eq!(node_height_for_pin_rows(0), 60);
    assert_eq!(node_height_for_pin_rows(1), 60);
    assert_eq!(node_height_for_pin_rows(2), 80);
    assert_eq!(node_height_for_pin_rows(5), 140);
}

#[test]
fn placement_staggers_cycle() {
    assert_eq!(placement_stagger(0), 0);
    assert_eq!(placement_stagger(3), 54);
    assert_eq!(placement_stagger(7), 126);
    assert_eq!(placement_stagger(8), 0);
}

#[test]
fn compiler_texts() {
    assert_eq!(status_label(CompilationState::Idle), "Compiler Output");
    assert_eq!(status_label(CompilationState::Compiling), "⟳ Compiling...");
    assert_eq!(status_label(CompilationState::Success), "✓ Build Succeeded");
    assert_eq!(status_label(CompilationState::Error), "✗ Build Failed");
    assert_eq!(status_tone(CompilationState::Compiling), StatusTone::InProgress);
    assert_eq!(status_tone(CompilationState::Idle), StatusTone::Normal);
    assert_eq!(entry_symbol(CompilationState::Success), "✓");
    assert_eq!(entry_symbol(CompilationState::Error), "✗");
    assert_eq!(entry_symbol(CompilationState::Compiling), "•");
    assert_eq!(entry_tone(CompilationState::Idle), StatusTone::Muted);
    assert_eq!(messages_label(3), "3 messages");
    assert_eq!(history_display_order(3), vec![2, 1, 0]);
    assert_eq!(history_display_order(0), Vec::<usize>::new());
}

#[test]
fn workspace_texts() {
    assert_eq!(WorkspacePanel::Properties.panel_name(), "properties");
    assert_eq!(WorkspacePanel::Properties.title(), "Details");
    assert_eq!(WorkspacePanel::GraphCanvas.panel_name(), "graph-canvas");
    assert_eq!(WorkspacePanel::GraphCanvas.title(), "Event Graph");
    assert_eq!(selection_summary(0), "No node selected");
    assert_eq!(selection_summary(1), "1 node selected");
    assert_eq!(selection_summary(12), "12 nodes selected");
    assert_eq!(categories_label(4), "4 categories");
}

#[test]
fn plugin_identity() {
    let m = metadata();
    assert_eq!(m.id, "com.pulsar.blueprint-editor");
    assert_eq!(m.version, "0.1.0");
    let f = blueprint_class_file_type();
    assert_eq!(f.extension, "class");
    assert_eq!(f.main_file, "graph_save.json");
    assert_eq!(f.folders, vec!["events".to_string()]);
    let e = editors();
    assert_eq!(e.len(), 1);
    assert_eq!(e[0].id, "blueprint-editor");
    assert_eq!(e[0].supported_file_types, vec!["blueprint-class".to_string()]);
}

#[test]
fn editor_ids_are_checked() {
    assert_eq!(check_editor_id("blueprint-editor"), Ok(()));
    assert_eq!(
        check_editor_id("text-editor"),
        Err(PluginError::EditorNotFound { editor_id: "text-editor".to_string() })
    );
}

#[test]
fn pin_rows_sit_inside_the_card() {
    assert_eq!(pin_row_center_offset(0), 44);
    assert_eq!(pin_row_center_offset(1), 64);
    assert_eq!(pin_row_center_offset(2), 84);
    // The last of two rows ends one padding above the bottom of the card.
    assert_eq!(pin_row_center_offset(1) + 8 + 8, node_height_for_pin_rows(2));
}

#[test]
fn registry_counts_its_editors() {
    let mut r: EditorRegistry<u8> = EditorRegistry::new();
    for i in 0..5u8 {
        assert_eq!(r.len(), i as usize);
        r.register(i);
    }
    assert_eq!(r.len(), 5);
}

#[test]
fn registry_ids_are_fresh() {
    let mut r: EditorRegistry<&str> = EditorRegistry::new();
    assert_eq!(r.register("one"), 0);
    assert_eq!(r.register("two"), 1);
    assert_eq!(r.len(), 2);
    assert!(r.contains(1));
    assert_eq!(r.unload_all(), 2);
    assert_eq!(r.len(), 0);
    assert!(!r.contains(0));
    assert_eq!(r.register("three"), 2);
    assert_eq!(r.next_id(), 3);
}

#[test]
fn macro_nodes() {
    assert!(is_macro_node("subgraph:abc"));
    assert!(is_macro_node("subgraph:"));
    assert!(!is_macro_node("subgraph"));
    assert!(!is_macro_node("math.add"));
    assert_eq!(subgraph_id("subgraph:abc"), "abc");
    assert_eq!(subgraph_id("plain"), "plain");
}

#[test]
fn header_presses() {
    assert_eq!(
        header_press("subgraph:m1", true, false),
        HeaderPress::OpenSubgraph { subgraph_id: "m1".to_string() }
    );
    assert_eq!(header_press("subgraph:m1", false, true), HeaderPress::SelectAndDrag { select: false });
    assert_eq!(header_press("math.add", true, false), HeaderPress::SelectAndDrag { select: true });
    assert!(is_double_click(Some(499), true));
    assert!(!is_double_click(Some(500), true));
    assert!(!is_double_click(Some(10), false));
    assert!(!is_double_click(None, true));
}

#[test]
fn macro_resolution() {
    let locals = vec!["m0".to_string(), "m1".to_string()];
    assert_eq!(
        resolve_macro("m1", Some("lib".to_string()), &locals),
        MacroTarget::Library { library_id: "lib".to_string() }
    );
    assert_eq!(resolve_macro("m1", None, &locals), MacroTarget::Local { index: 1 });
    assert_eq!(resolve_macro("m9", None, &locals), MacroTarget::NotFound);
}

#[test]
fn node_colors() {
    assert_eq!(
        node_color(Some("#102030"), NodeType::Math),
        NodeColor::Custom(HexColor { r: 0x10, g: 0x20, b: 0x30, a: 255 })
    );
    assert_eq!(node_color(Some("bad"), NodeType::Math), NodeColor::Category(NodeType::Math));
    assert_eq!(node_color(None, NodeType::Event), NodeColor::Category(NodeType::Event));
}

#[test]
fn small_card_decisions() {
    assert_eq!(reroute_color(1, 1), RerouteColor::FirstInput);
    assert_eq!(reroute_color(0, 2), RerouteColor::FirstOutput);
    assert_eq!(reroute_color(0, 0), RerouteColor::Accent);
    assert_eq!(body_row_count(2, 5), 5);
    assert_eq!(body_row_count(3, 1), 3);
    assert!(highlights_as_drop_target(true, "b", Some("a"), true));
    assert!(!highlights_as_drop_target(false, "b", Some("a"), true));
    assert!(!highlights_as_drop_target(true, "a", Some("a"), true));
    assert!(!highlights_as_drop_target(true, "b", Some("a"), false));
    assert!(!highlights_as_drop_target(true, "b", None, true));
    assert!(is_dragged(Some("n1"), "n1"));
    assert!(!is_dragged(Some("n1"), "n2"));
    assert!(!is_dragged(None, "n1"));
    assert_eq!(comment_press(true), CommentPress::Edit);
    assert_eq!(comment_press(false), CommentPress::Drag);
}

#[test]
fn comment_selection() {
    let mut sel = vec!["c1".to_string(), "c2".to_string()];
    select_comment(&mut sel, "c2");
    assert_eq!(sel, vec!["c1".to_string(), "c2".to_string()]);
    select_comment(&mut sel, "c3");
    assert_eq!(sel, vec!["c3".to_string()]);
}

#[test]
fn resize_handles() {
    let p = handle_placement(ResizeHandle::TopRight);
    assert!(!p.at_left && p.at_top);
    assert_eq!(p.shape, HandleShape::Corner);
    assert_eq!(p.cursor, ResizeCursor::UpRightDownLeft);
    let q = handle_placement(ResizeHandle::Left);
    assert!(q.at_left && !q.at_top);
    assert_eq!(q.shape, HandleShape::VerticalEdge);
    assert_eq!(q.cursor, ResizeCursor::LeftRight);
    assert_eq!(handle_placement(ResizeHandle::Bottom).shape, HandleShape::HorizontalEdge);
}

#[test]
fn comment_boxes_show_their_state() {
    let l = comment_look("c1", true, Some("c1"), None, None);
    assert_eq!(l, CommentLook { highlight_border: true, faded: true, text_input: false });
    let l = comment_look("c1", false, Some("c2"), Some("c1"), Some("c1"));
    assert_eq!(l, CommentLook { highlight_border: false, faded: true, text_input: true });
    let l = comment_look("c1", false, None, None, Some("c2"));
    assert_eq!(l, CommentLook { highlight_border: false, faded: false, text_input: false });
}
