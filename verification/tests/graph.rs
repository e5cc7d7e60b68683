use blueprint_editor::graph::{
    connection_visible, delete_selected, find_node, is_selected, calculate_pin_anchor, plan_connection, plan_wire_drag,
    position_of, selection_flags, visibility_counts, ConnectionPlan, DragPlan, GraphConnection,
    GraphNode, NodeType, PinAnchor, WireDrag, WireEnd,
};

fn node(id: &str, t: NodeType, inputs: &[&str], outputs: &[&str]) -> GraphNode {
    GraphNode {
        id: id.to_string(),
        node_type: t,
        inputs: inputs.iter().map(|s| s.to_string()).collect(),
        outputs: outputs.iter().map(|s| s.to_string()).collect(),
    }
}

fn conn(a: &str, ap: &str, b: &str, bp: &str) -> GraphConnection {
    GraphConnection {
        source_node: a.to_string(),
        source_pin: ap.to_string(),
        target_node: b.to_string(),
        target_pin: bp.to_string(),
    }
}

fn sample() -> Vec<GraphNode> {
    vec![
        node("begin", NodeType::Event, &[], &["exec", "value"]),
        node("add", NodeType::Math, &["a", "b"], &["sum"]),
        node("dot", NodeType::Reroute, &["in"], &["out"]),
        node("add", NodeType::Logic, &["x"], &[]),
    ]
}

#[test]
fn find_node_returns_first_match() {
    let nodes = sample();
    assert_eq!(find_node(&nodes, "add"), Some(1));
    assert_eq!(find_node(&nodes, "dot"), Some(2));
    assert_eq!(find_node(&nodes, "missing"), None);
}

#[test]
fn pin_anchors() {
    let nodes = sample();
    assert_eq!(calculate_pin_anchor(&nodes[1], "b", true), Some(PinAnchor::Row(1)));
    assert_eq!(calculate_pin_anchor(&nodes[1], "sum", false), Some(PinAnchor::Row(0)));
    assert_eq!(calculate_pin_anchor(&nodes[1], "sum", true), None);
    assert_eq!(calculate_pin_anchor(&nodes[2], "anything", true), Some(PinAnchor::Center));
}

#[test]
fn plan_connection_between_pins() {
    let nodes = sample();
    let p = plan_connection(&nodes, &conn("begin", "value", "add", "b"));
    assert_eq!(
        p,
        Some(ConnectionPlan {
            from_node: 0,
            from_anchor: PinAnchor::Row(1),
            to_node: 1,
            to_anchor: PinAnchor::Row(1),
            color_pin: Some(1),
        })
    );
}

#[test]
fn plan_connection_through_reroute() {
    let nodes = sample();
    let p = plan_connection(&nodes, &conn("dot", "nope", "add", "a"));
    assert_eq!(
        p,
        Some(ConnectionPlan {
            from_node: 2,
            from_anchor: PinAnchor::Center,
            to_node: 1,
            to_anchor: PinAnchor::Row(0),
            color_pin: None,
        })
    );
}

#[test]
fn plan_connection_fails_on_missing_parts() {
    let nodes = sample();
    assert_eq!(plan_connection(&nodes, &conn("ghost", "x", "add", "a")), None);
    assert_eq!(plan_connection(&nodes, &conn("begin", "exec", "ghost", "a")), None);
    assert_eq!(plan_connection(&nodes, &conn("begin", "nope", "add", "a")), None);
    assert_eq!(plan_connection(&nodes, &conn("begin", "exec", "add", "nope")), None);
}

#[test]
fn connection_visibility() {
    let nodes = sample();
    let vis = vec![false, true, false, false];
    assert!(connection_visible(&nodes, &vis, &conn("begin", "exec", "add", "a")));
    assert!(!connection_visible(&nodes, &vis, &conn("begin", "exec", "dot", "in")));
    assert!(!connection_visible(&nodes, &vec![true; 4], &conn("begin", "exec", "ghost", "a")));
}

#[test]
fn wire_drag_plans() {
    let nodes = sample();
    let d = WireDrag { source_node: "begin".into(), source_pin: "exec".into(), target: None };
    assert_eq!(
        plan_wire_drag(&nodes, &d),
        Some(DragPlan { from_node: 0, from_anchor: PinAnchor::Row(0), end: WireEnd::Pointer })
    );
    let d2 = WireDrag {
        source_node: "begin".into(),
        source_pin: "exec".into(),
        target: Some(("add".into(), "b".into())),
    };
    assert_eq!(
        plan_wire_drag(&nodes, &d2),
        Some(DragPlan {
            from_node: 0,
            from_anchor: PinAnchor::Row(0),
            end: WireEnd::Pin { node: 1, anchor: PinAnchor::Row(1) }
        })
    );
    let d3 = WireDrag {
        source_node: "begin".into(),
        source_pin: "exec".into(),
        target: Some(("add".into(), "zz".into())),
    };
    assert_eq!(plan_wire_drag(&nodes, &d3).unwrap().end, WireEnd::Pointer);
    let d4 = WireDrag { source_node: "nobody".into(), source_pin: "exec".into(), target: None };
    assert_eq!(plan_wire_drag(&nodes, &d4), None);
}

#[test]
fn selection_flags_and_counts() {
    let ids = vec!["a".to_string(), "b".to_string(), "c".to_string()];
    let sel = vec!["c".to_string(), "a".to_string()];
    assert_eq!(selection_flags(&ids, &sel), vec![true, false, true]);
    assert!(is_selected(&sel, "a"));
    assert!(!is_selected(&sel, "b"));
    assert_eq!(visibility_counts(&vec![true, false, true, true]), (3, 1));
    assert_eq!(visibility_counts(&vec![]), (0, 0));
    assert_eq!(position_of(&ids, "b"), Some(1));
}

#[test]
fn drag_preview_matches_the_connection_it_makes() {
    let nodes = sample();
    let d = WireDrag {
        source_node: "begin".into(),
        source_pin: "value".into(),
        target: Some(("add".into(), "a".into())),
    };
    let p = plan_wire_drag(&nodes, &d).unwrap();
    let q = plan_connection(&nodes, &conn("begin", "value", "add", "a")).unwrap();
    assert_eq!(p.from_node, q.from_node);
    assert_eq!(p.from_anchor, q.from_anchor);
    assert_eq!(p.end, WireEnd::Pin { node: q.to_node, anchor: q.to_anchor });
}

#[test]
fn dangling_connection_is_not_drawn() {
    let nodes = sample();
    let c = conn("begin", "exec", "nowhere", "a");
    assert_eq!(plan_connection(&nodes, &c), None);
    assert!(!connection_visible(&nodes, &vec![true; 4], &c));
}

#[test]
fn deleting_selection_removes_nodes_and_their_wires() {
    let mut nodes = vec![
        node("a", NodeType::Event, &[], &["x"]),
        node("b", NodeType::Logic, &["i"], &["o"]),
        node("c", NodeType::Math, &["i"], &[]),
        node("d", NodeType::Object, &["i"], &[]),
    ];
    let mut conns = vec![conn("a", "x", "b", "i"), conn("b", "o", "c", "i"), conn("a", "x", "d", "i")];
    let selected = vec!["b".to_string(), "zz".to_string()];
    delete_selected(&mut nodes, &mut conns, &selected);
    let ids: Vec<&str> = nodes.iter().map(|n| n.id.as_str()).collect();
    assert_eq!(ids, vec!["a", "c", "d"]);
    assert_eq!(conns.len(), 1);
    assert_eq!(conns[0].source_node, "a");
    assert_eq!(conns[0].target_node, "d");
}

#[test]
fn deleting_empty_selection_changes_nothing() {
    let mut nodes = vec![node("a", NodeType::Event, &[], &["x"]), node("b", NodeType::Logic, &["i"], &[])];
    let mut conns = vec![conn("a", "x", "b", "i")];
    delete_selected(&mut nodes, &mut conns, &Vec::new());
    assert_eq!(nodes.len(), 2);
    assert_eq!(conns.len(), 1);
}
