use gpug::geometry::{GraphError, Point, ViewState};
use gpug::surface::{find_node, GraphSurface};

fn pt(x: i64, y: i64) -> Point {
    Point { x, y }
}

fn two_node_surface() -> GraphSurface {
    let mut g = GraphSurface::new(ViewState::new(pt(0, 0), 1000).unwrap());
    g.add_node(1, "hi".to_string(), 0, 0).unwrap();
    g.add_node(2, "b".to_string(), 3000, 0).unwrap();
    g.add_edge(1, 2).unwrap();
    g
}

#[test]
fn surface_scenario() {
    let mut g = two_node_surface();
    assert_eq!(g.edges[0].path, vec![pt(800, 160), pt(3000, 160)]);
    g.drag_move(1, pt(400, 160), pt(0, 0)).unwrap();
    assert_eq!(g.drag.session.unwrap().grab, pt(400, 160));
    g.drag_move(1, pt(1400, 160), pt(0, 0)).unwrap();
    assert_eq!((g.nodes[0].x, g.nodes[0].y), (1000, 0));
    assert_eq!(g.edges[0].path, vec![pt(1800, 160), pt(3000, 160)]);
    let edges = g.render_edges();
    assert_eq!(edges[0].points, vec![pt(1800, 160), pt(3000, 160)]);
    g.drag_end(1);
    assert_eq!(g.drag.session, None);
}

#[test]
fn surface_duplicate_and_unknown_ids() {
    let mut g = two_node_surface();
    assert_eq!(g.add_node(2, "again".to_string(), 0, 0), Err(GraphError::DuplicateId));
    assert_eq!(g.nodes.len(), 2);
    assert_eq!(g.add_edge(1, 9), Err(GraphError::DanglingEdge));
    assert_eq!(g.add_edge(9, 1), Err(GraphError::DanglingEdge));
    assert_eq!(g.edges.len(), 1);
    assert_eq!(g.drag_move(9, pt(0, 0), pt(0, 0)), Err(GraphError::UnknownNode));
    assert_eq!(g.drag.session, None);
    assert_eq!(g.add_node(3, "far".to_string(), i64::MAX, 0), Err(GraphError::InvalidGeometry));
    assert_eq!(find_node(&g.nodes, 2), Some(1));
    assert_eq!(find_node(&g.nodes, 5), None);
}

#[test]
fn surface_set_view_checks_zoom() {
    let mut g = two_node_surface();
    assert_eq!(g.set_view(pt(0, 0), 0), Err(GraphError::InvalidGeometry));
    assert_eq!(g.view.zoom, 1000);
    assert_eq!(g.set_view(pt(50, -20), 2000), Ok(()));
    assert_eq!(g.view, ViewState { pan: pt(50, -20), zoom: 2000 });
}

#[test]
fn surface_drag_survives_zoom_and_pan_change() {
    let mut g = two_node_surface();
    g.drag_move(1, pt(400, 160), pt(10, 10)).unwrap();
    assert_eq!(g.drag.session.unwrap().grab, pt(390, 150));
    g.set_view(pt(100, 0), 2000).unwrap();
    g.drag_move(1, pt(890, 310), pt(10, 10)).unwrap();
    assert_eq!((g.nodes[0].x, g.nodes[0].y), (0, 0));
    g.drag_move(1, pt(1090, 310), pt(10, 10)).unwrap();
    assert_eq!((g.nodes[0].x, g.nodes[0].y), (100, 0));
    assert_eq!(g.edges[0].path[0], pt(900, 160));
}

#[test]
fn surface_idle_and_mismatched_drop() {
    let mut g = two_node_surface();
    g.drag_end(1);
    assert_eq!(g.drag.session, None);
    g.drag_move(1, pt(10, 10), pt(0, 0)).unwrap();
    let s = g.drag.session;
    g.drag_end(2);
    assert_eq!(g.drag.session, s);
    assert_eq!(g.drag_move(2, pt(500, 500), pt(0, 0)), Ok(()));
    assert_eq!((g.nodes[1].x, g.nodes[1].y), (3000, 0));
}

#[test]
fn surface_unrelated_edge_untouched() {
    let mut g = two_node_surface();
    g.add_node(3, "c".to_string(), 0, 1000).unwrap();
    g.add_node(4, "d".to_string(), 3000, 1000).unwrap();
    g.add_edge(3, 4).unwrap();
    let other = g.edges[1].path.clone();
    g.drag_move(1, pt(0, 0), pt(0, 0)).unwrap();
    g.drag_move(1, pt(500, 500), pt(0, 0)).unwrap();
    assert_eq!(g.edges[0].path, vec![pt(1300, 660), pt(3000, 160)]);
    assert_eq!(g.edges[1].path, other);
}

#[test]
fn surface_render_nodes_scaled() {
    let mut g = two_node_surface();
    g.set_view(pt(50, 20), 1500).unwrap();
    let frames = g.render_nodes();
    assert_eq!(frames.len(), 2);
    assert_eq!(frames[1].id, 2);
    assert_eq!(frames[1].origin, pt(4550, 20));
    assert_eq!(frames[0].width, 1200);
    assert_eq!(frames[0].height, 480);
    assert_eq!(frames[0].label, "hi");
    assert!(!frames[0].selected);
}

#[test]
fn surface_set_selected_only_flag() {
    let mut g = two_node_surface();
    assert!(!g.nodes[0].selected);
    let path = g.edges[0].path.clone();
    assert_eq!(g.set_selected(1, true), Ok(()));
    assert!(g.nodes[0].selected);
    assert!(!g.nodes[1].selected);
    assert_eq!((g.nodes[0].x, g.nodes[0].y, g.nodes[0].width), (0, 0, 800));
    assert_eq!(g.edges[0].path, path);
    assert_eq!(g.set_selected(9, true), Err(GraphError::UnknownNode));
    assert!(g.render_nodes()[0].selected);
}

#[test]
fn surface_set_label_resizes_and_reroutes() {
    let mut g = two_node_surface();
    g.add_node(3, "c".to_string(), 0, 1000).unwrap();
    g.add_node(4, "d".to_string(), 3000, 1000).unwrap();
    g.add_edge(3, 4).unwrap();
    let other = g.edges[1].path.clone();
    assert_eq!(g.set_label(1, "a longer label".to_string()), Ok(()));
    assert_eq!(g.nodes[0].name, "a longer label");
    assert_eq!(g.nodes[0].width, 14 * 72 + 240);
    assert_eq!(g.edges[0].path, vec![pt(1248, 160), pt(3000, 160)]);
    assert_eq!(g.edges[1].path, other);
    assert_eq!(g.set_label(2, "z".to_string()), Ok(()));
    assert_eq!(g.edges[0].path, vec![pt(1248, 160), pt(3000, 160)]);
    assert_eq!(g.set_label(9, "x".to_string()), Err(GraphError::UnknownNode));
}
