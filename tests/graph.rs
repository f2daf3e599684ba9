use gpug::drag::{DragController, DragSession};
use gpug::edge::GraphEdge;
use gpug::geometry::{
    scale_length, screen_to_world, world_to_screen, GraphError, Point, ViewState, COORD_LIMIT,
};
use gpug::node::{label_width, GpugNode, MIN_WIDTH};

fn pt(x: i64, y: i64) -> Point {
    Point { x, y }
}

fn unit_view() -> ViewState {
    ViewState::new(pt(0, 0), 1000).unwrap()
}

#[test]
fn scenario_drag_and_reroute() {
    let mut a = GpugNode::new(1, "hi".to_string(), 0, 0).unwrap();
    let b = GpugNode::new(2, "b".to_string(), 3000, 0).unwrap();
    assert_eq!(a.width, 800);
    let view = unit_view();
    let mut drag = DragController::new();
    drag.drag_move(&mut a, &view, pt(0, 0), pt(400, 160)).unwrap();
    assert_eq!(drag.session, Some(DragSession { node_id: 1, grab: pt(400, 160) }));
    assert_eq!((a.x, a.y), (0, 0));
    drag.drag_move(&mut a, &view, pt(0, 0), pt(1400, 160)).unwrap();
    assert_eq!((a.x, a.y), (1000, 0));
    let mut e = GraphEdge::new(1, 2);
    assert!(e.reroute(&a, &b));
    assert_eq!(e.path, vec![pt(1800, 160), pt(3000, 160)]);
    assert_eq!(world_to_screen(&view, pt(0, 0), e.path[0]), pt(1800, 160));
    drag.drag_end(1);
    assert_eq!(drag.session, None);
}

#[test]
fn round_trip_within_tolerance() {
    let view = ViewState::new(pt(30, 40), 1500).unwrap();
    let c = pt(10, 20);
    for p in [pt(1234, -567), pt(1235, -566), pt(0, 0), pt(-999, 77)] {
        let w = screen_to_world(&view, c, p).unwrap();
        let back = world_to_screen(&view, c, w);
        assert!(p.x - back.x >= 0 && p.x - back.x <= 2);
        assert!(p.y - back.y >= 0 && p.y - back.y <= 2);
    }
    let w = screen_to_world(&view, c, pt(1235, 60)).unwrap();
    assert_eq!(w, pt(796, 0));
    assert_eq!(world_to_screen(&view, c, w), pt(1234, 60));
}

#[test]
fn round_trip_exact_at_unit_zoom() {
    let view = ViewState::new(pt(-7, 3), 1000).unwrap();
    let c = pt(100, 200);
    let p = pt(-31, 4577);
    let w = screen_to_world(&view, c, p).unwrap();
    assert_eq!(w, pt(-124, 4374));
    assert_eq!(world_to_screen(&view, c, w), p);
}

#[test]
fn screen_to_world_rounds_down() {
    let view = ViewState::new(pt(0, 0), 3000).unwrap();
    assert_eq!(screen_to_world(&view, pt(0, 0), pt(-1, 5)), Some(pt(-1, 1)));
}

#[test]
fn screen_to_world_out_of_range() {
    let view = ViewState::new(pt(0, 0), 1).unwrap();
    assert_eq!(screen_to_world(&view, pt(0, 0), pt(i64::MAX, 0)), None);
    assert_eq!(screen_to_world(&view, pt(0, 0), pt(COORD_LIMIT / 1000, 0)), Some(pt(COORD_LIMIT, 0)));
}

#[test]
fn view_rejects_bad_zoom_and_pan() {
    assert_eq!(ViewState::new(pt(0, 0), 0), Err(GraphError::InvalidGeometry));
    assert_eq!(ViewState::new(pt(0, 0), 1000001), Err(GraphError::InvalidGeometry));
    assert_eq!(ViewState::new(pt(COORD_LIMIT + 1, 0), 1000), Err(GraphError::InvalidGeometry));
    assert!(ViewState::new(pt(COORD_LIMIT, -COORD_LIMIT), 1000000).is_ok());
}

#[test]
fn scale_length_exact() {
    let view = ViewState::new(pt(0, 0), 2500).unwrap();
    assert_eq!(scale_length(&view, 800), 2000);
    assert_eq!(scale_length(&view, 3), 7);
}

#[test]
fn width_rule() {
    assert_eq!(label_width("hi"), Some(800));
    assert_eq!(label_width(""), Some(MIN_WIDTH));
    assert_eq!(label_width("abcdefg"), Some(800));
    assert_eq!(label_width("abcdefgh"), Some(816));
    assert_eq!(label_width("abcdefghi"), Some(888));
    assert_eq!(label_width("ééééééééé"), Some(888));
}

#[test]
fn width_monotonic_examples() {
    let a = label_width("abcdefghij").unwrap();
    let b = label_width("abcdefghijk").unwrap();
    assert!(a < b);
    assert_eq!(label_width("a"), label_width("abc"));
}

#[test]
fn node_new_checks_range() {
    assert!(GpugNode::new(1, "n".to_string(), COORD_LIMIT + 1, 0).is_err());
    assert!(GpugNode::new(1, "n".to_string(), 0, -COORD_LIMIT - 1).is_err());
    let n = GpugNode::new(7, "node".to_string(), -5, 9).unwrap();
    assert_eq!((n.id, n.x, n.y, n.width, n.selected), (7, -5, 9, 800, false));
    assert_eq!(n.left_port(), pt(-5, 169));
    assert_eq!(n.right_port(), pt(795, 169));
}

#[test]
fn drag_offset_survives_pan_change() {
    let mut a = GpugNode::new(1, "node".to_string(), 100, 100).unwrap();
    let mut drag = DragController::new();
    let v0 = unit_view();
    drag.drag_move(&mut a, &v0, pt(0, 0), pt(150, 130)).unwrap();
    assert_eq!(drag.session.unwrap().grab, pt(50, 30));
    let v1 = ViewState::new(pt(200, -100), 1000).unwrap();
    drag.drag_move(&mut a, &v1, pt(0, 0), pt(350, 30)).unwrap();
    assert_eq!((a.x, a.y), (100, 100));
    let s = world_to_screen(&v1, pt(0, 0), pt(a.x, a.y));
    assert_eq!((s.x - 350, s.y - 30), (-50, -30));
}

#[test]
fn drag_offset_survives_zoom_change() {
    let mut a = GpugNode::new(1, "node".to_string(), 0, 0).unwrap();
    let mut drag = DragController::new();
    drag.drag_move(&mut a, &unit_view(), pt(0, 0), pt(40, 16)).unwrap();
    let v2 = ViewState::new(pt(0, 0), 2000).unwrap();
    drag.drag_move(&mut a, &v2, pt(0, 0), pt(280, 32)).unwrap();
    assert_eq!((a.x, a.y), (100, 0));
    let grab_world = screen_to_world(&v2, pt(0, 0), pt(280, 32)).unwrap();
    assert_eq!((grab_world.x - a.x, grab_world.y - a.y), (40, 16));
}

#[test]
fn drag_move_for_other_node_ignored() {
    let mut a = GpugNode::new(1, "a".to_string(), 0, 0).unwrap();
    let mut b = GpugNode::new(2, "b".to_string(), 500, 500).unwrap();
    let mut drag = DragController::new();
    let v = unit_view();
    drag.drag_move(&mut a, &v, pt(0, 0), pt(10, 10)).unwrap();
    assert_eq!(drag.drag_move(&mut b, &v, pt(0, 0), pt(900, 900)), Ok(()));
    assert_eq!((b.x, b.y), (500, 500));
    assert_eq!(drag.session.unwrap().node_id, 1);
}

#[test]
fn drag_move_out_of_range_refused() {
    let mut a = GpugNode::new(1, "a".to_string(), 0, 0).unwrap();
    let mut drag = DragController::new();
    let v = ViewState::new(pt(0, 0), 1).unwrap();
    assert_eq!(drag.drag_move(&mut a, &v, pt(0, 0), pt(i64::MAX, 0)), Err(GraphError::InvalidGeometry));
    assert_eq!(drag.session, None);
    assert_eq!((a.x, a.y), (0, 0));
}

#[test]
fn idle_drop_changes_nothing() {
    let mut drag = DragController::new();
    drag.drag_end(3);
    assert_eq!(drag.session, None);
    let mut a = GpugNode::new(1, "a".to_string(), 0, 0).unwrap();
    drag.drag_move(&mut a, &unit_view(), pt(0, 0), pt(5, 6)).unwrap();
    let before = drag.session;
    drag.drag_end(2);
    assert_eq!(drag.session, before);
    assert_eq!((a.x, a.y), (0, 0));
    drag.cancel();
    assert_eq!(drag.session, None);
}

#[test]
fn source_move_reroutes_first_point() {
    let mut a = GpugNode::new(1, "a".to_string(), 0, 0).unwrap();
    let b = GpugNode::new(2, "b".to_string(), 3000, 0).unwrap();
    let mut e = GraphEdge::new(1, 2);
    assert!(e.path.is_empty());
    assert!(e.reroute(&a, &b));
    let target_end = e.path[1];
    a.x = 500;
    a.y = 500;
    assert!(e.reroute(&a, &b));
    assert_eq!(e.path[0], pt(1300, 660));
    assert_eq!(e.path[1], target_end);
}

#[test]
fn unrelated_nodes_leave_path() {
    let a = GpugNode::new(1, "a".to_string(), 0, 0).unwrap();
    let b = GpugNode::new(2, "b".to_string(), 3000, 0).unwrap();
    let c = GpugNode::new(3, "c".to_string(), 50, 50).unwrap();
    let mut e = GraphEdge::new(1, 2);
    e.reroute(&a, &b);
    let before = e.path.clone();
    assert!(!e.reroute(&c, &b));
    assert!(!e.reroute(&b, &a));
    assert_eq!(e.path, before);
}
