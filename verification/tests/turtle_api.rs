use turt::session::Session;
use turt::trail::ColorRgba;
use turt::turtle::Turtle;

#[test]
fn a_fresh_agent_has_the_documented_defaults() {
    let mut session = Session::new();
    let turtle = Turtle::new(&mut session);
    assert_eq!(turtle.id(), 0);
    let rec = &session.registry.agents[0];
    assert_eq!((rec.x, rec.y), (0, 0));
    assert_eq!(rec.heading_mdeg, 0);
    assert_eq!(rec.visual_rotation_offset_mdeg, 90_000);
    assert_eq!(rec.color, ColorRgba { r: 0, g: 0, b: 0, a: 255 });
    assert_eq!((rec.width, rec.height), (48_000, 48_000));
    assert!(rec.history.ops.is_empty());
    assert_eq!(rec.history.max_depth, 10);
}

#[test]
fn set_pos_captures_the_segment_in_the_current_color() {
    let mut session = Session::new();
    let turtle = Turtle::new(&mut session);
    turtle.set_color(&mut session, 200, 100, 50, 255).unwrap();
    turtle.set_pos(&mut session, 5_000, 7_000).unwrap();
    let rec = &session.registry.agents[0];
    assert_eq!((rec.x, rec.y), (5_000, 7_000));
    assert_eq!(rec.history.ops.len(), 1);
    let op = rec.history.ops[0];
    assert_eq!((op.from_x, op.from_y), (0, 0));
    assert_eq!((op.to_x, op.to_y), (5_000, 7_000));
    assert_eq!(op.color, ColorRgba { r: 200, g: 100, b: 50, a: 255 });
}

#[test]
fn forward_adds_the_resolved_displacement() {
    let mut session = Session::new();
    let turtle = Turtle::new(&mut session);
    turtle.set_pos(&mut session, 1_000, 2_000).unwrap();
    turtle.forward(&mut session, 3_000, -500).unwrap();
    let rec = &session.registry.agents[0];
    assert_eq!((rec.x, rec.y), (4_000, 1_500));
    assert_eq!(rec.history.ops.len(), 2);
    let op = rec.history.ops[1];
    assert_eq!((op.from_x, op.from_y), (1_000, 2_000));
    assert_eq!((op.to_x, op.to_y), (4_000, 1_500));
}

#[test]
fn forward_clips_at_the_representable_range() {
    let mut session = Session::new();
    let turtle = Turtle::new(&mut session);
    turtle.set_pos(&mut session, i64::MAX - 1, 0).unwrap();
    turtle.forward(&mut session, 5, -7).unwrap();
    let rec = &session.registry.agents[0];
    assert_eq!(rec.x, i64::MAX);
    assert_eq!(rec.y, -7);
}

#[test]
fn color_and_size_overwrite_without_a_trail_segment() {
    let mut session = Session::new();
    let turtle = Turtle::new(&mut session);
    turtle.set_color(&mut session, 1, 2, 3, 4).unwrap();
    turtle.set_size(&mut session, 10_000, 20_000).unwrap();
    let rec = &session.registry.agents[0];
    assert_eq!(rec.color, ColorRgba { r: 1, g: 2, b: 3, a: 4 });
    assert_eq!((rec.width, rec.height), (10_000, 20_000));
    assert!(rec.history.ops.is_empty());
}

#[test]
fn max_hist_bounds_this_agents_trail() {
    let mut session = Session::new();
    let turtle = Turtle::new(&mut session);
    turtle.max_hist(&mut session, 2).unwrap();
    turtle.set_pos(&mut session, 1, 0).unwrap();
    turtle.set_pos(&mut session, 2, 0).unwrap();
    turtle.set_pos(&mut session, 3, 0).unwrap();
    let rec = &session.registry.agents[0];
    assert_eq!(rec.history.ops.len(), 2);
    assert_eq!(rec.history.ops[0].to_x, 2);
    assert_eq!(rec.history.ops[1].to_x, 3);
}

#[test]
fn mutations_touch_only_their_own_agent() {
    let mut session = Session::new();
    let a = Turtle::new(&mut session);
    let b = Turtle::new(&mut session);
    a.set_pos(&mut session, 1_000, 1_000).unwrap();
    b.left(&mut session, 90_000).unwrap();
    let rec_a = &session.registry.agents[0];
    let rec_b = &session.registry.agents[1];
    assert_eq!((rec_a.x, rec_a.y), (1_000, 1_000));
    assert_eq!(rec_a.heading_mdeg, 0);
    assert_eq!((rec_b.x, rec_b.y), (0, 0));
    assert_eq!(rec_b.heading_mdeg, 270_000);
    assert!(rec_b.history.ops.is_empty());
}
