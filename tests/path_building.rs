use shape_editor::custom_shape::{PathBuilder, PathCommand, ShapeSegment};
use shape_editor::editor::{MouseButtons, MouseMovement};
use shape_editor::geometry::Point;
use shape_editor::helpers::{handle_tool_change, point_from_positions, rotate_around_pivot};
use shape_editor::tools::ToolChanged;

fn p(x: i64, y: i64) -> Point {
    Point::new(x, y)
}

fn up_at(x: i64, y: i64) -> (MouseButtons, MouseMovement) {
    (
        MouseButtons { pressed: false, just_pressed: false, just_released: true },
        MouseMovement { position: p(x, y), over_ui: false },
    )
}

#[test]
fn mirror_rule_reflects_cursor_through_pivot() {
    assert_eq!(rotate_around_pivot(p(100, 50), p(0, 0), p(100, 0)), p(100, -50));
    assert_eq!(rotate_around_pivot(p(3, 4), p(1, 1), p(5, 5)), p(6, 5));
    assert_eq!(point_from_positions(p(7, -2), p(3, 3)), p(4, -5));
}

#[test]
fn begin_starts_one_live_segment_and_refuses_a_second_path() {
    let mut b = PathBuilder::new();
    assert!(b.begin(p(10, 20)));
    assert!(!b.begin(p(30, 40)));
    let c = b.active.as_ref().unwrap();
    assert_eq!(c.moving.origin, p(10, 20));
    assert_eq!(c.shape.segments, vec![ShapeSegment::Line(p(0, 0))]);
    assert!(!c.shape.closed);
}

#[test]
fn commits_make_permanent_segments_and_previews_touch_only_the_last() {
    let mut b = PathBuilder::new();
    b.begin(p(0, 0));
    b.preview(p(5, 5), false);
    b.commit(p(5, 5));
    b.preview(p(9, 1), false);
    b.commit(p(9, 1));
    b.preview(p(12, 3), false);
    let segs = &b.active.as_ref().unwrap().shape.segments;
    assert_eq!(segs.len(), 3);
    assert_eq!(segs[0], ShapeSegment::Line(p(5, 5)));
    assert_eq!(segs[1], ShapeSegment::Line(p(9, 1)));
    assert_eq!(segs[2], ShapeSegment::Line(p(12, 3)));
}

#[test]
fn release_far_from_start_commits_one_segment() {
    let mut b = PathBuilder::new();
    b.begin(p(0, 0));
    assert!(b.release(p(50, 0)).is_none());
    let c = b.active.as_ref().unwrap();
    assert_eq!(c.shape.segments.len(), 2);
    assert_eq!(c.shape.segments[1], ShapeSegment::Line(p(50, 0)));
    assert!(!c.shape.closed);
}

#[test]
fn release_within_ten_units_closes_without_a_new_segment() {
    let mut b = PathBuilder::new();
    b.begin(p(100, 100));
    b.commit(p(200, 100));
    let done = b.release(p(106, 108)).unwrap();
    assert!(done.shape.closed);
    assert_eq!(done.shape.segments.len(), 2);
    assert!(b.active.is_none());
}

#[test]
fn release_just_beyond_ten_units_stays_open() {
    let mut b = PathBuilder::new();
    b.begin(p(0, 0));
    b.commit(p(200, 0));
    assert!(b.release(p(8, 7)).is_none());
    let c = b.active.as_ref().unwrap();
    assert_eq!(c.shape.segments.len(), 3);
    assert!(!c.shape.closed);
}

#[test]
fn closing_scenario_with_mirrored_curve() {
    let mut b = PathBuilder::new();
    assert!(b.begin(p(0, 0)));
    b.commit(p(100, 0));
    b.press(p(100, 0));
    b.preview(p(100, 50), true);
    let live = *b.active.as_ref().unwrap().shape.segments.last().unwrap();
    match live {
        ShapeSegment::QuadraticBezier { ctrl, to } => {
            assert_eq!(ctrl, p(100, -50));
            assert_eq!(to, p(100, 0));
            assert_eq!(point_from_positions(to, p(100, 0)), p(0, 0));
        }
        _ => panic!("the live segment should be a curve"),
    }
    let done = b.release(p(5, 3)).unwrap();
    assert!(done.shape.closed);
    assert_eq!(done.shape.segments.len(), 2);
}

#[test]
fn frames_drive_creation_and_closing() {
    let mut b = PathBuilder::new();
    let (rel, at_origin) = up_at(0, 0);
    assert!(b.tick(rel, at_origin).is_none());
    assert!(b.active.is_some());
    let moving = MouseMovement { position: p(40, 0), over_ui: false };
    let idle = MouseButtons { pressed: false, just_pressed: false, just_released: false };
    assert!(b.tick(idle, moving).is_none());
    let (rel, far) = up_at(40, 0);
    assert!(b.tick(rel, far).is_none());
    assert_eq!(b.active.as_ref().unwrap().shape.segments.len(), 2);
    let (rel, near) = up_at(2, 2);
    let done = b.tick(rel, near).unwrap();
    assert!(done.shape.closed);
    assert!(b.active.is_none());
}

#[test]
fn release_over_ui_does_not_start_a_path() {
    let mut b = PathBuilder::new();
    let rel = MouseButtons { pressed: false, just_pressed: false, just_released: true };
    let over = MouseMovement { position: p(0, 0), over_ui: true };
    assert!(!b.custom_shape_handle_creation(rel, over));
    assert!(b.active.is_none());
}

#[test]
fn tool_change_hands_back_the_open_path() {
    let mut b = PathBuilder::new();
    b.begin(p(0, 0));
    b.commit(p(30, 0));
    assert!(handle_tool_change(&mut b, &vec![]).is_none());
    let c = handle_tool_change(&mut b, &vec![ToolChanged]).unwrap();
    assert!(!c.shape.closed);
    assert_eq!(c.shape.segments.len(), 2);
    assert!(b.active.is_none());
}

#[test]
fn geometry_offsets_every_point_by_the_origin() {
    let mut b = PathBuilder::new();
    b.begin(p(0, 0));
    b.preview(p(10, 0), false);
    b.commit(p(10, 0));
    b.press(p(10, 0));
    b.preview(p(10, 4), true);
    let mut shape = b.release(p(1, 1)).unwrap().shape;
    shape.origin = p(-5, 2);
    let cmds = shape.add_geometry();
    assert_eq!(
        cmds,
        vec![
            PathCommand::Begin(p(-5, 2)),
            PathCommand::LineTo(p(5, 2)),
            PathCommand::QuadraticTo { ctrl: p(5, -2), to: p(5, 2) },
            PathCommand::End { close: true },
        ]
    );
}
