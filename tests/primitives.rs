use shape_editor::editor::{MouseButtons, MouseMovement};
use shape_editor::geometry::Point;
use shape_editor::tools::{
    should_handle_custom_shape, should_handle_primitive, PrimitiveBuilder, PrimitiveGeometry,
    PrimitiveType, Tool, ToolType,
};

fn at(x: i64, y: i64) -> MouseMovement {
    MouseMovement { position: Point::new(x, y), over_ui: false }
}

const PRESS: MouseButtons = MouseButtons { pressed: true, just_pressed: true, just_released: false };
const HOLD: MouseButtons = MouseButtons { pressed: true, just_pressed: false, just_released: false };
const RELEASE: MouseButtons =
    MouseButtons { pressed: false, just_pressed: false, just_released: true };

#[test]
fn default_tool_draws_nothing_in_black() {
    let t = Tool::default();
    assert_eq!(t.tool, ToolType::NoTool);
    assert_eq!(t.color, [0, 0, 0, 255]);
    assert!(!should_handle_primitive(&t));
    assert!(!should_handle_custom_shape(&t));
    let c = Tool { tool: ToolType::CustomShape, color: [1, 2, 3, 4] };
    assert!(should_handle_custom_shape(&c));
    let r = Tool { tool: ToolType::Primitive(PrimitiveType::Ellipse), color: [1, 2, 3, 4] };
    assert!(should_handle_primitive(&r));
}

#[test]
fn rectangle_spans_from_press_to_pointer() {
    let tool = Tool { tool: ToolType::Primitive(PrimitiveType::Rectangle), color: [9, 9, 9, 255] };
    let mut b = PrimitiveBuilder::new();
    assert!(b.primitive_handle_creation(&tool, PRESS, at(10, 10)).is_none());
    b.primitive_handle_update(at(31, 50));
    let s = b.active.unwrap();
    assert_eq!(s.geometry, PrimitiveGeometry::Rectangle { extents: Point::new(-21, -40) });
    assert_eq!(s.translation, Point::new(20, 30));
    let done = b.primitive_handle_creation(&tool, RELEASE, at(31, 50)).unwrap();
    assert_eq!(done.shape, PrimitiveType::Rectangle);
    assert!(b.active.is_none());
}

#[test]
fn ellipse_radii_are_half_the_drag() {
    let tool = Tool { tool: ToolType::Primitive(PrimitiveType::Ellipse), color: [0, 0, 0, 255] };
    let mut b = PrimitiveBuilder::new();
    b.primitive_handle_creation(&tool, PRESS, at(0, 0));
    assert!(b.primitive_handle_creation(&tool, HOLD, at(-9, 8)).is_none());
    b.primitive_handle_update(at(-9, 8));
    let s = b.active.unwrap();
    assert_eq!(s.geometry, PrimitiveGeometry::Ellipse { radii: Point::new(-5, 4) });
    assert_eq!(s.translation, Point::new(-5, 4));
}

#[test]
fn rounded_rectangle_starts_nothing() {
    let tool =
        Tool { tool: ToolType::Primitive(PrimitiveType::RoundedRectangle), color: [0, 0, 0, 255] };
    let mut b = PrimitiveBuilder::new();
    assert!(b.primitive_handle_creation(&tool, PRESS, at(0, 0)).is_none());
    assert!(b.active.is_none());
}
