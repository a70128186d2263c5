use vstd::prelude::*;
use crate::custom_shape::Moving;
use crate::editor::{MouseButtons, MouseMovement};
use crate::geometry::{div_floor, Point};

verus! {

/// The kinds of primitive shape.
#[derive(Clone, Copy, Debug, PartialEq, Eq, Structural)]
pub enum PrimitiveType {
    Rectangle,
    Ellipse,
    RoundedRectangle,
}

/// What a press on the canvas does.
#[derive(Clone, Copy, Debug, PartialEq, Eq, Structural)]
pub enum ToolType {
    NoTool,
    Primitive(PrimitiveType),
    CustomShape,
}

/// The current tool and the colour new shapes get (RGBA).
#[derive(Clone, Copy, Debug, PartialEq, Eq)]
pub struct Tool {
    pub tool: ToolType,
    pub color: [u8; 4],
}

impl Default for Tool {
    fn default() -> (r: Tool)
        ensures
            r.tool == ToolType::NoTool,
            r.color@ == seq![0u8, 0u8, 0u8, 255u8],
    {
        let r = Tool { tool: ToolType::NoTool, color: [0, 0, 0, 255] };
        assert(r.color@ =~= seq![0u8, 0u8, 0u8, 255u8]);
        r
    }
}

/// The tool changed this frame.
#[derive(Clone, Copy, Debug, PartialEq, Eq, Structural)]
pub struct ToolChanged;

/// The primitive tool is selected.
pub fn should_handle_primitive(tool: &Tool) -> (r: bool)
    ensures
        r == tool.tool is Primitive,
{
    match tool.tool {
        ToolType::Primitive(_) => true,
        _ => false,
    }
}

/// The custom-shape tool is selected.
pub fn should_handle_custom_shape(tool: &Tool) -> (r: bool)
    ensures
        r == tool.tool is CustomShape,
{
    match tool.tool {
        ToolType::CustomShape => true,
        _ => false,
    }
}

/// The outline of a primitive, centered on its translation.
#[derive(Clone, Copy, Debug, PartialEq, Eq, Structural)]
pub enum PrimitiveGeometry {
    /// Full width and height.
    Rectangle { extents: Point },
    Ellipse { radii: Point },
}

/// A primitive being drawn: it spans from where the button went down to
/// the pointer.
#[derive(Clone, Copy, Debug, PartialEq, Eq, Structural)]
pub struct PrimitiveShape {
    pub shape: PrimitiveType,
    pub moving: Moving,
    pub geometry: PrimitiveGeometry,
    pub translation: Point,
}

/// The geometry of a primitive of kind `t` dragged from `origin` to `pos`,
/// and where it is centered: half-way, rounded down.
pub open spec fn spanned(t: PrimitiveType, origin: Point, pos: Point) -> (PrimitiveGeometry, Point) {
    let dx = pos.x - origin.x;
    let dy = pos.y - origin.y;
    let g = match t {
        PrimitiveType::Ellipse => PrimitiveGeometry::Ellipse {
            radii: Point { x: (dx / 2) as i64, y: (dy / 2) as i64 },
        },
        _ => PrimitiveGeometry::Rectangle { extents: Point { x: (-dx) as i64, y: (-dy) as i64 } },
    };
    (g, Point { x: (origin.x + dx / 2) as i64, y: (origin.y + dy / 2) as i64 })
}

fn span(t: PrimitiveType, origin: Point, pos: Point) -> (r: (PrimitiveGeometry, Point))
    requires
        origin.bounded(),
        pos.bounded(),
    ensures
        r == spanned(t, origin, pos),
        r.1.bounded(),
{
    let dx = pos.x - origin.x;
    let dy = pos.y - origin.y;
    let hx = div_floor(dx, 2);
    let hy = div_floor(dy, 2);
    let g = match t {
        PrimitiveType::Ellipse => PrimitiveGeometry::Ellipse { radii: Point { x: hx, y: hy } },
        _ => PrimitiveGeometry::Rectangle { extents: Point { x: -dx, y: -dy } },
    };
    (g, Point { x: origin.x + hx, y: origin.y + hy })
}

/// Draws at most one rectangle or ellipse at a time.
#[derive(Clone, Copy, Debug, PartialEq, Eq, Structural)]
pub struct PrimitiveBuilder {
    pub active: Option<PrimitiveShape>,
}

impl PrimitiveBuilder {
    pub open spec fn wf(&self) -> bool {
        match self.active {
            Some(s) => s.moving.origin.bounded() && s.shape != PrimitiveType::RoundedRectangle,
            None => true,
        }
    }

    pub fn new() -> (r: PrimitiveBuilder)
        ensures
            r.wf(),
            r.active is None,
    {
        PrimitiveBuilder { active: None }
    }

    /// A press over the canvas starts a primitive of the tool's kind, of
    /// size zero, at the pointer; a release hands back the primitive being
    /// drawn, finished. Rounded rectangles have no outline and start nothing.
    pub fn primitive_handle_creation(&mut self, tool: &Tool, buttons: MouseButtons, mouse: MouseMovement) -> (r:
        Option<PrimitiveShape>)
        requires
            old(self).wf(),
            mouse.wf(),
        ensures
            final(self).wf(),
            ({
                let starts = buttons.just_pressed && !mouse.over_ui && match tool.tool {
                    ToolType::Primitive(t) => t != PrimitiveType::RoundedRectangle,
                    _ => false,
                };
                let current = if starts {
                    Some(
                        PrimitiveShape {
                            shape: tool.tool->Primitive_0,
                            moving: Moving { origin: mouse.position },
                            geometry: spanned(tool.tool->Primitive_0, mouse.position, mouse.position).0,
                            translation: mouse.position,
                        },
                    )
                } else {
                    old(self).active
                };
                if buttons.just_released {
                    r == current && final(self).active is None
                } else {
                    r is None && final(self).active == current
                }
            }),
    {
        if buttons.just_pressed && !mouse.over_ui {
            match tool.tool {
                ToolType::Primitive(t) => {
                    if t != PrimitiveType::RoundedRectangle {
                        let (geometry, _) = span(t, mouse.position, mouse.position);
                        self.active = Some(
                            PrimitiveShape {
                                shape: t,
                                moving: Moving { origin: mouse.position },
                                geometry,
                                translation: mouse.position,
                            },
                        );
                    }
                },
                _ => {},
            }
        }
        if buttons.just_released {
            let done = self.active;
            self.active = None;
            done
        } else {
            None
        }
    }

    /// The primitive being drawn spans from where it began to the pointer.
    pub fn primitive_handle_update(&mut self, mouse: MouseMovement)
        requires
            old(self).wf(),
            mouse.wf(),
        ensures
            final(self).wf(),
            match old(self).active {
                Some(s) => {
                    let (g, t) = spanned(s.shape, s.moving.origin, mouse.position);
                    final(self).active == Some(PrimitiveShape { geometry: g, translation: t, ..s })
                },
                None => final(self).active is None,
            },
    {
        match self.active {
            Some(s) => {
                let (geometry, translation) = span(s.shape, s.moving.origin, mouse.position);
                self.active = Some(PrimitiveShape { geometry, translation, ..s });
            },
            None => {},
        }
    }
}

} // verus!
