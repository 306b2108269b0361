//! The scene tree of the modeler: primitives, boolean operations, transforms
//! and colouring, and the builder methods that scripts use to assemble it.
//!
//! Every number of the scene is an `f32`, held here as its bit pattern
//! (see `float_bits`).
use vstd::prelude::*;
use crate::float_bits::{ZERO_BITS, ONE_BITS};

verus! {

/// One operation of the scene tree; numbers are `f32` bit patterns.
pub enum SdfOp {
    Sphere { radius: u32 },
    Box { size: [u32; 3] },
    Cylinder { radius: u32, height: u32 },
    Torus { major_radius: u32, minor_radius: u32 },
    Union { a: Box<SdfNode>, b: Box<SdfNode>, smooth: u32 },
    Subtract { a: Box<SdfNode>, b: Box<SdfNode>, smooth: u32 },
    Intersect { a: Box<SdfNode>, b: Box<SdfNode>, smooth: u32 },
    Translate { target: Box<SdfNode>, offset: [u32; 3] },
    Rotate { target: Box<SdfNode>, axis: [u32; 3], angle_deg: u32 },
    Mirror { target: Box<SdfNode>, axis: [u32; 3] },
    Color { target: Box<SdfNode>, color: [u32; 3] },
}

/// A node of the scene tree.
pub struct SdfNode {
    pub op: SdfOp,
}

/// The unit direction `(1, 0, 0)`.
pub open spec fn axis_x() -> [u32; 3] {
    [ONE_BITS, ZERO_BITS, ZERO_BITS]
}

/// The unit direction `(0, 1, 0)`.
pub open spec fn axis_y() -> [u32; 3] {
    [ZERO_BITS, ONE_BITS, ZERO_BITS]
}

/// The unit direction `(0, 0, 1)`.
pub open spec fn axis_z() -> [u32; 3] {
    [ZERO_BITS, ZERO_BITS, ONE_BITS]
}

impl Clone for SdfNode {
    /// A deep copy, equal to the node it was made from.
    fn clone(&self) -> (r: Self)
        ensures
            r == *self,
        decreases self,
    {
        let op = match &self.op {
            SdfOp::Sphere { radius } => SdfOp::Sphere { radius: *radius },
            SdfOp::Box { size } => SdfOp::Box { size: *size },
            SdfOp::Cylinder { radius, height } => SdfOp::Cylinder {
                radius: *radius,
                height: *height,
            },
            SdfOp::Torus { major_radius, minor_radius } => SdfOp::Torus {
                major_radius: *major_radius,
                minor_radius: *minor_radius,
            },
            SdfOp::Union { a, b, smooth } => SdfOp::Union {
                a: Box::new((**a).clone()),
                b: Box::new((**b).clone()),
                smooth: *smooth,
            },
            SdfOp::Subtract { a, b, smooth } => SdfOp::Subtract {
                a: Box::new((**a).clone()),
                b: Box::new((**b).clone()),
                smooth: *smooth,
            },
            SdfOp::Intersect { a, b, smooth } => SdfOp::Intersect {
                a: Box::new((**a).clone()),
                b: Box::new((**b).clone()),
                smooth: *smooth,
            },
            SdfOp::Translate { target, offset } => SdfOp::Translate {
                target: Box::new((**target).clone()),
                offset: *offset,
            },
            SdfOp::Rotate { target, axis, angle_deg } => SdfOp::Rotate {
                target: Box::new((**target).clone()),
                axis: *axis,
                angle_deg: *angle_deg,
            },
            SdfOp::Mirror { target, axis } => SdfOp::Mirror {
                target: Box::new((**target).clone()),
                axis: *axis,
            },
            SdfOp::Color { target, color } => SdfOp::Color {
                target: Box::new((**target).clone()),
                color: *color,
            },
        };
        SdfNode { op }
    }
}

impl SdfNode {
    pub fn new_sphere(radius: u32) -> (r: Self)
        ensures
            r == (SdfNode { op: SdfOp::Sphere { radius } }),
    {
        SdfNode { op: SdfOp::Sphere { radius } }
    }

    pub fn new_box(x: u32, y: u32, z: u32) -> (r: Self)
        ensures
            r == (SdfNode { op: SdfOp::Box { size: [x, y, z] } }),
    {
        SdfNode { op: SdfOp::Box { size: [x, y, z] } }
    }

    pub fn new_cylinder(r: u32, h: u32) -> (n: Self)
        ensures
            n == (SdfNode { op: SdfOp::Cylinder { radius: r, height: h } }),
    {
        SdfNode { op: SdfOp::Cylinder { radius: r, height: h } }
    }

    pub fn new_torus(major: u32, minor: u32) -> (r: Self)
        ensures
            r == (SdfNode { op: SdfOp::Torus { major_radius: major, minor_radius: minor } }),
    {
        SdfNode { op: SdfOp::Torus { major_radius: major, minor_radius: minor } }
    }

    /// Hard union of this node and `other`; this node is left as it was.
    pub fn union(&mut self, other: SdfNode) -> (r: SdfNode)
        ensures
            *final(self) == *old(self),
            r == (SdfNode {
                op: SdfOp::Union { a: Box::new(*old(self)), b: Box::new(other), smooth: ZERO_BITS },
            }),
    {
        SdfNode { op: SdfOp::Union { a: Box::new(self.clone()), b: Box::new(other), smooth: 0 } }
    }

    /// Smooth union with blend radius `k`; this node is left as it was.
    pub fn smooth_union(&mut self, other: SdfNode, k: u32) -> (r: SdfNode)
        ensures
            *final(self) == *old(self),
            r == (SdfNode {
                op: SdfOp::Union { a: Box::new(*old(self)), b: Box::new(other), smooth: k },
            }),
    {
        SdfNode { op: SdfOp::Union { a: Box::new(self.clone()), b: Box::new(other), smooth: k } }
    }

    /// This node minus `other`; this node is left as it was.
    pub fn subtract(&mut self, other: SdfNode) -> (r: SdfNode)
        ensures
            *final(self) == *old(self),
            r == (SdfNode {
                op: SdfOp::Subtract {
                    a: Box::new(*old(self)),
                    b: Box::new(other),
                    smooth: ZERO_BITS,
                },
            }),
    {
        SdfNode {
            op: SdfOp::Subtract { a: Box::new(self.clone()), b: Box::new(other), smooth: 0 },
        }
    }

    /// Smooth subtraction with blend radius `k`; this node is left as it was.
    pub fn smooth_subtract(&mut self, other: SdfNode, k: u32) -> (r: SdfNode)
        ensures
            *final(self) == *old(self),
            r == (SdfNode {
                op: SdfOp::Subtract { a: Box::new(*old(self)), b: Box::new(other), smooth: k },
            }),
    {
        SdfNode {
            op: SdfOp::Subtract { a: Box::new(self.clone()), b: Box::new(other), smooth: k },
        }
    }

    /// This node moved by `(x, y, z)`; this node is left as it was.
    pub fn translate(&mut self, x: u32, y: u32, z: u32) -> (r: SdfNode)
        ensures
            *final(self) == *old(self),
            r == (SdfNode {
                op: SdfOp::Translate { target: Box::new(*old(self)), offset: [x, y, z] },
            }),
    {
        SdfNode { op: SdfOp::Translate { target: Box::new(self.clone()), offset: [x, y, z] } }
    }

    /// This node turned by `deg` degrees about the x axis.
    pub fn rotate_x(&mut self, deg: u32) -> (r: SdfNode)
        ensures
            *final(self) == *old(self),
            r == (SdfNode {
                op: SdfOp::Rotate { target: Box::new(*old(self)), axis: axis_x(), angle_deg: deg },
            }),
    {
        SdfNode {
            op: SdfOp::Rotate {
                target: Box::new(self.clone()),
                axis: [ONE_BITS, ZERO_BITS, ZERO_BITS],
                angle_deg: deg,
            },
        }
    }

    /// This node turned by `deg` degrees about the y axis.
    pub fn rotate_y(&mut self, deg: u32) -> (r: SdfNode)
        ensures
            *final(self) == *old(self),
            r == (SdfNode {
                op: SdfOp::Rotate { target: Box::new(*old(self)), axis: axis_y(), angle_deg: deg },
            }),
    {
        SdfNode {
            op: SdfOp::Rotate {
                target: Box::new(self.clone()),
                axis: [ZERO_BITS, ONE_BITS, ZERO_BITS],
                angle_deg: deg,
            },
        }
    }

    /// This node turned by `deg` degrees about the z axis.
    pub fn rotate_z(&mut self, deg: u32) -> (r: SdfNode)
        ensures
            *final(self) == *old(self),
            r == (SdfNode {
                op: SdfOp::Rotate { target: Box::new(*old(self)), axis: axis_z(), angle_deg: deg },
            }),
    {
        SdfNode {
            op: SdfOp::Rotate {
                target: Box::new(self.clone()),
                axis: [ZERO_BITS, ZERO_BITS, ONE_BITS],
                angle_deg: deg,
            },
        }
    }

    /// This node mirrored across the plane `x = 0`.
    pub fn mirror_x(&mut self) -> (r: SdfNode)
        ensures
            *final(self) == *old(self),
            r == (SdfNode { op: SdfOp::Mirror { target: Box::new(*old(self)), axis: axis_x() } }),
    {
        SdfNode {
            op: SdfOp::Mirror {
                target: Box::new(self.clone()),
                axis: [ONE_BITS, ZERO_BITS, ZERO_BITS],
            },
        }
    }

    /// This node mirrored across the plane `y = 0`.
    pub fn mirror_y(&mut self) -> (r: SdfNode)
        ensures
            *final(self) == *old(self),
            r == (SdfNode { op: SdfOp::Mirror { target: Box::new(*old(self)), axis: axis_y() } }),
    {
        SdfNode {
            op: SdfOp::Mirror {
                target: Box::new(self.clone()),
                axis: [ZERO_BITS, ONE_BITS, ZERO_BITS],
            },
        }
    }

    /// This node mirrored across the plane `z = 0`.
    pub fn mirror_z(&mut self) -> (r: SdfNode)
        ensures
            *final(self) == *old(self),
            r == (SdfNode { op: SdfOp::Mirror { target: Box::new(*old(self)), axis: axis_z() } }),
    {
        SdfNode {
            op: SdfOp::Mirror {
                target: Box::new(self.clone()),
                axis: [ZERO_BITS, ZERO_BITS, ONE_BITS],
            },
        }
    }

    /// This node painted with the colour `(r, g, b)`.
    pub fn color(&mut self, r: u32, g: u32, b: u32) -> (n: SdfNode)
        ensures
            *final(self) == *old(self),
            n == (SdfNode { op: SdfOp::Color { target: Box::new(*old(self)), color: [r, g, b] } }),
    {
        SdfNode { op: SdfOp::Color { target: Box::new(self.clone()), color: [r, g, b] } }
    }
}

/// Supersampling levels for the rendered view.
#[derive(Clone, Copy, Debug, PartialEq, Eq, Structural)]
pub enum SsaaLevel {
    Off,
    Ssaa2x2,
    Ssaa4x4,
    Ssaa8x8,
}

impl SsaaLevel {
    /// Samples taken along each screen axis of a pixel.
    pub open spec fn samples_per_axis(self) -> u32 {
        match self {
            SsaaLevel::Off => 1,
            SsaaLevel::Ssaa2x2 => 2,
            SsaaLevel::Ssaa4x4 => 4,
            SsaaLevel::Ssaa8x8 => 8,
        }
    }

    pub fn to_u32(&self) -> (n: u32)
        ensures
            n == self.samples_per_axis(),
    {
        match self {
            SsaaLevel::Off => 1,
            SsaaLevel::Ssaa2x2 => 2,
            SsaaLevel::Ssaa4x4 => 4,
            SsaaLevel::Ssaa8x8 => 8,
        }
    }
}

/// User settings of the modeler.
pub struct SdfSettings {
    pub ssaa_level: SsaaLevel,
}

impl Default for SdfSettings {
    fn default() -> (r: Self)
        ensures
            r.ssaa_level == SsaaLevel::Off,
    {
        SdfSettings { ssaa_level: SsaaLevel::Off }
    }
}

} // verus!
