//! Fixed-point world geometry.
//!
//! Positions, scales and per-frame steps are stored in tenths of a world
//! unit, so every constant of the prototype is represented exactly.

use vstd::prelude::*;

verus! {

/// How many fixed-point ticks make one world unit.
pub const TENTHS_PER_UNIT: i32 = 10;

/// A 3-component vector in tenths of a world unit.
#[derive(Clone, Copy, Debug, PartialEq, Eq, Structural)]
pub struct Vec3Fixed {
    pub x: i32,
    pub y: i32,
    pub z: i32,
}

impl Vec3Fixed {
    pub fn new(x: i32, y: i32, z: i32) -> (v: Vec3Fixed)
        ensures
            v == (Vec3Fixed { x, y, z }),
    {
        Vec3Fixed { x, y, z }
    }

    /// The origin.
    pub fn zero() -> (v: Vec3Fixed)
        ensures
            v == (Vec3Fixed { x: 0, y: 0, z: 0 }),
    {
        Vec3Fixed { x: 0, y: 0, z: 0 }
    }
}

/// The placement of an entity: where it sits and how it is stretched.
///
/// The rotation the engine also carries is always the identity in this
/// prototype, so it is not represented.
#[derive(Clone, Copy, Debug, PartialEq, Eq, Structural)]
pub struct Transform {
    /// Position, in tenths of a world unit.
    pub translation: Vec3Fixed,
    /// Per-axis stretch, in tenths: a component of 10 leaves that axis as is.
    pub scale: Vec3Fixed,
}

/// The identity stretch: every axis kept at its natural size.
pub open spec fn spec_unit_scale() -> Vec3Fixed {
    Vec3Fixed { x: TENTHS_PER_UNIT, y: TENTHS_PER_UNIT, z: TENTHS_PER_UNIT }
}

impl Transform {
    /// A transform at the given position with the identity stretch.
    pub fn from_xyz(x: i32, y: i32, z: i32) -> (t: Transform)
        ensures
            t.translation == (Vec3Fixed { x, y, z }),
            t.scale == spec_unit_scale(),
    {
        Transform {
            translation: Vec3Fixed { x, y, z },
            scale: Vec3Fixed {
                x: TENTHS_PER_UNIT,
                y: TENTHS_PER_UNIT,
                z: TENTHS_PER_UNIT,
            },
        }
    }
}

/// The identity transform: at the origin, nothing stretched.
pub open spec fn spec_identity_transform() -> Transform {
    Transform { translation: Vec3Fixed { x: 0, y: 0, z: 0 }, scale: spec_unit_scale() }
}

impl Default for Transform {
    /// The identity transform.
    fn default() -> (t: Transform)
        ensures
            t == spec_identity_transform(),
    {
        Transform::from_xyz(0, 0, 0)
    }
}

} // verus!
