//! Orthographic camera configuration.
//!
//! The prototype renders at a low reference resolution scaled up to the
//! window.  The zoom is the ratio of the largest reference dimension to the
//! largest window dimension, computed once at startup and never revisited.

use vstd::prelude::*;

use crate::units::Vec3Fixed;

verus! {

/// Window width the prototype opens with, in pixels.
pub const WINDOW_RESOLUTION_WIDTH: u32 = 960;

/// Window height the prototype opens with, in pixels.
pub const WINDOW_RESOLUTION_HEIGHT: u32 = 576;

/// Width of the low-resolution canvas the art is authored at, in pixels.
pub const REFERENCE_RESOLUTION_WIDTH: u32 = 320;

/// Height of the low-resolution canvas the art is authored at, in pixels.
pub const REFERENCE_RESOLUTION_HEIGHT: u32 = 192;

/// Depth the camera sits at, in tenths of a world unit.
pub const CAMERA_DEPTH_TENTHS: i32 = 10000;

/// The larger of two pixel dimensions.
pub open spec fn spec_max_dimension(a: u32, b: u32) -> u32 {
    if a >= b {
        a
    } else {
        b
    }
}

/// An exact projection zoom: the camera scale is `num / den`.
#[derive(Clone, Copy, Debug, PartialEq, Eq, Structural)]
pub struct ScaleRatio {
    pub num: u32,
    pub den: u32,
}

impl ScaleRatio {
    /// Whether the ratio denotes a value at all.
    pub open spec fn spec_valid(self) -> bool {
        self.den > 0
    }
}

/// The camera scale for a reference resolution shown in a window: the
/// largest reference dimension over the largest window dimension.
pub open spec fn spec_camera_scale(
    reference_w: u32,
    reference_h: u32,
    window_w: u32,
    window_h: u32,
) -> ScaleRatio {
    ScaleRatio {
        num: spec_max_dimension(reference_w, reference_h),
        den: spec_max_dimension(window_w, window_h),
    }
}

fn max_dimension(a: u32, b: u32) -> (r: u32)
    ensures
        r == spec_max_dimension(a, b),
{
    if a >= b {
        a
    } else {
        b
    }
}

/// Computes the projection zoom for any pair of resolutions.
pub fn camera_scale(reference_w: u32, reference_h: u32, window_w: u32, window_h: u32) -> (r:
    ScaleRatio)
    requires
        window_w > 0 || window_h > 0,
    ensures
        r == spec_camera_scale(reference_w, reference_h, window_w, window_h),
        r.spec_valid(),
{
    ScaleRatio {
        num: max_dimension(reference_w, reference_h),
        den: max_dimension(window_w, window_h),
    }
}

/// Everything the startup routine decides about the camera.
#[derive(Clone, Copy, Debug, PartialEq, Eq, Structural)]
pub struct CameraConfig {
    /// Where the camera sits: on the plane's axis, pulled back in depth.
    pub position: Vec3Fixed,
    /// The projection keeps this many pixels visible vertically.
    pub fixed_vertical_size: u32,
    /// The precomputed zoom.
    pub scale: ScaleRatio,
}

/// Builds the one camera the prototype uses: centred, pulled back to the
/// fixed depth, sized to the window width, zoomed by the ratio of the
/// largest reference dimension to the largest window dimension.
pub fn setup_camera() -> (c: CameraConfig)
    ensures
        c.position == (Vec3Fixed { x: 0, y: 0, z: CAMERA_DEPTH_TENTHS }),
        c.fixed_vertical_size == WINDOW_RESOLUTION_WIDTH,
        c.scale == spec_camera_scale(
            REFERENCE_RESOLUTION_WIDTH,
            REFERENCE_RESOLUTION_HEIGHT,
            WINDOW_RESOLUTION_WIDTH,
            WINDOW_RESOLUTION_HEIGHT,
        ),
        c.scale.spec_valid(),
{
    CameraConfig {
        position: Vec3Fixed { x: 0, y: 0, z: CAMERA_DEPTH_TENTHS },
        fixed_vertical_size: WINDOW_RESOLUTION_WIDTH,
        scale: camera_scale(
            REFERENCE_RESOLUTION_WIDTH,
            REFERENCE_RESOLUTION_HEIGHT,
            WINDOW_RESOLUTION_WIDTH,
            WINDOW_RESOLUTION_HEIGHT,
        ),
    }
}

} // verus!
