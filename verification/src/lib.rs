//! A retro-pixel 2D prototype, restated as a verified configuration library.
//!
//! The host game engine owns the window, the entity store, the scheduler and
//! the renderer.  What this crate owns — and proves — is every decision the
//! prototype makes on its own: the orthographic camera scale derived from the
//! reference resolution, the startup spawn plan, the per-frame player step,
//! the material-to-uniform projection, and the window-icon pixel preparation.
//!
//! World distances are carried in tenths of a world unit so that every
//! quantity the prototype uses (a 0.2 step, a 16-unit quad, a depth of 1000)
//! is exact; the camera zoom is an exact ratio of two screen dimensions.

pub mod camera;
pub mod icon;
pub mod material;
pub mod motion;
pub mod pixel_bundle;
pub mod plugin;
pub mod spawn;
pub mod units;
pub mod window;
