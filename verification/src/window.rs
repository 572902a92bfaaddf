//! The primary window's configuration.
//!
//! The prototype opens one window with a fixed title and pixel resolution,
//! vertical-sync-locked presentation, and a named canvas target for
//! non-native embedding.  The values are decided here; the windowing stack
//! applies them.

use vstd::prelude::*;

use crate::camera::WINDOW_RESOLUTION_HEIGHT;
use crate::camera::WINDOW_RESOLUTION_WIDTH;

verus! {

/// How frames are handed to the display.
#[derive(Clone, Copy, Debug, PartialEq, Eq, Structural)]
pub enum PresentMode {
    /// Queue frames and present on the vertical sync, never tearing.
    Fifo,
    /// Present immediately, tearing allowed.
    Immediate,
}

/// Everything the prototype decides about its window.
#[derive(Clone, Debug)]
pub struct WindowConfig {
    pub title: String,
    pub width: u32,
    pub height: u32,
    pub present_mode: PresentMode,
    pub resizable: bool,
    /// The selector of the canvas the window renders into when embedded.
    pub canvas: String,
}

/// Builds the primary window's configuration: the fixed title, the
/// 960×576 resolution, vertical-sync-locked presentation, resizable, and
/// the named canvas target.
pub fn primary_window_config() -> (w: WindowConfig)
    ensures
        w.title@ == "Retro Pixel Test"@,
        w.width == WINDOW_RESOLUTION_WIDTH,
        w.height == WINDOW_RESOLUTION_HEIGHT,
        w.present_mode is Fifo,
        w.resizable,
        w.canvas@ == "#bevy"@,
{
    WindowConfig {
        title: String::from_str("Retro Pixel Test"),
        width: WINDOW_RESOLUTION_WIDTH,
        height: WINDOW_RESOLUTION_HEIGHT,
        present_mode: PresentMode::Fifo,
        resizable: true,
        canvas: String::from_str("#bevy"),
    }
}

} // verus!
