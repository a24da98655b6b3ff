//! The live window configuration, as the settings logic reads and writes it.

use vstd::prelude::*;

verus! {

/// How the live window is shown.
#[derive(Clone, Copy, Debug, PartialEq, Eq, Hash, Structural)]
pub enum WindowMode {
    /// An ordinary window of a given size.
    Windowed,
    /// A borderless window that covers the monitor.
    BorderlessFullscreen,
    /// Exclusive fullscreen at the requested size.
    SizedFullscreen,
    /// Exclusive fullscreen at the monitor's own size.
    Fullscreen,
}

/// How the live window presents frames.
#[derive(Clone, Copy, Debug, PartialEq, Eq, Hash, Structural)]
pub enum PresentMode {
    /// Synchronised with the display, falling back as the platform allows.
    AutoVsync,
    /// Not synchronised, falling back as the platform allows.
    AutoNoVsync,
    /// Strict first in, first out.
    Fifo,
    /// First in, first out, late frames shown at once.
    FifoRelaxed,
    /// No synchronisation at all.
    Immediate,
    /// The newest frame replaces the waiting one.
    Mailbox,
}

/// The committed configuration of the window.
#[derive(Clone, Copy, Debug, PartialEq, Eq, Hash, Structural)]
pub struct WindowConfig {
    /// Width of the client area in logical pixels, fraction dropped.
    pub width: u32,
    /// Height of the client area in logical pixels, fraction dropped.
    pub height: u32,
    /// Width of the client area in physical pixels.
    pub physical_width: u32,
    /// Height of the client area in physical pixels.
    pub physical_height: u32,
    /// How the window is shown.
    pub mode: WindowMode,
    /// How frames are presented.
    pub present_mode: PresentMode,
    /// Whether the platform chooses where the window is placed.
    pub position_automatic: bool,
}

impl WindowConfig {
    /// A window of `width` by `height` physical pixels at a scale factor of
    /// one, so that its logical size is the same.
    pub open spec fn spec_sized(
        width: u32,
        height: u32,
        mode: WindowMode,
        present_mode: PresentMode,
    ) -> WindowConfig {
        WindowConfig {
            width,
            height,
            physical_width: width,
            physical_height: height,
            mode,
            present_mode,
            position_automatic: true,
        }
    }

    /// A window of `width` by `height` physical pixels at a scale factor of
    /// one, placed by the platform.
    pub fn sized(width: u32, height: u32, mode: WindowMode, present_mode: PresentMode) -> (window:
        WindowConfig)
        ensures
            window == WindowConfig::spec_sized(width, height, mode, present_mode),
    {
        WindowConfig {
            width,
            height,
            physical_width: width,
            physical_height: height,
            mode,
            present_mode,
            position_automatic: true,
        }
    }
}

} // verus!
