//! How a window occupies its monitor.

use crate::geometry::UVec2;
use vstd::prelude::*;

verus! {

/// Which monitor a window should go to.
#[derive(Clone, Copy, Debug, PartialEq, Eq, Hash, Structural)]
pub enum MonitorSelection {
    /// The monitor the window is on.
    Current,
    /// The primary monitor.
    Primary,
    /// The monitor at this position of the current enumeration.
    Index(usize),
    /// The monitor with this entity.
    Entity(u64),
}

/// A display mode for exclusive fullscreen.
#[derive(Clone, Copy, Debug, PartialEq, Eq, Hash, Structural)]
pub struct VideoMode {
    pub physical_size: UVec2,
    pub bit_depth: u16,
    pub refresh_rate_millihertz: u32,
}

/// Which display mode exclusive fullscreen uses.
#[derive(Clone, Copy, Debug, PartialEq, Eq, Hash, Structural)]
pub enum VideoModeSelection {
    /// The mode the display is in.
    Current,
    /// This exact mode.
    Specific(VideoMode),
}

/// How a window occupies its monitor.
#[derive(Clone, Copy, Debug, PartialEq, Eq, Hash, Structural)]
pub enum WindowMode {
    /// The window occupies a part of the screen.
    Windowed,
    /// The window covers the whole screen of the selected monitor.
    BorderlessFullscreen(MonitorSelection),
    /// The window takes the selected monitor over, in the selected display mode.
    Fullscreen(MonitorSelection, VideoModeSelection),
}

} // verus!
