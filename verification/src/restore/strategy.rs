//! Phases of a restore, and how it deals with monitors of different scale.

use crate::time::OperatingSystemWorkDeadline;
use vstd::prelude::*;

verus! {

/// One attempt of the rig to place a window.
#[derive(Clone, Copy, Debug, PartialEq, Eq, Structural)]
pub struct AttemptRef(pub u64);

/// Authority that requested one window-specific target preparation.
#[derive(Clone, Copy, Debug, PartialEq, Eq, Structural)]
pub enum RestorePreparationSource {
    /// The kernel issued this attempt and remains the authority for its lifecycle.
    KernelAttempt(AttemptRef),
}

/// Phase of a restore that has to cross a change of scale.
///
/// Moving a one-pixel window to its final position first puts it at the target location before its
/// size is applied.
#[derive(Clone, Copy, Debug, PartialEq, Eq, Structural)]
pub enum WindowRestoreState {
    /// The window needs to be moved to the target monitor to trigger a scale change.
    NeedInitialMove,
    /// Position applied with compensation, waiting for the scale to change.
    WaitingForScaleChange {
        /// Kernel attempt that began this transition.
        source: RestorePreparationSource,
        /// Hard bound on waiting for the operating system's scale transition.
        deadline: OperatingSystemWorkDeadline,
    },
    /// Scale changed, ready to apply the final size.
    ApplySize,
}

/// Whether a windowed move has been requested, and how long it may take.
#[derive(Clone, Copy, Debug, PartialEq, Eq, Structural)]
pub enum FullscreenMoveDeadline {
    NotRequested,
    Requested(OperatingSystemWorkDeadline),
}

/// Phase of a fullscreen restore; each platform needs its own sequence.
#[derive(Clone, Copy, Debug, PartialEq, Eq, Structural)]
pub enum FullscreenRestoreState {
    /// Leave the current fullscreen space before changing monitor.
    LeaveFullscreen,
    /// Keep moving the windowed window until it reaches the target monitor.
    MoveWindowedToTarget { deadline: FullscreenMoveDeadline },
    /// Move the window to the target monitor.
    MoveToMonitor,
    /// Wait for the compositor to process the position change.
    WaitForMove,
    /// Wait for the rendering surface.
    WaitForSurface,
    /// Apply the fullscreen mode.
    ApplyMode,
    /// Make the window key after the fullscreen request.
    ActivateWindow,
    /// Wait until both fullscreen presentation and the target monitor are reported.
    WaitForTarget,
}

/// How a restore deals with the scales of the launch monitor and the target monitor.
#[derive(Clone, Copy, Debug, PartialEq, Eq, Structural)]
pub enum MonitorScaleStrategy {
    /// Same scale: apply position and size directly.
    ApplyUnchanged,
    /// Position direct, size in two phases.
    CompensateSizeOnly(WindowRestoreState),
    /// From a lower to a higher scale: apply with compensation.
    LowerToHigher,
    /// From a higher to a lower scale: position first, size in a second phase.
    HigherToLower(WindowRestoreState),
}

} // verus!
