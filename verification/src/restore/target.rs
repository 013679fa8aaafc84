//! Where a restore puts a window, and how it gets there.

use super::settle::SettleState;
use super::strategy::{FullscreenRestoreState, MonitorScaleStrategy};
use crate::geometry::{IVec2, UVec2};
use crate::monitors::topology::{CurrentMonitorIndex, MonitorDescriptor};
use crate::persistence::established_window_placement::{
    EstablishedWindowPlacement, EstablishedWindowPosition, RestorableWindowPosition,
    ScaledMonitorOrigin,
};
use crate::persistence::window_state::{
    PersistedPosition, SavedWindowMode, UnrebasedDesktopPosition,
};
use crate::platform::{Platform, ScaleRelation, Workarounds};
use crate::scale::ScaleFactor;
use vstd::prelude::*;

verus! {

/// A position that has been prepared for a restore.
#[derive(Clone, Copy, Debug, PartialEq, Eq, Structural)]
pub enum PreparedWindowPosition {
    /// Resolved from a persisted monitor-relative offset.
    PersistedOffset { physical_position: IVec2, logical_position: IVec2 },
    /// The saved record explicitly contained no coordinate.
    NotSaved,
    /// An absolute coordinate no longer resolves safely against live geometry.
    DiscardedLegacy,
    /// The kernel configuration rebased through the exact live target display.
    Restorable { physical_position: IVec2, logical_position: IVec2 },
    /// The compositor places the window.
    CompositorControlled,
}

/// Why target preparation did or did not produce window coordinates.
#[derive(Clone, Copy, Debug, PartialEq, Eq, Structural)]
pub enum PreparedPositionMeaning {
    /// Live geometry resolved a coordinate the platform can apply.
    Specified,
    /// The active compositor does not permit client-selected placement.
    PlatformCannotPosition,
    /// The serialized record contained no coordinate.
    NotSaved,
    /// A legacy absolute coordinate no longer resolved safely and was rejected.
    DiscardedLegacy,
}

impl PreparedWindowPosition {
    /// Why there are coordinates, or none.
    pub open spec fn meaning_on(self, platform: Platform) -> PreparedPositionMeaning {
        if !platform.has_positions() {
            PreparedPositionMeaning::PlatformCannotPosition
        } else {
            match self {
                PreparedWindowPosition::Restorable { .. }
                | PreparedWindowPosition::PersistedOffset { .. } =>
                    PreparedPositionMeaning::Specified,
                PreparedWindowPosition::NotSaved => PreparedPositionMeaning::NotSaved,
                PreparedWindowPosition::DiscardedLegacy => PreparedPositionMeaning::DiscardedLegacy,
                PreparedWindowPosition::CompositorControlled =>
                    PreparedPositionMeaning::PlatformCannotPosition,
            }
        }
    }

    /// Why there are coordinates, or none.
    pub fn meaning(self, platform: Platform) -> (result: PreparedPositionMeaning)
        ensures
            result == self.meaning_on(platform),
    {
        if !platform.position_available() {
            return PreparedPositionMeaning::PlatformCannotPosition;
        }
        match self {
            PreparedWindowPosition::Restorable { .. } => PreparedPositionMeaning::Specified,
            PreparedWindowPosition::PersistedOffset { .. } => PreparedPositionMeaning::Specified,
            PreparedWindowPosition::NotSaved => PreparedPositionMeaning::NotSaved,
            PreparedWindowPosition::DiscardedLegacy => PreparedPositionMeaning::DiscardedLegacy,
            PreparedWindowPosition::CompositorControlled =>
                PreparedPositionMeaning::PlatformCannotPosition,
        }
    }
}

/// A length as a signed 32-bit number: the upper half of the lengths wraps to negative numbers.
pub open spec fn wrapped(length: u32) -> int {
    if length > i32::MAX {
        length - 0x1_0000_0000
    } else {
        length as int
    }
}

/// Whether a physical desktop point lies within a monitor's bounds.
pub open spec fn lies_within(monitor: MonitorDescriptor, point: IVec2) -> bool {
    &&& monitor.physical_position.x <= point.x < monitor.physical_position.x + wrapped(
        monitor.physical_size.x,
    )
    &&& monitor.physical_position.y <= point.y < monitor.physical_position.y + wrapped(
        monitor.physical_size.y,
    )
}

fn wrapped_length(length: u32) -> (result: i64)
    ensures
        result == wrapped(length),
{
    if length > i32::MAX as u32 {
        length as i64 - 0x1_0000_0000
    } else {
        length as i64
    }
}

/// Whether a physical desktop point lies within a monitor's bounds.
pub fn monitor_contains_physical_point(descriptor: &MonitorDescriptor, physical_point: IVec2) -> (
result: bool)
    ensures
        result == lies_within(*descriptor, physical_point),
{
    let far_x: i64 = descriptor.physical_position.x as i64 + wrapped_length(
        descriptor.physical_size.x,
    );
    let far_y: i64 = descriptor.physical_position.y as i64 + wrapped_length(
        descriptor.physical_size.y,
    );
    physical_point.x >= descriptor.physical_position.x && (physical_point.x as i64) < far_x
        && physical_point.y >= descriptor.physical_position.y && (physical_point.y as i64) < far_y
}

/// What an old coordinate says once its captured scale has been applied to it.
#[derive(Clone, Copy, Debug, PartialEq, Eq, Structural)]
pub struct LegacyReconstruction {
    /// The saved corner in physical pixels.
    pub physical_corner: IVec2,
    /// Half of the saved size in physical pixels.
    pub physical_half_size: IVec2,
    /// The target monitor's corner in logical pixels at the captured scale.
    pub logical_origin: IVec2,
}

impl LegacyReconstruction {
    /// Whether the reconstructed centre is a coordinate that a desktop can have.
    pub open spec fn center_fits(self) -> bool {
        self.physical_corner.sum_fits(self.physical_half_size)
    }

    /// The physical centre of the window when it was saved.
    pub open spec fn center(self) -> IVec2 {
        self.physical_corner.sum(self.physical_half_size)
    }

    /// Whether the centre, and the offset from the monitor where the centre is still on it, are
    /// coordinates that a desktop can have.
    pub open spec fn rebases_within_range(self, logical: IVec2, monitor: MonitorDescriptor) -> bool {
        &&& self.center_fits()
        &&& lies_within(monitor, self.center()) ==> logical.difference_fits(self.logical_origin)
    }
}

/// The physical centre encoded by an old coordinate.
pub fn reconstructed_legacy_window_center(reconstruction: LegacyReconstruction) -> (result: IVec2)
    requires
        reconstruction.center_fits(),
    ensures
        result == reconstruction.center(),
{
    reconstruction.physical_corner.plus(reconstruction.physical_half_size)
}

/// The offset from a monitor that an old coordinate stands for, unless the window's centre is no
/// longer on that monitor.
pub open spec fn rebased_legacy_offset(
    logical: IVec2,
    reconstruction: LegacyReconstruction,
    monitor: MonitorDescriptor,
) -> Option<IVec2> {
    if lies_within(monitor, reconstruction.center()) {
        Some(logical.difference(reconstruction.logical_origin))
    } else {
        None
    }
}

/// Convert an absolute desktop coordinate into an offset from `target_info`, or reject it.
///
/// Multiplying the saved coordinate by the scale that wrote it reconstructs where the window sat.
/// Which monitor a window belongs to is decided by where its middle is, so the centre is what is
/// tested: a window that straddles a boundary has its corner on the neighbouring monitor.
pub fn rebase_legacy_position(
    unrebased: UnrebasedDesktopPosition,
    reconstruction: LegacyReconstruction,
    target_info: &MonitorDescriptor,
) -> (result: Option<IVec2>)
    requires
        reconstruction.rebases_within_range(unrebased.saved_logical(), *target_info),
    ensures
        result == rebased_legacy_offset(unrebased.saved_logical(), reconstruction, *target_info),
{
    let center = reconstructed_legacy_window_center(reconstruction);
    if !monitor_contains_physical_point(target_info, center) {
        return None;
    }
    Some(unrebased.logical().minus(reconstruction.logical_origin))
}

/// The offset that a persisted position stands for on a monitor, or why there is none.
pub open spec fn offset_of_persisted(
    position: PersistedPosition,
    reconstruction: LegacyReconstruction,
    monitor: MonitorDescriptor,
) -> Result<IVec2, PreparedWindowPosition> {
    match position {
        PersistedPosition::MonitorOffset(offset) => Ok(offset),
        PersistedPosition::Unrebased(unrebased) => match rebased_legacy_offset(
            unrebased.saved_logical(),
            reconstruction,
            monitor,
        ) {
            Some(offset) => Ok(offset),
            None => Err(PreparedWindowPosition::DiscardedLegacy),
        },
        PersistedPosition::Unpositioned => Err(PreparedWindowPosition::NotSaved),
    }
}

/// The offset that a persisted position stands for on the target monitor, or why there is none.
/// `reconstruction` is read only for an absolute coordinate.
pub fn persisted_offset(
    position: PersistedPosition,
    reconstruction: LegacyReconstruction,
    target_info: &MonitorDescriptor,
) -> (result: Result<IVec2, PreparedWindowPosition>)
    requires
        position matches PersistedPosition::Unrebased(unrebased)
            ==> reconstruction.rebases_within_range(unrebased.saved_logical(), *target_info),
    ensures
        result == offset_of_persisted(position, reconstruction, *target_info),
{
    match position {
        PersistedPosition::MonitorOffset(offset) => Ok(offset),
        PersistedPosition::Unrebased(unrebased) => match rebase_legacy_position(
            unrebased,
            reconstruction,
            target_info,
        ) {
            Some(offset) => Ok(offset),
            None => Err(PreparedWindowPosition::DiscardedLegacy),
        },
        PersistedPosition::Unpositioned => Err(PreparedWindowPosition::NotSaved),
    }
}

/// The prepared position of a persisted offset on the target monitor.
pub fn prepare_persisted_offset(
    logical_offset: IVec2,
    target_info: &MonitorDescriptor,
    scaled: ScaledMonitorOrigin,
) -> (result: PreparedWindowPosition)
    requires
        target_info.physical_position.sum_fits(scaled.physical_offset),
        scaled.logical_origin.sum_fits(logical_offset),
    ensures
        result == (PreparedWindowPosition::PersistedOffset {
            physical_position: target_info.physical_position.sum(scaled.physical_offset),
            logical_position: scaled.logical_origin.sum(logical_offset),
        }),
{
    PreparedWindowPosition::PersistedOffset {
        physical_position: target_info.physical_from_offset(scaled.physical_offset),
        logical_position: scaled.logical_origin.plus(logical_offset),
    }
}

/// The prepared position of an established configuration.
pub open spec fn prepared_from_established(
    placement: EstablishedWindowPlacement,
    monitor: MonitorDescriptor,
    scaled: ScaledMonitorOrigin,
) -> PreparedWindowPosition {
    match placement.rebased(monitor, scaled) {
        RestorableWindowPosition::Restorable { physical_position, logical_position } =>
            PreparedWindowPosition::Restorable { physical_position, logical_position },
        RestorableWindowPosition::CompositorControlled =>
            PreparedWindowPosition::CompositorControlled,
    }
}

/// Rebase an established driver configuration through the one exact live monitor.
pub fn prepare_established_position(
    placement: &EstablishedWindowPlacement,
    target_monitor: &MonitorDescriptor,
    scaled: ScaledMonitorOrigin,
) -> (result: PreparedWindowPosition)
    requires
        placement.rebases_within_range(*target_monitor, scaled),
    ensures
        result == prepared_from_established(*placement, *target_monitor, scaled),
{
    match placement.restorable_position(target_monitor, scaled) {
        RestorableWindowPosition::Restorable { physical_position, logical_position } =>
            PreparedWindowPosition::Restorable { physical_position, logical_position },
        RestorableWindowPosition::CompositorControlled =>
            PreparedWindowPosition::CompositorControlled,
    }
}

/// Why an established configuration has coordinates on a platform, or none.
pub open spec fn established_meaning(
    placement: EstablishedWindowPlacement,
    platform: Platform,
) -> PreparedPositionMeaning {
    if platform.has_positions() && placement.position is Restorable {
        PreparedPositionMeaning::Specified
    } else {
        PreparedPositionMeaning::PlatformCannotPosition
    }
}

/// Explain whether an established configuration can supply a platform position.
pub fn prepared_established_position_meaning(
    placement: &EstablishedWindowPlacement,
    target_monitor: &MonitorDescriptor,
    scaled: ScaledMonitorOrigin,
    platform: Platform,
) -> (result: PreparedPositionMeaning)
    requires
        placement.rebases_within_range(*target_monitor, scaled),
    ensures
        result == established_meaning(*placement, platform),
        result == prepared_from_established(*placement, *target_monitor, scaled).meaning_on(
            platform,
        ),
{
    prepare_established_position(placement, target_monitor, scaled).meaning(platform)
}

/// Whether the settling of a window has begun.
#[derive(Clone, Copy, Debug)]
pub enum WindowSettleProgress {
    /// The window has not been placed yet.
    NotStarted,
    /// The window has been placed and must now stay where it is.
    Settling(SettleState),
}

/// The target of a restore in progress. Sizes are those of the content area.
#[derive(Clone, Copy, Debug)]
pub struct TargetPosition {
    /// Final position, where there is one.
    pub physical_position: Option<IVec2>,
    /// Logical position of the restored corner at the target scale, kept for reporting.
    pub logical_position: Option<IVec2>,
    /// Target size in physical pixels.
    pub physical_size: UVec2,
    /// Target size in logical pixels from the saved state.
    pub logical_size: UVec2,
    /// Scale factor of the target monitor.
    pub target_scale: ScaleFactor,
    /// Scale factor of the monitor where the window starts.
    pub starting_scale: ScaleFactor,
    /// Strategy for handling scale factor differences between monitors.
    pub monitor_scale_strategy: MonitorScaleStrategy,
    /// Window mode to restore.
    pub saved_window_mode: SavedWindowMode,
    /// Target monitor for fullscreen restore.
    pub monitor_index: CurrentMonitorIndex,
    /// Phase of a fullscreen restore.
    pub fullscreen_restore_state: Option<FullscreenRestoreState>,
    /// Whether the window has been placed and is settling.
    pub window_settle_progress: WindowSettleProgress,
}

/// Record of a restore's launch context and chosen strategy that outlives the restore.
#[derive(Clone, Copy, Debug)]
pub struct RestoreDiagnostics {
    /// Monitor the window launched on, before any restore move.
    pub starting_monitor_index: CurrentMonitorIndex,
    /// Scale factor of the launch monitor.
    pub starting_scale: ScaleFactor,
    /// Scale factor of the restore target monitor.
    pub target_scale: ScaleFactor,
    /// Strategy chosen from the launch-versus-target scale relationship.
    pub monitor_scale_strategy: MonitorScaleStrategy,
}

/// A pixel length as a coordinate; a length beyond the largest coordinate counts as that.
pub open spec fn saturated(length: int) -> int {
    if length > i32::MAX {
        i32::MAX as int
    } else {
        length
    }
}

/// The coordinate nearest to `saved` at which `outer` pixels end within the `monitor` pixels that
/// start at `start`; `start` itself where they do not fit.
pub open spec fn clamped(saved: int, start: int, monitor: int, outer: int) -> int {
    let moved = if saved + outer > start + monitor {
        start + monitor - outer
    } else {
        saved
    };
    if moved < start {
        start
    } else {
        moved
    }
}

/// A restored position, drawn back inside the monitor where the platform wants that.
pub open spec fn clamped_position(
    saved: IVec2,
    monitor: MonitorDescriptor,
    outer_width: int,
    outer_height: int,
    platform: Platform,
) -> IVec2 {
    if platform == Platform::MacOs {
        IVec2 {
            x: clamped(
                saved.x as int,
                monitor.physical_position.x as int,
                saturated(monitor.physical_size.x as int),
                saturated(outer_width),
            ) as i32,
            y: clamped(
                saved.y as int,
                monitor.physical_position.y as int,
                saturated(monitor.physical_size.y as int),
                saturated(outer_height),
            ) as i32,
        }
    } else {
        saved
    }
}

fn saturate(length: u64) -> (result: i64)
    ensures
        result == saturated(length as int),
        0 <= result <= i32::MAX,
{
    if length > i32::MAX as u64 {
        i32::MAX as i64
    } else {
        length as i64
    }
}

fn clamp_axis(saved: i32, start: i32, monitor: i64, outer: i64) -> (result: i32)
    requires
        0 <= monitor <= i32::MAX,
        0 <= outer <= i32::MAX,
    ensures
        result == clamped(saved as int, start as int, monitor as int, outer as int),
{
    let end: i64 = start as i64 + monitor;
    let moved: i64 = if saved as i64 + outer > end {
        end - outer
    } else {
        saved as i64
    };
    if moved < start as i64 {
        start
    } else {
        moved as i32
    }
}

/// The restored window position, clamped to the monitor on macOS. Elsewhere windows may span
/// monitors, so the exact saved position is preserved.
pub fn clamp_position_to_monitor(
    physical_saved: IVec2,
    target_info: &MonitorDescriptor,
    physical_outer_width: u64,
    physical_outer_height: u64,
    platform: Platform,
) -> (result: IVec2)
    ensures
        result == clamped_position(
            physical_saved,
            *target_info,
            physical_outer_width as int,
            physical_outer_height as int,
            platform,
        ),
{
    if platform.should_clamp_position() {
        IVec2 {
            x: clamp_axis(
                physical_saved.x,
                target_info.physical_position.x,
                saturate(target_info.physical_size.x as u64),
                saturate(physical_outer_width),
            ),
            y: clamp_axis(
                physical_saved.y,
                target_info.physical_position.y,
                saturate(target_info.physical_size.y as u64),
                saturate(physical_outer_height),
            ),
        }
    } else {
        physical_saved
    }
}

/// What a target is computed from besides the configuration: what the scales of the launch monitor
/// and the target monitor make of it.
#[derive(Clone, Copy, Debug)]
pub struct ScaledTarget {
    /// The logical size in physical pixels at the target monitor's scale.
    pub physical_size: UVec2,
    /// How much larger the window is with its frame.
    pub physical_decoration: UVec2,
    /// Scale factor of the launch monitor.
    pub starting_scale: ScaleFactor,
    /// How the launch monitor's scale relates to the target monitor's.
    pub relation: ScaleRelation,
}

/// The target of a restore.
pub open spec fn target_for(
    logical_size: UVec2,
    saved_window_mode: SavedWindowMode,
    monitor: MonitorDescriptor,
    prepared: PreparedWindowPosition,
    scaled: ScaledTarget,
    platform: Platform,
    workarounds: Workarounds,
) -> TargetPosition {
    TargetPosition {
        physical_position: match prepared {
            PreparedWindowPosition::PersistedOffset { physical_position, .. } => Some(
                clamped_position(
                    physical_position,
                    monitor,
                    scaled.physical_size.x + scaled.physical_decoration.x,
                    scaled.physical_size.y + scaled.physical_decoration.y,
                    platform,
                ),
            ),
            PreparedWindowPosition::Restorable { physical_position, .. } => Some(physical_position),
            _ => None,
        },
        logical_position: match prepared {
            PreparedWindowPosition::PersistedOffset { logical_position, .. } => Some(
                logical_position,
            ),
            PreparedWindowPosition::Restorable { logical_position, .. } => Some(logical_position),
            _ => None,
        },
        physical_size: scaled.physical_size,
        logical_size,
        target_scale: monitor.scale,
        starting_scale: scaled.starting_scale,
        monitor_scale_strategy: platform.strategy_for(scaled.relation, workarounds),
        saved_window_mode,
        monitor_index: monitor.index,
        fullscreen_restore_state: if saved_window_mode is Windowed {
            None
        } else {
            Some(platform.first_fullscreen_phase(workarounds))
        },
        window_settle_progress: WindowSettleProgress::NotStarted,
    }
}

/// Compute a target from the configuration fields the driver will apply.
pub fn compute_target_position(
    logical_size: UVec2,
    saved_window_mode: SavedWindowMode,
    target_info: &MonitorDescriptor,
    prepared_window_position: PreparedWindowPosition,
    scaled: ScaledTarget,
    platform: Platform,
    workarounds: Workarounds,
) -> (result: TargetPosition)
    ensures
        result == target_for(
            logical_size,
            saved_window_mode,
            *target_info,
            prepared_window_position,
            scaled,
            platform,
            workarounds,
        ),
{
    let outer_width: u64 = scaled.physical_size.x as u64 + scaled.physical_decoration.x as u64;
    let outer_height: u64 = scaled.physical_size.y as u64 + scaled.physical_decoration.y as u64;
    let (physical_position, logical_position) = match prepared_window_position {
        PreparedWindowPosition::PersistedOffset { physical_position, logical_position } => {
            let clamped = clamp_position_to_monitor(
                physical_position,
                target_info,
                outer_width,
                outer_height,
                platform,
            );
            (Some(clamped), Some(logical_position))
        },
        PreparedWindowPosition::Restorable { physical_position, logical_position } => (
            Some(physical_position),
            Some(logical_position),
        ),
        PreparedWindowPosition::CompositorControlled
        | PreparedWindowPosition::NotSaved
        | PreparedWindowPosition::DiscardedLegacy => (None, None),
    };
    let fullscreen_restore_state = if saved_window_mode.is_fullscreen() {
        Some(platform.fullscreen_restore_state(workarounds))
    } else {
        None
    };
    TargetPosition {
        physical_position,
        logical_position,
        physical_size: scaled.physical_size,
        logical_size,
        target_scale: target_info.scale,
        starting_scale: scaled.starting_scale,
        monitor_scale_strategy: platform.scale_strategy(scaled.relation, workarounds),
        saved_window_mode,
        monitor_index: target_info.index,
        fullscreen_restore_state,
        window_settle_progress: WindowSettleProgress::NotStarted,
    }
}

/// Build a target from one kernel-owned window configuration.
pub fn compute_established_target_position(
    placement: &EstablishedWindowPlacement,
    target_monitor: &MonitorDescriptor,
    origin: ScaledMonitorOrigin,
    scaled: ScaledTarget,
    platform: Platform,
    workarounds: Workarounds,
) -> (result: TargetPosition)
    requires
        placement.rebases_within_range(*target_monitor, origin),
    ensures
        result == target_for(
            placement.logical_size,
            placement.saved_window_mode,
            *target_monitor,
            prepared_from_established(*placement, *target_monitor, origin),
            scaled,
            platform,
            workarounds,
        ),
{
    compute_target_position(
        placement.logical_size,
        placement.saved_window_mode,
        target_monitor,
        prepare_established_position(placement, target_monitor, origin),
        scaled,
        platform,
        workarounds,
    )
}

/// A persisted offset and the same offset of an established configuration resolve to the same place
/// wherever positions are not clamped.
pub proof fn persisted_and_established_offsets_agree(
    placement: EstablishedWindowPlacement,
    monitor: MonitorDescriptor,
    origin: ScaledMonitorOrigin,
    scaled: ScaledTarget,
    platform: Platform,
    workarounds: Workarounds,
    logical_offset: IVec2,
)
    requires
        placement.position == (EstablishedWindowPosition::Restorable { logical_offset }),
        placement.rebases_within_range(monitor, origin),
        platform != Platform::MacOs,
    ensures
        target_for(
            placement.logical_size,
            placement.saved_window_mode,
            monitor,
            PreparedWindowPosition::PersistedOffset {
                physical_position: monitor.physical_position.sum(origin.physical_offset),
                logical_position: origin.logical_origin.sum(logical_offset),
            },
            scaled,
            platform,
            workarounds,
        ) == target_for(
            placement.logical_size,
            placement.saved_window_mode,
            monitor,
            prepared_from_established(placement, monitor, origin),
            scaled,
            platform,
            workarounds,
        ),
{
}

/// On macOS a window that fits on its monitor is restored wholly inside it, and one that already is
/// inside stays where it was saved.
pub proof fn clamped_window_lies_on_its_monitor(
    saved: IVec2,
    monitor: MonitorDescriptor,
    outer_width: int,
    outer_height: int,
)
    requires
        0 <= outer_width <= monitor.physical_size.x <= i32::MAX,
        0 <= outer_height <= monitor.physical_size.y <= i32::MAX,
    ensures
        ({
            let restored = clamped_position(
                saved,
                monitor,
                outer_width,
                outer_height,
                Platform::MacOs,
            );
            let left = monitor.physical_position.x as int;
            let top = monitor.physical_position.y as int;
            let right = left + monitor.physical_size.x;
            let bottom = top + monitor.physical_size.y;
            &&& left <= restored.x && restored.x + outer_width <= right
            &&& top <= restored.y && restored.y + outer_height <= bottom
            &&& (left <= saved.x && saved.x + outer_width <= right && top <= saved.y && saved.y
                + outer_height <= bottom) ==> restored == saved
        }),
{
}

/// An absolute coordinate becomes its distance from the monitor's corner at the scale that wrote it,
/// and is given up exactly where the window's centre is not on the monitor any more.
pub proof fn legacy_offset_is_measured_from_the_monitor(
    logical: IVec2,
    reconstruction: LegacyReconstruction,
    monitor: MonitorDescriptor,
)
    requires
        reconstruction.rebases_within_range(logical, monitor),
    ensures
        rebased_legacy_offset(logical, reconstruction, monitor) matches Some(offset) ==> {
            &&& offset.x + reconstruction.logical_origin.x == logical.x
            &&& offset.y + reconstruction.logical_origin.y == logical.y
        },
        rebased_legacy_offset(logical, reconstruction, monitor) is None <==> !lies_within(
            monitor,
            reconstruction.center(),
        ),
{
}

/// A target takes over what it is given: the content size is the logical size at the target monitor's
/// scale and nothing else, the scales are those of the two monitors, the mode is the saved one, and
/// the window goes to the target monitor.
pub proof fn a_target_is_what_was_saved_at_the_monitors_scale(
    logical_size: UVec2,
    saved_window_mode: SavedWindowMode,
    monitor: MonitorDescriptor,
    prepared: PreparedWindowPosition,
    scaled: ScaledTarget,
    platform: Platform,
    workarounds: Workarounds,
)
    ensures
        ({
            let target = target_for(
                logical_size,
                saved_window_mode,
                monitor,
                prepared,
                scaled,
                platform,
                workarounds,
            );
            &&& target.physical_size.x == scaled.physical_size.x
            &&& target.physical_size.y == scaled.physical_size.y
            &&& target.logical_size.x == logical_size.x
            &&& target.logical_size.y == logical_size.y
            &&& target.target_scale == monitor.scale
            &&& target.starting_scale == scaled.starting_scale
            &&& target.monitor_index@ == monitor.index@
            &&& target.saved_window_mode == saved_window_mode
            &&& target.fullscreen_restore_state is None <==> saved_window_mode is Windowed
            &&& target.window_settle_progress is NotStarted
        }),
{
}

/// The frame of a window has no part in how large the window becomes: two preparations that differ in
/// the decoration alone have the same target, but for a position that has to be clamped on macOS.
pub proof fn decoration_only_matters_for_clamping(
    logical_size: UVec2,
    saved_window_mode: SavedWindowMode,
    monitor: MonitorDescriptor,
    prepared: PreparedWindowPosition,
    scaled: ScaledTarget,
    other_decoration: UVec2,
    platform: Platform,
    workarounds: Workarounds,
)
    ensures
        ({
            let one = target_for(
                logical_size,
                saved_window_mode,
                monitor,
                prepared,
                scaled,
                platform,
                workarounds,
            );
            let other = target_for(
                logical_size,
                saved_window_mode,
                monitor,
                prepared,
                ScaledTarget { physical_decoration: other_decoration, ..scaled },
                platform,
                workarounds,
            );
            &&& one.physical_size == other.physical_size
            &&& one == (TargetPosition { physical_position: one.physical_position, ..other })
            &&& platform != Platform::MacOs || !(prepared is PersistedOffset) ==> one == other
        }),
{
}

/// A prepared coordinate becomes the target's as it is, in both coordinates; only a persisted offset
/// may be clamped, on macOS. Without a prepared coordinate there is none.
pub proof fn a_target_is_where_its_position_was_prepared(
    logical_size: UVec2,
    saved_window_mode: SavedWindowMode,
    monitor: MonitorDescriptor,
    prepared: PreparedWindowPosition,
    scaled: ScaledTarget,
    platform: Platform,
    workarounds: Workarounds,
)
    ensures
        ({
            let target = target_for(
                logical_size,
                saved_window_mode,
                monitor,
                prepared,
                scaled,
                platform,
                workarounds,
            );
            match prepared {
                PreparedWindowPosition::Restorable { physical_position, logical_position } => {
                    &&& target.physical_position == Some(physical_position)
                    &&& target.logical_position == Some(logical_position)
                },
                PreparedWindowPosition::PersistedOffset { physical_position, logical_position } => {
                    &&& target.logical_position == Some(logical_position)
                    &&& target.physical_position is Some
                    &&& platform != Platform::MacOs ==> target.physical_position == Some(
                        physical_position,
                    )
                },
                _ => target.physical_position is None && target.logical_position is None,
            }
        }),
{
}

/// Clamping a window on macOS uses the whole window, frame and all: where the frame fits on the
/// monitor with the content, both end up on it.
pub proof fn a_clamped_target_shows_the_whole_frame(
    logical_size: UVec2,
    saved_window_mode: SavedWindowMode,
    monitor: MonitorDescriptor,
    physical_position: IVec2,
    logical_position: IVec2,
    scaled: ScaledTarget,
    workarounds: Workarounds,
)
    requires
        scaled.physical_size.x + scaled.physical_decoration.x <= monitor.physical_size.x
            <= i32::MAX,
        scaled.physical_size.y + scaled.physical_decoration.y <= monitor.physical_size.y
            <= i32::MAX,
    ensures
        ({
            let target = target_for(
                logical_size,
                saved_window_mode,
                monitor,
                PreparedWindowPosition::PersistedOffset { physical_position, logical_position },
                scaled,
                Platform::MacOs,
                workarounds,
            );
            &&& target.physical_position matches Some(position) && {
                &&& monitor.physical_position.x <= position.x
                &&& monitor.physical_position.y <= position.y
                &&& position.x + scaled.physical_size.x + scaled.physical_decoration.x
                    <= monitor.physical_position.x + monitor.physical_size.x
                &&& position.y + scaled.physical_size.y + scaled.physical_decoration.y
                    <= monitor.physical_position.y + monitor.physical_size.y
                &&& position.x < physical_position.x ==> position.x + scaled.physical_size.x
                    + scaled.physical_decoration.x == monitor.physical_position.x
                    + monitor.physical_size.x
                &&& position.x > physical_position.x ==> position.x == monitor.physical_position.x
                &&& position.y < physical_position.y ==> position.y + scaled.physical_size.y
                    + scaled.physical_decoration.y == monitor.physical_position.y
                    + monitor.physical_size.y
                &&& position.y > physical_position.y ==> position.y == monitor.physical_position.y
            }
        }),
{
}

/// A window that is too large for its monitor on macOS starts at the monitor's corner, and no other
/// platform moves a saved position.
pub proof fn an_oversized_window_starts_at_the_corner(
    saved: IVec2,
    monitor: MonitorDescriptor,
    outer_width: int,
    outer_height: int,
    platform: Platform,
)
    requires
        0 <= monitor.physical_size.x <= i32::MAX,
        0 <= monitor.physical_size.y <= i32::MAX,
        0 <= outer_width,
        0 <= outer_height,
    ensures
        platform != Platform::MacOs ==> clamped_position(
            saved,
            monitor,
            outer_width,
            outer_height,
            platform,
        ) == saved,
        platform == Platform::MacOs && outer_width > monitor.physical_size.x && saved.x
            >= monitor.physical_position.x ==> clamped_position(
            saved,
            monitor,
            outer_width,
            outer_height,
            platform,
        ).x == monitor.physical_position.x,
        platform == Platform::MacOs && outer_height > monitor.physical_size.y && saved.y
            >= monitor.physical_position.y ==> clamped_position(
            saved,
            monitor,
            outer_width,
            outer_height,
            platform,
        ).y == monitor.physical_position.y,
{
}

/// A monitor of ordinary size holds exactly the points whose distance from its corner is at least 0
/// and less than its size, in each direction.
pub proof fn a_monitor_holds_its_own_pixels(monitor: MonitorDescriptor, point: IVec2)
    requires
        monitor.physical_size.x <= i32::MAX,
        monitor.physical_size.y <= i32::MAX,
    ensures
        lies_within(monitor, point) <==> {
            &&& 0 <= point.x - monitor.physical_position.x < monitor.physical_size.x
            &&& 0 <= point.y - monitor.physical_position.y < monitor.physical_size.y
        },
{
}

/// A restored coordinate is the monitor's corner and the offset, in physical and in logical pixels.
pub proof fn an_established_window_keeps_its_offset(
    placement: EstablishedWindowPlacement,
    monitor: MonitorDescriptor,
    scaled: ScaledMonitorOrigin,
    logical_offset: IVec2,
)
    requires
        placement.position == (EstablishedWindowPosition::Restorable { logical_offset }),
        placement.rebases_within_range(monitor, scaled),
    ensures
        prepared_from_established(placement, monitor, scaled)
            matches PreparedWindowPosition::Restorable { physical_position, logical_position } && {
            &&& physical_position.x - monitor.physical_position.x == scaled.physical_offset.x
            &&& physical_position.y - monitor.physical_position.y == scaled.physical_offset.y
            &&& logical_position.x - scaled.logical_origin.x == logical_offset.x
            &&& logical_position.y - scaled.logical_origin.y == logical_offset.y
        },
{
}

/// A position is specified exactly where the platform has positions and one was prepared; each other
/// reason stays what it is.
pub proof fn a_prepared_position_means_what_it_is(
    prepared: PreparedWindowPosition,
    platform: Platform,
)
    ensures
        prepared.meaning_on(platform) is Specified <==> platform != Platform::Wayland && (
        prepared is Restorable || prepared is PersistedOffset),
        platform == Platform::Wayland ==> prepared.meaning_on(platform) is PlatformCannotPosition,
        platform != Platform::Wayland ==> {
            &&& prepared is NotSaved <==> prepared.meaning_on(platform) is NotSaved
            &&& prepared is DiscardedLegacy <==> prepared.meaning_on(platform) is DiscardedLegacy
            &&& prepared is CompositorControlled <==> prepared.meaning_on(
                platform,
            ) is PlatformCannotPosition
        },
{
}

/// An offset is used as it is, an old coordinate as its distance from the monitor while the window's
/// centre is on it, and nothing stands for a position that was not saved.
pub proof fn a_persisted_position_is_measured_from_its_monitor(
    position: PersistedPosition,
    reconstruction: LegacyReconstruction,
    monitor: MonitorDescriptor,
    offset: IVec2,
)
    requires
        monitor.physical_size.x <= i32::MAX,
        monitor.physical_size.y <= i32::MAX,
        position matches PersistedPosition::Unrebased(unrebased)
            ==> reconstruction.rebases_within_range(unrebased.saved_logical(), monitor),
    ensures
        position == PersistedPosition::MonitorOffset(offset) ==> offset_of_persisted(
            position,
            reconstruction,
            monitor,
        ) == Ok::<IVec2, PreparedWindowPosition>(offset),
        position is Unpositioned ==> offset_of_persisted(
            position,
            reconstruction,
            monitor,
        ) == Err::<IVec2, PreparedWindowPosition>(PreparedWindowPosition::NotSaved),
        position matches PersistedPosition::Unrebased(unrebased) ==> {
            let x = reconstruction.physical_corner.x + reconstruction.physical_half_size.x
                - monitor.physical_position.x;
            let y = reconstruction.physical_corner.y + reconstruction.physical_half_size.y
                - monitor.physical_position.y;
            match offset_of_persisted(position, reconstruction, monitor) {
                Ok(found) => {
                    &&& 0 <= x < monitor.physical_size.x && 0 <= y < monitor.physical_size.y
                    &&& found.x + reconstruction.logical_origin.x == unrebased.saved_logical().x
                    &&& found.y + reconstruction.logical_origin.y == unrebased.saved_logical().y
                },
                Err(prepared) => {
                    &&& prepared == PreparedWindowPosition::DiscardedLegacy
                    &&& !(0 <= x < monitor.physical_size.x && 0 <= y < monitor.physical_size.y)
                },
            }
        },
{
}

/// A length keeps its 32 bits as a signed number: it is itself where it fits, and one turn less where it
/// does not. A monitor as long as that holds no point at all.
pub proof fn a_length_keeps_its_bits(length: u32, monitor: MonitorDescriptor, point: IVec2)
    ensures
        -0x8000_0000 <= wrapped(length) < 0x8000_0000,
        wrapped(length) == length || wrapped(length) + 0x1_0000_0000 == length,
        monitor.physical_size.x >= 0x8000_0000 || monitor.physical_size.y >= 0x8000_0000
            ==> !lies_within(monitor, point),
{
}

/// A computed target has exactly the size that was given, physical and logical, whatever the window's
/// decoration, and it goes to the monitor that was given, in the mode that was given.
pub proof fn a_computed_target_has_the_given_size(
    logical_size: UVec2,
    saved_window_mode: SavedWindowMode,
    monitor: MonitorDescriptor,
    prepared: PreparedWindowPosition,
    scaled: ScaledTarget,
    platform: Platform,
    workarounds: Workarounds,
    result: TargetPosition,
)
    requires
        call_ensures(
            compute_target_position,
            (
                logical_size,
                saved_window_mode,
                &monitor,
                prepared,
                scaled,
                platform,
                workarounds,
            ),
            result,
        ),
    ensures
        result.physical_size.x == scaled.physical_size.x,
        result.physical_size.y == scaled.physical_size.y,
        result.logical_size.x == logical_size.x,
        result.logical_size.y == logical_size.y,
        result.saved_window_mode == saved_window_mode,
        result.monitor_index@ == monitor.index@,
        result.target_scale@ == monitor.scale@,
        result.starting_scale@ == scaled.starting_scale@,
        result.fullscreen_restore_state is None <==> saved_window_mode is Windowed,
        !(prepared is PersistedOffset) && !(prepared is Restorable) ==> result.physical_position is None
            && result.logical_position is None,
{
}

/// A prepared offset is the monitor's corner and the offset, in physical and in logical pixels.
pub proof fn a_prepared_offset_is_measured_from_the_corner(
    logical_offset: IVec2,
    monitor: MonitorDescriptor,
    scaled: ScaledMonitorOrigin,
    result: PreparedWindowPosition,
)
    requires
        monitor.physical_position.sum_fits(scaled.physical_offset),
        scaled.logical_origin.sum_fits(logical_offset),
        call_ensures(prepare_persisted_offset, (logical_offset, &monitor, scaled), result),
    ensures
        result matches PreparedWindowPosition::PersistedOffset {
            physical_position,
            logical_position,
        } && {
            &&& physical_position.x == monitor.physical_position.x + scaled.physical_offset.x
            &&& physical_position.y == monitor.physical_position.y + scaled.physical_offset.y
            &&& logical_position.x == scaled.logical_origin.x + logical_offset.x
            &&& logical_position.y == scaled.logical_origin.y + logical_offset.y
        },
{
}

} // verus!
