//! Whether a restored window has come to rest where it was meant to.

use super::target::{PreparedPositionMeaning, TargetPosition, WindowSettleProgress};
use crate::device::RoleKey;
use crate::geometry::{IVec2, UVec2};
use crate::monitors::topology::{
    index_keeps_its_position, indices_are_their_positions, CurrentMonitorIndex,
};
use crate::persistence::established_window_placement::EstablishedWindowPlacement;
use crate::persistence::window_state::{SavedFullscreenVideoMode, SavedWindowMode};
use crate::platform::{Platform, Workarounds};
use crate::recovery::WindowFallbackRecoveryState;
use crate::scale::ScaleFactor;
use crate::time::{
    saturating_sum, OperatingSystemWorkDeadline, OperatingSystemWorkDeadlineStatus, TimeSpan,
    WindowStabilityInterval, WindowStabilityIntervalStatus,
};
use crate::window_mode::{MonitorSelection, VideoMode, VideoModeSelection, WindowMode};
use vstd::prelude::*;

verus! {

/// How long a window must stay as it is, in milliseconds.
pub const SETTLE_STABILITY_MILLISECONDS: u64 = 200;

/// How long a window may take to come to rest, in milliseconds.
pub const SETTLE_TIMEOUT_MILLISECONDS: u64 = 2_000;

/// The monitor that a window without a known monitor counts as being on.
pub const PRIMARY_MONITOR_INDEX: usize = 0;

/// The physical position that was asked for, or why there is none.
#[derive(Clone, Copy, Debug, PartialEq, Eq, Structural)]
pub enum ExpectedPhysicalPosition {
    Specified(IVec2),
    PlatformCannotPosition,
    NotSaved,
    DiscardedLegacy,
}

/// The logical position that was asked for, or why there is none.
#[derive(Clone, Copy, Debug, PartialEq, Eq, Structural)]
pub enum ExpectedLogicalPosition {
    Specified(IVec2),
    PlatformCannotPosition,
    NotSaved,
    DiscardedLegacy,
}

/// The physical position that the window has, as far as the platform reports it.
#[derive(Clone, Copy, Debug, PartialEq, Eq, Structural)]
pub enum ObservedPhysicalPosition {
    Observed(IVec2),
    PlatformCannotReport,
}

/// The logical position that the window has, as far as the platform reports it.
#[derive(Clone, Copy, Debug, PartialEq, Eq, Structural)]
pub enum ObservedLogicalPosition {
    Observed(IVec2),
    PlatformCannotReport,
}

/// Window state that is compared between frames and with the target.
#[derive(Clone, Copy, Debug, PartialEq, Eq, Structural)]
pub struct SettleObservation {
    pub physical_position: ObservedPhysicalPosition,
    pub physical_size: UVec2,
    pub window_mode: WindowMode,
    pub monitor: CurrentMonitorIndex,
}

/// What was observed in the last frame.
#[derive(Clone, Copy, Debug, PartialEq, Eq, Structural)]
pub enum SettleObservationHistory {
    NotObserved,
    Previous(SettleObservation),
}

/// The two timers of a window that is coming to rest.
#[derive(Clone, Copy, Debug, PartialEq, Eq, Structural)]
pub struct SettleState {
    /// Hard deadline.
    pub total_timeout: OperatingSystemWorkDeadline,
    /// Starts over whenever any compared value changes between frames.
    pub stability_timer: WindowStabilityInterval,
    /// Last frame's compared values.
    pub last_observation: SettleObservationHistory,
    /// Total settle duration, for diagnostics.
    pub total_elapsed: TimeSpan,
}

impl SettleState {
    /// The state of a window that has just been placed.
    pub fn new() -> (result: Self)
        ensures
            result.total_timeout.limit() == SETTLE_TIMEOUT_MILLISECONDS * 1_000_000,
            result.total_timeout.limit() == 2_000_000_000,
            result.total_timeout.elapsed() == 0,
            result.stability_timer.limit() == SETTLE_STABILITY_MILLISECONDS * 1_000_000,
            result.stability_timer.limit() == 200_000_000,
            result.stability_timer.elapsed() == 0,
            result.last_observation == SettleObservationHistory::NotObserved,
            result.total_elapsed@ == 0,
    {
        SettleState {
            total_timeout: OperatingSystemWorkDeadline::new(
                TimeSpan::from_milliseconds(SETTLE_TIMEOUT_MILLISECONDS),
            ),
            stability_timer: WindowStabilityInterval::new(
                TimeSpan::from_milliseconds(SETTLE_STABILITY_MILLISECONDS),
            ),
            last_observation: SettleObservationHistory::NotObserved,
            total_elapsed: TimeSpan::from_nanoseconds(0),
        }
    }
}

/// The result of one comparison.
#[derive(Clone, Copy, Debug, PartialEq, Eq, Structural)]
pub enum Comparison {
    Match,
    Mismatch,
}

impl Comparison {
    /// The result of a comparison that came out this way.
    pub fn of(matches: bool) -> (result: Self)
        ensures
            result is Match <==> matches,
    {
        if matches {
            Comparison::Match
        } else {
            Comparison::Mismatch
        }
    }

    pub fn is_match(self) -> (result: bool)
        ensures
            result == self is Match,
    {
        match self {
            Comparison::Match => true,
            Comparison::Mismatch => false,
        }
    }
}

/// How an observed window compares with its target.
#[derive(Clone, Copy, Debug, PartialEq, Eq, Structural)]
pub struct SettleComparison {
    pub position: Comparison,
    pub size: Comparison,
    pub mode: Comparison,
    pub monitor: Comparison,
}

impl SettleComparison {
    pub fn all_match(&self) -> (result: bool)
        ensures
            result == (self.position is Match && self.size is Match && self.mode is Match
                && self.monitor is Match),
    {
        self.position.is_match() && self.size.is_match() && self.mode.is_match()
            && self.monitor.is_match()
    }
}

/// What a changed or unchanged observation means for a settling window.
#[derive(Clone, Copy, Debug, PartialEq, Eq, Structural)]
pub enum ChangeHandling {
    /// The window changed and there is time left.
    Skip,
    /// The window changed and there is no time left.
    ChangedAtDeadline,
    /// The window did not change.
    Unchanged,
}

/// What a restore asked for.
#[derive(Clone, Copy, Debug)]
pub struct SettleTarget {
    pub physical_position: ExpectedPhysicalPosition,
    pub logical_position: ExpectedLogicalPosition,
    pub logical_size: UVec2,
    pub physical_size: UVec2,
    pub window_mode: WindowMode,
    pub monitor: CurrentMonitorIndex,
    pub scale: ScaleFactor,
}

/// The physical position that a restore asked for. A position that was prepared but that the
/// platform cannot apply counts as one that it cannot have.
pub open spec fn expected_physical(
    target: TargetPosition,
    meaning: PreparedPositionMeaning,
    platform: Platform,
) -> ExpectedPhysicalPosition {
    match meaning {
        PreparedPositionMeaning::Specified => if !platform.has_positions() {
            ExpectedPhysicalPosition::PlatformCannotPosition
        } else {
            match target.physical_position {
                Some(position) => ExpectedPhysicalPosition::Specified(position),
                None => ExpectedPhysicalPosition::NotSaved,
            }
        },
        PreparedPositionMeaning::PlatformCannotPosition =>
            ExpectedPhysicalPosition::PlatformCannotPosition,
        PreparedPositionMeaning::NotSaved => ExpectedPhysicalPosition::NotSaved,
        PreparedPositionMeaning::DiscardedLegacy => ExpectedPhysicalPosition::DiscardedLegacy,
    }
}

/// The logical position that a restore asked for.
pub open spec fn expected_logical(
    target: TargetPosition,
    meaning: PreparedPositionMeaning,
    platform: Platform,
) -> ExpectedLogicalPosition {
    match meaning {
        PreparedPositionMeaning::Specified => if !platform.has_positions() {
            ExpectedLogicalPosition::PlatformCannotPosition
        } else {
            match target.logical_position {
                Some(position) => ExpectedLogicalPosition::Specified(position),
                None => ExpectedLogicalPosition::NotSaved,
            }
        },
        PreparedPositionMeaning::PlatformCannotPosition =>
            ExpectedLogicalPosition::PlatformCannotPosition,
        PreparedPositionMeaning::NotSaved => ExpectedLogicalPosition::NotSaved,
        PreparedPositionMeaning::DiscardedLegacy => ExpectedLogicalPosition::DiscardedLegacy,
    }
}

/// What a restore asked for.
pub open spec fn settle_target_of(
    target: TargetPosition,
    meaning: PreparedPositionMeaning,
    platform: Platform,
) -> SettleTarget {
    SettleTarget {
        physical_position: expected_physical(target, meaning, platform),
        logical_position: expected_logical(target, meaning, platform),
        logical_size: target.logical_size,
        physical_size: target.physical_size,
        window_mode: target.saved_window_mode.window_mode(target.monitor_index@),
        monitor: target.monitor_index,
        scale: target.target_scale,
    }
}

impl SettleTarget {
    /// What a restore asked for.
    pub fn from_target_position(
        target_position: &TargetPosition,
        position_meaning: PreparedPositionMeaning,
        platform: Platform,
    ) -> (result: Self)
        ensures
            result == settle_target_of(*target_position, position_meaning, platform),
    {
        let physical_position = match position_meaning {
            PreparedPositionMeaning::Specified => if platform.position_available() {
                match target_position.physical_position {
                    Some(position) => ExpectedPhysicalPosition::Specified(position),
                    None => ExpectedPhysicalPosition::NotSaved,
                }
            } else {
                ExpectedPhysicalPosition::PlatformCannotPosition
            },
            PreparedPositionMeaning::PlatformCannotPosition =>
                ExpectedPhysicalPosition::PlatformCannotPosition,
            PreparedPositionMeaning::NotSaved => ExpectedPhysicalPosition::NotSaved,
            PreparedPositionMeaning::DiscardedLegacy => ExpectedPhysicalPosition::DiscardedLegacy,
        };
        let logical_position = match position_meaning {
            PreparedPositionMeaning::Specified => if platform.position_available() {
                match target_position.logical_position {
                    Some(position) => ExpectedLogicalPosition::Specified(position),
                    None => ExpectedLogicalPosition::NotSaved,
                }
            } else {
                ExpectedLogicalPosition::PlatformCannotPosition
            },
            PreparedPositionMeaning::PlatformCannotPosition =>
                ExpectedLogicalPosition::PlatformCannotPosition,
            PreparedPositionMeaning::NotSaved => ExpectedLogicalPosition::NotSaved,
            PreparedPositionMeaning::DiscardedLegacy => ExpectedLogicalPosition::DiscardedLegacy,
        };
        SettleTarget {
            physical_position,
            logical_position,
            logical_size: target_position.logical_size,
            physical_size: target_position.physical_size,
            window_mode: target_position.saved_window_mode.to_window_mode(
                target_position.monitor_index,
            ),
            monitor: target_position.monitor_index,
            scale: target_position.target_scale,
        }
    }
}

/// The physical position to report as asked for.
pub fn expected_physical_position(target: &SettleTarget) -> (result: ExpectedPhysicalPosition)
    ensures
        result == target.physical_position,
{
    target.physical_position
}

/// The logical position to report as asked for.
pub fn expected_logical_position(target: &SettleTarget) -> (result: ExpectedLogicalPosition)
    ensures
        result == target.logical_position,
{
    target.logical_position
}

/// The physical position of a window.
pub fn observed_physical_position(position: Option<IVec2>) -> (result: ObservedPhysicalPosition)
    ensures
        result == match position {
            Some(observed) => ObservedPhysicalPosition::Observed(observed),
            None => ObservedPhysicalPosition::PlatformCannotReport,
        },
{
    match position {
        Some(observed) => ObservedPhysicalPosition::Observed(observed),
        None => ObservedPhysicalPosition::PlatformCannotReport,
    }
}

/// The logical position of a window, from what its physical position is at the window's scale.
pub fn observed_logical_position(
    physical_position: ObservedPhysicalPosition,
    logical_at_scale: IVec2,
) -> (result: ObservedLogicalPosition)
    ensures
        result == match physical_position {
            ObservedPhysicalPosition::Observed(_) => ObservedLogicalPosition::Observed(
                logical_at_scale,
            ),
            ObservedPhysicalPosition::PlatformCannotReport =>
                ObservedLogicalPosition::PlatformCannotReport,
        },
{
    match physical_position {
        ObservedPhysicalPosition::Observed(_) => ObservedLogicalPosition::Observed(
            logical_at_scale,
        ),
        ObservedPhysicalPosition::PlatformCannotReport =>
            ObservedLogicalPosition::PlatformCannotReport,
    }
}

/// What is compared of a window: its position where the platform has positions, and the primary
/// monitor where no monitor is known.
pub fn observe_actual_state(
    window_position: Option<IVec2>,
    physical_size: UVec2,
    window_mode: WindowMode,
    current_monitor: Option<CurrentMonitorIndex>,
    platform: Platform,
) -> (result: SettleObservation)
    ensures
        result.physical_position == match window_position {
            Some(position) => if platform.has_positions() {
                ObservedPhysicalPosition::Observed(position)
            } else {
                ObservedPhysicalPosition::PlatformCannotReport
            },
            None => ObservedPhysicalPosition::PlatformCannotReport,
        },
        result.physical_size == physical_size,
        result.window_mode == window_mode,
        result.monitor == match current_monitor {
            Some(index) => index,
            None => CurrentMonitorIndex::of(PRIMARY_MONITOR_INDEX),
        },
{
    let physical_position = if platform.position_available() {
        window_position
    } else {
        None
    };
    let monitor = match current_monitor {
        Some(index) => index,
        None => CurrentMonitorIndex::from_current_enumeration(PRIMARY_MONITOR_INDEX),
    };
    SettleObservation {
        physical_position: observed_physical_position(physical_position),
        physical_size,
        window_mode,
        monitor,
    }
}

/// Whether the position of a window is as asked for. It does not matter for a fullscreen window,
/// where no position was asked for, or where it cannot be read back reliably.
pub open spec fn position_settles(
    target: TargetPosition,
    expected: ExpectedPhysicalPosition,
    observed: ObservedPhysicalPosition,
    platform: Platform,
    workarounds: Workarounds,
) -> bool {
    ||| !(target.saved_window_mode is Windowed)
    ||| platform.compensates_frames(workarounds)
    ||| match expected {
        ExpectedPhysicalPosition::Specified(position) => observed
            == ObservedPhysicalPosition::Observed(position),
        _ => true,
    }
}

/// Whether a window is as asked for. A fullscreen window fills its monitor, so neither its position
/// nor its size is compared.
pub open spec fn window_settles(
    target: TargetPosition,
    settle_target: SettleTarget,
    observation: SettleObservation,
    platform: Platform,
    workarounds: Workarounds,
) -> bool {
    &&& position_settles(
        target,
        settle_target.physical_position,
        observation.physical_position,
        platform,
        workarounds,
    )
    &&& !(target.saved_window_mode is Windowed) || settle_target.physical_size
        == observation.physical_size
    &&& platform.accepts_mode(settle_target.window_mode, observation.window_mode)
    &&& settle_target.monitor == observation.monitor
}

/// Compare an observed window with its target.
pub fn check_settle_matches(
    target_position: &TargetPosition,
    settle_target: &SettleTarget,
    settle_observation: &SettleObservation,
    platform: Platform,
    workarounds: Workarounds,
) -> (result: SettleComparison)
    ensures
        result.position is Match <==> position_settles(
            *target_position,
            settle_target.physical_position,
            settle_observation.physical_position,
            platform,
            workarounds,
        ),
        result.size is Match <==> (!(target_position.saved_window_mode is Windowed)
            || settle_target.physical_size == settle_observation.physical_size),
        result.mode is Match <==> platform.accepts_mode(
            settle_target.window_mode,
            settle_observation.window_mode,
        ),
        result.monitor is Match <==> settle_target.monitor == settle_observation.monitor,
{
    let is_fullscreen = target_position.saved_window_mode.is_fullscreen();
    let position_matches = if is_fullscreen || !platform.position_reliable_for_settle(
        workarounds,
    ) {
        true
    } else {
        match settle_target.physical_position {
            ExpectedPhysicalPosition::Specified(expected) => {
                match settle_observation.physical_position {
                    ObservedPhysicalPosition::Observed(observed) => expected == observed,
                    ObservedPhysicalPosition::PlatformCannotReport => false,
                }
            },
            _ => true,
        }
    };
    let size_matches = is_fullscreen || settle_target.physical_size
        == settle_observation.physical_size;
    SettleComparison {
        position: Comparison::of(position_matches),
        size: Comparison::of(size_matches),
        mode: Comparison::of(
            platform.modes_match(settle_target.window_mode, settle_observation.window_mode),
        ),
        monitor: Comparison::of(settle_target.monitor == settle_observation.monitor),
    }
}

/// Note an observation. A change starts the stability timer over.
pub fn detect_settle_change(
    settle: &mut SettleState,
    settle_observation: SettleObservation,
    deadline_status: OperatingSystemWorkDeadlineStatus,
) -> (result: ChangeHandling)
    ensures
        final(settle).last_observation == SettleObservationHistory::Previous(settle_observation),
        final(settle).total_timeout == old(settle).total_timeout,
        final(settle).total_elapsed == old(settle).total_elapsed,
        old(settle).last_observation == SettleObservationHistory::Previous(settle_observation) ==> {
            &&& result == ChangeHandling::Unchanged
            &&& *final(settle) == *old(settle)
        },
        old(settle).last_observation != SettleObservationHistory::Previous(settle_observation) ==> {
            &&& result == if deadline_status is Expired {
                ChangeHandling::ChangedAtDeadline
            } else {
                ChangeHandling::Skip
            }
            &&& final(settle).stability_timer.elapsed() == 0
            &&& final(settle).stability_timer.limit() == old(settle).stability_timer.limit()
        },
{
    let changed = match settle.last_observation {
        SettleObservationHistory::NotObserved => true,
        SettleObservationHistory::Previous(previous) => previous != settle_observation,
    };
    if changed {
        settle.stability_timer.reset();
        settle.last_observation = SettleObservationHistory::Previous(settle_observation);
        match deadline_status {
            OperatingSystemWorkDeadlineStatus::Expired => ChangeHandling::ChangedAtDeadline,
            OperatingSystemWorkDeadlineStatus::Pending => ChangeHandling::Skip,
        }
    } else {
        ChangeHandling::Unchanged
    }
}

/// What one frame decides about a settling window.
#[derive(Clone, Copy, Debug, PartialEq, Eq, Structural)]
pub enum SettleDecision {
    /// It is too early to tell.
    KeepWaiting,
    /// The window has come to rest as asked for.
    Matched,
    /// The window has come to rest otherwise, or never came to rest.
    Diverged,
}

/// Whether the time for coming to rest is over after this frame.
pub open spec fn is_out_of_time(settle: SettleState, delta: int) -> bool {
    saturating_sum(settle.total_timeout.elapsed(), delta) >= settle.total_timeout.limit()
}

/// Whether the window has stayed as it is for long enough after this frame.
pub open spec fn is_at_rest(
    settle: SettleState,
    delta: int,
    observation: SettleObservation,
) -> bool {
    &&& settle.last_observation == SettleObservationHistory::Previous(observation)
    &&& saturating_sum(settle.stability_timer.elapsed(), delta) >= settle.stability_timer.limit()
}

/// What one frame decides about a settling window.
///
/// A window at rest has settled, as asked for or not: waiting longer cannot change a stable
/// mismatch. A window that is still changing has until the deadline.
pub open spec fn settle_decision(
    settle: SettleState,
    delta: int,
    observation: SettleObservation,
    matches_target: bool,
) -> SettleDecision {
    if is_at_rest(settle, delta, observation) {
        if matches_target {
            SettleDecision::Matched
        } else {
            SettleDecision::Diverged
        }
    } else if is_out_of_time(settle, delta) {
        SettleDecision::Diverged
    } else {
        SettleDecision::KeepWaiting
    }
}

/// Whether `after` is the state of a settling window one frame after `before`.
pub open spec fn settles_to(
    before: SettleState,
    delta: int,
    observation: SettleObservation,
    after: SettleState,
) -> bool {
    &&& after.total_timeout.limit() == before.total_timeout.limit()
    &&& after.total_timeout.elapsed() == saturating_sum(before.total_timeout.elapsed(), delta)
    &&& after.stability_timer.limit() == before.stability_timer.limit()
    &&& after.stability_timer.elapsed() == if before.last_observation
        == SettleObservationHistory::Previous(observation) {
        saturating_sum(before.stability_timer.elapsed(), delta)
    } else {
        0
    }
    &&& after.last_observation == SettleObservationHistory::Previous(observation)
    &&& after.total_elapsed@ == saturating_sum(before.total_elapsed@, delta)
}

/// Let one frame pass for a settling window.
pub fn advance_settling(
    settle: &mut SettleState,
    delta: TimeSpan,
    observation: SettleObservation,
    matches_target: bool,
) -> (result: SettleDecision)
    ensures
        settles_to(*old(settle), delta@, observation, *final(settle)),
        result == settle_decision(*old(settle), delta@, observation, matches_target),
{
    let deadline_status = settle.total_timeout.advance(delta);
    let stability_status = settle.stability_timer.advance(delta);
    settle.total_elapsed = settle.total_elapsed.saturating_add(delta);
    let stable = match detect_settle_change(settle, observation, deadline_status) {
        ChangeHandling::Skip => {
            return SettleDecision::KeepWaiting;
        },
        ChangeHandling::ChangedAtDeadline => false,
        ChangeHandling::Unchanged => match stability_status {
            WindowStabilityIntervalStatus::Stable => true,
            WindowStabilityIntervalStatus::Settling => false,
        },
    };
    let expired = match deadline_status {
        OperatingSystemWorkDeadlineStatus::Expired => true,
        OperatingSystemWorkDeadlineStatus::Pending => false,
    };
    if stable && matches_target {
        SettleDecision::Matched
    } else if stable || expired {
        SettleDecision::Diverged
    } else {
        SettleDecision::KeepWaiting
    }
}

/// A window was restored as asked for.
#[derive(Debug)]
pub struct WindowRestored {
    pub entity: u64,
    pub role: RoleKey,
    pub physical_position: ExpectedPhysicalPosition,
    pub logical_position: ExpectedLogicalPosition,
    pub logical_size: UVec2,
    pub physical_size: UVec2,
    pub window_mode: WindowMode,
    pub monitor_index: usize,
}

/// A window came to rest otherwise than asked for, or did not come to rest.
#[derive(Debug)]
pub struct WindowRestoreMismatch {
    pub entity: u64,
    pub role: RoleKey,
    pub expected_physical_position: ExpectedPhysicalPosition,
    pub actual_physical_position: ObservedPhysicalPosition,
    pub expected_logical_position: ExpectedLogicalPosition,
    pub actual_logical_position: ObservedLogicalPosition,
    pub expected_physical_size: UVec2,
    pub actual_physical_size: UVec2,
    pub expected_logical_size: UVec2,
    pub actual_logical_size: UVec2,
    pub expected_window_mode: WindowMode,
    pub actual_window_mode: WindowMode,
    pub expected_monitor: usize,
    pub actual_monitor: usize,
    pub expected_scale: ScaleFactor,
    pub actual_scale: ScaleFactor,
}

/// How a placement attempt ends.
#[derive(Clone, Copy, Debug, PartialEq, Eq, Structural)]
pub enum AttemptEnding {
    /// The window is somewhere else, and this is where.
    WithReadback(EstablishedWindowPlacement),
    /// The window is somewhere else, and no monitor is known from which to say where.
    Aborted,
}

/// What the end of a restore announces and how its attempt ends.
#[derive(Debug)]
pub enum SettleOutcome {
    Restored(WindowRestored),
    Mismatched(WindowRestoreMismatch, AttemptEnding),
}

/// A window as one frame finds it.
#[derive(Clone, Copy, Debug)]
pub struct ObservedWindow {
    pub entity: u64,
    pub observation: SettleObservation,
    pub scale: ScaleFactor,
    pub logical_size: UVec2,
    /// The physical position at the window's scale, read only where there is a position.
    pub logical_position: IVec2,
    /// Where the window is, as far as its monitor is known.
    pub readback: Option<EstablishedWindowPlacement>,
}

/// Whether an event announces that a window was restored as asked for.
pub open spec fn announces_restore(
    event: WindowRestored,
    role: Seq<char>,
    entity: u64,
    target: SettleTarget,
) -> bool {
    &&& event.entity == entity
    &&& event.role@ == role
    &&& event.physical_position == target.physical_position
    &&& event.logical_position == target.logical_position
    &&& event.logical_size == target.logical_size
    &&& event.physical_size == target.physical_size
    &&& event.window_mode == target.window_mode
    &&& event.monitor_index == target.monitor@
}

/// Whether an event announces how a window differs from what was asked for.
pub open spec fn announces_mismatch(
    event: WindowRestoreMismatch,
    role: Seq<char>,
    target: SettleTarget,
    window: ObservedWindow,
) -> bool {
    &&& event.entity == window.entity
    &&& event.role@ == role
    &&& event.expected_physical_position == target.physical_position
    &&& event.actual_physical_position == window.observation.physical_position
    &&& event.expected_logical_position == target.logical_position
    &&& event.actual_logical_position == match window.observation.physical_position {
        ObservedPhysicalPosition::Observed(_) => ObservedLogicalPosition::Observed(
            window.logical_position,
        ),
        ObservedPhysicalPosition::PlatformCannotReport =>
            ObservedLogicalPosition::PlatformCannotReport,
    }
    &&& event.expected_physical_size == target.physical_size
    &&& event.actual_physical_size == window.observation.physical_size
    &&& event.expected_logical_size == target.logical_size
    &&& event.actual_logical_size == window.logical_size
    &&& event.expected_window_mode == target.window_mode
    &&& event.actual_window_mode == window.observation.window_mode
    &&& event.expected_monitor == target.monitor@
    &&& event.actual_monitor == window.observation.monitor@
    &&& event.expected_scale == target.scale
    &&& event.actual_scale == window.scale
}

fn emit_settle_success(
    role: &RoleKey,
    entity: u64,
    settle_target: &SettleTarget,
    fallback: &mut WindowFallbackRecoveryState,
) -> (result: WindowRestored)
    requires
        old(fallback).wf(),
    ensures
        announces_restore(result, role@, entity, *settle_target),
        final(fallback).wf(),
        final(fallback)@ == old(fallback)@.remove(role@),
{
    fallback.finish(role);
    WindowRestored {
        entity,
        role: role.clone(),
        physical_position: expected_physical_position(settle_target),
        logical_position: expected_logical_position(settle_target),
        logical_size: settle_target.logical_size,
        physical_size: settle_target.physical_size,
        window_mode: settle_target.window_mode,
        monitor_index: settle_target.monitor.adapter_value(),
    }
}

fn emit_settle_mismatch(
    role: &RoleKey,
    settle_target: &SettleTarget,
    window: &ObservedWindow,
    fallback: &mut WindowFallbackRecoveryState,
) -> (result: WindowRestoreMismatch)
    requires
        old(fallback).wf(),
    ensures
        announces_mismatch(result, role@, *settle_target, *window),
        final(fallback).wf(),
        final(fallback)@ == old(fallback)@.remove(role@),
{
    fallback.finish(role);
    WindowRestoreMismatch {
        entity: window.entity,
        role: role.clone(),
        expected_physical_position: expected_physical_position(settle_target),
        actual_physical_position: window.observation.physical_position,
        expected_logical_position: expected_logical_position(settle_target),
        actual_logical_position: observed_logical_position(
            window.observation.physical_position,
            window.logical_position,
        ),
        expected_physical_size: settle_target.physical_size,
        actual_physical_size: window.observation.physical_size,
        expected_logical_size: settle_target.logical_size,
        actual_logical_size: window.logical_size,
        expected_window_mode: settle_target.window_mode,
        actual_window_mode: window.observation.window_mode,
        expected_monitor: settle_target.monitor.adapter_value(),
        actual_monitor: window.observation.monitor.adapter_value(),
        expected_scale: settle_target.scale,
        actual_scale: window.scale,
    }
}

/// How an attempt ends whose window is not where it was sent.
pub open spec fn diverged_ending(readback: Option<EstablishedWindowPlacement>) -> AttemptEnding {
    match readback {
        Some(placement) => AttemptEnding::WithReadback(placement),
        None => AttemptEnding::Aborted,
    }
}

/// How an attempt ends whose window is not where it was sent.
pub fn attempt_ending(readback: Option<EstablishedWindowPlacement>) -> (result: AttemptEnding)
    ensures
        result == diverged_ending(readback),
{
    match readback {
        Some(placement) => AttemptEnding::WithReadback(placement),
        None => AttemptEnding::Aborted,
    }
}

/// Whether everything about a target but its settling stays the same.
pub open spec fn keeps_target(before: TargetPosition, after: TargetPosition) -> bool {
    before == (TargetPosition { window_settle_progress: before.window_settle_progress, ..after })
}

/// Whether `after` is the settling progress one frame after `before`.
pub open spec fn progress_follows(
    before: WindowSettleProgress,
    delta: int,
    observation: SettleObservation,
    after: WindowSettleProgress,
) -> bool {
    match before {
        WindowSettleProgress::NotStarted => after is NotStarted,
        WindowSettleProgress::Settling(settle) => after matches WindowSettleProgress::Settling(next)
            && settles_to(settle, delta, observation, next),
    }
}

/// What one frame decides about a restored window, if it is settling.
pub open spec fn frame_decision(
    target: TargetPosition,
    meaning: PreparedPositionMeaning,
    observation: SettleObservation,
    delta: int,
    platform: Platform,
    workarounds: Workarounds,
) -> SettleDecision {
    match target.window_settle_progress {
        WindowSettleProgress::NotStarted => SettleDecision::KeepWaiting,
        WindowSettleProgress::Settling(settle) => settle_decision(
            settle,
            delta,
            observation,
            window_settles(
                target,
                settle_target_of(target, meaning, platform),
                observation,
                platform,
                workarounds,
            ),
        ),
    }
}

/// Whether the outcome of a frame is the one that its decision calls for.
pub open spec fn is_outcome(
    outcome: Option<SettleOutcome>,
    target: TargetPosition,
    meaning: PreparedPositionMeaning,
    role: Seq<char>,
    window: ObservedWindow,
    delta: int,
    platform: Platform,
    workarounds: Workarounds,
) -> bool {
    let settle_target = settle_target_of(target, meaning, platform);
    match frame_decision(target, meaning, window.observation, delta, platform, workarounds) {
        SettleDecision::KeepWaiting => outcome is None,
        SettleDecision::Matched => outcome matches Some(SettleOutcome::Restored(event))
            && announces_restore(event, role, window.entity, settle_target),
        SettleDecision::Diverged => outcome matches Some(SettleOutcome::Mismatched(event, ending))
            && announces_mismatch(event, role, settle_target, window) && ending == diverged_ending(
            window.readback,
        ),
    }
}

/// Check one restored window. `None` while it is not settling or has not settled yet; the restore is
/// over as soon as there is an outcome, and so is the recovery of its role.
pub fn check_restore_settling(
    target_position: &mut TargetPosition,
    position_meaning: PreparedPositionMeaning,
    role: &RoleKey,
    window: &ObservedWindow,
    delta: TimeSpan,
    platform: Platform,
    workarounds: Workarounds,
    fallback: &mut WindowFallbackRecoveryState,
) -> (result: Option<SettleOutcome>)
    requires
        old(fallback).wf(),
    ensures
        final(fallback).wf(),
        keeps_target(*old(target_position), *final(target_position)),
        progress_follows(
            old(target_position).window_settle_progress,
            delta@,
            window.observation,
            final(target_position).window_settle_progress,
        ),
        final(fallback)@ == if result is None {
            old(fallback)@
        } else {
            old(fallback)@.remove(role@)
        },
        is_outcome(
            result,
            *old(target_position),
            position_meaning,
            role@,
            *window,
            delta@,
            platform,
            workarounds,
        ),
{
    let settle_target = SettleTarget::from_target_position(
        target_position,
        position_meaning,
        platform,
    );
    let comparison = check_settle_matches(
        target_position,
        &settle_target,
        &window.observation,
        platform,
        workarounds,
    );
    let mut settle = match target_position.window_settle_progress {
        WindowSettleProgress::NotStarted => {
            return None;
        },
        WindowSettleProgress::Settling(settle) => settle,
    };
    let decision = advance_settling(
        &mut settle,
        delta,
        window.observation,
        comparison.all_match(),
    );
    target_position.window_settle_progress = WindowSettleProgress::Settling(settle);
    match decision {
        SettleDecision::KeepWaiting => None,
        SettleDecision::Matched => Some(
            SettleOutcome::Restored(
                emit_settle_success(role, window.entity, &settle_target, fallback),
            ),
        ),
        SettleDecision::Diverged => {
            let ending = attempt_ending(window.readback);
            Some(
                SettleOutcome::Mismatched(
                    emit_settle_mismatch(role, &settle_target, window, fallback),
                    ending,
                ),
            )
        },
    }
}

/// How long the frames after the first one up to `frame` last together.
pub open spec fn time_since_first(deltas: Seq<int>, frame: int) -> int
    decreases frame,
{
    if frame <= 0 {
        0
    } else {
        time_since_first(deltas, frame - 1) + deltas[frame]
    }
}

/// Whether `states` are those of a window that has just been placed and is seen in the same state
/// on every frame up to `frame`.
pub open spec fn is_left_alone(
    states: Seq<SettleState>,
    deltas: Seq<int>,
    observation: SettleObservation,
    frame: int,
) -> bool {
    &&& 0 <= frame < states.len()
    &&& frame < deltas.len()
    &&& forall|i: int| 0 <= i < deltas.len() ==> 0 <= #[trigger] deltas[i]
    &&& states[0].last_observation == SettleObservationHistory::NotObserved
    &&& states[0].total_timeout.elapsed() == 0
    &&& forall|i: int|
        0 <= i < frame ==> settles_to(
            #[trigger] states[i],
            deltas[i],
            observation,
            states[i + 1],
        )
}

proof fn left_alone_timers(
    states: Seq<SettleState>,
    deltas: Seq<int>,
    observation: SettleObservation,
    frame: int,
)
    requires
        is_left_alone(states, deltas, observation, frame),
        frame > 0,
        deltas[0] + time_since_first(deltas, frame - 1) <= crate::time::MAX_NANOSECONDS,
    ensures
        time_since_first(deltas, frame - 1) >= 0,
        states[frame].last_observation == SettleObservationHistory::Previous(observation),
        states[frame].stability_timer.limit() == states[0].stability_timer.limit(),
        states[frame].total_timeout.limit() == states[0].total_timeout.limit(),
        states[frame].stability_timer.elapsed() == time_since_first(deltas, frame - 1),
        states[frame].total_timeout.elapsed() == deltas[0] + time_since_first(deltas, frame - 1),
    decreases frame,
{
    assert(settles_to(states[frame - 1], deltas[frame - 1], observation, states[frame]));
    assert(deltas[0] >= 0);
    if frame > 1 {
        assert(deltas[frame - 1] >= 0);
        left_alone_timers(states, deltas, observation, frame - 1);
    }
}

/// A window that is placed as asked for and never moves settles as a match, on the first frame on
/// which it has stayed put for long enough since it was first seen, and is not decided about before;
/// provided that the first frame leaves enough time for that before the deadline.
pub proof fn a_motionless_window_settles_as_a_match(
    states: Seq<SettleState>,
    deltas: Seq<int>,
    observation: SettleObservation,
    frame: int,
)
    requires
        is_left_alone(states, deltas, observation, frame),
        0 < states[0].stability_timer.limit(),
        deltas[0] + states[0].stability_timer.limit() <= states[0].total_timeout.limit()
            <= crate::time::MAX_NANOSECONDS,
        frame > 0 ==> time_since_first(deltas, frame - 1) < states[0].stability_timer.limit(),
    ensures
        settle_decision(states[frame], deltas[frame], observation, true) == if frame > 0
            && time_since_first(deltas, frame) >= states[0].stability_timer.limit() {
            SettleDecision::Matched
        } else {
            SettleDecision::KeepWaiting
        },
{
    assert(deltas[frame] >= 0);
    if frame > 0 {
        left_alone_timers(states, deltas, observation, frame);
    }
}

/// No restore waits forever: once its time is over, the frame decides.
pub proof fn settling_ends_by_the_deadline(
    settle: SettleState,
    delta: int,
    observation: SettleObservation,
    matches_target: bool,
)
    requires
        is_out_of_time(settle, delta),
    ensures
        settle_decision(settle, delta, observation, matches_target) != SettleDecision::KeepWaiting,
{
}

/// A match is never reported by the deadline alone: the window must have been at rest as asked for.
pub proof fn a_match_is_always_at_rest(
    settle: SettleState,
    delta: int,
    observation: SettleObservation,
    matches_target: bool,
)
    ensures
        settle_decision(settle, delta, observation, matches_target) == SettleDecision::Matched
            <==> is_at_rest(settle, delta, observation) && matches_target,
{
}

/// Whether a window has stayed as it is for at least `needed` nanoseconds when this frame ends.
pub open spec fn has_rested_for(
    settle: SettleState,
    observation: SettleObservation,
    delta: int,
    needed: int,
) -> bool {
    &&& settle.last_observation == SettleObservationHistory::Previous(observation)
    &&& settle.stability_timer.elapsed() + delta >= needed
}

/// Whether positions can be read back so reliably that a windowed restore must end where it was
/// sent: on every platform but Wayland, and on X11 only while title bars are not compensated for.
pub open spec fn must_end_in_place(platform: Platform, workarounds: Workarounds) -> bool {
    match platform {
        Platform::MacOs | Platform::Windows => true,
        Platform::X11 => !workarounds.frame_extents,
        Platform::Wayland => false,
    }
}

/// Whether a mode is the one that was saved, on the monitor that the window was sent to. On Wayland
/// any borderless fullscreen stands in for exclusive fullscreen.
pub open spec fn has_saved_mode(
    actual: WindowMode,
    saved: SavedWindowMode,
    monitor_index: usize,
    platform: Platform,
) -> bool {
    match saved {
        SavedWindowMode::Windowed => actual == WindowMode::Windowed,
        SavedWindowMode::BorderlessFullscreen => actual == WindowMode::BorderlessFullscreen(
            MonitorSelection::Index(monitor_index),
        ),
        SavedWindowMode::Fullscreen { video_mode } => {
            ||| platform == Platform::Wayland && actual is BorderlessFullscreen
            ||| actual == WindowMode::Fullscreen(
                MonitorSelection::Index(monitor_index),
                match video_mode {
                    SavedFullscreenVideoMode::Current => VideoModeSelection::Current,
                    SavedFullscreenVideoMode::Specific(mode) => VideoModeSelection::Specific(
                        VideoMode {
                            physical_size: mode.physical_size,
                            bit_depth: mode.bit_depth,
                            refresh_rate_millihertz: mode.refresh_rate_millihertz,
                        },
                    ),
                },
            )
        },
    }
}

/// A window is announced as restored only where it is what the restore asked for: on the monitor it
/// was sent to, in the saved mode, and, unless it is fullscreen, of the target's width and height and
/// at both coordinates of a position that was specified and can be read back.
pub proof fn a_restored_window_is_as_asked_for(
    event: WindowRestored,
    target: TargetPosition,
    meaning: PreparedPositionMeaning,
    role: Seq<char>,
    window: ObservedWindow,
    delta: int,
    platform: Platform,
    workarounds: Workarounds,
    position: IVec2,
)
    requires
        is_outcome(
            Some(SettleOutcome::Restored(event)),
            target,
            meaning,
            role,
            window,
            delta,
            platform,
            workarounds,
        ),
    ensures
        target.window_settle_progress is Settling,
        window.observation.monitor@ == target.monitor_index@,
        has_saved_mode(
            window.observation.window_mode,
            target.saved_window_mode,
            target.monitor_index@,
            platform,
        ),
        target.saved_window_mode is Windowed ==> {
            &&& window.observation.physical_size.x == target.physical_size.x
            &&& window.observation.physical_size.y == target.physical_size.y
        },
        target.saved_window_mode is Windowed && meaning == PreparedPositionMeaning::Specified
            && target.physical_position == Some(position) && must_end_in_place(
            platform,
            workarounds,
        ) ==> (window.observation.physical_position matches ObservedPhysicalPosition::Observed(
            actual,
        ) && actual.x == position.x && actual.y == position.y),
        event.entity == window.entity,
        event.role@ == role,
        event.physical_size == target.physical_size,
        event.logical_size == target.logical_size,
        event.monitor_index == target.monitor_index@,
        has_saved_mode(
            event.window_mode,
            target.saved_window_mode,
            target.monitor_index@,
            Platform::Windows,
        ),
        meaning == PreparedPositionMeaning::Specified && platform != Platform::Wayland ==> {
            &&& target.physical_position == Some(position) ==> event.physical_position
                == ExpectedPhysicalPosition::Specified(position)
            &&& target.logical_position == Some(position) ==> event.logical_position
                == ExpectedLogicalPosition::Specified(position)
        },
{
}

/// A window that has come to rest is decided about at once: it is restored if it is on its monitor,
/// in its mode, of its size and at its position, as far as these count, and a mismatch otherwise.
pub proof fn a_window_at_rest_is_restored_exactly_where_it_was_sent(
    outcome: Option<SettleOutcome>,
    target: TargetPosition,
    settle: SettleState,
    meaning: PreparedPositionMeaning,
    role: Seq<char>,
    window: ObservedWindow,
    delta: int,
    platform: Platform,
    workarounds: Workarounds,
)
    requires
        is_outcome(outcome, target, meaning, role, window, delta, platform, workarounds),
        target.window_settle_progress == WindowSettleProgress::Settling(settle),
        has_rested_for(settle, window.observation, delta, settle.stability_timer.limit()),
        settle.stability_timer.limit() <= crate::time::MAX_NANOSECONDS,
    ensures
        outcome is Some,
        ({
            &&& window.observation.monitor@ == target.monitor_index@
            &&& has_saved_mode(
                window.observation.window_mode,
                target.saved_window_mode,
                target.monitor_index@,
                platform,
            )
            &&& target.saved_window_mode is Windowed ==> window.observation.physical_size
                == target.physical_size
            &&& target.saved_window_mode is Windowed && meaning
                == PreparedPositionMeaning::Specified && must_end_in_place(platform, workarounds)
                && target.physical_position is Some ==> window.observation.physical_position
                == ObservedPhysicalPosition::Observed(target.physical_position->0)
        }) <==> outcome->0 is Restored,
{
    indices_are_their_positions(window.observation.monitor, target.monitor_index);
}

/// A mismatch says what was asked for and what the window is instead, field by field, and where the
/// window is as far as its monitor is known.
pub proof fn a_mismatch_says_how_the_window_differs(
    event: WindowRestoreMismatch,
    ending: AttemptEnding,
    target: TargetPosition,
    meaning: PreparedPositionMeaning,
    role: Seq<char>,
    window: ObservedWindow,
    delta: int,
    platform: Platform,
    workarounds: Workarounds,
)
    requires
        is_outcome(
            Some(SettleOutcome::Mismatched(event, ending)),
            target,
            meaning,
            role,
            window,
            delta,
            platform,
            workarounds,
        ),
    ensures
        target.window_settle_progress is Settling,
        event.entity == window.entity,
        event.role@ == role,
        event.actual_physical_position == window.observation.physical_position,
        event.actual_physical_size == window.observation.physical_size,
        event.actual_window_mode == window.observation.window_mode,
        event.actual_monitor == window.observation.monitor@,
        event.actual_scale == window.scale,
        event.actual_logical_size == window.logical_size,
        window.observation.physical_position is Observed ==> event.actual_logical_position
            == ObservedLogicalPosition::Observed(window.logical_position),
        window.observation.physical_position is PlatformCannotReport
            ==> event.actual_logical_position is PlatformCannotReport,
        event.expected_physical_size == target.physical_size,
        event.expected_logical_size == target.logical_size,
        event.expected_monitor == target.monitor_index@,
        event.expected_scale == target.target_scale,
        has_saved_mode(
            event.expected_window_mode,
            target.saved_window_mode,
            target.monitor_index@,
            Platform::Windows,
        ),
        meaning == PreparedPositionMeaning::Specified && platform != Platform::Wayland
            && target.physical_position is Some ==> event.expected_physical_position
            == ExpectedPhysicalPosition::Specified(target.physical_position->0),
        meaning == PreparedPositionMeaning::Specified && platform != Platform::Wayland
            && target.logical_position is Some ==> event.expected_logical_position
            == ExpectedLogicalPosition::Specified(target.logical_position->0),
        window.readback is Some ==> ending == AttemptEnding::WithReadback(window.readback->0),
        window.readback is None ==> ending is Aborted,
{
}

/// Why no position was asked for is passed on as it is.
pub proof fn an_absent_position_keeps_its_reason(
    target: TargetPosition,
    meaning: PreparedPositionMeaning,
    platform: Platform,
)
    ensures
        meaning is PlatformCannotPosition || (meaning is Specified && platform
            == Platform::Wayland) <==> expected_physical(
            target,
            meaning,
            platform,
        ) is PlatformCannotPosition,
        meaning is DiscardedLegacy <==> expected_physical(
            target,
            meaning,
            platform,
        ) is DiscardedLegacy,
        meaning is NotSaved ==> expected_physical(target, meaning, platform) is NotSaved,
        meaning is PlatformCannotPosition || (meaning is Specified && platform
            == Platform::Wayland) <==> expected_logical(
            target,
            meaning,
            platform,
        ) is PlatformCannotPosition,
        meaning is DiscardedLegacy <==> expected_logical(
            target,
            meaning,
            platform,
        ) is DiscardedLegacy,
        meaning is NotSaved ==> expected_logical(target, meaning, platform) is NotSaved,
{
}

/// A window is decided about only once it has been at rest for long enough or its time is over; before
/// that, and while it has not been placed, there is no outcome. Out of time, it never counts as
/// restored unless it is at rest.
pub proof fn a_moving_window_is_given_until_the_deadline(
    outcome: Option<SettleOutcome>,
    target: TargetPosition,
    settle: SettleState,
    meaning: PreparedPositionMeaning,
    role: Seq<char>,
    window: ObservedWindow,
    delta: int,
    platform: Platform,
    workarounds: Workarounds,
)
    requires
        is_outcome(outcome, target, meaning, role, window, delta, platform, workarounds),
        settle.stability_timer.limit() <= crate::time::MAX_NANOSECONDS,
        settle.total_timeout.limit() <= crate::time::MAX_NANOSECONDS,
    ensures
        target.window_settle_progress is NotStarted ==> outcome is None,
        target.window_settle_progress == WindowSettleProgress::Settling(settle) && !has_rested_for(
            settle,
            window.observation,
            delta,
            settle.stability_timer.limit(),
        ) ==> {
            &&& outcome is None <==> settle.total_timeout.elapsed() + delta
                < settle.total_timeout.limit()
            &&& outcome is Some ==> outcome->0 is Mismatched
        },
{
}

/// Every frame adds its length to the time that the restore has taken, and to the time that the
/// window has been at rest if it did not change; a change starts that time over.
pub proof fn frames_add_up(
    before: SettleState,
    delta: int,
    observation: SettleObservation,
    after: SettleState,
)
    requires
        settles_to(before, delta, observation, after),
        before.total_timeout.elapsed() + delta <= crate::time::MAX_NANOSECONDS,
        before.stability_timer.elapsed() + delta <= crate::time::MAX_NANOSECONDS,
    ensures
        after.total_timeout.elapsed() == before.total_timeout.elapsed() + delta,
        after.total_timeout.limit() == before.total_timeout.limit(),
        after.stability_timer.limit() == before.stability_timer.limit(),
        before.last_observation == SettleObservationHistory::Previous(observation)
            ==> after.stability_timer.elapsed() == before.stability_timer.elapsed() + delta,
        before.last_observation != SettleObservationHistory::Previous(observation)
            ==> after.stability_timer.elapsed() == 0,
        after.last_observation == SettleObservationHistory::Previous(observation),
{
}

/// A frame changes nothing about a target but how far its window has settled, and starts nothing.
pub proof fn a_frame_only_settles(before: TargetPosition, after: TargetPosition)
    requires
        keeps_target(before, after),
    ensures
        after.physical_position == before.physical_position,
        after.logical_position == before.logical_position,
        after.physical_size == before.physical_size,
        after.logical_size == before.logical_size,
        after.target_scale == before.target_scale,
        after.starting_scale == before.starting_scale,
        after.monitor_scale_strategy == before.monitor_scale_strategy,
        after.saved_window_mode == before.saved_window_mode,
        after.monitor_index == before.monitor_index,
        after.fullscreen_restore_state == before.fullscreen_restore_state,
{
}

/// In each frame all three clocks run by the frame's length, except that the one that times the rest
/// starts over whenever the window is not observed as it was before. The limits never change, and what
/// was observed is remembered.
pub proof fn the_clocks_run_by_the_frame(
    before: SettleState,
    delta: int,
    observation: SettleObservation,
    after: SettleState,
)
    requires
        settles_to(before, delta, observation, after),
        0 <= delta,
        before.total_timeout.elapsed() + delta <= crate::time::MAX_NANOSECONDS,
        before.stability_timer.elapsed() + delta <= crate::time::MAX_NANOSECONDS,
        before.total_elapsed@ + delta <= crate::time::MAX_NANOSECONDS,
    ensures
        after.total_elapsed@ == before.total_elapsed@ + delta,
        after.total_timeout.elapsed() == before.total_timeout.elapsed() + delta,
        before.last_observation == SettleObservationHistory::Previous(observation)
            ==> after.stability_timer.elapsed() == before.stability_timer.elapsed() + delta,
        before.last_observation != SettleObservationHistory::Previous(observation)
            ==> after.stability_timer.elapsed() == 0,
        after.total_timeout.limit() == before.total_timeout.limit(),
        after.stability_timer.limit() == before.stability_timer.limit(),
        after.last_observation == SettleObservationHistory::Previous(observation),
{
}

/// Comparing a window with its target compares every part by itself: where positions count, both
/// coordinates, and for a windowed window both sides of its size.
pub proof fn a_comparison_looks_at_every_part(
    target_position: TargetPosition,
    settle_target: SettleTarget,
    observation: SettleObservation,
    platform: Platform,
    workarounds: Workarounds,
    expected: IVec2,
    result: SettleComparison,
)
    requires
        call_ensures(
            check_settle_matches,
            (&target_position, &settle_target, &observation, platform, workarounds),
            result,
        ),
        target_position.saved_window_mode is Windowed,
        !(platform is X11),
        settle_target.physical_position == ExpectedPhysicalPosition::Specified(expected),
    ensures
        result.position is Match <==> (
        observation.physical_position matches ObservedPhysicalPosition::Observed(observed)
            && observed.x == expected.x && observed.y == expected.y),
        result.size is Match <==> settle_target.physical_size.x == observation.physical_size.x
            && settle_target.physical_size.y == observation.physical_size.y,
        result.mode is Match <== settle_target.window_mode == observation.window_mode,
        !(platform is Wayland) ==> (result.mode is Match <==> settle_target.window_mode
            == observation.window_mode),
        result.monitor is Match <==> settle_target.monitor@ == observation.monitor@,
{
    indices_are_their_positions(settle_target.monitor, observation.monitor);
}

/// A window is observed as it is: at its position where the platform reports one, with its size, in its
/// mode, on its monitor, or on the first one where none is known.
pub proof fn a_window_is_observed_as_it_is(
    window_position: Option<IVec2>,
    physical_size: UVec2,
    window_mode: WindowMode,
    current_monitor: Option<CurrentMonitorIndex>,
    platform: Platform,
    result: SettleObservation,
)
    requires
        call_ensures(
            observe_actual_state,
            (window_position, physical_size, window_mode, current_monitor, platform),
            result,
        ),
    ensures
        result.physical_position is PlatformCannotReport <==> window_position is None
            || platform is Wayland,
        result.physical_position matches ObservedPhysicalPosition::Observed(position)
            ==> window_position == Some(position),
        result.physical_size.x == physical_size.x,
        result.physical_size.y == physical_size.y,
        result.window_mode == window_mode,
        current_monitor matches Some(index) ==> result.monitor@ == index@,
        current_monitor is None ==> result.monitor@ == 0,
{
    index_keeps_its_position(PRIMARY_MONITOR_INDEX);
}

} // verus!
