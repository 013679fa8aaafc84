//! Preparing the target of one placement attempt.

use super::strategy::{AttemptRef, RestorePreparationSource};
use super::target::{
    compute_established_target_position, established_meaning, lies_within,
    monitor_contains_physical_point, prepared_established_position_meaning,
    prepared_from_established, target_for, PreparedPositionMeaning, RestoreDiagnostics,
    ScaledTarget, TargetPosition,
};
use crate::device::RoleKey;
use crate::geometry::{IVec2, UVec2};
use crate::monitors::topology::{
    equal_descriptors_agree_in_every_part, same_descriptor, CurrentMonitorIndex, InstalledMonitor, MonitorDescriptor, Monitors,
};
use crate::persistence::established_window_placement::{
    EstablishedWindowPlacement, EstablishedWindowPosition, ScaledMonitorOrigin,
};
use crate::persistence::window_state::{PersistedPosition, SavedWindowMode};
use crate::platform::{Platform, ReturnCapability, Workarounds};
use crate::recovery::{WindowFallbackRecoveryPhase, WindowFallbackRecoveryState};
use crate::reporter::DeviceAccessError;
use crate::scale::{encodings_equal, ScaleFactor};
use crate::text;
use vstd::prelude::*;

verus! {

/// The window that is placed, and the monitor that it is placed on.
#[derive(Clone, Copy, Debug, PartialEq, Eq, Structural)]
pub struct WindowPlacementTarget {
    pub window: u64,
    pub monitor: u64,
}

/// What an attempt was told to place, and where.
#[derive(Debug)]
pub struct RestorePreparation {
    role: RoleKey,
    target: WindowPlacementTarget,
    dispatched: EstablishedWindowPlacement,
}

impl RestorePreparation {
    /// The role whose window is placed.
    pub closed spec fn for_role(&self) -> Seq<char> {
        self.role@
    }

    /// Which window goes where.
    pub closed spec fn to_target(&self) -> WindowPlacementTarget {
        self.target
    }

    /// The configuration to apply.
    pub closed spec fn to_apply(&self) -> EstablishedWindowPlacement {
        self.dispatched
    }

    pub fn new(
        role: RoleKey,
        target: WindowPlacementTarget,
        dispatched: EstablishedWindowPlacement,
    ) -> (result: Self)
        ensures
            result.for_role() == role@,
            result.to_target() == target,
            result.to_apply() == dispatched,
    {
        RestorePreparation { role, target, dispatched }
    }

    pub fn role(&self) -> (result: &RoleKey)
        ensures
            result@ == self.for_role(),
    {
        &self.role
    }

    pub fn window(&self) -> (result: u64)
        ensures
            result == self.to_target().window,
    {
        self.target.window
    }

    pub fn target(&self) -> (result: &WindowPlacementTarget)
        ensures
            *result == self.to_target(),
    {
        &self.target
    }

    pub fn dispatched(&self) -> (result: &EstablishedWindowPlacement)
        ensures
            *result == self.to_apply(),
    {
        &self.dispatched
    }
}

/// Reference from a window to the preparation of its restore.
#[derive(Debug)]
pub struct WindowRestoreAttempt {
    role: RoleKey,
    source: RestorePreparationSource,
}

impl WindowRestoreAttempt {
    /// The role whose window is restored.
    pub closed spec fn of_role(&self) -> Seq<char> {
        self.role@
    }

    /// The attempt that restores it.
    pub closed spec fn attempt_ref(&self) -> AttemptRef {
        match self.source {
            RestorePreparationSource::KernelAttempt(attempt) => attempt,
        }
    }

    pub fn for_role(role: RoleKey, attempt: AttemptRef) -> (result: Self)
        ensures
            result.of_role() == role@,
            result.attempt_ref() == attempt,
    {
        WindowRestoreAttempt { role, source: RestorePreparationSource::KernelAttempt(attempt) }
    }

    pub fn role(&self) -> (result: &RoleKey)
        ensures
            result@ == self.of_role(),
    {
        &self.role
    }

    pub fn source(&self) -> (result: RestorePreparationSource)
        ensures
            result == RestorePreparationSource::KernelAttempt(self.attempt_ref()),
    {
        self.source
    }

    pub fn attempt(&self) -> (result: AttemptRef)
        ensures
            result == self.attempt_ref(),
    {
        match self.source {
            RestorePreparationSource::KernelAttempt(attempt) => attempt,
        }
    }
}

/// Whether the restore work on a window belongs to an attempt, so that ending the attempt removes
/// it.
pub fn restore_work_belongs_to(
    restore_attempt: Option<&WindowRestoreAttempt>,
    attempt: AttemptRef,
) -> (result: bool)
    ensures
        result == (restore_attempt matches Some(owner) && owner.attempt_ref() == attempt),
{
    match restore_attempt {
        Some(owner) => owner.attempt() == attempt,
        None => false,
    }
}

/// What the driver knows of an attempt.
#[derive(Debug)]
pub enum RestoreRecord {
    /// It is being prepared.
    UnderPreparation(RestorePreparation),
    /// Its end is on its way to the kernel.
    CompletionQueued,
    /// It was never issued.
    AttemptUnknown,
}

/// Measurements of a native window.
#[derive(Clone, Copy, Debug, PartialEq, Eq, Structural)]
pub struct NativeWindowInfo {
    physical_decoration: UVec2,
}

/// The part of `outer` beyond `inner`.
pub open spec fn excess(outer: u32, inner: u32) -> u32 {
    if outer > inner {
        (outer - inner) as u32
    } else {
        0
    }
}

impl NativeWindowInfo {
    /// How much larger the window is with its frame.
    pub closed spec fn decoration(self) -> UVec2 {
        self.physical_decoration
    }

    /// The measurements of a window with these sizes.
    pub fn from_sizes(physical_outer_size: UVec2, physical_inner_size: UVec2) -> (result: Self)
        ensures
            result.decoration() == (UVec2 {
                x: excess(physical_outer_size.x, physical_inner_size.x),
                y: excess(physical_outer_size.y, physical_inner_size.y),
            }),
    {
        NativeWindowInfo {
            physical_decoration: UVec2 {
                x: physical_outer_size.x.saturating_sub(physical_inner_size.x),
                y: physical_outer_size.y.saturating_sub(physical_inner_size.y),
            },
        }
    }

    /// How much larger the window is with its frame.
    pub fn physical_decoration(&self) -> (result: UVec2)
        ensures
            result == self.decoration(),
    {
        self.physical_decoration
    }
}

/// The place of the first monitor of an entity from `index` on.
pub open spec fn place_of_entity(
    monitors: Seq<InstalledMonitor>,
    entity: u64,
    index: int,
) -> Option<int>
    decreases monitors.len() - index,
{
    if index < 0 || index >= monitors.len() {
        None
    } else if monitors[index].entity == entity {
        Some(index)
    } else {
        place_of_entity(monitors, entity, index + 1)
    }
}

/// The descriptor of the first monitor of an entity.
pub open spec fn descriptor_of_entity(
    monitors: Seq<InstalledMonitor>,
    entity: u64,
) -> Option<MonitorDescriptor> {
    match place_of_entity(monitors, entity, 0) {
        Some(place) => Some(monitors[place].descriptor),
        None => None,
    }
}

fn live_descriptor_of(monitors: &Monitors, entity: u64) -> (result: Option<MonitorDescriptor>)
    ensures
        result == descriptor_of_entity(monitors@, entity),
{
    let installed = monitors.installed();
    let mut index: usize = 0;
    while index < installed.len()
        invariant
            index <= installed@.len(),
            installed@ == monitors@,
            place_of_entity(installed@, entity, 0) == place_of_entity(
                installed@,
                entity,
                index as int,
            ),
        decreases installed@.len() - index,
    {
        if installed[index].entity == entity {
            return Some(installed[index].descriptor);
        }
        index += 1;
    }
    None
}

/// Whether the monitor that a window is on is live and is the one that the window's description
/// names.
pub open spec fn is_exactly_associated(
    monitors: Seq<InstalledMonitor>,
    on_monitor: u64,
    current: MonitorDescriptor,
) -> bool {
    descriptor_of_entity(monitors, on_monitor) matches Some(descriptor) && same_descriptor(
        descriptor,
        current,
    )
}

/// Whether the monitor that a window is on is live and is the one that the window's description
/// names.
pub fn exact_monitor_association(
    monitors: &Monitors,
    on_monitor: u64,
    current: &MonitorDescriptor,
) -> (result: bool)
    ensures
        result == is_exactly_associated(monitors@, on_monitor, *current),
{
    match live_descriptor_of(monitors, on_monitor) {
        Some(descriptor) => descriptor == *current,
        None => false,
    }
}

/// What preparing a window's target comes to.
#[derive(Debug)]
pub enum PreparationStep {
    /// The window or its monitor is not known well enough yet.
    Wait,
    /// No preparation is outstanding, so the marker that asks for a target comes off.
    DropMarker,
    /// The display that the window was to go to is gone, so the attempt fails.
    TargetGone { error: DeviceAccessError },
    /// The target can be computed.
    Ready(ReadyPreparation),
}

/// Everything that a target is computed from, but for what the scales make of it.
#[derive(Debug)]
pub struct ReadyPreparation {
    pub role: RoleKey,
    pub descriptor: MonitorDescriptor,
    pub configuration: EstablishedWindowPlacement,
    pub physical_decoration: UVec2,
}

/// The message of an attempt whose display is gone.
pub open spec fn target_gone_message(role: Seq<char>) -> Seq<char> {
    "authorized display for role "@ + role + " is no longer live"@
}

/// Whether beginning to prepare a window comes to `result`, and leaves the recovery of the roles as
/// `after`: a window waits until its monitor and its measurements are known, and a role whose display
/// is gone starts to wait for it.
pub open spec fn begins_preparation(
    monitors: Seq<InstalledMonitor>,
    on_monitor: u64,
    current: MonitorDescriptor,
    native: Option<NativeWindowInfo>,
    record: RestoreRecord,
    before: Map<Seq<char>, WindowFallbackRecoveryPhase>,
    result: PreparationStep,
    after: Map<Seq<char>, WindowFallbackRecoveryPhase>,
) -> bool {
    if !is_exactly_associated(monitors, on_monitor, current) || native is None {
        result is Wait && after == before
    } else {
        match record {
            RestoreRecord::CompletionQueued | RestoreRecord::AttemptUnknown => result is DropMarker
                && after == before,
            RestoreRecord::UnderPreparation(preparation) => match descriptor_of_entity(
                monitors,
                preparation.to_target().monitor,
            ) {
                None => {
                    &&& result matches PreparationStep::TargetGone {
                        error: DeviceAccessError::Absent { detail },
                    } && detail@ == target_gone_message(preparation.for_role())
                    &&& after == before.insert(
                        preparation.for_role(),
                        WindowFallbackRecoveryPhase::MissingLiveMonitor,
                    )
                },
                Some(descriptor) => {
                    &&& result matches PreparationStep::Ready(ready) && {
                        &&& ready.role@ == preparation.for_role()
                        &&& ready.descriptor == descriptor
                        &&& ready.configuration == preparation.to_apply()
                        &&& ready.physical_decoration == native->0.decoration()
                    }
                    &&& after == before
                },
            },
        }
    }
}

/// Begin to prepare a window's target from the monitor facts of this frame. Where the display is
/// gone, its role starts to wait for it.
pub fn begin_preparation(
    monitors: &Monitors,
    on_monitor: u64,
    current: &MonitorDescriptor,
    native: Option<NativeWindowInfo>,
    record: &RestoreRecord,
    fallback: &mut WindowFallbackRecoveryState,
) -> (result: PreparationStep)
    requires
        old(fallback).wf(),
    ensures
        final(fallback).wf(),
        begins_preparation(
            monitors@,
            on_monitor,
            *current,
            native,
            *record,
            old(fallback)@,
            result,
            final(fallback)@,
        ),
{
    if !exact_monitor_association(monitors, on_monitor, current) {
        return PreparationStep::Wait;
    }
    let native_window_info = match native {
        Some(info) => info,
        None => {
            return PreparationStep::Wait;
        },
    };
    match record {
        RestoreRecord::CompletionQueued | RestoreRecord::AttemptUnknown =>
            PreparationStep::DropMarker,
        RestoreRecord::UnderPreparation(preparation) => {
            match live_descriptor_of(monitors, preparation.target().monitor) {
                None => {
                    fallback.mark_missing(preparation.role().clone());
                    let start = text::joined(
                        "authorized display for role ",
                        preparation.role().as_str(),
                    );
                    PreparationStep::TargetGone {
                        error: DeviceAccessError::Absent {
                            detail: text::joined(start.as_str(), " is no longer live"),
                        },
                    }
                },
                Some(descriptor) => PreparationStep::Ready(
                    ReadyPreparation {
                        role: preparation.role().clone(),
                        descriptor,
                        configuration: *preparation.dispatched(),
                        physical_decoration: native_window_info.physical_decoration(),
                    },
                ),
            }
        },
    }
}

/// A prepared restore.
#[derive(Debug)]
pub struct PreparedRestore {
    pub target_position: TargetPosition,
    pub diagnostics: RestoreDiagnostics,
    pub position_meaning: PreparedPositionMeaning,
    /// Whether the window can be placed at once, with no frame to compensate for.
    pub frame_compensated: bool,
}

/// Whether a window that is prepared counts as being on a fallback display: it is not on its target
/// display, and returning there automatically can reproduce its placement.
pub open spec fn is_on_fallback(
    current: MonitorDescriptor,
    target: MonitorDescriptor,
    configuration: EstablishedWindowPlacement,
) -> bool {
    &&& !same_descriptor(current, target)
    &&& match configuration.saved_window_mode {
        SavedWindowMode::Fullscreen { .. } => false,
        SavedWindowMode::BorderlessFullscreen => true,
        SavedWindowMode::Windowed => configuration.position is Restorable,
    }
}

/// How far the roles have come in their recovery once a window is prepared.
pub open spec fn recovery_after_preparation(
    ready: ReadyPreparation,
    current: MonitorDescriptor,
    before: Map<Seq<char>, WindowFallbackRecoveryPhase>,
) -> Map<Seq<char>, WindowFallbackRecoveryPhase> {
    if is_on_fallback(current, ready.descriptor, ready.configuration) {
        before.insert(ready.role@, WindowFallbackRecoveryPhase::OnFallbackDisplay)
    } else {
        before
    }
}

/// Whether `result` is the prepared restore of a window that is ready: launched from the current
/// monitor, with the decoration of the native window.
pub open spec fn is_prepared(
    result: PreparedRestore,
    ready: ReadyPreparation,
    current: MonitorDescriptor,
    origin: ScaledMonitorOrigin,
    scaled: ScaledTarget,
    platform: Platform,
    workarounds: Workarounds,
) -> bool {
    &&& result.target_position == target_for(
        ready.configuration.logical_size,
        ready.configuration.saved_window_mode,
        ready.descriptor,
        prepared_from_established(ready.configuration, ready.descriptor, origin),
        ScaledTarget {
            physical_decoration: ready.physical_decoration,
            starting_scale: current.scale,
            ..scaled
        },
        platform,
        workarounds,
    )
    &&& result.diagnostics == (RestoreDiagnostics {
        starting_monitor_index: current.index,
        starting_scale: current.scale,
        target_scale: ready.descriptor.scale,
        monitor_scale_strategy: platform.strategy_for(scaled.relation, workarounds),
    })
    &&& result.position_meaning == established_meaning(ready.configuration, platform)
    &&& result.frame_compensated == !(platform.compensates_frames(workarounds)
        && ready.configuration.saved_window_mode is Windowed)
}

/// Compute the target of a window that is ready, from what the scales make of its configuration. The
/// launch scale is that of the current monitor, and the decoration that of the native window.
pub fn finish_preparation(
    ready: ReadyPreparation,
    current: &MonitorDescriptor,
    origin: ScaledMonitorOrigin,
    scaled: ScaledTarget,
    platform: Platform,
    workarounds: Workarounds,
    fallback: &mut WindowFallbackRecoveryState,
) -> (result: PreparedRestore)
    requires
        old(fallback).wf(),
        ready.configuration.rebases_within_range(ready.descriptor, origin),
    ensures
        final(fallback).wf(),
        final(fallback)@ == recovery_after_preparation(ready, *current, old(fallback)@),
        is_prepared(result, ready, *current, origin, scaled, platform, workarounds),
{
    let launched = ScaledTarget {
        physical_size: scaled.physical_size,
        physical_decoration: ready.physical_decoration,
        starting_scale: current.scale,
        relation: scaled.relation,
    };
    let target_position = compute_established_target_position(
        &ready.configuration,
        &ready.descriptor,
        origin,
        launched,
        platform,
        workarounds,
    );
    let position_meaning = prepared_established_position_meaning(
        &ready.configuration,
        &ready.descriptor,
        origin,
        platform,
    );
    let diagnostics = RestoreDiagnostics {
        starting_monitor_index: current.index,
        starting_scale: current.scale,
        target_scale: target_position.target_scale,
        monitor_scale_strategy: target_position.monitor_scale_strategy,
    };
    let awaits_frame_compensation = platform.awaits_frame_compensation(
        &target_position.saved_window_mode,
        workarounds,
    );
    if *current != ready.descriptor && platform.fallback_return_capability(
        ready.configuration.position,
        &ready.configuration.saved_window_mode,
    ) == ReturnCapability::Supported {
        fallback.mark_on_fallback(ready.role);
    }
    PreparedRestore {
        target_position,
        diagnostics,
        position_meaning,
        frame_compensated: !awaits_frame_compensation,
    }
}

/// Whether the monitor at `index` is the only one that holds the point.
pub open spec fn is_only_monitor_with(
    monitors: Seq<InstalledMonitor>,
    index: int,
    point: IVec2,
) -> bool {
    &&& 0 <= index < monitors.len()
    &&& lies_within(monitors[index].descriptor, point)
    &&& forall|other: int|
        0 <= other < monitors.len() && other != index ==> !lies_within(
            (#[trigger] monitors[other]).descriptor,
            point,
        )
}

/// The one monitor that an absolute coordinate was saved on, by the centre that it reconstructs to.
/// Where none or several monitors hold the centre, none is chosen.
pub fn resolve_legacy_coordinate_monitor(
    position: PersistedPosition,
    center: IVec2,
    monitors: &Monitors,
) -> (result: Option<MonitorDescriptor>)
    ensures
        match result {
            Some(descriptor) => position is Unrebased && exists|index: int| #[trigger]
                is_only_monitor_with(monitors@, index, center) && descriptor
                    == monitors@[index].descriptor,
            None => position is Unrebased ==> forall|index: int| !is_only_monitor_with(
                monitors@,
                index,
                center,
            ),
        },
{
    match position {
        PersistedPosition::Unrebased(_) => {},
        PersistedPosition::MonitorOffset(_) | PersistedPosition::Unpositioned => {
            return None;
        },
    }
    let installed = monitors.installed();
    let mut unique: Option<usize> = None;
    let mut index: usize = 0;
    while index < installed.len()
        invariant
            index <= installed@.len(),
            installed@ == monitors@,
            position is Unrebased,
            match unique {
                Some(found) => found < index && lies_within(
                    installed@[found as int].descriptor,
                    center,
                ) && forall|other: int|
                    0 <= other < index && other != found ==> !lies_within(
                        (#[trigger] installed@[other]).descriptor,
                        center,
                    ),
                None => forall|other: int|
                    0 <= other < index ==> !lies_within(
                        (#[trigger] installed@[other]).descriptor,
                        center,
                    ),
            },
        decreases installed@.len() - index,
    {
        if monitor_contains_physical_point(&installed[index].descriptor, center) {
            if let Some(found) = unique {
                assert forall|candidate: int| !is_only_monitor_with(
                    monitors@,
                    candidate,
                    center,
                ) by {
                    if candidate == index {
                        assert(lies_within(installed@[found as int].descriptor, center));
                    } else {
                        assert(lies_within(installed@[index as int].descriptor, center));
                    }
                }
                return None;
            }
            unique = Some(index);
        }
        index += 1;
    }
    match unique {
        Some(found) => {
            assert(is_only_monitor_with(monitors@, found as int, center));
            Some(installed[found].descriptor)
        },
        None => None,
    }
}

/// The excess is what the inner length lacks of the outer one, and nothing where it lacks nothing.
pub proof fn the_excess_fills_the_gap(outer: u32, inner: u32)
    ensures
        outer >= inner ==> inner + excess(outer, inner) == outer,
        outer <= inner ==> excess(outer, inner) == 0,
{
}

proof fn the_first_place_is_found(monitors: Seq<InstalledMonitor>, entity: u64, index: int)
    requires
        0 <= index,
    ensures
        match place_of_entity(monitors, entity, index) {
            Some(place) => index <= place < monitors.len() && monitors[place].entity == entity
                && forall|earlier: int|
                index <= earlier < place ==> (#[trigger] monitors[earlier]).entity != entity,
            None => forall|place: int|
                index <= place < monitors.len() ==> (#[trigger] monitors[place]).entity != entity,
        },
    decreases monitors.len() - index,
{
    if index < monitors.len() && monitors[index].entity != entity {
        the_first_place_is_found(monitors, entity, index + 1);
    }
}

/// An entity has the geometry of its own monitor: none where no monitor has that entity, and
/// otherwise that of the first one that has it.
pub proof fn an_entity_has_its_own_geometry(
    monitors: Seq<InstalledMonitor>,
    entity: u64,
    place: int,
)
    ensures
        (forall|i: int| 0 <= i < monitors.len() ==> (#[trigger] monitors[i]).entity != entity)
            <==> descriptor_of_entity(monitors, entity) is None,
        0 <= place < monitors.len() && monitors[place].entity == entity && (forall|earlier: int|
            0 <= earlier < place ==> (#[trigger] monitors[earlier]).entity != entity)
            ==> descriptor_of_entity(monitors, entity) == Some(monitors[place].descriptor),
{
    the_first_place_is_found(monitors, entity, 0);
}

/// A window is exactly associated where the monitor it is on is live and has the very geometry that
/// the window is described with.
pub proof fn an_exact_association_agrees_in_every_part(
    monitors: Seq<InstalledMonitor>,
    place: int,
    current: MonitorDescriptor,
)
    requires
        0 <= place < monitors.len(),
        forall|earlier: int|
            0 <= earlier < place ==> (#[trigger] monitors[earlier]).entity
                != monitors[place].entity,
    ensures
        is_exactly_associated(monitors, monitors[place].entity, current) <==> {
            let descriptor = monitors[place].descriptor;
            &&& descriptor.index@ == current.index@
            &&& encodings_equal(descriptor.scale@, current.scale@)
            &&& descriptor.physical_position.x == current.physical_position.x
            &&& descriptor.physical_position.y == current.physical_position.y
            &&& descriptor.physical_size.x == current.physical_size.x
            &&& descriptor.physical_size.y == current.physical_size.y
        },
{
    an_entity_has_its_own_geometry(monitors, monitors[place].entity, place);
    equal_descriptors_agree_in_every_part(monitors[place].descriptor, current);
}

/// A window whose entity no live monitor has is not associated.
pub proof fn a_window_on_no_live_monitor_is_not_associated(
    monitors: Seq<InstalledMonitor>,
    on_monitor: u64,
    current: MonitorDescriptor,
)
    requires
        forall|i: int| 0 <= i < monitors.len() ==> (#[trigger] monitors[i]).entity != on_monitor,
    ensures
        !is_exactly_associated(monitors, on_monitor, current),
{
    an_entity_has_its_own_geometry(monitors, on_monitor, 0);
}

/// A window counts as fallen back only where it is on another monitor than its target; then it does
/// unless it is in exclusive fullscreen, or windowed without a position.
pub proof fn only_a_window_elsewhere_has_fallen_back(
    current: MonitorDescriptor,
    target: MonitorDescriptor,
    configuration: EstablishedWindowPlacement,
)
    ensures
        !is_on_fallback(target, target, configuration) || !encodings_equal(
            target.scale@,
            target.scale@,
        ),
        is_on_fallback(current, target, configuration) ==> !same_descriptor(current, target)
            && !(configuration.saved_window_mode is Fullscreen),
        !same_descriptor(current, target) ==> {
            &&& configuration.saved_window_mode is BorderlessFullscreen ==> is_on_fallback(
                current,
                target,
                configuration,
            )
            &&& configuration.saved_window_mode is Windowed ==> (is_on_fallback(
                current,
                target,
                configuration,
            ) <==> configuration.position is Restorable)
        },
{
}

/// A point is only ever one monitor's: where two monitors hold it, it is nobody's.
pub proof fn a_shared_point_is_nobodys(
    monitors: Seq<InstalledMonitor>,
    first: int,
    second: int,
    point: IVec2,
    index: int,
)
    requires
        0 <= first < second < monitors.len(),
        lies_within(monitors[first].descriptor, point),
        lies_within(monitors[second].descriptor, point),
    ensures
        !is_only_monitor_with(monitors, index, point),
{
}

/// A point that one monitor alone holds is that monitor's.
pub proof fn a_point_is_its_monitors(monitors: Seq<InstalledMonitor>, index: int, point: IVec2)
    requires
        0 <= index < monitors.len(),
        lies_within(monitors[index].descriptor, point),
        forall|other: int|
            0 <= other < monitors.len() && lies_within(
                (#[trigger] monitors[other]).descriptor,
                point,
            ) ==> other == index,
    ensures
        is_only_monitor_with(monitors, index, point),
{
}

/// A monitor that a point is only on is live, holds the point, and is the only one that does.
pub proof fn the_only_monitor_holds_the_point(
    monitors: Seq<InstalledMonitor>,
    index: int,
    point: IVec2,
    other: int,
)
    requires
        is_only_monitor_with(monitors, index, point),
    ensures
        0 <= index < monitors.len(),
        lies_within(monitors[index].descriptor, point),
        0 <= other < monitors.len() && lies_within(monitors[other].descriptor, point) ==> other
            == index,
{
}

/// The decoration of a window is what its frame adds to it, in each direction.
pub proof fn a_decoration_is_what_the_frame_adds(
    outer: UVec2,
    inner: UVec2,
    result: NativeWindowInfo,
)
    requires
        call_ensures(NativeWindowInfo::from_sizes, (outer, inner), result),
    ensures
        outer.x >= inner.x ==> inner.x + result.decoration().x == outer.x,
        outer.y >= inner.y ==> inner.y + result.decoration().y == outer.y,
        outer.x <= inner.x ==> result.decoration().x == 0,
        outer.y <= inner.y ==> result.decoration().y == 0,
{
}

/// An absolute coordinate resolves only to a monitor that holds its centre, and to none where several
/// monitors do; a position of another kind resolves to none.
pub proof fn an_old_coordinate_resolves_to_no_other_monitor(
    position: PersistedPosition,
    center: IVec2,
    monitors: Monitors,
    result: Option<MonitorDescriptor>,
    i: int,
    j: int,
)
    requires
        call_ensures(resolve_legacy_coordinate_monitor, (position, center, &monitors), result),
    ensures
        result matches Some(descriptor) ==> position is Unrebased && lies_within(descriptor, center),
        0 <= i < j < monitors@.len() && lies_within(monitors@[i].descriptor, center) && lies_within(
            monitors@[j].descriptor,
            center,
        ) ==> result is None,
{
}

/// A window is ready exactly where the monitor it is on is known, its measurements are, an attempt is
/// being prepared, and the display it goes to is live; it then has the attempt's role and configuration,
/// that display's geometry, and its own decoration.
pub proof fn a_ready_window_is_what_was_asked_for(
    monitors: Seq<InstalledMonitor>,
    on_monitor: u64,
    current: MonitorDescriptor,
    native: Option<NativeWindowInfo>,
    record: RestoreRecord,
    before: Map<Seq<char>, WindowFallbackRecoveryPhase>,
    result: PreparationStep,
    after: Map<Seq<char>, WindowFallbackRecoveryPhase>,
    place: int,
)
    requires
        begins_preparation(
            monitors,
            on_monitor,
            current,
            native,
            record,
            before,
            result,
            after,
        ),
    ensures
        result is Wait <==> !is_exactly_associated(monitors, on_monitor, current) || native is None,
        result is DropMarker ==> !(record is UnderPreparation),
        result matches PreparationStep::Ready(ready) ==> {
            &&& record matches RestoreRecord::UnderPreparation(preparation) && {
                &&& ready.role@ == preparation.for_role()
                &&& ready.configuration == preparation.to_apply()
                &&& 0 <= place < monitors.len() && monitors[place].entity
                    == preparation.to_target().monitor && (forall|earlier: int|
                    0 <= earlier < place ==> (#[trigger] monitors[earlier]).entity
                        != monitors[place].entity) ==> ready.descriptor
                    == monitors[place].descriptor
            }
            &&& native matches Some(info) && ready.physical_decoration == info.decoration()
            &&& after == before
        },
        result matches PreparationStep::TargetGone { error } ==> {
            &&& record matches RestoreRecord::UnderPreparation(preparation) && {
                &&& forall|i: int|
                    0 <= i < monitors.len() ==> (#[trigger] monitors[i]).entity
                        != preparation.to_target().monitor
                &&& error matches DeviceAccessError::Absent { detail } && detail@
                    == "authorized display for role "@ + preparation.for_role()
                    + " is no longer live"@
                &&& after.contains_pair(
                    preparation.for_role(),
                    WindowFallbackRecoveryPhase::MissingLiveMonitor,
                )
                &&& after.remove(preparation.for_role()) == before.remove(preparation.for_role())
            }
        },
        !(result is TargetGone) ==> after == before,
{
    if let RestoreRecord::UnderPreparation(preparation) = record {
        an_entity_has_its_own_geometry(monitors, preparation.to_target().monitor, place);
        if result is TargetGone {
            assert(after.remove(preparation.for_role()) =~= before.remove(preparation.for_role()));
        }
    }
}

/// A prepared restore has the size, the mode and the monitor of the configuration that was asked for,
/// and starts at the scale of the monitor that the window is on now. A windowed window keeps its offset
/// from its monitor's corner.
pub proof fn a_prepared_restore_is_what_was_asked_for(
    result: PreparedRestore,
    ready: ReadyPreparation,
    current: MonitorDescriptor,
    origin: ScaledMonitorOrigin,
    scaled: ScaledTarget,
    platform: Platform,
    workarounds: Workarounds,
)
    requires
        is_prepared(result, ready, current, origin, scaled, platform, workarounds),
        ready.configuration.rebases_within_range(ready.descriptor, origin),
    ensures
        result.target_position.logical_size == ready.configuration.logical_size,
        result.target_position.physical_size == scaled.physical_size,
        result.target_position.saved_window_mode == ready.configuration.saved_window_mode,
        result.target_position.monitor_index@ == ready.descriptor.index@,
        result.target_position.target_scale@ == ready.descriptor.scale@,
        result.target_position.starting_scale@ == current.scale@,
        result.diagnostics.starting_monitor_index@ == current.index@,
        result.diagnostics.starting_scale@ == current.scale@,
        result.diagnostics.target_scale@ == ready.descriptor.scale@,
        result.diagnostics.monitor_scale_strategy == result.target_position.monitor_scale_strategy,
        match ready.configuration.position {
            EstablishedWindowPosition::Restorable { logical_offset } => {
                &&& result.target_position.physical_position matches Some(position) && position.x
                    == ready.descriptor.physical_position.x + origin.physical_offset.x
                    && position.y == ready.descriptor.physical_position.y
                    + origin.physical_offset.y
                &&& result.target_position.logical_position matches Some(position) && position.x
                    == origin.logical_origin.x + logical_offset.x && position.y
                    == origin.logical_origin.y + logical_offset.y
            },
            EstablishedWindowPosition::CompositorControlled => {
                &&& result.target_position.physical_position is None
                &&& result.target_position.logical_position is None
            },
        },
        result.position_meaning is Specified <==> ready.configuration.position is Restorable && !(
        platform is Wayland),
        !result.frame_compensated <==> platform is X11 && workarounds.frame_extents
            && ready.configuration.saved_window_mode is Windowed,
{
}

/// Preparing a window changes the recovery of its own role alone, and only where the window has fallen
/// back.
pub proof fn preparing_a_window_concerns_its_own_role(
    ready: ReadyPreparation,
    current: MonitorDescriptor,
    before: Map<Seq<char>, WindowFallbackRecoveryPhase>,
    other: Seq<char>,
)
    requires
        other != ready.role@,
    ensures
        ({
            let after = recovery_after_preparation(ready, current, before);
            &&& after.contains_key(other) <==> before.contains_key(other)
            &&& after[other] == before[other]
            &&& same_descriptor(current, ready.descriptor) ==> after == before
            &&& !same_descriptor(current, ready.descriptor)
                && ready.configuration.saved_window_mode is BorderlessFullscreen
                ==> after.contains_pair(
                ready.role@,
                WindowFallbackRecoveryPhase::OnFallbackDisplay,
            )
        }),
{
}

} // verus!
