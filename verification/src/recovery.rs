//! Window-only remainder of falling back to another display and returning.

use crate::device::{DeviceKey, DeviceKeyView, RoleKey};
use crate::persistence::established_window_placement::EstablishedWindowPlacement;
use crate::role_map::RoleMap;
use vstd::prelude::*;

verus! {

/// Window-specific progress between losing the requested display and settling back onto it.
#[derive(Clone, Copy, Debug, PartialEq, Eq, Structural)]
pub enum WindowFallbackRecoveryPhase {
    /// The requested display is absent, so no exact live monitor target exists.
    MissingLiveMonitor,
    /// The compositor has placed the window on a temporary display.
    OnFallbackDisplay,
    /// The requested display returned and the compositor is settling the window there.
    SettlingOnRequestedDisplay,
}

/// Whether a role is recovering, and how far it has come.
#[derive(Clone, Copy, Debug, PartialEq, Eq, Structural)]
pub enum WindowFallbackRecoveryProgress {
    NotRecovering,
    Recovering(WindowFallbackRecoveryPhase),
}

/// How far each recovering role has come.
#[derive(Debug)]
pub struct WindowFallbackRecoveryState {
    phases: RoleMap<WindowFallbackRecoveryPhase>,
}

impl View for WindowFallbackRecoveryState {
    type V = Map<Seq<char>, WindowFallbackRecoveryPhase>;

    closed spec fn view(&self) -> Map<Seq<char>, WindowFallbackRecoveryPhase> {
        self.phases@
    }
}

impl WindowFallbackRecoveryState {
    /// No role has two phases.
    pub closed spec fn wf(&self) -> bool {
        self.phases.wf()
    }

    /// No role is recovering.
    pub fn new() -> (result: Self)
        ensures
            result.wf(),
            result@ == Map::<Seq<char>, WindowFallbackRecoveryPhase>::empty(),
    {
        WindowFallbackRecoveryState { phases: RoleMap::new() }
    }

    /// The requested display of `role` is absent.
    pub fn mark_missing(&mut self, role: RoleKey)
        requires
            old(self).wf(),
        ensures
            final(self).wf(),
            final(self)@ == old(self)@.insert(
                role@,
                WindowFallbackRecoveryPhase::MissingLiveMonitor,
            ),
    {
        self.phases.insert(role, WindowFallbackRecoveryPhase::MissingLiveMonitor);
    }

    /// The window of `role` is on a temporary display.
    pub fn mark_on_fallback(&mut self, role: RoleKey)
        requires
            old(self).wf(),
        ensures
            final(self).wf(),
            final(self)@ == old(self)@.insert(role@, WindowFallbackRecoveryPhase::OnFallbackDisplay),
    {
        self.phases.insert(role, WindowFallbackRecoveryPhase::OnFallbackDisplay);
    }

    /// The window of `role` is settling on its requested display, if it is recovering at all.
    pub fn mark_settling(&mut self, role: RoleKey)
        requires
            old(self).wf(),
        ensures
            final(self).wf(),
            final(self)@ == if old(self)@.contains_key(role@) {
                old(self)@.insert(role@, WindowFallbackRecoveryPhase::SettlingOnRequestedDisplay)
            } else {
                old(self)@
            },
    {
        if self.phases.contains_key(&role) {
            self.phases.insert(role, WindowFallbackRecoveryPhase::SettlingOnRequestedDisplay);
        }
    }

    /// The recovery of `role` is over.
    pub fn finish(&mut self, role: &RoleKey)
        requires
            old(self).wf(),
        ensures
            final(self).wf(),
            final(self)@ == old(self)@.remove(role@),
    {
        self.phases.remove(role);
    }

    /// The role is gone.
    pub fn retire(&mut self, role: &RoleKey)
        requires
            old(self).wf(),
        ensures
            final(self).wf(),
            final(self)@ == old(self)@.remove(role@),
    {
        self.phases.remove(role);
    }

    /// How far `role` has come.
    pub fn phase(&self, role: &RoleKey) -> (result: WindowFallbackRecoveryProgress)
        requires
            self.wf(),
        ensures
            result == if self@.contains_key(role@) {
                WindowFallbackRecoveryProgress::Recovering(self@[role@])
            } else {
                WindowFallbackRecoveryProgress::NotRecovering
            },
    {
        match self.phases.get(role) {
            Some(phase) => WindowFallbackRecoveryProgress::Recovering(*phase),
            None => WindowFallbackRecoveryProgress::NotRecovering,
        }
    }
}

/// What has been observed of a stranded window so far.
#[allow(inconsistent_fields)]
#[derive(Debug)]
enum StrandedWindowMovementBaseline {
    AwaitingDisplayAndPlacement,
    AwaitingPlacementObservation { display: DeviceKey },
    AwaitingDisplay { placement: EstablishedWindowPlacement },
    AwaitingConfirmation { display: DeviceKey, placement: EstablishedWindowPlacement },
    Confirmed { display: DeviceKey, placement: EstablishedWindowPlacement },
}

/// What has been observed of a stranded window so far.
pub enum MovementBaseline {
    /// Neither a display nor a placement observation has arrived yet.
    AwaitingDisplayAndPlacement,
    /// A display observation arrived before any placement observation.
    AwaitingPlacementObservation { display: DeviceKeyView },
    /// A placement observation arrived before any display observation.
    AwaitingDisplay { placement: EstablishedWindowPlacement },
    /// One placement observation was recorded; a matching next one confirms it.
    AwaitingConfirmation { display: DeviceKeyView, placement: EstablishedWindowPlacement },
    /// Where the window settled; a later difference is the user moving it.
    Confirmed { display: DeviceKeyView, placement: EstablishedWindowPlacement },
}

impl View for StrandedWindowMovementBaseline {
    type V = MovementBaseline;

    closed spec fn view(&self) -> MovementBaseline {
        match self {
            StrandedWindowMovementBaseline::AwaitingDisplayAndPlacement =>
                MovementBaseline::AwaitingDisplayAndPlacement,
            StrandedWindowMovementBaseline::AwaitingPlacementObservation { display } =>
                MovementBaseline::AwaitingPlacementObservation { display: display@ },
            StrandedWindowMovementBaseline::AwaitingDisplay { placement } =>
                MovementBaseline::AwaitingDisplay { placement: *placement },
            StrandedWindowMovementBaseline::AwaitingConfirmation { display, placement } =>
                MovementBaseline::AwaitingConfirmation { display: display@, placement: *placement },
            StrandedWindowMovementBaseline::Confirmed { display, placement } =>
                MovementBaseline::Confirmed { display: display@, placement: *placement },
        }
    }
}

/// Relationship between a stranded window's live display and its recorded baseline.
#[derive(Clone, Copy, Debug, PartialEq, Eq, Structural)]
pub enum StrandedWindowDisplayObservation {
    /// The role has no stranded-window movement baseline.
    NotTracked,
    /// This is the first exact live display observed for the stranded window.
    BaselineRecorded,
    /// The window remains on the exact live display previously observed under it.
    MatchesBaseline,
    /// The window now occupies a different exact live display.
    DiffersFromBaseline,
}

/// What one readback of a stranded window says about who put it where it sits.
#[derive(Clone, Copy, Debug, PartialEq, Eq, Structural)]
pub enum StrandedWindowObservation {
    /// The role is untracked, still settling, or still at rest where the fallback left it.
    Unmoved,
    /// The window left its resting geometry, so the user placed it where it now sits.
    Moved,
}

impl MovementBaseline {
    /// The display that was observed, if one was.
    pub open spec fn display(self) -> Option<DeviceKeyView> {
        match self {
            MovementBaseline::AwaitingDisplayAndPlacement
            | MovementBaseline::AwaitingDisplay { .. } => None,
            MovementBaseline::AwaitingPlacementObservation { display } => Some(display),
            MovementBaseline::AwaitingConfirmation { display, .. } => Some(display),
            MovementBaseline::Confirmed { display, .. } => Some(display),
        }
    }

    /// The baseline with placement tracking started over; the observed display stays.
    pub open spec fn restarted(self) -> MovementBaseline {
        match self.display() {
            Some(display) => MovementBaseline::AwaitingPlacementObservation { display },
            None => MovementBaseline::AwaitingDisplayAndPlacement,
        }
    }

    /// The baseline after the window was seen on `device`: only the first display is recorded.
    pub open spec fn after_display(self, device: DeviceKeyView) -> MovementBaseline {
        match self {
            MovementBaseline::AwaitingDisplayAndPlacement =>
                MovementBaseline::AwaitingPlacementObservation { display: device },
            MovementBaseline::AwaitingDisplay { placement } =>
                MovementBaseline::AwaitingConfirmation { display: device, placement },
            _ => self,
        }
    }

    /// What seeing the window on `device` says: the first display is recorded, and a later one is
    /// compared with it.
    pub open spec fn display_observation(self, device: DeviceKeyView) -> StrandedWindowDisplayObservation {
        match self.display() {
            None => StrandedWindowDisplayObservation::BaselineRecorded,
            Some(display) => if display == device {
                StrandedWindowDisplayObservation::MatchesBaseline
            } else {
                StrandedWindowDisplayObservation::DiffersFromBaseline
            },
        }
    }

    /// The baseline after the window was seen at `live`: a repeated placement is confirmed, and a
    /// confirmed one stays.
    pub open spec fn after_placement(self, live: EstablishedWindowPlacement) -> MovementBaseline {
        match self {
            MovementBaseline::AwaitingDisplayAndPlacement | MovementBaseline::AwaitingDisplay {
                ..
            } => MovementBaseline::AwaitingDisplay { placement: live },
            MovementBaseline::AwaitingPlacementObservation { display } =>
                MovementBaseline::AwaitingConfirmation { display, placement: live },
            MovementBaseline::AwaitingConfirmation { display, placement } => if placement == live {
                MovementBaseline::Confirmed { display, placement: live }
            } else {
                MovementBaseline::AwaitingConfirmation { display, placement: live }
            },
            MovementBaseline::Confirmed { .. } => self,
        }
    }

    /// Whether a window seen at `live` has been moved by the user.
    pub open spec fn moved_to(self, live: EstablishedWindowPlacement) -> bool {
        self matches MovementBaseline::Confirmed { placement, .. } && placement != live
    }
}

/// Display and placement baselines that distinguish fallback settling from a user move.
#[derive(Debug)]
pub struct StrandedWindowMovementBaselines {
    entries: RoleMap<StrandedWindowMovementBaseline>,
}

impl View for StrandedWindowMovementBaselines {
    type V = Map<Seq<char>, MovementBaseline>;

    closed spec fn view(&self) -> Map<Seq<char>, MovementBaseline> {
        self.entries@.map_values(|baseline: StrandedWindowMovementBaseline| baseline@)
    }
}

impl StrandedWindowMovementBaselines {
    /// No role has two baselines.
    pub closed spec fn wf(&self) -> bool {
        self.entries.wf()
    }

    /// No window is stranded.
    pub fn new() -> (result: Self)
        ensures
            result.wf(),
            result@ == Map::<Seq<char>, MovementBaseline>::empty(),
    {
        let result = StrandedWindowMovementBaselines { entries: RoleMap::new() };
        assert(result@ =~= Map::<Seq<char>, MovementBaseline>::empty());
        result
    }

    fn set(&mut self, role: RoleKey, baseline: StrandedWindowMovementBaseline)
        requires
            old(self).wf(),
        ensures
            final(self).wf(),
            final(self)@ == old(self)@.insert(role@, baseline@),
    {
        let ghost before = self.entries@;
        let ghost key = role@;
        let ghost value = baseline;
        self.entries.insert(role, baseline);
        assert(self@ =~= old(self)@.insert(key, value@));
    }

    /// Start tracking a role whose window the fallback has just revealed.
    pub fn begin(&mut self, role: RoleKey)
        requires
            old(self).wf(),
        ensures
            final(self).wf(),
            final(self)@ == old(self)@.insert(
                role@,
                MovementBaseline::AwaitingDisplayAndPlacement,
            ),
    {
        self.set(role, StrandedWindowMovementBaseline::AwaitingDisplayAndPlacement);
    }

    /// Restart placement tracking while retaining any exact live-display baseline.
    pub fn restart_placement(&mut self, role: RoleKey)
        requires
            old(self).wf(),
        ensures
            final(self).wf(),
            final(self)@ == old(self)@.insert(
                role@,
                if old(self)@.contains_key(role@) {
                    old(self)@[role@].restarted()
                } else {
                    MovementBaseline::AwaitingDisplayAndPlacement
                },
            ),
    {
        let restarted = match self.entries.get(&role) {
            None => StrandedWindowMovementBaseline::AwaitingDisplayAndPlacement,
            Some(baseline) => match baseline {
                StrandedWindowMovementBaseline::AwaitingDisplayAndPlacement
                | StrandedWindowMovementBaseline::AwaitingDisplay { .. } =>
                    StrandedWindowMovementBaseline::AwaitingDisplayAndPlacement,
                StrandedWindowMovementBaseline::AwaitingPlacementObservation { display }
                | StrandedWindowMovementBaseline::AwaitingConfirmation { display, .. }
                | StrandedWindowMovementBaseline::Confirmed { display, .. } =>
                    StrandedWindowMovementBaseline::AwaitingPlacementObservation {
                    display: display.clone(),
                },
            },
        };
        self.set(role, restarted);
    }

    /// Whether no role is currently stranded, so per-window readback can be skipped entirely.
    pub fn is_empty(&self) -> (result: bool)
        requires
            self.wf(),
        ensures
            result == (self@ == Map::<Seq<char>, MovementBaseline>::empty()),
    {
        let result = self.entries.is_empty();
        proof {
            if result {
                assert(self@ =~= Map::<Seq<char>, MovementBaseline>::empty());
            } else if self@ == Map::<Seq<char>, MovementBaseline>::empty() {
                assert forall|role: Seq<char>| !self.entries@.contains_key(role) by {
                    assert(!self@.contains_key(role));
                }
                assert(self.entries@ =~= Map::<
                    Seq<char>,
                    StrandedWindowMovementBaseline,
                >::empty());
            }
        }
        result
    }

    /// Record or compare the exact live display currently under a stranded window.
    pub fn observe_display(&mut self, role: &RoleKey, device: &DeviceKey) -> (result:
        StrandedWindowDisplayObservation)
        requires
            old(self).wf(),
        ensures
            final(self).wf(),
            !old(self)@.contains_key(role@) ==> final(self)@ == old(self)@ && result
                == StrandedWindowDisplayObservation::NotTracked,
            old(self)@.contains_key(role@) ==> {
                &&& final(self)@ == old(self)@.insert(
                    role@,
                    old(self)@[role@].after_display(device@),
                )
                &&& result == old(self)@[role@].display_observation(device@)
            },
    {
        let recorded = match self.entries.get(role) {
            None => {
                return StrandedWindowDisplayObservation::NotTracked;
            },
            Some(baseline) => match baseline {
                StrandedWindowMovementBaseline::AwaitingDisplayAndPlacement =>
                    StrandedWindowMovementBaseline::AwaitingPlacementObservation {
                    display: device.clone(),
                },
                StrandedWindowMovementBaseline::AwaitingDisplay { placement } =>
                    StrandedWindowMovementBaseline::AwaitingConfirmation {
                    display: device.clone(),
                    placement: *placement,
                },
                StrandedWindowMovementBaseline::AwaitingPlacementObservation { display }
                | StrandedWindowMovementBaseline::AwaitingConfirmation { display, .. }
                | StrandedWindowMovementBaseline::Confirmed { display, .. } => {
                    assert(self@ =~= self@.insert(role@, self@[role@]));
                    return if *display == *device {
                        StrandedWindowDisplayObservation::MatchesBaseline
                    } else {
                        StrandedWindowDisplayObservation::DiffersFromBaseline
                    };
                },
            },
        };
        self.set(role.clone(), recorded);
        StrandedWindowDisplayObservation::BaselineRecorded
    }

    /// Fold one live readback into a role's baseline and report what it means.
    pub fn observe_placement(&mut self, role: &RoleKey, live: &EstablishedWindowPlacement) -> (result:
        StrandedWindowObservation)
        requires
            old(self).wf(),
        ensures
            final(self).wf(),
            !old(self)@.contains_key(role@) ==> final(self)@ == old(self)@ && result
                == StrandedWindowObservation::Unmoved,
            old(self)@.contains_key(role@) ==> {
                &&& final(self)@ == old(self)@.insert(
                    role@,
                    old(self)@[role@].after_placement(*live),
                )
                &&& result == if old(self)@[role@].moved_to(*live) {
                    StrandedWindowObservation::Moved
                } else {
                    StrandedWindowObservation::Unmoved
                }
            },
    {
        let recorded = match self.entries.get(role) {
            None => {
                return StrandedWindowObservation::Unmoved;
            },
            Some(baseline) => match baseline {
                StrandedWindowMovementBaseline::AwaitingDisplayAndPlacement
                | StrandedWindowMovementBaseline::AwaitingDisplay { .. } =>
                    StrandedWindowMovementBaseline::AwaitingDisplay { placement: *live },
                StrandedWindowMovementBaseline::AwaitingPlacementObservation { display } =>
                    StrandedWindowMovementBaseline::AwaitingConfirmation {
                    display: display.clone(),
                    placement: *live,
                },
                StrandedWindowMovementBaseline::AwaitingConfirmation { display, placement } => {
                    if *placement == *live {
                        StrandedWindowMovementBaseline::Confirmed {
                            display: display.clone(),
                            placement: *live,
                        }
                    } else {
                        StrandedWindowMovementBaseline::AwaitingConfirmation {
                            display: display.clone(),
                            placement: *live,
                        }
                    }
                },
                StrandedWindowMovementBaseline::Confirmed { placement, .. } => {
                    assert(self@ =~= self@.insert(role@, self@[role@]));
                    return if *placement == *live {
                        StrandedWindowObservation::Unmoved
                    } else {
                        StrandedWindowObservation::Moved
                    };
                },
            },
        };
        self.set(role.clone(), recorded);
        StrandedWindowObservation::Unmoved
    }

    /// Stop tracking a role.
    pub fn forget(&mut self, role: &RoleKey)
        requires
            old(self).wf(),
        ensures
            final(self).wf(),
            final(self)@ == old(self)@.remove(role@),
    {
        self.entries.remove(role);
        assert(self@ =~= old(self)@.remove(role@));
    }

    /// Whether the role still awaits either a settled fallback placement or a user move.
    pub fn is_tracked(&self, role: &RoleKey) -> (result: bool)
        requires
            self.wf(),
        ensures
            result == self@.contains_key(role@),
    {
        self.entries.contains_key(role)
    }
}

/// Drop everything that is known of the recovery of a role that is gone.
pub fn on_retire_role(
    role: &RoleKey,
    state: &mut WindowFallbackRecoveryState,
    baselines: &mut StrandedWindowMovementBaselines,
)
    requires
        old(state).wf(),
        old(baselines).wf(),
    ensures
        final(state).wf(),
        final(baselines).wf(),
        final(state)@ == old(state)@.remove(role@),
        final(baselines)@ == old(baselines)@.remove(role@),
{
    state.retire(role);
    baselines.forget(role);
}

/// It does not matter whether the display or the placement is observed first.
pub proof fn observation_order_does_not_matter(
    display: DeviceKeyView,
    placement: EstablishedWindowPlacement,
)
    ensures
        MovementBaseline::AwaitingDisplayAndPlacement.after_display(display).after_placement(
            placement,
        ) == MovementBaseline::AwaitingDisplayAndPlacement.after_placement(placement).after_display(
            display,
        ),
{
}

/// A window counts as moved only after it was seen at rest: directly after tracking starts or
/// restarts, at least a display and two equal placements must be observed before any readback is a
/// user move.
pub proof fn a_window_must_rest_before_it_moves(
    baseline: MovementBaseline,
    display: DeviceKeyView,
    first: EstablishedWindowPlacement,
    second: EstablishedWindowPlacement,
    live: EstablishedWindowPlacement,
)
    ensures
        !baseline.restarted().moved_to(live),
        !baseline.restarted().after_display(display).moved_to(live),
        !baseline.restarted().after_display(display).after_placement(first).moved_to(live),
        baseline.restarted().after_display(display).after_placement(first).after_placement(
            second,
        ).moved_to(live) <==> first == second && live != first,
{
}

/// Once a resting place is confirmed, further readbacks and displays leave it alone.
pub proof fn a_confirmed_baseline_stays(
    baseline: MovementBaseline,
    display: DeviceKeyView,
    live: EstablishedWindowPlacement,
)
    requires
        baseline is Confirmed,
    ensures
        baseline.after_placement(live) == baseline,
        baseline.after_display(display) == baseline,
{
}

impl MovementBaseline {
    /// The placement that was observed last, if one was.
    pub open spec fn placement(self) -> Option<EstablishedWindowPlacement> {
        match self {
            MovementBaseline::AwaitingDisplayAndPlacement
            | MovementBaseline::AwaitingPlacementObservation { .. } => None,
            MovementBaseline::AwaitingDisplay { placement } => Some(placement),
            MovementBaseline::AwaitingConfirmation { placement, .. } => Some(placement),
            MovementBaseline::Confirmed { placement, .. } => Some(placement),
        }
    }
}

/// Seeing a window on a display records the display unless one is known, and changes nothing else:
/// neither the placement nor whether it is confirmed.
pub proof fn only_the_first_display_is_recorded(baseline: MovementBaseline, device: DeviceKeyView)
    ensures
        baseline.display() is None ==> baseline.after_display(device).display() == Some(device),
        baseline.display() is Some ==> baseline.after_display(device) == baseline,
        baseline.after_display(device).placement() == baseline.placement(),
        baseline.after_display(device) is Confirmed <==> baseline is Confirmed,
{
}

/// Seeing a window somewhere never changes its display. The placement is recorded unless one is
/// confirmed, and it is confirmed exactly where the display is known and the last placement was the
/// same.
pub proof fn a_repeated_placement_is_confirmed(
    baseline: MovementBaseline,
    live: EstablishedWindowPlacement,
)
    ensures
        baseline.after_placement(live).display() == baseline.display(),
        baseline is Confirmed ==> baseline.after_placement(live) == baseline,
        !(baseline is Confirmed) ==> {
            &&& baseline.after_placement(live).placement() == Some(live)
            &&& baseline.after_placement(live) is Confirmed <==> baseline.display() is Some
                && baseline.placement() == Some(live)
        },
{
}

/// Starting over forgets the placement and keeps the display.
pub proof fn starting_over_forgets_the_placement(baseline: MovementBaseline)
    ensures
        baseline.restarted().display() == baseline.display(),
        baseline.restarted().placement() is None,
{
}

/// A window counts as moved exactly where a placement is confirmed and the window is elsewhere, so a
/// window that rests, or that has not yet rested, never does.
pub proof fn only_a_window_that_rested_is_moved(
    baseline: MovementBaseline,
    live: EstablishedWindowPlacement,
)
    ensures
        baseline.moved_to(live) <==> baseline is Confirmed && baseline.placement() != Some(live),
{
}

/// A display that was recorded is recognised, and any other one is told from it, however often the
/// window is seen.
pub proof fn a_recorded_display_is_recognised(
    baseline: MovementBaseline,
    device: DeviceKeyView,
    other: DeviceKeyView,
    live: EstablishedWindowPlacement,
)
    ensures
        baseline.display_observation(device) is BaselineRecorded <==> baseline.display() is None,
        baseline.display() is None ==> {
            &&& baseline.after_display(device).display_observation(device) is MatchesBaseline
            &&& other != device ==> baseline.after_display(device).display_observation(
                other,
            ) is DiffersFromBaseline
        },
        baseline.after_placement(live).display_observation(device) == baseline.display_observation(
            device,
        ),
        !(baseline.display_observation(device) is NotTracked),
{
}

} // verus!
