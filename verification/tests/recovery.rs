//! Windows that lost their display.

use hana_clerestory::device::DeviceIdSource;
use hana_clerestory::device::DeviceKey;
use hana_clerestory::device::DeviceKind;
use hana_clerestory::device::ReportedId;
use hana_clerestory::device::RoleKey;
use hana_clerestory::device::SchemeName;
use hana_clerestory::geometry::IVec2;
use hana_clerestory::geometry::UVec2;
use hana_clerestory::persistence::established_window_placement::EstablishedWindowPlacement;
use hana_clerestory::persistence::established_window_placement::EstablishedWindowPosition;
use hana_clerestory::persistence::window_state::SavedWindowMode;
use hana_clerestory::recovery::on_retire_role;
use hana_clerestory::recovery::StrandedWindowDisplayObservation;
use hana_clerestory::recovery::StrandedWindowMovementBaselines;
use hana_clerestory::recovery::StrandedWindowObservation;
use hana_clerestory::recovery::WindowFallbackRecoveryPhase;
use hana_clerestory::recovery::WindowFallbackRecoveryProgress;
use hana_clerestory::recovery::WindowFallbackRecoveryState;

fn placement(logical_x: i32) -> EstablishedWindowPlacement {
    EstablishedWindowPlacement {
        position: EstablishedWindowPosition::Restorable {
            logical_offset: IVec2::new(logical_x, 20),
        },
        logical_size: UVec2::new(800, 600),
        saved_window_mode: SavedWindowMode::Windowed,
    }
}

fn role(name: &str) -> RoleKey {
    RoleKey::new(name).expect("valid role")
}

fn display_key(value: &str) -> DeviceKey {
    DeviceKey {
        kind: DeviceKind::Display,
        id: DeviceIdSource::Reported {
            scheme: SchemeName::new("clerestory-recovery-test").expect("valid scheme"),
            value: ReportedId::new(value).expect("valid identifier"),
        },
    }
}

#[test]
fn display_first_arrival_builds_one_confirmed_movement_baseline() {
    let role = role("window:managed:display-first");
    let display = display_key("display-first");
    let baseline = placement(10);
    let moved = placement(30);
    let mut baselines = StrandedWindowMovementBaselines::new();

    baselines.begin(role.clone());
    assert_eq!(
        baselines.observe_display(&role, &display),
        StrandedWindowDisplayObservation::BaselineRecorded
    );
    assert_eq!(
        baselines.observe_placement(&role, &baseline),
        StrandedWindowObservation::Unmoved
    );
    assert_eq!(
        baselines.observe_placement(&role, &baseline),
        StrandedWindowObservation::Unmoved
    );
    assert_eq!(
        baselines.observe_placement(&role, &moved),
        StrandedWindowObservation::Moved
    );
}

#[test]
fn placement_first_arrival_builds_one_confirmed_movement_baseline() {
    let role = role("window:managed:placement-first");
    let display = display_key("placement-first");
    let other_display = display_key("placement-first-other");
    let baseline = placement(10);
    let mut baselines = StrandedWindowMovementBaselines::new();

    baselines.begin(role.clone());
    assert_eq!(
        baselines.observe_placement(&role, &baseline),
        StrandedWindowObservation::Unmoved
    );
    assert_eq!(
        baselines.observe_display(&role, &display),
        StrandedWindowDisplayObservation::BaselineRecorded
    );
    assert_eq!(
        baselines.observe_placement(&role, &baseline),
        StrandedWindowObservation::Unmoved
    );
    assert_eq!(
        baselines.observe_display(&role, &display),
        StrandedWindowDisplayObservation::MatchesBaseline
    );
    assert_eq!(
        baselines.observe_display(&role, &other_display),
        StrandedWindowDisplayObservation::DiffersFromBaseline
    );
}

#[test]
fn role_events_and_retirement_progress_two_roles_independently() {
    let first_role = role("window:managed:first");
    let second_role = role("window:managed:second");
    let mut state = WindowFallbackRecoveryState::new();
    let mut baselines = StrandedWindowMovementBaselines::new();
    state.mark_missing(first_role.clone());
    state.mark_missing(second_role.clone());
    for role in [&first_role, &second_role] {
        assert_eq!(
            state.phase(role),
            WindowFallbackRecoveryProgress::Recovering(
                WindowFallbackRecoveryPhase::MissingLiveMonitor
            )
        );
    }

    on_retire_role(&first_role, &mut state, &mut baselines);
    assert_eq!(
        state.phase(&first_role),
        WindowFallbackRecoveryProgress::NotRecovering
    );
    assert_eq!(
        state.phase(&second_role),
        WindowFallbackRecoveryProgress::Recovering(
            WindowFallbackRecoveryPhase::MissingLiveMonitor
        )
    );
}

#[test]
fn explicit_retirement_clears_every_window_recovery_policy_and_baseline() {
    let mut state = WindowFallbackRecoveryState::new();
    let mut baselines = StrandedWindowMovementBaselines::new();
    for suffix in ["forget", "request", "return"] {
        let role = role(&format!("window:managed:{suffix}"));
        let device = display_key(&format!("{suffix}-display"));
        state.mark_missing(role.clone());
        baselines.begin(role.clone());
        baselines.observe_display(&role, &device);

        on_retire_role(&role, &mut state, &mut baselines);

        assert_eq!(
            state.phase(&role),
            WindowFallbackRecoveryProgress::NotRecovering
        );
        assert!(!baselines.is_tracked(&role));
    }
    assert!(baselines.is_empty());
}

#[test]
fn only_a_recovering_role_settles() {
    let role = role("window:primary");
    let mut state = WindowFallbackRecoveryState::new();
    state.mark_settling(role.clone());
    assert_eq!(
        state.phase(&role),
        WindowFallbackRecoveryProgress::NotRecovering
    );
    state.mark_on_fallback(role.clone());
    state.mark_settling(role.clone());
    assert_eq!(
        state.phase(&role),
        WindowFallbackRecoveryProgress::Recovering(
            WindowFallbackRecoveryPhase::SettlingOnRequestedDisplay
        )
    );
    state.finish(&role);
    assert_eq!(
        state.phase(&role),
        WindowFallbackRecoveryProgress::NotRecovering
    );
}

#[test]
fn untracked_windows_are_never_moved() {
    let role = role("window:primary");
    let mut baselines = StrandedWindowMovementBaselines::new();
    assert!(baselines.is_empty());
    assert_eq!(
        baselines.observe_display(&role, &display_key("any")),
        StrandedWindowDisplayObservation::NotTracked
    );
    assert_eq!(
        baselines.observe_placement(&role, &placement(1)),
        StrandedWindowObservation::Unmoved
    );
    assert!(!baselines.is_tracked(&role));
}

#[test]
fn restarting_keeps_the_display_and_drops_the_placement() {
    let role = role("window:primary");
    let display = display_key("kept");
    let mut baselines = StrandedWindowMovementBaselines::new();
    baselines.begin(role.clone());
    baselines.observe_display(&role, &display);
    baselines.observe_placement(&role, &placement(1));
    baselines.observe_placement(&role, &placement(1));
    assert_eq!(
        baselines.observe_placement(&role, &placement(2)),
        StrandedWindowObservation::Moved
    );

    baselines.restart_placement(role.clone());
    assert_eq!(
        baselines.observe_display(&role, &display),
        StrandedWindowDisplayObservation::MatchesBaseline
    );
    assert_eq!(
        baselines.observe_placement(&role, &placement(2)),
        StrandedWindowObservation::Unmoved
    );
    assert_eq!(
        baselines.observe_placement(&role, &placement(3)),
        StrandedWindowObservation::Unmoved
    );
    assert_eq!(
        baselines.observe_placement(&role, &placement(3)),
        StrandedWindowObservation::Unmoved
    );
    assert_eq!(
        baselines.observe_placement(&role, &placement(1)),
        StrandedWindowObservation::Moved
    );
    baselines.forget(&role);
    assert!(!baselines.is_tracked(&role));

    baselines.restart_placement(role.clone());
    assert!(baselines.is_tracked(&role));
    assert_eq!(
        baselines.observe_display(&role, &display),
        StrandedWindowDisplayObservation::BaselineRecorded
    );
}
