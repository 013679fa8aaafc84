//! Restoring windows and deciding when they have settled.

use hana_clerestory::device::RoleKey;
use hana_clerestory::geometry::IVec2;
use hana_clerestory::geometry::UVec2;
use hana_clerestory::persistence::established_window_placement::EstablishedWindowPlacement;
use hana_clerestory::persistence::established_window_placement::EstablishedWindowPosition;
use hana_clerestory::persistence::established_window_placement::ScaledMonitorOrigin;
use hana_clerestory::persistence::window_state::PersistedPosition;
use hana_clerestory::persistence::window_state::SavedWindowMode;
use hana_clerestory::persistence::window_state::UnrebasedDesktopPosition;
use hana_clerestory::platform::OperatingSystem;
use hana_clerestory::platform::ScaleRelation;
use hana_clerestory::platform::Workarounds;
use hana_clerestory::recovery::WindowFallbackRecoveryPhase;
use hana_clerestory::recovery::WindowFallbackRecoveryProgress;
use hana_clerestory::recovery::WindowFallbackRecoveryState;
use hana_clerestory::reporter::DeviceAccessError;
use hana_clerestory::restore::attempt::begin_preparation;
use hana_clerestory::restore::attempt::finish_preparation;
use hana_clerestory::restore::attempt::resolve_legacy_coordinate_monitor;
use hana_clerestory::restore::attempt::restore_work_belongs_to;
use hana_clerestory::restore::attempt::NativeWindowInfo;
use hana_clerestory::restore::attempt::PreparationStep;
use hana_clerestory::restore::attempt::RestorePreparation;
use hana_clerestory::restore::attempt::RestoreRecord;
use hana_clerestory::restore::attempt::WindowPlacementTarget;
use hana_clerestory::restore::attempt::WindowRestoreAttempt;
use hana_clerestory::restore::settle::attempt_ending;
use hana_clerestory::restore::settle::check_restore_settling;
use hana_clerestory::restore::settle::expected_logical_position;
use hana_clerestory::restore::settle::expected_physical_position;
use hana_clerestory::restore::settle::observe_actual_state;
use hana_clerestory::restore::settle::observed_logical_position;
use hana_clerestory::restore::settle::observed_physical_position;
use hana_clerestory::restore::settle::AttemptEnding;
use hana_clerestory::restore::settle::ExpectedLogicalPosition;
use hana_clerestory::restore::settle::ExpectedPhysicalPosition;
use hana_clerestory::restore::settle::ObservedLogicalPosition;
use hana_clerestory::restore::settle::ObservedPhysicalPosition;
use hana_clerestory::restore::settle::ObservedWindow;
use hana_clerestory::restore::settle::SettleOutcome;
use hana_clerestory::restore::settle::SettleState;
use hana_clerestory::restore::settle::SettleTarget;
use hana_clerestory::restore::strategy::AttemptRef;
use hana_clerestory::restore::strategy::MonitorScaleStrategy;
use hana_clerestory::restore::target::clamp_position_to_monitor;
use hana_clerestory::restore::target::compute_target_position;
use hana_clerestory::restore::target::monitor_contains_physical_point;
use hana_clerestory::restore::target::persisted_offset;
use hana_clerestory::restore::target::prepare_persisted_offset;
use hana_clerestory::restore::target::reconstructed_legacy_window_center;
use hana_clerestory::restore::target::LegacyReconstruction;
use hana_clerestory::restore::target::PreparedPositionMeaning;
use hana_clerestory::restore::target::PreparedWindowPosition;
use hana_clerestory::restore::target::ScaledTarget;
use hana_clerestory::restore::target::TargetPosition;
use hana_clerestory::restore::target::WindowSettleProgress;
use hana_clerestory::scale::ScaleFactor;
use hana_clerestory::time::TimeSpan;
use hana_clerestory::window_mode::MonitorSelection;
use hana_clerestory::window_mode::WindowMode;
use hana_clerestory::CurrentMonitorIndex;
use hana_clerestory::MonitorDescriptor;
use hana_clerestory::Monitors;
use hana_clerestory::Platform;

const ALL: Workarounds = Workarounds {
    fullscreen_surface: true,
    cross_scale: true,
    frame_extents: true,
};

const SCALE_FACTOR_EPSILON: f64 = 0.01;

fn monitor_size() -> UVec2 {
    UVec2::new(2_560, 1_440)
}

/// Left-hand monitor origin in the layout that produced the observed failure.
fn left_monitor_origin() -> IVec2 {
    IVec2::new(-6_880, 0)
}

fn factor(value: f64) -> ScaleFactor {
    ScaleFactor::from_bits(value.to_bits())
}

fn value(scale: ScaleFactor) -> f64 {
    f64::from_bits(scale.to_bits())
}

fn rounded(x: f64, y: f64) -> IVec2 {
    IVec2::new(x.round() as i32, y.round() as i32)
}

fn monitor(index: usize, scale: f64, physical_position: IVec2) -> MonitorDescriptor {
    MonitorDescriptor::for_current_enumeration(
        index,
        factor(scale),
        physical_position,
        monitor_size(),
    )
}

fn origin_at(monitor: &MonitorDescriptor, scale: f64) -> IVec2 {
    rounded(
        f64::from(monitor.physical_position.x) / scale,
        f64::from(monitor.physical_position.y) / scale,
    )
}

fn scaled_origin(offset: IVec2, monitor: &MonitorDescriptor) -> ScaledMonitorOrigin {
    let scale = value(monitor.scale);
    ScaledMonitorOrigin {
        physical_offset: rounded(f64::from(offset.x) * scale, f64::from(offset.y) * scale),
        logical_origin: origin_at(monitor, scale),
    }
}

fn reconstruction(
    position: PersistedPosition,
    logical_size: UVec2,
    monitor: &MonitorDescriptor,
) -> LegacyReconstruction {
    let PersistedPosition::Unrebased(unrebased) = position else {
        return LegacyReconstruction {
            physical_corner: IVec2::new(0, 0),
            physical_half_size: IVec2::new(0, 0),
            logical_origin: IVec2::new(0, 0),
        };
    };
    let scale = value(unrebased.captured_scale());
    let logical = unrebased.logical();
    LegacyReconstruction {
        physical_corner: rounded(f64::from(logical.x) * scale, f64::from(logical.y) * scale),
        physical_half_size: rounded(
            f64::from(logical_size.x) * scale / 2.0,
            f64::from(logical_size.y) * scale / 2.0,
        ),
        logical_origin: origin_at(monitor, scale),
    }
}

fn relation(starting: f64, target: f64) -> ScaleRelation {
    if (starting - target).abs() < SCALE_FACTOR_EPSILON {
        ScaleRelation::Same
    } else if starting < target {
        ScaleRelation::LaunchLower
    } else {
        ScaleRelation::LaunchHigher
    }
}

fn scaled_target(logical_size: UVec2, monitor: &MonitorDescriptor, starting: f64) -> ScaledTarget {
    let scale = value(monitor.scale);
    ScaledTarget {
        physical_size: UVec2::new(
            (f64::from(logical_size.x) * scale) as u32,
            (f64::from(logical_size.y) * scale) as u32,
        ),
        physical_decoration: UVec2::new(0, 0),
        starting_scale: factor(starting),
        relation: relation(starting, scale),
    }
}

fn unrebased(logical: IVec2, captured_scale: f64) -> PersistedPosition {
    match UnrebasedDesktopPosition::from_legacy(logical, factor(captured_scale)) {
        Some(unrebased) => PersistedPosition::Unrebased(unrebased),
        None => panic!("fixture scale {captured_scale} should be accepted"),
    }
}

fn prepare_persisted_position(
    position: PersistedPosition,
    logical_size: UVec2,
    target_info: &MonitorDescriptor,
) -> PreparedWindowPosition {
    match persisted_offset(
        position,
        reconstruction(position, logical_size, target_info),
        target_info,
    ) {
        Ok(offset) => {
            prepare_persisted_offset(offset, target_info, scaled_origin(offset, target_info))
        }
        Err(prepared) => prepared,
    }
}

fn target_from(
    prepared: PreparedWindowPosition,
    target_info: &MonitorDescriptor,
    starting_scale: f64,
    platform: Platform,
) -> TargetPosition {
    let logical_size = UVec2::new(800, 600);
    compute_target_position(
        logical_size,
        SavedWindowMode::Windowed,
        target_info,
        prepared,
        scaled_target(logical_size, target_info, starting_scale),
        platform,
        ALL,
    )
}

fn target_for(
    position: PersistedPosition,
    target_info: &MonitorDescriptor,
    platform: Platform,
) -> TargetPosition {
    let prepared = prepare_persisted_position(position, UVec2::new(800, 600), target_info);
    target_from(prepared, target_info, value(target_info.scale), platform)
}

#[test]
fn scale_change_between_save_and_restore_keeps_the_window_on_its_monitor() {
    let logical_offset = IVec2::new(120, 80);
    let live_monitor = monitor(1, 1.5, left_monitor_origin());

    let target = target_for(
        PersistedPosition::MonitorOffset(logical_offset),
        &live_monitor,
        Platform::Windows,
    );

    assert_eq!(target.physical_position, Some(IVec2::new(-6_700, 120)));
    let Some(physical_position) = target.physical_position else {
        panic!("a monitor offset always resolves to a position")
    };
    assert!(
        monitor_contains_physical_point(&live_monitor, physical_position),
        "the restored corner must land on the monitor it was saved against"
    );
}

#[test]
fn the_same_offset_restores_inside_the_monitor_at_every_scale() {
    let logical_offset = IVec2::new(120, 80);
    for origin in [IVec2::new(0, 0), left_monitor_origin(), IVec2::new(6_880, 0)] {
        for scale in [1.0, 1.25, 1.5, 2.0] {
            let target_info = monitor(1, scale, origin);
            let target = target_for(
                PersistedPosition::MonitorOffset(logical_offset),
                &target_info,
                Platform::Windows,
            );

            let scaled = rounded(
                f64::from(logical_offset.x) * scale,
                f64::from(logical_offset.y) * scale,
            );
            let expected = IVec2::new(origin.x + scaled.x, origin.y + scaled.y);
            assert_eq!(
                target.physical_position,
                Some(expected),
                "origin {origin:?} at scale {scale}"
            );
            assert!(
                monitor_contains_physical_point(&target_info, expected),
                "origin {origin:?} at scale {scale} put the corner outside its own monitor"
            );
        }
    }
}

#[test]
fn persisted_and_captured_paths_resolve_the_same_offset_identically() {
    let logical_offset = IVec2::new(37, -11);
    let target_info = monitor(1, 1.5, left_monitor_origin());

    let persisted = target_for(
        PersistedPosition::MonitorOffset(logical_offset),
        &target_info,
        Platform::Windows,
    );
    let origin = scaled_origin(logical_offset, &target_info);
    let captured = target_from(
        PreparedWindowPosition::Restorable {
            physical_position: target_info.physical_from_offset(origin.physical_offset),
            logical_position: IVec2::new(
                origin.logical_origin.x + logical_offset.x,
                origin.logical_origin.y + logical_offset.y,
            ),
        },
        &target_info,
        1.5,
        Platform::Windows,
    );

    assert_eq!(persisted.physical_position, captured.physical_position);
    assert_eq!(persisted.logical_position, captured.logical_position);
}

#[test]
fn the_target_monitor_scale_sizes_the_restore_not_the_launch_monitor_scale() {
    let starting_scale = 1.0;
    let logical_offset = IVec2::new(120, 80);
    let target_info = monitor(1, 2.0, left_monitor_origin());
    let position = PersistedPosition::MonitorOffset(logical_offset);

    let target = target_from(
        prepare_persisted_position(position, UVec2::new(800, 600), &target_info),
        &target_info,
        starting_scale,
        Platform::Windows,
    );

    assert_eq!(
        target.physical_size,
        UVec2::new(1_600, 1_200),
        "800x600 logical belongs to the target monitor at scale 2.0, not the launch monitor at {starting_scale}"
    );
    assert_eq!(
        target.physical_position,
        Some(IVec2::new(-6_640, 160)),
        "the offset scales by the target monitor, so the launch scale cannot move the window"
    );
    assert_ne!(
        target.monitor_scale_strategy,
        MonitorScaleStrategy::ApplyUnchanged,
        "a launch scale that differs from the target must select a cross-DPI strategy"
    );
}

#[test]
fn a_legacy_coordinate_from_an_unchanged_layout_is_kept_and_converts_exactly() {
    let target_info = monitor(1, 1.0, left_monitor_origin());
    let position = unrebased(IVec2::new(-6_760, 80), 1.0);

    let target = target_for(position, &target_info, Platform::Windows);

    assert_eq!(target.physical_position, Some(IVec2::new(-6_760, 80)));
}

#[test]
fn a_legacy_coordinate_survives_a_scale_change_on_its_own_monitor() {
    let live_monitor = monitor(1, 1.5, left_monitor_origin());
    let position = unrebased(IVec2::new(-6_760, 80), 1.0);

    let target = target_for(position, &live_monitor, Platform::Windows);

    assert_eq!(target.physical_position, Some(IVec2::new(-6_700, 120)));
}

#[test]
fn a_legacy_coordinate_is_dropped_once_its_monitor_origin_has_moved() {
    let live_monitor = monitor(1, 1.0, IVec2::new(-3_440, 0));
    let position = unrebased(IVec2::new(-6_760, 80), 1.0);
    let prepared = prepare_persisted_position(position, UVec2::new(800, 600), &live_monitor);

    let target = target_for(position, &live_monitor, Platform::Windows);

    assert_eq!(prepared, PreparedWindowPosition::DiscardedLegacy);
    assert_eq!(
        prepared.meaning(Platform::Windows),
        PreparedPositionMeaning::DiscardedLegacy
    );
    assert_eq!(target.physical_position, None);
    assert_eq!(target.logical_position, None);
}

#[test]
fn an_unpositioned_entry_yields_no_position() {
    let target_info = monitor(0, 2.0, IVec2::new(0, 0));
    let prepared = prepare_persisted_position(
        PersistedPosition::Unpositioned,
        UVec2::new(800, 600),
        &target_info,
    );

    let target = target_for(
        PersistedPosition::Unpositioned,
        &target_info,
        Platform::Windows,
    );

    assert_eq!(prepared, PreparedWindowPosition::NotSaved);
    assert_eq!(
        prepared.meaning(Platform::Windows),
        PreparedPositionMeaning::NotSaved
    );
    assert_eq!(
        prepared.meaning(Platform::Wayland),
        PreparedPositionMeaning::PlatformCannotPosition
    );
    assert_eq!(target.physical_position, None);
    assert_eq!(target.logical_position, None);
}

#[test]
fn a_legacy_coordinate_straddling_the_boundary_is_kept_when_its_center_is_on_the_monitor() {
    let target_info = MonitorDescriptor::for_current_enumeration(
        1,
        factor(1.0),
        IVec2::new(1_512, 2_880),
        UVec2::new(3_456, 2_160),
    );
    let corner = IVec2::new(1_600, 2_700);
    let position = unrebased(corner, 1.0);

    let target = target_for(position, &target_info, Platform::Windows);

    assert_eq!(target.physical_position, Some(corner));
}

#[test]
fn a_legacy_coordinate_near_the_far_edge_is_kept_even_though_the_window_overhangs() {
    let target_info = monitor(0, 1.0, IVec2::new(0, 0));
    let corner = IVec2::new(2_000, 1_000);
    let position = unrebased(corner, 1.0);

    let target = target_for(position, &target_info, Platform::Windows);

    assert_eq!(target.physical_position, Some(corner));
}

#[test]
fn only_macos_clamps_a_saved_position() {
    let target_info = monitor(0, 1.0, IVec2::new(100, 50));
    for (saved, clamped) in [
        ((2_400, 1_300), (1_860, 890)),
        ((0, 0), (100, 50)),
        ((500, 500), (500, 500)),
    ] {
        let saved = IVec2::new(saved.0, saved.1);
        assert_eq!(
            clamp_position_to_monitor(saved, &target_info, 800, 600, Platform::MacOs),
            IVec2::new(clamped.0, clamped.1)
        );
        for platform in [Platform::Windows, Platform::X11, Platform::Wayland] {
            assert_eq!(
                clamp_position_to_monitor(saved, &target_info, 800, 600, platform),
                saved
            );
        }
    }
    assert_eq!(
        clamp_position_to_monitor(
            IVec2::new(500, 500),
            &target_info,
            u64::MAX,
            u64::MAX,
            Platform::MacOs
        ),
        IVec2::new(100, 50)
    );
}

#[test]
fn a_monitor_ends_before_its_far_corner() {
    let target_info = monitor(0, 1.0, IVec2::new(-10, -10));
    assert!(monitor_contains_physical_point(&target_info, IVec2::new(-10, -10)));
    assert!(monitor_contains_physical_point(&target_info, IVec2::new(2_549, 1_429)));
    assert!(!monitor_contains_physical_point(&target_info, IVec2::new(2_550, 0)));
    assert!(!monitor_contains_physical_point(&target_info, IVec2::new(0, 1_430)));
    let endless = MonitorDescriptor::for_current_enumeration(
        0,
        factor(1.0),
        IVec2::new(0, 0),
        UVec2::new(u32::MAX, 10),
    );
    assert!(!monitor_contains_physical_point(&endless, IVec2::new(0, 0)));
}

fn descriptor(index: usize, position: IVec2, size: UVec2) -> MonitorDescriptor {
    MonitorDescriptor::for_current_enumeration(index, factor(1.0), position, size)
}

fn resolve_persisted_monitor(position: IVec2, monitors: &Monitors) -> Option<MonitorDescriptor> {
    let persisted = unrebased(position, 1.0);
    let any = descriptor(0, IVec2::new(0, 0), UVec2::new(1, 1));
    let center = reconstructed_legacy_window_center(reconstruction(
        persisted,
        UVec2::new(800, 600),
        &any,
    ));
    resolve_legacy_coordinate_monitor(persisted, center, monitors)
}

#[test]
fn legacy_coordinate_selects_its_unique_geometric_monitor_not_the_first() {
    let first = descriptor(0, IVec2::new(0, 0), UVec2::new(1_000, 1_000));
    let second = descriptor(1, IVec2::new(1_000, 0), UVec2::new(1_000, 1_000));
    let monitors =
        Monitors::from_test_monitors(vec![(1, first), (2, second)], OperatingSystem::Linux);

    assert_eq!(
        resolve_persisted_monitor(IVec2::new(1_100, 100), &monitors),
        Some(second)
    );
}

#[test]
fn ambiguous_legacy_geometry_is_rejected_instead_of_choosing_one_monitor() {
    let first = descriptor(0, IVec2::new(0, 0), UVec2::new(2_000, 2_000));
    let second = descriptor(1, IVec2::new(0, 0), UVec2::new(2_000, 2_000));
    let monitors =
        Monitors::from_test_monitors(vec![(1, first), (2, second)], OperatingSystem::Linux);

    assert_eq!(
        resolve_persisted_monitor(IVec2::new(100, 100), &monitors),
        None
    );
}

#[test]
fn unmatched_saved_display_and_coordinate_never_fall_back_to_a_live_monitor() {
    let only = descriptor(0, IVec2::new(0, 0), UVec2::new(1_000, 1_000));
    let monitors = Monitors::from_test_monitors(vec![(1, only)], OperatingSystem::Linux);

    assert_eq!(
        resolve_persisted_monitor(IVec2::new(4_000, 4_000), &monitors),
        None
    );
    assert_eq!(
        resolve_legacy_coordinate_monitor(
            PersistedPosition::MonitorOffset(IVec2::new(1, 1)),
            IVec2::new(1, 1),
            &monitors
        ),
        None
    );
}

fn placed_target(position_meaning: PreparedPositionMeaning) -> SettleTarget {
    let target_info = MonitorDescriptor::for_current_enumeration(
        2,
        factor(2.0),
        IVec2::new(0, 0),
        monitor_size(),
    );
    let prepared = PreparedWindowPosition::Restorable {
        physical_position: IVec2::new(20, 40),
        logical_position: IVec2::new(10, 20),
    };
    let target_position = target_from(prepared, &target_info, 2.0, Platform::X11);
    SettleTarget::from_target_position(&target_position, position_meaning, Platform::X11)
}

#[test]
fn expected_event_positions_preserve_every_absence_reason() {
    let specified = placed_target(PreparedPositionMeaning::Specified);
    assert_eq!(
        expected_physical_position(&specified),
        ExpectedPhysicalPosition::Specified(IVec2::new(20, 40))
    );
    assert_eq!(
        expected_logical_position(&specified),
        ExpectedLogicalPosition::Specified(IVec2::new(10, 20))
    );
    assert_eq!(specified.logical_size, UVec2::new(800, 600));
    assert_eq!(specified.physical_size, UVec2::new(1_600, 1_200));
    assert_eq!(specified.window_mode, WindowMode::Windowed);

    let unavailable = placed_target(PreparedPositionMeaning::PlatformCannotPosition);
    assert_eq!(
        expected_physical_position(&unavailable),
        ExpectedPhysicalPosition::PlatformCannotPosition
    );
    assert_eq!(
        expected_logical_position(&unavailable),
        ExpectedLogicalPosition::PlatformCannotPosition
    );

    let not_saved = placed_target(PreparedPositionMeaning::NotSaved);
    assert_eq!(
        expected_physical_position(&not_saved),
        ExpectedPhysicalPosition::NotSaved
    );
    assert_eq!(
        expected_logical_position(&not_saved),
        ExpectedLogicalPosition::NotSaved
    );

    let discarded = placed_target(PreparedPositionMeaning::DiscardedLegacy);
    assert_eq!(
        expected_physical_position(&discarded),
        ExpectedPhysicalPosition::DiscardedLegacy
    );
    assert_eq!(
        expected_logical_position(&discarded),
        ExpectedLogicalPosition::DiscardedLegacy
    );
}

#[test]
fn observed_event_positions_distinguish_platform_absence_from_coordinates() {
    let logical_at = |position: IVec2, scale: f64| {
        rounded(f64::from(position.x) / scale, f64::from(position.y) / scale)
    };
    assert_eq!(
        observed_physical_position(None),
        ObservedPhysicalPosition::PlatformCannotReport
    );
    assert_eq!(
        observed_logical_position(
            ObservedPhysicalPosition::PlatformCannotReport,
            IVec2::new(0, 0)
        ),
        ObservedLogicalPosition::PlatformCannotReport
    );
    assert_eq!(
        observed_physical_position(Some(IVec2::new(20, 40))),
        ObservedPhysicalPosition::Observed(IVec2::new(20, 40))
    );
    assert_eq!(
        observed_logical_position(
            ObservedPhysicalPosition::Observed(IVec2::new(20, 40)),
            logical_at(IVec2::new(20, 40), 2.0),
        ),
        ObservedLogicalPosition::Observed(IVec2::new(10, 20))
    );
}

fn role() -> RoleKey {
    RoleKey::new("window:primary").expect("valid role")
}

fn settling_target(saved_window_mode: SavedWindowMode) -> TargetPosition {
    let target_info = monitor(1, 1.0, IVec2::new(0, 0));
    let logical_size = UVec2::new(800, 600);
    let mut target = compute_target_position(
        logical_size,
        saved_window_mode,
        &target_info,
        PreparedWindowPosition::Restorable {
            physical_position: IVec2::new(20, 40),
            logical_position: IVec2::new(20, 40),
        },
        scaled_target(logical_size, &target_info, 1.0),
        Platform::Windows,
        ALL,
    );
    target.window_settle_progress = WindowSettleProgress::Settling(SettleState::new());
    target
}

fn observed(position: IVec2, mode: WindowMode) -> ObservedWindow {
    ObservedWindow {
        entity: 5,
        observation: observe_actual_state(
            Some(position),
            UVec2::new(800, 600),
            mode,
            Some(CurrentMonitorIndex::from_current_enumeration(1)),
            Platform::Windows,
        ),
        scale: factor(1.0),
        logical_size: UVec2::new(800, 600),
        logical_position: position,
        readback: None,
    }
}

fn frame(
    target: &mut TargetPosition,
    window: &ObservedWindow,
    milliseconds: u64,
    fallback: &mut WindowFallbackRecoveryState,
) -> Option<SettleOutcome> {
    check_restore_settling(
        target,
        PreparedPositionMeaning::Specified,
        &role(),
        window,
        TimeSpan::from_milliseconds(milliseconds),
        Platform::Windows,
        ALL,
        fallback,
    )
}

#[test]
fn a_window_that_never_moves_settles_as_a_match() {
    const REGRESSION_FRAME: u64 = 250;
    const SETTLE_RESOLUTION_FRAME_BUDGET: usize = 6;
    let mut target = settling_target(SavedWindowMode::Windowed);
    let mut fallback = WindowFallbackRecoveryState::new();
    fallback.mark_on_fallback(role());
    let window = observed(IVec2::new(20, 40), WindowMode::Windowed);
    let mut matched = 0;
    let mut diverged = 0;
    for _ in 0..SETTLE_RESOLUTION_FRAME_BUDGET {
        match frame(&mut target, &window, REGRESSION_FRAME, &mut fallback) {
            Some(SettleOutcome::Restored(event)) => {
                assert_eq!(event.role, role());
                assert_eq!(event.monitor_index, 1);
                matched += 1;
                break;
            }
            Some(SettleOutcome::Mismatched(_, _)) => diverged += 1,
            None => {}
        }
    }
    assert_eq!(diverged, 0);
    assert_eq!(matched, 1);
    assert_eq!(
        fallback.phase(&role()),
        WindowFallbackRecoveryProgress::NotRecovering
    );
}

#[test]
fn a_stable_mismatch_ends_the_restore_with_what_was_read_back() {
    let mut target = settling_target(SavedWindowMode::Windowed);
    let mut fallback = WindowFallbackRecoveryState::new();
    let placement = EstablishedWindowPlacement {
        position: EstablishedWindowPosition::CompositorControlled,
        logical_size: UVec2::new(800, 600),
        saved_window_mode: SavedWindowMode::Windowed,
    };
    let window = ObservedWindow {
        readback: Some(placement),
        ..observed(IVec2::new(21, 40), WindowMode::Windowed)
    };
    assert!(frame(&mut target, &window, 100, &mut fallback).is_none());
    assert!(frame(&mut target, &window, 100, &mut fallback).is_none());
    let Some(SettleOutcome::Mismatched(event, ending)) =
        frame(&mut target, &window, 100, &mut fallback)
    else {
        panic!("a stable mismatch is final");
    };
    assert_eq!(ending, AttemptEnding::WithReadback(placement));
    assert_eq!(attempt_ending(Some(placement)), ending);
    assert_eq!(attempt_ending(None), AttemptEnding::Aborted);
    assert_eq!(
        event.actual_physical_position,
        ObservedPhysicalPosition::Observed(IVec2::new(21, 40))
    );
    assert_eq!(
        event.expected_physical_position,
        ExpectedPhysicalPosition::Specified(IVec2::new(20, 40))
    );
    assert_eq!(event.expected_monitor, 1);
    assert_eq!(event.actual_monitor, 1);
}

#[test]
fn a_window_that_keeps_changing_runs_into_the_deadline() {
    let mut target = settling_target(SavedWindowMode::Windowed);
    let mut fallback = WindowFallbackRecoveryState::new();
    for step in 1..20 {
        let window = observed(IVec2::new(step, 40), WindowMode::Windowed);
        let outcome = frame(&mut target, &window, 100, &mut fallback);
        assert!(outcome.is_none(), "frame {step}");
    }
    let window = observed(IVec2::new(20, 40), WindowMode::Windowed);
    assert!(matches!(
        frame(&mut target, &window, 100, &mut fallback),
        Some(SettleOutcome::Mismatched(_, AttemptEnding::Aborted))
    ));
}

#[test]
fn a_window_that_is_not_settling_is_left_alone() {
    let mut target = settling_target(SavedWindowMode::Windowed);
    target.window_settle_progress = WindowSettleProgress::NotStarted;
    let mut fallback = WindowFallbackRecoveryState::new();
    let window = observed(IVec2::new(20, 40), WindowMode::Windowed);
    assert!(frame(&mut target, &window, 5_000, &mut fallback).is_none());
    assert!(frame(&mut target, &window, 5_000, &mut fallback).is_none());
}

#[test]
fn a_fullscreen_window_settles_wherever_it_is_on_its_monitor() {
    let mut target = settling_target(SavedWindowMode::BorderlessFullscreen);
    let mut fallback = WindowFallbackRecoveryState::new();
    let mode = WindowMode::BorderlessFullscreen(MonitorSelection::Index(1));
    let window = observed(IVec2::new(900, 900), mode);
    assert!(frame(&mut target, &window, 250, &mut fallback).is_none());
    assert!(matches!(
        frame(&mut target, &window, 250, &mut fallback),
        Some(SettleOutcome::Restored(_))
    ));
}

#[test]
fn a_window_without_a_monitor_counts_as_on_the_primary_one() {
    let observation = observe_actual_state(
        Some(IVec2::new(1, 2)),
        UVec2::new(3, 4),
        WindowMode::Windowed,
        None,
        Platform::Wayland,
    );
    assert_eq!(
        observation.monitor,
        CurrentMonitorIndex::from_current_enumeration(0)
    );
    assert_eq!(
        observation.physical_position,
        ObservedPhysicalPosition::PlatformCannotReport
    );
}

fn configuration() -> EstablishedWindowPlacement {
    EstablishedWindowPlacement {
        position: EstablishedWindowPosition::Restorable {
            logical_offset: IVec2::new(120, 80),
        },
        logical_size: UVec2::new(800, 600),
        saved_window_mode: SavedWindowMode::Windowed,
    }
}

fn record(monitor: u64) -> RestoreRecord {
    RestoreRecord::UnderPreparation(RestorePreparation::new(
        role(),
        WindowPlacementTarget { window: 5, monitor },
        configuration(),
    ))
}

#[test]
fn a_target_is_prepared_once_window_and_display_are_known() {
    let launch = monitor(0, 1.0, IVec2::new(0, 0));
    let wanted = monitor(1, 1.5, left_monitor_origin());
    let monitors =
        Monitors::from_test_monitors(vec![(1, launch), (2, wanted)], OperatingSystem::Linux);
    let native = NativeWindowInfo::from_sizes(UVec2::new(810, 630), UVec2::new(800, 640));
    assert_eq!(native.physical_decoration(), UVec2::new(10, 0));
    let mut fallback = WindowFallbackRecoveryState::new();

    for (on_monitor, current, native) in [
        (9, launch, Some(native)),
        (1, wanted, Some(native)),
        (1, launch, None),
    ] {
        assert!(matches!(
            begin_preparation(&monitors, on_monitor, &current, native, &record(2), &mut fallback),
            PreparationStep::Wait
        ));
    }
    for stale in [RestoreRecord::CompletionQueued, RestoreRecord::AttemptUnknown] {
        assert!(matches!(
            begin_preparation(&monitors, 1, &launch, Some(native), &stale, &mut fallback),
            PreparationStep::DropMarker
        ));
    }
    let step = begin_preparation(&monitors, 1, &launch, Some(native), &record(7), &mut fallback);
    assert!(matches!(
        step,
        PreparationStep::TargetGone {
            error: DeviceAccessError::Absent { detail },
        } if detail == "authorized display for role window:primary is no longer live"
    ));
    assert_eq!(
        fallback.phase(&role()),
        WindowFallbackRecoveryProgress::Recovering(
            WindowFallbackRecoveryPhase::MissingLiveMonitor
        )
    );

    let PreparationStep::Ready(ready) =
        begin_preparation(&monitors, 1, &launch, Some(native), &record(2), &mut fallback)
    else {
        panic!("everything is known");
    };
    assert_eq!(ready.descriptor, wanted);
    let prepared = finish_preparation(
        ready,
        &launch,
        scaled_origin(IVec2::new(120, 80), &wanted),
        ScaledTarget {
            starting_scale: factor(9.0),
            physical_decoration: UVec2::new(9, 9),
            ..scaled_target(UVec2::new(800, 600), &wanted, 1.0)
        },
        Platform::Windows,
        ALL,
        &mut fallback,
    );
    assert_eq!(prepared.target_position.starting_scale, factor(1.0));
    assert_eq!(
        prepared.target_position.physical_position,
        Some(IVec2::new(-6_700, 120))
    );
    assert_eq!(prepared.position_meaning, PreparedPositionMeaning::Specified);
    assert!(prepared.frame_compensated);
    assert_eq!(prepared.diagnostics.starting_scale, factor(1.0));
    assert_eq!(prepared.diagnostics.target_scale, factor(1.5));
    assert_eq!(
        fallback.phase(&role()),
        WindowFallbackRecoveryProgress::Recovering(WindowFallbackRecoveryPhase::OnFallbackDisplay)
    );
}

#[test]
fn restore_work_belongs_to_one_attempt() {
    let attempt = WindowRestoreAttempt::for_role(role(), AttemptRef(4));
    assert!(restore_work_belongs_to(Some(&attempt), AttemptRef(4)));
    assert!(!restore_work_belongs_to(Some(&attempt), AttemptRef(5)));
    assert!(!restore_work_belongs_to(None, AttemptRef(4)));
    assert_eq!(*attempt.role(), role());
}
