//! What each platform can do.

use hana_clerestory::geometry::IVec2;
use hana_clerestory::persistence::established_window_placement::EstablishedWindowPosition;
use hana_clerestory::persistence::window_state::SavedFullscreenVideoMode;
use hana_clerestory::persistence::window_state::SavedWindowMode;
use hana_clerestory::platform::OperatingSystem;
use hana_clerestory::platform::ReturnCapability;
use hana_clerestory::platform::ScaleRelation;
use hana_clerestory::platform::Workarounds;
use hana_clerestory::restore::strategy::FullscreenRestoreState;
use hana_clerestory::restore::strategy::MonitorScaleStrategy;
use hana_clerestory::restore::strategy::WindowRestoreState;
use hana_clerestory::window_mode::MonitorSelection;
use hana_clerestory::window_mode::VideoModeSelection;
use hana_clerestory::window_mode::WindowMode;
use hana_clerestory::Platform;

const PLATFORMS: [Platform; 4] = [
    Platform::MacOs,
    Platform::Windows,
    Platform::X11,
    Platform::Wayland,
];

const ALL: Workarounds = Workarounds {
    fullscreen_surface: true,
    cross_scale: true,
    frame_extents: true,
};

const NONE: Workarounds = Workarounds {
    fullscreen_surface: false,
    cross_scale: false,
    frame_extents: false,
};

fn positions() -> [EstablishedWindowPosition; 2] {
    [
        EstablishedWindowPosition::Restorable {
            logical_offset: IVec2::new(0, 0),
        },
        EstablishedWindowPosition::CompositorControlled,
    ]
}

#[test]
fn automatic_return_rejects_exclusive_fullscreen_on_every_platform() {
    for platform in PLATFORMS {
        for position in positions() {
            assert_eq!(
                platform.fallback_return_capability(
                    position,
                    &SavedWindowMode::Fullscreen {
                        video_mode: SavedFullscreenVideoMode::Current,
                    },
                ),
                ReturnCapability::Unsupported,
            );
        }
    }
}

#[test]
fn automatic_windowed_return_requires_a_restorable_position() {
    for platform in PLATFORMS {
        assert_eq!(
            platform.fallback_return_capability(
                EstablishedWindowPosition::Restorable {
                    logical_offset: IVec2::new(0, 0),
                },
                &SavedWindowMode::Windowed,
            ),
            ReturnCapability::Supported,
        );
        assert_eq!(
            platform.fallback_return_capability(
                EstablishedWindowPosition::CompositorControlled,
                &SavedWindowMode::Windowed,
            ),
            ReturnCapability::Unsupported,
        );
    }
}

#[test]
fn only_a_windowed_restore_waits_for_x11_frame_compensation() {
    let fullscreen_modes = [
        SavedWindowMode::BorderlessFullscreen,
        SavedWindowMode::Fullscreen {
            video_mode: SavedFullscreenVideoMode::Current,
        },
    ];

    for workarounds in [ALL, NONE] {
        for platform in PLATFORMS {
            for saved_window_mode in &fullscreen_modes {
                assert!(!platform.awaits_frame_compensation(saved_window_mode, workarounds));
            }
            assert_eq!(
                platform.awaits_frame_compensation(&SavedWindowMode::Windowed, workarounds),
                platform.needs_frame_compensation(workarounds),
            );
        }
    }

    assert!(Platform::X11.awaits_frame_compensation(&SavedWindowMode::Windowed, ALL));
}

#[test]
fn automatic_borderless_return_remains_monitor_targeted() {
    for platform in PLATFORMS {
        for position in positions() {
            assert_eq!(
                platform
                    .fallback_return_capability(position, &SavedWindowMode::BorderlessFullscreen),
                ReturnCapability::Supported,
            );
        }
    }
}

#[test]
fn linux_sessions_are_told_apart_by_their_display_variable() {
    let detect = |wayland_display| Platform::detect(OperatingSystem::Linux, wayland_display);
    assert_eq!(detect(Some("wayland-0")), Platform::Wayland);
    assert_eq!(detect(Some("")), Platform::X11);
    assert_eq!(detect(None), Platform::X11);
    assert_eq!(
        Platform::detect(OperatingSystem::MacOs, Some("wayland-0")),
        Platform::MacOs
    );
    assert_eq!(
        Platform::detect(OperatingSystem::Windows, None),
        Platform::Windows
    );
}

#[test]
fn each_platform_answers_for_itself() {
    for platform in PLATFORMS {
        assert_eq!(platform.is_x11(), platform == Platform::X11);
        assert_eq!(platform.is_wayland(), platform == Platform::Wayland);
        assert_eq!(platform.position_available(), platform != Platform::Wayland);
        assert_eq!(platform.should_clamp_position(), platform == Platform::MacOs);
        assert_eq!(
            platform.exclusive_fullscreen_fallback(),
            platform == Platform::Wayland
        );
        assert_eq!(
            platform.needs_managed_scale_fixup(),
            platform != Platform::Wayland
        );
        assert!(platform.should_hide_on_startup(NONE));
        assert!(!platform.needs_frame_compensation(NONE));
        assert!(platform.position_reliable_for_settle(NONE));
        assert_eq!(platform.should_hide_on_startup(ALL), platform != Platform::X11);
        assert_eq!(platform.needs_frame_compensation(ALL), platform == Platform::X11);
        assert_eq!(
            platform.position_reliable_for_settle(ALL),
            platform != Platform::X11
        );
    }
}

#[test]
fn wayland_accepts_borderless_in_place_of_exclusive_fullscreen() {
    let exclusive =
        WindowMode::Fullscreen(MonitorSelection::Index(1), VideoModeSelection::Current);
    let borderless = WindowMode::BorderlessFullscreen(MonitorSelection::Current);
    for platform in PLATFORMS {
        assert!(platform.modes_match(exclusive, exclusive));
        assert_eq!(
            platform.modes_match(exclusive, borderless),
            platform == Platform::Wayland
        );
        assert!(!platform.modes_match(borderless, exclusive));
        assert!(!platform.modes_match(WindowMode::Windowed, borderless));
    }
}

#[test]
fn fullscreen_restores_start_with_the_phase_of_the_platform() {
    for (platform, with, without) in [
        (
            Platform::MacOs,
            FullscreenRestoreState::LeaveFullscreen,
            FullscreenRestoreState::LeaveFullscreen,
        ),
        (
            Platform::Windows,
            FullscreenRestoreState::WaitForSurface,
            FullscreenRestoreState::ApplyMode,
        ),
        (
            Platform::X11,
            FullscreenRestoreState::MoveToMonitor,
            FullscreenRestoreState::MoveToMonitor,
        ),
        (
            Platform::Wayland,
            FullscreenRestoreState::ApplyMode,
            FullscreenRestoreState::ApplyMode,
        ),
    ] {
        assert_eq!(platform.fullscreen_restore_state(ALL), with);
        assert_eq!(platform.fullscreen_restore_state(NONE), without);
    }
}

#[test]
fn scale_strategies_follow_platform_and_direction() {
    let phase = WindowRestoreState::NeedInitialMove;
    for platform in PLATFORMS {
        assert_eq!(
            platform.scale_strategy(ScaleRelation::Same, ALL),
            MonitorScaleStrategy::ApplyUnchanged
        );
        for relation in [ScaleRelation::LaunchLower, ScaleRelation::LaunchHigher] {
            assert_eq!(
                platform.scale_strategy(relation, NONE),
                MonitorScaleStrategy::ApplyUnchanged
            );
            let expected = match (platform, relation) {
                (Platform::Wayland, _) => MonitorScaleStrategy::ApplyUnchanged,
                (Platform::Windows, _) => MonitorScaleStrategy::CompensateSizeOnly(phase),
                (_, ScaleRelation::LaunchLower) => MonitorScaleStrategy::LowerToHigher,
                (_, _) => MonitorScaleStrategy::HigherToLower(phase),
            };
            assert_eq!(platform.scale_strategy(relation, ALL), expected);
        }
    }
}
