//! Reading, projecting and writing window records.

use hana_clerestory::device::AuthoredId;
use hana_clerestory::device::DeviceIdSource;
use hana_clerestory::device::DeviceKey;
use hana_clerestory::device::DeviceKind;
use hana_clerestory::device::Digest;
use hana_clerestory::device::IdentifierError;
use hana_clerestory::device::RegisteredSchemes;
use hana_clerestory::device::ReportedId;
use hana_clerestory::device::RoleKey;
use hana_clerestory::device::SchemeName;
use hana_clerestory::geometry::IVec2;
use hana_clerestory::geometry::UVec2;
use hana_clerestory::inventory::ConfiguredDeviceMode;
use hana_clerestory::inventory::HardwareInventory;
use hana_clerestory::managed_window_role;
use hana_clerestory::monitors::live_display_endpoint::LiveDisplayEndpoint;
use hana_clerestory::monitors::live_display_endpoint::LiveDisplayEndpointLookup;
use hana_clerestory::persistence::established_window_placement::readback_physical_offset;
use hana_clerestory::persistence::established_window_placement::EstablishedWindowPlacement;
use hana_clerestory::persistence::established_window_placement::EstablishedWindowPosition;
use hana_clerestory::persistence::established_window_placement::RestorableWindowPosition;
use hana_clerestory::persistence::established_window_placement::ScaledMonitorOrigin;
use hana_clerestory::persistence::format::decode;
use hana_clerestory::persistence::format::encode;
use hana_clerestory::persistence::format::envelope_format;
use hana_clerestory::persistence::format::validate_classified_key;
use hana_clerestory::persistence::format::EnvelopeFormat;
use hana_clerestory::persistence::format::ParsedStateFile;
use hana_clerestory::persistence::format::PersistedEntries;
use hana_clerestory::persistence::format::PersistedEntry;
use hana_clerestory::persistence::format::PersistedWindowIdentityMigrationFailure;
use hana_clerestory::persistence::format::PersistedWindowStateDecodeOutcome;
use hana_clerestory::persistence::format::PersistedWindowStateV1;
use hana_clerestory::persistence::format::PersistedWindowStateV2;
use hana_clerestory::persistence::format::PersistedWindowStateV3;
use hana_clerestory::persistence::format::PersistedWindowStateV4;
use hana_clerestory::persistence::format::SavedWindowModeV4;
use hana_clerestory::persistence::format::CURRENT_STATE_VERSION;
use hana_clerestory::persistence::load::backup_label;
use hana_clerestory::persistence::load::default_state_location;
use hana_clerestory::persistence::load::load_persisted_window_placements;
use hana_clerestory::persistence::load::must_be_backed_up;
use hana_clerestory::persistence::load::state_location_for_app;
use hana_clerestory::persistence::load::unused_backup_path;
use hana_clerestory::persistence::load::BACKUP_MAX_ATTEMPTS;
use hana_clerestory::persistence::placements::PendingWrite;
use hana_clerestory::persistence::placements::PersistedWindowPlacements;
use hana_clerestory::persistence::placements::StartupLoadStatus;
use hana_clerestory::persistence::roles::PersistedWindowRole;
use hana_clerestory::persistence::save::apply_projection;
use hana_clerestory::persistence::save::initial_serialized_states;
use hana_clerestory::persistence::save::project_established_values;
use hana_clerestory::persistence::save::settle_write;
use hana_clerestory::persistence::save::write_established_window_configurations;
use hana_clerestory::persistence::save::write_is_required_after_projection;
use hana_clerestory::persistence::save::EstablishedRoleReadiness;
use hana_clerestory::persistence::save::EstablishedWindowPersistenceProjection;
use hana_clerestory::persistence::save::LastKnownGoodConfiguration;
use hana_clerestory::persistence::save::ManagedWindowPersistence;
use hana_clerestory::persistence::save::ProjectionSource;
use hana_clerestory::persistence::save::RoleStatus;
use hana_clerestory::persistence::save::StateFileWrite;
use hana_clerestory::persistence::save::WindowBinding;
use hana_clerestory::persistence::window_state::BindingPolicy;
use hana_clerestory::persistence::window_state::LoadedBindingPolicy;
use hana_clerestory::persistence::window_state::PersistedDisplayFingerprintV4;
use hana_clerestory::persistence::window_state::PersistedDisplayIdentityV4;
use hana_clerestory::persistence::window_state::PersistedPosition;
use hana_clerestory::persistence::window_state::PersistedWindowPlacement;
use hana_clerestory::persistence::window_state::PersistedWindowPlacementLookup;
use hana_clerestory::persistence::window_state::PersistedWindowState;
use hana_clerestory::persistence::window_state::PersistedWindowTargetV5;
use hana_clerestory::persistence::window_state::RecoveryPolicy;
use hana_clerestory::persistence::window_state::SavedFullscreenVideoMode;
use hana_clerestory::persistence::window_state::SavedVideoMode;
use hana_clerestory::persistence::window_state::SavedWindowMode;
use hana_clerestory::persistence::window_state::UnrebasedDesktopPosition;
use hana_clerestory::primary_window_role;
use hana_clerestory::role_map::RoleMap;
use hana_clerestory::scale::ScaleFactor;
use hana_clerestory::window_mode::MonitorSelection;
use hana_clerestory::window_mode::VideoMode;
use hana_clerestory::window_mode::VideoModeSelection;
use hana_clerestory::window_mode::WindowMode;
use hana_clerestory::CurrentMonitorIndex;
use hana_clerestory::DisplayFingerprint;
use hana_clerestory::DisplayIdentity;
use hana_clerestory::MonitorDescriptor;
use hana_clerestory::MonitorDeviceAssociation;
use hana_clerestory::Platform;

fn scale(value: f64) -> ScaleFactor {
    ScaleFactor::from_bits(value.to_bits())
}

fn primary_role() -> RoleKey {
    primary_window_role().expect("valid primary role")
}

fn managed_role(name: &str) -> RoleKey {
    managed_window_role(name).expect("valid managed role")
}

fn scheme(name: &str) -> SchemeName {
    SchemeName::new(name).expect("valid scheme")
}

fn schemes() -> RegisteredSchemes {
    let mut schemes = RegisteredSchemes::new();
    schemes.register(scheme("edid-serial"));
    schemes
}

fn synthesized_key(digest: u64) -> DeviceKey {
    DeviceKey {
        kind: DeviceKind::Display,
        id: DeviceIdSource::Synthesized {
            digest: Digest(digest),
        },
    }
}

fn reported_key(scheme_name: &str, value: &str) -> DeviceKey {
    DeviceKey {
        kind: DeviceKind::Display,
        id: DeviceIdSource::Reported {
            scheme: scheme(scheme_name),
            value: ReportedId::new(value).expect("valid identifier"),
        },
    }
}

fn awaiting_state() -> PersistedWindowState {
    PersistedWindowState {
        target: PersistedWindowTargetV5::AwaitingLegacyEvidence(
            PersistedDisplayIdentityV4::Anonymous,
        ),
        position: PersistedPosition::MonitorOffset(IVec2::new(10, 20)),
        logical_width: 800,
        logical_height: 600,
        saved_window_mode: SavedWindowMode::Windowed,
        app_name: String::from("test-app"),
    }
}

fn sample_policy() -> BindingPolicy {
    BindingPolicy {
        recovery: RecoveryPolicy::ReapplyOnRequest,
        kernel_settings: 3,
    }
}

fn serialized_placement(app_name: &str) -> PersistedWindowPlacement {
    PersistedWindowPlacement::new(
        PersistedWindowState {
            position: PersistedPosition::Unpositioned,
            app_name: app_name.to_string(),
            ..awaiting_state()
        },
        LoadedBindingPolicy::Saved(sample_policy()),
    )
}

fn placements<const N: usize>(
    entries: [(RoleKey, PersistedWindowPlacement); N],
) -> RoleMap<PersistedWindowPlacement> {
    let mut map = RoleMap::new();
    for (role, placement) in entries {
        map.insert(role, placement);
    }
    map
}

fn decode_with(parsed: ParsedStateFile) -> PersistedWindowStateDecodeOutcome {
    decode(parsed, &MonitorDeviceAssociation::new(), &schemes())
}

fn decoded(parsed: ParsedStateFile) -> RoleMap<PersistedWindowState> {
    match decode_with(parsed) {
        PersistedWindowStateDecodeOutcome::Decoded(states) => states,
        PersistedWindowStateDecodeOutcome::WholeFileRejected => {
            panic!("expected a structurally valid persisted state")
        }
    }
}

fn versioned(version: u8, entries: PersistedEntries) -> ParsedStateFile {
    ParsedStateFile::Versioned {
        probed_version: version,
        envelope: Some((version, entries)),
    }
}

fn v3_state() -> PersistedWindowStateV3 {
    PersistedWindowStateV3 {
        position: PersistedPosition::MonitorOffset(IVec2::new(10, 20)),
        logical_width: 800,
        logical_height: 600,
        monitor_index: 0,
        monitor_panel: PersistedDisplayIdentityV4::Anonymous,
        saved_window_mode: SavedWindowModeV4::Windowed,
        app_name: String::new(),
    }
}

fn v4_state(monitor_panel: PersistedDisplayIdentityV4) -> PersistedWindowStateV4 {
    PersistedWindowStateV4 {
        position: PersistedPosition::MonitorOffset(IVec2::new(10, 20)),
        logical_width: 800,
        logical_height: 600,
        monitor_panel,
        saved_window_mode: SavedWindowModeV4::Windowed,
        app_name: String::new(),
    }
}

fn v1_state(logical_position: Option<IVec2>, monitor_index: usize) -> PersistedWindowStateV1 {
    PersistedWindowStateV1 {
        logical_position,
        logical_width: 800,
        logical_height: 600,
        monitor_index,
        saved_window_mode: SavedWindowModeV4::Windowed,
        app_name: String::from("test-app"),
    }
}

fn entry<S>(persisted_role: PersistedWindowRole, window_state: S) -> Option<PersistedEntry<S>> {
    Some(PersistedEntry {
        persisted_role,
        window_state,
    })
}

fn target_of(states: &RoleMap<PersistedWindowState>, role: &RoleKey) -> PersistedWindowTargetV5 {
    states.get(role).expect("the role was decoded").target.clone()
}

#[test]
fn checked_in_v3_fixture_runs_both_adjacent_conversions() {
    let states = decoded(versioned(
        3,
        PersistedEntries::V3(vec![entry(PersistedWindowRole::Primary, v3_state())]),
    ));
    assert_eq!(
        target_of(&states, &primary_role()),
        PersistedWindowTargetV5::AwaitingLegacyEvidence(PersistedDisplayIdentityV4::Anonymous)
    );
}

#[test]
fn checked_in_v4_fixtures_retain_evidence_and_self_heal_rejected_siblings() {
    for identity in [
        PersistedDisplayIdentityV4::Fingerprinted(PersistedDisplayFingerprintV4(17)),
        PersistedDisplayIdentityV4::Fingerprinted(PersistedDisplayFingerprintV4(42)),
        PersistedDisplayIdentityV4::Anonymous,
    ] {
        let states = decoded(versioned(
            4,
            PersistedEntries::V4(vec![entry(PersistedWindowRole::Primary, v4_state(identity))]),
        ));
        assert_eq!(states.len(), 1);
        assert_eq!(
            target_of(&states, &primary_role()),
            PersistedWindowTargetV5::AwaitingLegacyEvidence(identity)
        );
    }

    let recovered = decoded(versioned(
        4,
        PersistedEntries::V4(vec![
            entry(
                PersistedWindowRole::Primary,
                v4_state(PersistedDisplayIdentityV4::Anonymous),
            ),
            None,
        ]),
    ));
    let primary = recovered
        .get(&primary_role())
        .cloned()
        .expect("the valid v4 sibling survives entry rejection");
    assert_eq!(recovered.len(), 1);
    assert_eq!(CURRENT_STATE_VERSION, 5);
    let self_healed = read_back(&placements([(
        primary_role(),
        PersistedWindowPlacement::from(primary.clone()),
    )]));
    assert_eq!(self_healed.len(), 1);
    assert_eq!(self_healed.get(&primary_role()), Some(&primary));
}

#[test]
fn frozen_v3_and_v4_keep_their_shipped_unknown_field_compatibility() {
    for version in [3, 4] {
        assert_eq!(envelope_format(Some(version)), EnvelopeFormat::Frozen);
    }
    let v3 = versioned(
        3,
        PersistedEntries::V3(vec![entry(PersistedWindowRole::Primary, v3_state())]),
    );
    let v4 = versioned(
        4,
        PersistedEntries::V4(vec![entry(
            PersistedWindowRole::Primary,
            v4_state(PersistedDisplayIdentityV4::Anonymous),
        )]),
    );
    for parsed in [v3, v4] {
        let states = decoded(parsed);
        assert_eq!(states.len(), 1);
        assert!(states.contains_key(&primary_role()));
    }
}

#[test]
fn v5_envelope_rejects_unknown_top_level_fields() {
    assert_eq!(envelope_format(Some(5)), EnvelopeFormat::Strict);
    assert!(matches!(
        decode_with(ParsedStateFile::Versioned {
            probed_version: 5,
            envelope: None,
        }),
        PersistedWindowStateDecodeOutcome::WholeFileRejected
    ));
}

#[test]
fn malformed_v3_and_v4_known_fields_preserve_valid_siblings() {
    let v3 = versioned(
        3,
        PersistedEntries::V3(vec![entry(PersistedWindowRole::Primary, v3_state()), None]),
    );
    let v4 = versioned(
        4,
        PersistedEntries::V4(vec![
            entry(
                PersistedWindowRole::Primary,
                v4_state(PersistedDisplayIdentityV4::Anonymous),
            ),
            None,
        ]),
    );
    for parsed in [v3, v4] {
        let states = decoded(parsed);
        assert_eq!(states.len(), 1);
        assert!(states.contains_key(&primary_role()));
    }
}

#[test]
fn v4_fingerprinted_target_without_fresh_evidence_stays_awaiting() {
    let identity =
        PersistedDisplayIdentityV4::Fingerprinted(PersistedDisplayFingerprintV4(9));
    let states = decoded(versioned(
        4,
        PersistedEntries::V4(vec![entry(PersistedWindowRole::Primary, v4_state(identity))]),
    ));
    assert_eq!(
        target_of(&states, &primary_role()),
        PersistedWindowTargetV5::AwaitingLegacyEvidence(
            PersistedDisplayIdentityV4::Fingerprinted(PersistedDisplayFingerprintV4(9)),
        )
    );
}

#[test]
fn v1_and_v2_keep_anonymous_targets_without_index_fallback() {
    let v1 = versioned(
        1,
        PersistedEntries::V1(vec![entry(
            PersistedWindowRole::Primary,
            v1_state(Some(IVec2::new(10, 20)), 7),
        )]),
    );
    let v2 = versioned(
        2,
        PersistedEntries::V2(vec![entry(
            PersistedWindowRole::Primary,
            PersistedWindowStateV2 {
                logical_position: Some(IVec2::new(10, 20)),
                logical_width: 800,
                logical_height: 600,
                scale: scale(2.0),
                monitor: 9,
                saved_window_mode: SavedWindowModeV4::Windowed,
                app_name: String::new(),
            },
        )]),
    );
    for parsed in [v1, v2] {
        assert_eq!(
            target_of(&decoded(parsed), &primary_role()),
            PersistedWindowTargetV5::AwaitingLegacyEvidence(PersistedDisplayIdentityV4::Anonymous)
        );
    }
}

fn read_back(states: &RoleMap<PersistedWindowPlacement>) -> RoleMap<PersistedWindowState> {
    let entries = encode(states).into_iter().map(Some).collect();
    decoded(versioned(CURRENT_STATE_VERSION, PersistedEntries::V5(entries)))
}

#[test]
fn v5_roundtrip_keeps_a_classified_and_an_awaiting_target() {
    let classified = PersistedWindowState {
        target: PersistedWindowTargetV5::Classified(synthesized_key(17)),
        ..awaiting_state()
    };
    let decoded = read_back(&placements([
        (
            primary_role(),
            PersistedWindowPlacement::from(classified.clone()),
        ),
        (
            managed_role("offline"),
            PersistedWindowPlacement::from(awaiting_state()),
        ),
    ]));
    assert_eq!(decoded.get(&primary_role()), Some(&classified));
    assert_eq!(decoded.len(), 2);
}

#[test]
fn v5_roundtrip_accepts_a_registered_reported_display_key() {
    let state = PersistedWindowState {
        target: PersistedWindowTargetV5::Classified(reported_key("edid-serial", "reported-panel")),
        ..awaiting_state()
    };
    let decoded = read_back(&placements([(
        primary_role(),
        PersistedWindowPlacement::from(state.clone()),
    )]));
    assert_eq!(decoded.get(&primary_role()), Some(&state));
}

#[test]
fn invalid_v5_targets_are_rejected_without_losing_valid_siblings() {
    let camera = DeviceKey {
        kind: DeviceKind::Camera,
        id: DeviceIdSource::Synthesized { digest: Digest(44) },
    };
    let states = decoded(versioned(
        5,
        PersistedEntries::V5(vec![
            entry(PersistedWindowRole::Primary, awaiting_state()),
            entry(
                PersistedWindowRole::Managed(String::from("camera")),
                PersistedWindowState {
                    target: PersistedWindowTargetV5::Classified(camera.clone()),
                    ..awaiting_state()
                },
            ),
            entry(
                PersistedWindowRole::Managed(String::from("unknown-scheme")),
                PersistedWindowState {
                    target: PersistedWindowTargetV5::Classified(reported_key(
                        "unregistered",
                        "panel",
                    )),
                    ..awaiting_state()
                },
            ),
        ]),
    ));
    assert_eq!(states.len(), 1);
    assert!(states.contains_key(&primary_role()));
    assert_eq!(
        validate_classified_key(&camera, &schemes()),
        Err(PersistedWindowIdentityMigrationFailure::NonDisplayKey {
            found: DeviceKind::Camera,
        })
    );
    assert_eq!(
        validate_classified_key(&reported_key("unregistered", "panel"), &schemes()),
        Err(PersistedWindowIdentityMigrationFailure::UnregisteredScheme {
            scheme: SchemeName::new("unregistered").expect("valid scheme"),
        })
    );
}

#[test]
fn malformed_entry_isolated_after_valid_envelope() {
    let states = decoded(versioned(
        5,
        PersistedEntries::V5(vec![
            entry(
                PersistedWindowRole::Primary,
                PersistedWindowState {
                    position: PersistedPosition::Unpositioned,
                    ..awaiting_state()
                },
            ),
            None,
        ]),
    ));
    assert_eq!(states.len(), 1);
    assert!(states.contains_key(&primary_role()));
}

#[test]
fn syntactically_invalid_ron_remains_a_whole_file_failure() {
    assert_eq!(envelope_format(None), EnvelopeFormat::LegacySingleWindow);
    assert!(matches!(
        decode_with(ParsedStateFile::LegacySingleWindow(None)),
        PersistedWindowStateDecodeOutcome::WholeFileRejected
    ));
}

#[test]
fn versions_must_agree_and_be_supported() {
    for parsed in [
        ParsedStateFile::Versioned {
            probed_version: 4,
            envelope: Some((5, PersistedEntries::V5(Vec::new()))),
        },
        versioned(250, PersistedEntries::Unsupported),
        versioned(0, PersistedEntries::V5(Vec::new())),
        versioned(2, PersistedEntries::V1(Vec::new())),
    ] {
        assert!(matches!(
            decode_with(parsed),
            PersistedWindowStateDecodeOutcome::WholeFileRejected
        ));
    }
    for version in [0, 6, 250] {
        assert_eq!(envelope_format(Some(version)), EnvelopeFormat::Strict);
    }
}

#[test]
fn a_bare_record_becomes_the_primary_window() {
    let states = decoded(ParsedStateFile::LegacySingleWindow(Some(v1_state(
        Some(IVec2::new(10, 20)),
        0,
    ))));
    assert_eq!(states.len(), 1);
    let state = states.get(&primary_role()).expect("the primary record");
    assert_eq!(state.logical_width, 800);
    assert_eq!(state.app_name, "test-app");
    assert_eq!(
        state.position,
        PersistedPosition::Unrebased(
            UnrebasedDesktopPosition::from_legacy(IVec2::new(10, 20), scale(1.0))
                .expect("a usable scale")
        )
    );
}

#[test]
fn a_role_that_occurs_again_takes_its_state_back() {
    let primary = |logical_width| {
        entry(
            PersistedWindowRole::Primary,
            PersistedWindowState {
                logical_width,
                ..awaiting_state()
            },
        )
    };
    let other = || {
        entry(
            PersistedWindowRole::Managed(String::from("other")),
            awaiting_state(),
        )
    };
    let twice = decoded(versioned(
        5,
        PersistedEntries::V5(vec![primary(1), other(), primary(2)]),
    ));
    assert!(!twice.contains_key(&primary_role()));
    assert!(twice.contains_key(&managed_role("other")));
    let thrice = decoded(versioned(
        5,
        PersistedEntries::V5(vec![primary(1), other(), primary(2), primary(3)]),
    ));
    assert_eq!(
        thrice.get(&primary_role()).map(|state| state.logical_width),
        Some(3)
    );
    assert!(thrice.contains_key(&managed_role("other")));
}

#[test]
fn an_unusable_scale_leaves_a_window_unpositioned() {
    for unusable in [0.0, -1.0, f64::NAN, f64::INFINITY] {
        let states = decoded(versioned(
            2,
            PersistedEntries::V2(vec![entry(
                PersistedWindowRole::Primary,
                PersistedWindowStateV2 {
                    logical_position: Some(IVec2::new(10, 20)),
                    logical_width: 800,
                    logical_height: 600,
                    scale: scale(unusable),
                    monitor: 0,
                    saved_window_mode: SavedWindowModeV4::BorderlessFullscreen,
                    app_name: String::new(),
                },
            )]),
        ));
        let state = states.get(&primary_role()).expect("the primary record");
        assert_eq!(state.position, PersistedPosition::Unpositioned);
        assert_eq!(
            state.saved_window_mode,
            SavedWindowMode::BorderlessFullscreen
        );
    }
}

#[test]
fn an_old_fullscreen_mode_without_a_video_mode_means_the_current_one() {
    let video_mode = SavedVideoMode {
        physical_size: UVec2::new(1_920, 1_080),
        bit_depth: 24,
        refresh_rate_millihertz: 60_000,
    };
    for (saved, expected) in [
        (None, SavedFullscreenVideoMode::Current),
        (Some(video_mode), SavedFullscreenVideoMode::Specific(video_mode)),
    ] {
        let states = decoded(versioned(
            4,
            PersistedEntries::V4(vec![entry(
                PersistedWindowRole::Primary,
                PersistedWindowStateV4 {
                    saved_window_mode: SavedWindowModeV4::Fullscreen { video_mode: saved },
                    ..v4_state(PersistedDisplayIdentityV4::Anonymous)
                },
            )]),
        ));
        assert_eq!(
            states
                .get(&primary_role())
                .map(|state| state.saved_window_mode),
            Some(SavedWindowMode::Fullscreen {
                video_mode: expected
            })
        );
    }
}

#[test]
fn entries_are_written_in_role_order() {
    let unsupported = RoleKey::new("camera:front").expect("valid role");
    let entries = encode(&placements([
        (managed_role("b"), serialized_placement("b")),
        (unsupported, serialized_placement("camera")),
        (managed_role("a"), serialized_placement("a")),
        (primary_role(), serialized_placement("primary")),
        (managed_role("\u{e4}"), serialized_placement("umlaut")),
        (managed_role("ab"), serialized_placement("ab")),
    ]));
    let names: Vec<String> = entries
        .iter()
        .map(|entry| entry.persisted_role.to_text())
        .collect();
    assert_eq!(names, vec!["primary", "a", "ab", "b", "\u{e4}"]);
}

#[test]
fn save_then_load_roundtrip() {
    let loaded = read_back(&placements([
        (primary_role(), serialized_placement("test-app")),
        (managed_role("primary"), serialized_placement("test-app")),
    ]));
    assert!(loaded.contains_key(&primary_role()));
    assert!(loaded.contains_key(&managed_role("primary")));
}

#[test]
fn role_key_roundtrip_preserves_primary_and_managed_namespaces() {
    let primary = primary_role();
    let managed = managed_role("primary");
    assert_ne!(primary, managed);
    let loaded = read_back(&placements([
        (primary.clone(), serialized_placement("test")),
        (managed.clone(), serialized_placement("test")),
    ]));
    assert!(loaded.contains_key(&primary));
    assert!(loaded.contains_key(&managed));
    for role in [primary, managed] {
        let persisted = PersistedWindowRole::try_from(&role).expect("a window role");
        assert_eq!(persisted.role_key(), Ok(role));
    }
    assert!(PersistedWindowRole::try_from(&RoleKey::new("camera").expect("valid role")).is_err());
    assert_eq!(RoleKey::new(""), Err(IdentifierError::Empty));
    assert_eq!(primary_role().as_str(), "window:primary");
    assert_eq!(managed_role("x").as_str(), "window:managed:x");
}

#[test]
fn startup_loader_reads_and_seeds_once() {
    let decoded = Some(decode_with(versioned(
        5,
        PersistedEntries::V5(vec![entry(PersistedWindowRole::Primary, awaiting_state())]),
    )));
    let mut persisted = PersistedWindowPlacements::new();
    assert_eq!(persisted.startup_load_status(), StartupLoadStatus::Pending);

    load_persisted_window_placements(&mut persisted, &decoded);
    load_persisted_window_placements(&mut persisted, &None);

    assert_eq!(persisted.startup_load_status(), StartupLoadStatus::Read);
    assert!(persisted.get(&primary_role()).is_saved());
    assert!(persisted.get(&managed_role("x")).is_not_saved());
    assert!(persisted.has_saved_configuration(&primary_role()));
    assert!(!persisted.has_saved_configuration(&managed_role("x")));
    assert_eq!(persisted.pending_write(), PendingWrite::Settled);
    assert!(matches!(
        persisted.get(&primary_role()),
        PersistedWindowPlacementLookup::Saved(placement)
            if placement.loaded_binding_policy == LoadedBindingPolicy::LegacyWindowMarkers
    ));
}

#[test]
fn only_an_unreadable_file_is_backed_up() {
    assert!(must_be_backed_up(&Some(
        PersistedWindowStateDecodeOutcome::WholeFileRejected
    )));
    assert!(!must_be_backed_up(&Some(
        PersistedWindowStateDecodeOutcome::Decoded(RoleMap::new())
    )));
    assert!(!must_be_backed_up(&None));
}

#[test]
fn backups_get_the_first_unused_name() {
    assert_eq!(backup_label(Some(250)), "v250");
    assert_eq!(backup_label(None), "corrupt");
    let mut existing = vec![String::from("windows.ron")];
    let first = unused_backup_path("windows.ron", "v250", &existing);
    assert_eq!(first.as_deref(), Some("windows.ron.bak.v250"));
    existing.push(String::from("windows.ron.bak.v250"));
    let second = unused_backup_path("windows.ron", "v250", &existing);
    assert_eq!(second.as_deref(), Some("windows.ron.bak.v250.1"));
    assert_eq!(
        unused_backup_path("windows.ron", "corrupt", &existing).as_deref(),
        Some("windows.ron.bak.corrupt")
    );
    for attempt in 1..BACKUP_MAX_ATTEMPTS {
        existing.push(format!("windows.ron.bak.v250.{attempt}"));
    }
    assert_eq!(unused_backup_path("windows.ron", "v250", &existing), None);
}

#[test]
fn examples_share_their_package_directory() {
    let example = default_state_location("demo", Some("examples"), "hana_clerestory");
    assert_eq!(example.directory, "hana_clerestory");
    assert_eq!(example.file, "demo.ron");
    for parent in [Some("debug"), None] {
        let binary = default_state_location("demo", parent, "hana_clerestory");
        assert_eq!(binary.directory, "demo");
        assert_eq!(binary.file, "windows.ron");
    }
    let app = state_location_for_app("stage");
    assert_eq!(app.directory, "stage");
    assert_eq!(app.file, "windows.ron");
}

fn established(logical_offset: IVec2, logical_size: UVec2) -> EstablishedWindowPlacement {
    EstablishedWindowPlacement {
        position: EstablishedWindowPosition::Restorable { logical_offset },
        logical_size,
        saved_window_mode: SavedWindowMode::Windowed,
    }
}

#[test]
fn established_configuration_projects_only_serialized_fields() {
    let placement = EstablishedWindowPlacement {
        position: EstablishedWindowPosition::Restorable {
            logical_offset: IVec2::new(20, 40),
        },
        logical_size: UVec2::new(800, 600),
        saved_window_mode: SavedWindowMode::from(&WindowMode::Windowed),
    };

    let persisted = placement.project(synthesized_key(42), "clerestory");

    assert_eq!(
        persisted.position,
        PersistedPosition::MonitorOffset(IVec2::new(20, 40))
    );
    assert_eq!(persisted.logical_width, 800);
    assert_eq!(persisted.logical_height, 600);
    assert_eq!(EstablishedWindowPlacement::from(&persisted), placement);
}

/// The conversions that a monitor's scale calls for.
fn scaled_origin(offset: IVec2, monitor: &MonitorDescriptor, scale: f64) -> ScaledMonitorOrigin {
    ScaledMonitorOrigin {
        physical_offset: IVec2::new(
            (f64::from(offset.x) * scale).round() as i32,
            (f64::from(offset.y) * scale).round() as i32,
        ),
        logical_origin: IVec2::new(
            (f64::from(monitor.physical_position.x) / scale).round() as i32,
            (f64::from(monitor.physical_position.y) / scale).round() as i32,
        ),
    }
}

#[test]
fn established_offset_rebases_only_through_the_exact_live_descriptor() {
    let placement = established(IVec2::new(20, 40), UVec2::new(800, 600));
    let live = MonitorDescriptor::for_current_enumeration(
        7,
        scale(2.0),
        IVec2::new(-2_000, 100),
        UVec2::new(1_920, 1_080),
    );

    assert_eq!(
        placement.restorable_position(&live, scaled_origin(IVec2::new(20, 40), &live, 2.0)),
        RestorableWindowPosition::Restorable {
            physical_position: IVec2::new(-1_960, 180),
            logical_position: IVec2::new(-980, 90),
        }
    );
    let unpositioned = EstablishedWindowPlacement {
        position: EstablishedWindowPosition::CompositorControlled,
        ..placement
    };
    assert_eq!(
        unpositioned.restorable_position(&live, scaled_origin(IVec2::new(0, 0), &live, 2.0)),
        RestorableWindowPosition::CompositorControlled
    );
}

#[test]
fn readbacks_are_measured_from_the_monitor() {
    let live = MonitorDescriptor::for_current_enumeration(
        0,
        scale(2.0),
        IVec2::new(-2_000, 100),
        UVec2::new(1_920, 1_080),
    );
    let position = Some(IVec2::new(-1_960, 180));
    assert_eq!(
        readback_physical_offset(&live, position, Platform::X11),
        Some(IVec2::new(40, 80))
    );
    assert_eq!(readback_physical_offset(&live, position, Platform::Wayland), None);
    assert_eq!(readback_physical_offset(&live, None, Platform::X11), None);
    let placement = EstablishedWindowPlacement::from_readback(
        Some(IVec2::new(20, 40)),
        UVec2::new(800, 600),
        &WindowMode::BorderlessFullscreen(MonitorSelection::Current),
    );
    assert_eq!(
        placement,
        EstablishedWindowPlacement {
            saved_window_mode: SavedWindowMode::BorderlessFullscreen,
            ..established(IVec2::new(20, 40), UVec2::new(800, 600))
        }
    );
    assert_eq!(
        EstablishedWindowPlacement::from_readback(
            None,
            UVec2::new(800, 600),
            &WindowMode::Windowed
        )
        .position,
        EstablishedWindowPosition::CompositorControlled
    );
}

#[test]
fn a_window_is_drawn_back_inside_a_smaller_monitor() {
    let monitor = UVec2::new(1_280, 720);
    for (offset, size, fitted_offset, fitted_size) in [
        ((2_000, -40), (800, 600), (480, 0), (800, 600)),
        ((100, 100), (3_000, 2_000), (0, 0), (1_280, 720)),
        ((100, 50), (800, 600), (100, 50), (800, 600)),
        ((100, 130), (800, 600), (100, 120), (800, 600)),
    ] {
        let placement = established(
            IVec2::new(offset.0, offset.1),
            UVec2::new(size.0, size.1),
        );
        let expected = established(
            IVec2::new(fitted_offset.0, fitted_offset.1),
            UVec2::new(fitted_size.0, fitted_size.1),
        );
        assert_eq!(placement.fitted_to(monitor), expected);
        assert_eq!(expected.fitted_to(monitor), expected);
    }
}

#[test]
fn window_modes_save_and_restore() {
    let mode = VideoMode {
        physical_size: UVec2::new(1_920, 1_080),
        bit_depth: 24,
        refresh_rate_millihertz: 60_000,
    };
    let index = CurrentMonitorIndex::from_current_enumeration(2);
    for live in [
        WindowMode::Windowed,
        WindowMode::BorderlessFullscreen(MonitorSelection::Index(2)),
        WindowMode::Fullscreen(MonitorSelection::Index(2), VideoModeSelection::Current),
        WindowMode::Fullscreen(
            MonitorSelection::Index(2),
            VideoModeSelection::Specific(mode),
        ),
    ] {
        let saved = SavedWindowMode::from(&live);
        assert_eq!(saved.to_window_mode(index), live);
        assert_eq!(saved.is_fullscreen(), live != WindowMode::Windowed);
    }
}

#[test]
fn a_legacy_record_hands_placement_to_the_compositor() {
    let unrebased = UnrebasedDesktopPosition::from_legacy(IVec2::new(1, 2), scale(1.5))
        .expect("a usable scale");
    assert_eq!(unrebased.logical(), IVec2::new(1, 2));
    assert_eq!(unrebased.captured_scale(), scale(1.5));
    let persisted = PersistedWindowState {
        position: PersistedPosition::Unrebased(unrebased),
        ..awaiting_state()
    };
    assert_eq!(
        EstablishedWindowPlacement::from(&persisted).position,
        EstablishedWindowPosition::CompositorControlled
    );
}

fn authored_key() -> DeviceKey {
    DeviceKey {
        kind: DeviceKind::Display,
        id: DeviceIdSource::Authored {
            value: AuthoredId::new("configured-display").expect("valid identifier"),
        },
    }
}

fn placement() -> EstablishedWindowPlacement {
    established(IVec2::new(10, 20), UVec2::new(800, 600))
}

#[test]
fn established_configuration_projects_only_from_a_ready_kernel_binding() {
    let inventory = HardwareInventory::new();
    let project = |readiness| {
        project_established_values(
            &authored_key(),
            readiness,
            LastKnownGoodConfiguration::Window(placement()),
            &inventory,
            "clerestory",
        )
    };
    assert!(matches!(
        project(EstablishedRoleReadiness::Established),
        EstablishedWindowPersistenceProjection::WritableSerializedValue(placement)
            if placement.window_state.position
                == PersistedPosition::MonitorOffset(IVec2::new(10, 20))
    ));
    assert!(matches!(
        project(EstablishedRoleReadiness::NotEstablished),
        EstablishedWindowPersistenceProjection::NonReadyRole
    ));
}

#[test]
fn offline_inventory_blocks_writes_without_changing_captured_configuration() {
    let mut inventory = HardwareInventory::new();
    inventory.configure(authored_key(), ConfiguredDeviceMode::Offline);
    let last_known_good = LastKnownGoodConfiguration::Window(placement());

    assert!(matches!(
        project_established_values(
            &authored_key(),
            EstablishedRoleReadiness::Established,
            last_known_good,
            &inventory,
            "clerestory",
        ),
        EstablishedWindowPersistenceProjection::OfflineInventory
    ));
    assert_eq!(
        last_known_good,
        LastKnownGoodConfiguration::Window(placement())
    );
}

#[test]
fn not_established_does_not_make_a_ready_binding_writable() {
    assert!(matches!(
        project_established_values(
            &authored_key(),
            EstablishedRoleReadiness::Established,
            LastKnownGoodConfiguration::NotEstablished,
            &HardwareInventory::new(),
            "clerestory",
        ),
        EstablishedWindowPersistenceProjection::MissingLastKnownGoodConfiguration
    ));
    assert!(matches!(
        project_established_values(
            &authored_key(),
            EstablishedRoleReadiness::Established,
            LastKnownGoodConfiguration::OtherDriver,
            &HardwareInventory::new(),
            "clerestory",
        ),
        EstablishedWindowPersistenceProjection::WrongErasedConfiguration
    ));
}

fn seeded(
    states: RoleMap<PersistedWindowPlacement>,
) -> PersistedWindowPlacements {
    let mut persisted = PersistedWindowPlacements::new();
    persisted.seed(states);
    persisted
}

#[test]
fn only_an_absent_binding_costs_a_role_its_retained_record() {
    let role = primary_role();
    for retention in [
        ManagedWindowPersistence::RememberAll,
        ManagedWindowPersistence::ActiveOnly,
    ] {
        for refusal in [
            EstablishedWindowPersistenceProjection::AbsentBinding,
            EstablishedWindowPersistenceProjection::NonReadyRole,
            EstablishedWindowPersistenceProjection::OfflineInventory,
            EstablishedWindowPersistenceProjection::MissingLastKnownGoodConfiguration,
            EstablishedWindowPersistenceProjection::WrongErasedConfiguration,
        ] {
            let persisted = seeded(placements([(
                role.clone(),
                serialized_placement("retained"),
            )]));
            let mut projected = initial_serialized_states(retention, &persisted, &Vec::new());
            let role_is_gone = matches!(
                refusal,
                EstablishedWindowPersistenceProjection::AbsentBinding
            ) && retention == ManagedWindowPersistence::ActiveOnly;
            let shown = format!("{refusal:?} did not follow {retention:?}");
            apply_projection(&mut projected, role.clone(), refusal, retention);

            assert_eq!(projected.contains_key(&role), !role_is_gone, "{shown}");
        }
    }
}

#[test]
fn writable_projection_replaces_the_retained_value() {
    let role = primary_role();
    let mut projected = placements([(role.clone(), serialized_placement("retained"))]);

    apply_projection(
        &mut projected,
        role.clone(),
        EstablishedWindowPersistenceProjection::WritableSerializedValue(serialized_placement(
            "current",
        )),
        ManagedWindowPersistence::ActiveOnly,
    );

    assert_eq!(
        projected
            .get(&role)
            .map(|state| state.window_state.app_name.as_str()),
        Some("current")
    );
}

#[test]
fn managed_role_filter_drops_a_closed_managed_window() {
    let primary = primary_role();
    let managed = managed_role("closed");
    let persisted = seeded(placements([
        (primary.clone(), serialized_placement("primary")),
        (managed.clone(), serialized_placement("managed")),
    ]));

    let projected = initial_serialized_states(
        ManagedWindowPersistence::ActiveOnly,
        &persisted,
        &Vec::new(),
    );

    assert!(projected.contains_key(&primary));
    assert!(!projected.contains_key(&managed));
    let remembered = initial_serialized_states(
        ManagedWindowPersistence::RememberAll,
        &persisted,
        &Vec::new(),
    );
    assert!(remembered.contains_key(&managed));
}

fn live_displays(identity: DisplayIdentity, key: DeviceKey) -> LiveDisplayEndpointLookup {
    LiveDisplayEndpointLookup::new(vec![(
        key,
        LiveDisplayEndpoint {
            monitor: 1,
            descriptor: MonitorDescriptor::for_current_enumeration(
                0,
                scale(1.0),
                IVec2::new(0, 0),
                UVec2::new(1_920, 1_080),
            ),
            legacy_identity: identity,
        },
    )])
}

fn fingerprinted(digest: u64) -> (PersistedDisplayIdentityV4, DisplayIdentity) {
    (
        PersistedDisplayIdentityV4::Fingerprinted(PersistedDisplayFingerprintV4(digest)),
        DisplayIdentity::Fingerprinted(DisplayFingerprint::from_digest(digest)),
    )
}

fn awaiting_placement(identity: PersistedDisplayIdentityV4) -> PersistedWindowPlacement {
    PersistedWindowPlacement::from(PersistedWindowState {
        target: PersistedWindowTargetV5::AwaitingLegacyEvidence(identity),
        ..awaiting_state()
    })
}

#[test]
fn resolved_pending_target_forces_its_next_normal_save() {
    let (saved, live) = fingerprinted(9);
    let mut persisted = seeded(placements([(primary_role(), awaiting_placement(saved))]));
    let project = |persisted: &PersistedWindowPlacements| {
        initial_serialized_states(ManagedWindowPersistence::RememberAll, persisted, &Vec::new())
    };

    assert!(!write_is_required_after_projection(
        &persisted,
        &project(&persisted)
    ));
    persisted.resolve_pending(&live_displays(live, synthesized_key(9)), &schemes());
    assert_eq!(persisted.pending_write(), PendingWrite::Owed);
    assert!(write_is_required_after_projection(
        &persisted,
        &project(&persisted)
    ));
    assert!(matches!(
        persisted.get(&primary_role()),
        PersistedWindowPlacementLookup::Saved(placement)
            if placement.window_state.target
                == PersistedWindowTargetV5::Classified(synthesized_key(9))
    ));
}

#[test]
fn a_rejected_key_removes_only_its_own_record() {
    let (saved, live) = fingerprinted(9);
    let mut persisted = seeded(placements([
        (primary_role(), awaiting_placement(saved)),
        (
            managed_role("other"),
            awaiting_placement(PersistedDisplayIdentityV4::Anonymous),
        ),
    ]));
    persisted.resolve_pending(
        &live_displays(live, reported_key("unregistered", "panel")),
        &schemes(),
    );
    assert!(persisted.get(&primary_role()).is_not_saved());
    assert!(persisted.get(&managed_role("other")).is_saved());
    assert!(persisted.has_saved_configuration(&primary_role()));
    assert_eq!(persisted.pending_write(), PendingWrite::Owed);
}

#[test]
fn a_target_without_a_live_match_keeps_waiting() {
    let (saved, _) = fingerprinted(9);
    let (_, other) = fingerprinted(10);
    let mut persisted = seeded(placements([(primary_role(), awaiting_placement(saved))]));
    persisted.resolve_pending(&live_displays(other, synthesized_key(10)), &schemes());
    assert_eq!(persisted.pending_write(), PendingWrite::Settled);
    assert!(persisted.get(&primary_role()).is_saved());
}

#[test]
fn a_resolved_policy_owes_the_file_a_write() {
    let mut persisted = seeded(placements([(
        primary_role(),
        awaiting_placement(PersistedDisplayIdentityV4::Anonymous),
    )]));
    persisted.resolve_loaded_policy(&managed_role("absent"), sample_policy());
    assert_eq!(persisted.pending_write(), PendingWrite::Settled);
    persisted.resolve_loaded_policy(&primary_role(), sample_policy());
    assert_eq!(persisted.pending_write(), PendingWrite::Owed);
    assert!(matches!(
        persisted.get(&primary_role()),
        PersistedWindowPlacementLookup::Saved(placement)
            if placement.loaded_binding_policy == LoadedBindingPolicy::Saved(sample_policy())
    ));
    persisted.mark_written();
    assert_eq!(persisted.pending_write(), PendingWrite::Settled);
}

/// The parts that a save is made from, and the records that the file holds.
struct PersistenceHarness {
    source: ProjectionSource,
    managed_roles: Vec<RoleKey>,
    persisted: PersistedWindowPlacements,
}

impl PersistenceHarness {
    fn new(managed: bool) -> Self {
        let mut bindings = RoleMap::new();
        let mut role_statuses = RoleMap::new();
        for (role, device) in [
            (primary_role(), reported_key("clerestory-test", "primary-display")),
            (
                managed_role("inspector"),
                reported_key("clerestory-test", "inspector-display"),
            ),
        ] {
            role_statuses.insert(role.clone(), RoleStatus::Established);
            bindings.insert(
                role,
                WindowBinding {
                    device,
                    policy: BindingPolicy {
                        recovery: RecoveryPolicy::ReapplyOnReturn,
                        kernel_settings: 0,
                    },
                    last_known_good: LastKnownGoodConfiguration::Window(placement()),
                },
            );
        }
        let mut harness = Self {
            source: ProjectionSource {
                bindings,
                role_statuses,
                inventory: HardwareInventory::new(),
                app_name: String::from("clerestory"),
            },
            managed_roles: if managed {
                vec![managed_role("inspector")]
            } else {
                Vec::new()
            },
            persisted: seeded(RoleMap::new()),
        };
        harness.update(true, StateFileWrite::Written);
        harness
    }

    /// Run one save and report whether it wrote anything.
    fn update(&mut self, observed_change: bool, write: StateFileWrite) -> bool {
        let records = write_established_window_configurations(
            &self.source,
            &self.managed_roles,
            ManagedWindowPersistence::ActiveOnly,
            &self.persisted,
            observed_change,
        );
        match records {
            Some(records) => {
                settle_write(&mut self.persisted, records, write);
                true
            }
            None => false,
        }
    }

    fn record(&self, role: &RoleKey) -> Option<PersistedWindowPlacement> {
        match self.persisted.get(role) {
            PersistedWindowPlacementLookup::Saved(placement) => Some(placement.clone()),
            PersistedWindowPlacementLookup::NotSaved => None,
        }
    }
}

#[test]
fn an_offline_display_does_not_cost_a_role_its_saved_record() {
    let mut harness = PersistenceHarness::new(true);
    let device = reported_key("clerestory-test", "primary-display");
    let primary_record = harness.record(&primary_role());
    assert!(primary_record.is_some());
    assert!(harness.record(&managed_role("inspector")).is_some());

    harness
        .source
        .inventory
        .configure(device.clone(), ConfiguredDeviceMode::Offline);
    harness.update(true, StateFileWrite::Written);
    assert_eq!(harness.record(&primary_role()), primary_record);
    assert!(harness.record(&managed_role("inspector")).is_some());

    harness
        .source
        .inventory
        .configure(device, ConfiguredDeviceMode::Managed);
    harness.update(true, StateFileWrite::Written);
    assert!(harness.record(&primary_role()).is_some());
    assert!(harness.record(&managed_role("inspector")).is_some());
}

#[test]
fn managed_membership_change_reprojects_the_role_set() {
    let mut harness = PersistenceHarness::new(false);
    assert!(harness.record(&primary_role()).is_some());
    assert!(harness.record(&managed_role("inspector")).is_none());

    harness.managed_roles.push(managed_role("inspector"));
    harness.update(true, StateFileWrite::Written);

    assert!(harness.record(&primary_role()).is_some());
    assert!(harness.record(&managed_role("inspector")).is_some());
}

#[test]
fn unchanged_update_does_not_attempt_a_file_replacement() {
    let mut harness = PersistenceHarness::new(true);
    assert!(!harness.update(false, StateFileWrite::Written));
    assert!(!harness.update(true, StateFileWrite::Written));
}

#[test]
fn a_failed_write_is_made_again() {
    let mut harness = PersistenceHarness::new(false);
    harness.managed_roles.push(managed_role("inspector"));
    assert!(harness.update(true, StateFileWrite::Failed));
    assert!(harness.record(&managed_role("inspector")).is_none());
    assert!(harness.update(true, StateFileWrite::Written));
    assert!(harness.record(&managed_role("inspector")).is_some());
}

#[test]
fn a_closed_window_is_dropped_and_remembered_as_saved() {
    let mut harness = PersistenceHarness::new(true);
    harness.managed_roles.clear();
    assert!(harness.update(true, StateFileWrite::Written));
    assert!(harness.record(&managed_role("inspector")).is_none());
    assert!(harness
        .persisted
        .has_saved_configuration(&managed_role("inspector")));
}

#[test]
fn a_projected_record_carries_the_binding_policy() {
    let harness = PersistenceHarness::new(false);
    let record = harness.record(&primary_role()).expect("a record");
    assert_eq!(
        record.loaded_binding_policy,
        LoadedBindingPolicy::Saved(BindingPolicy {
            recovery: RecoveryPolicy::ReapplyOnReturn,
            kernel_settings: 0,
        })
    );
    assert_eq!(record.window_state.app_name, "clerestory");
}
