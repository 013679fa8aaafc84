//! The monitor topology and how it changes.

use hana_clerestory::device::AttachmentPath;
use hana_clerestory::device::PlatformDeviceHandle;
use hana_clerestory::device::ReportedId;
use hana_clerestory::device::ReportedSerial;
use hana_clerestory::geometry::IVec2;
use hana_clerestory::geometry::UVec2;
use hana_clerestory::monitors::identity::DisplayIdentityEvidence;
use hana_clerestory::monitors::identity::MonitorConfigurationState;
use hana_clerestory::monitors::identity::MonitorIdentificationError;
use hana_clerestory::monitors::monitor_probe::changed_probe_records;
use hana_clerestory::monitors::monitor_probe::current_probe_records;
use hana_clerestory::monitors::monitor_probe::MonitorEntityState;
use hana_clerestory::monitors::monitor_probe::TopologyChangeKind;
use hana_clerestory::monitors::monitor_probe::TopologyProducerSchedule;
use hana_clerestory::monitors::monitor_probe::TopologyProduction;
use hana_clerestory::monitors::native::MacOsDisplayUuid;
use hana_clerestory::monitors::native::MonitorReading;
use hana_clerestory::monitors::topology::DisplayDeviceEvidence;
use hana_clerestory::monitors::topology::InstalledMonitor;
use hana_clerestory::monitors::topology_change::init_monitors;
use hana_clerestory::monitors::topology_change::installed_topology_changed;
use hana_clerestory::monitors::topology_change::monitor_changes;
use hana_clerestory::monitors::topology_change::topology_scan_is_due;
use hana_clerestory::monitors::topology_change::update_monitors;
use hana_clerestory::monitors::topology_change::DisplayTopologyObservation;
use hana_clerestory::monitors::topology_scan::assign_cached_monitor_order;
use hana_clerestory::monitors::topology_scan::build_monitors;
use hana_clerestory::monitors::topology_scan::display_evidence;
use hana_clerestory::monitors::topology_scan::EnumerationOrder;
use hana_clerestory::monitors::topology_scan::InjectedMonitorEvidence;
use hana_clerestory::monitors::topology_scan::MonitorHandle;
use hana_clerestory::monitors::topology_scan::ScannedMonitor;
use hana_clerestory::monitors::topology_scan::ScriptedDisplay;
use hana_clerestory::monitors::topology_scan::TopologyProducerActivity;
use hana_clerestory::platform::OperatingSystem;
use hana_clerestory::scale::ScaleFactor;
use hana_clerestory::window_mode::MonitorSelection;
use hana_clerestory::CurrentMonitorIndex;
use hana_clerestory::DisplayFingerprint;
use hana_clerestory::DisplayIdentity;
use hana_clerestory::DisplayProductName;
use hana_clerestory::MonitorDescriptor;
use hana_clerestory::MonitorTopologyRevision;
use hana_clerestory::Monitors;
use hana_clerestory::Platform;

fn scale(value: f64) -> ScaleFactor {
    ScaleFactor::from_bits(value.to_bits())
}

fn descriptor(index: usize) -> MonitorDescriptor {
    MonitorDescriptor::for_current_enumeration(
        index,
        scale(2.0),
        IVec2::new(index as i32 * 1920, 0),
        UVec2::new(1920, 1080),
    )
}

fn retained(entity: u64, index: usize, legacy_identity: DisplayIdentity) -> InstalledMonitor {
    InstalledMonitor {
        entity,
        descriptor: descriptor(index),
        product_name: DisplayProductName::PlatformHasNoConcept,
        device_evidence: DisplayDeviceEvidence::unavailable(OperatingSystem::Linux),
        legacy_identity,
    }
}

#[test]
fn monitor_lifetime_changes_follow_entities_not_geometry() {
    let first = 1;
    let replacement = 2;
    let previous = Monitors::from_installed(vec![retained(first, 0, DisplayIdentity::Anonymous)]);
    let rebuilt =
        Monitors::from_installed(vec![retained(replacement, 0, DisplayIdentity::Anonymous)]);

    let changes = monitor_changes(&previous, &rebuilt);

    assert_eq!(changes.connected.len(), 1);
    assert_eq!(changes.connected[0].entity, replacement);
    assert_eq!(changes.disconnected.len(), 1);
    assert_eq!(changes.disconnected[0].entity, first);
}

fn scanned(entity: u64, handle: Option<MonitorHandle>) -> ScannedMonitor {
    ScannedMonitor {
        entity,
        cached_index: None,
        handle,
        index: usize::MAX,
        winit_name: None,
        scale: scale(1.0),
        physical_position: IVec2::new(0, 0),
        physical_size: UVec2::new(1_920, 1_080),
        reading: MonitorReading::Nothing,
    }
}

fn topology_with_injected_product_name(product_name: Option<&str>) -> Monitors {
    let entity = 7;
    let mut injected_evidence = InjectedMonitorEvidence::new();
    if let Some(product_name) = product_name {
        injected_evidence.report_product_name(entity, product_name.to_string());
    }
    build_monitors(
        vec![scanned(entity, None)],
        &EnumerationOrder::Scripted(vec![entity]),
        MonitorConfigurationState::Unavailable(
            MonitorIdentificationError::StablePhysicalIdentityUnavailable,
        ),
        Platform::X11,
        OperatingSystem::Linux,
        None,
        Some(&mut injected_evidence),
    )
}

#[test]
fn build_monitors_exposes_an_injected_product_name() {
    let monitors = topology_with_injected_product_name(Some("DELL S3425DW"));

    assert_eq!(
        monitors
            .iter()
            .iter()
            .map(|monitor| monitor.product_name.as_reported())
            .collect::<Vec<_>>(),
        vec![Some("DELL S3425DW")],
    );
}

#[test]
fn build_monitors_classifies_an_absent_injected_product_name() {
    let monitors = topology_with_injected_product_name(None);

    assert_eq!(monitors.iter().len(), 1);
    assert!(monitors.iter().iter().all(|monitor| matches!(
        monitor.product_name,
        DisplayProductName::PlatformHasNoConcept
    )));
}

#[test]
fn a_current_index_selects_by_position() {
    let index = CurrentMonitorIndex::from_current_enumeration(1);
    assert_eq!(index.select(&[10, 20, 30]), Some(&20));
    assert_eq!(index.select(&[10]), None);
    assert_eq!(index.adapter_value(), 1);
    assert_eq!(index.selection(), MonitorSelection::Index(1));
}

#[test]
fn points_are_on_the_first_monitor_that_holds_them() {
    let monitors = Monitors::from_test_monitors(
        vec![(1, descriptor(0)), (2, descriptor(1)), (3, descriptor(1))],
        OperatingSystem::Linux,
    );
    assert!(!monitors.is_empty());
    assert_eq!(*monitors.first(), descriptor(0));
    assert_eq!(monitors.at(0, 0), Some(&descriptor(0)));
    assert_eq!(monitors.at(1_919, 1_079), Some(&descriptor(0)));
    assert_eq!(monitors.at(1_920, 0), Some(&descriptor(1)));
    assert_eq!(monitors.at(1_919, 1_080), None);
    assert_eq!(monitors.at(-1, 0), None);
}

#[test]
fn points_off_every_monitor_go_to_the_nearest_one() {
    let monitors = Monitors::from_test_monitors(
        vec![(1, descriptor(0)), (2, descriptor(1))],
        OperatingSystem::Linux,
    );
    assert_eq!(*monitors.closest_to(-50, 20), descriptor(0));
    assert_eq!(*monitors.closest_to(9_000, 9_000), descriptor(1));
    assert_eq!(*monitors.closest_to(i32::MIN, i32::MIN), descriptor(0));
    assert_eq!(*monitors.closest_to(i32::MAX, i32::MAX), descriptor(1));
    assert_eq!(*monitors.closest_to(100, 100), descriptor(0));
    let far = MonitorDescriptor::for_current_enumeration(
        9,
        scale(1.0),
        IVec2::new(1_000, 0),
        UVec2::new(10, 10),
    );
    let near = MonitorDescriptor::for_current_enumeration(
        8,
        scale(1.0),
        IVec2::new(0, 0),
        UVec2::new(10, 10),
    );
    let tied = Monitors::from_test_monitors(vec![(1, near), (2, far)], OperatingSystem::Linux);
    assert_eq!(*tied.closest_to(504, 5), near);
    assert_eq!(*tied.closest_to(505, 5), far);
}

#[test]
fn a_window_belongs_to_the_monitor_of_its_centre() {
    let monitors = Monitors::from_test_monitors(
        vec![(1, descriptor(0)), (2, descriptor(1))],
        OperatingSystem::Linux,
    );
    assert_eq!(
        *monitors.monitor_for_window(IVec2::new(1_500, 0), 800, 600),
        descriptor(0)
    );
    assert_eq!(
        *monitors.monitor_for_window(IVec2::new(1_520, 0), 800, 600),
        descriptor(1)
    );
}

#[test]
fn unlisted_monitors_follow_the_listed_ones() {
    let handle = |token| {
        Some(MonitorHandle {
            token,
            native_id: 0,
        })
    };
    let ordered = assign_cached_monitor_order(
        vec![
            scanned(5, None),
            scanned(4, handle(20)),
            scanned(3, handle(99)),
            scanned(2, handle(10)),
        ],
        &EnumerationOrder::Handles(vec![10, 20, 30]),
        None,
    );
    let positions: Vec<(u64, usize)> = ordered
        .iter()
        .map(|monitor| (monitor.entity, monitor.index))
        .collect();
    assert_eq!(positions, vec![(2, 0), (4, 1), (3, 3), (5, 4)]);
}

#[test]
fn a_scripted_order_lists_entities() {
    let ordered = assign_cached_monitor_order(
        vec![scanned(5, None), scanned(4, None), scanned(9, None)],
        &EnumerationOrder::Scripted(vec![9, 5]),
        None,
    );
    let positions: Vec<(u64, usize)> = ordered
        .iter()
        .map(|monitor| (monitor.entity, monitor.index))
        .collect();
    assert_eq!(positions, vec![(9, 0), (5, 1), (4, 2)]);
}

fn build_native(
    monitor: ScannedMonitor,
    configuration: MonitorConfigurationState,
    platform: Platform,
    operating_system: OperatingSystem,
) -> Monitors {
    build_monitors(
        vec![monitor],
        &EnumerationOrder::Handles(vec![10]),
        configuration,
        platform,
        operating_system,
        None,
        None,
    )
}

#[test]
fn native_evidence_needs_a_listed_handle_and_an_observable_configuration() {
    let observed = MonitorConfigurationState::Observed { generation: 1 };
    let monitor = |token| ScannedMonitor {
        handle: Some(MonitorHandle {
            token,
            native_id: 77,
        }),
        reading: MonitorReading::MacOs {
            uuid: Some(MacOsDisplayUuid::new([3; 16])),
        },
        ..scanned(1, None)
    };
    let macos = OperatingSystem::MacOs;
    let read = build_native(monitor(10), observed, Platform::MacOs, macos);
    let installed = &read.installed()[0];
    let fingerprint = DisplayFingerprint::from_evidence_bytes(&[3; 16]);
    assert_eq!(
        installed.legacy_identity,
        DisplayIdentity::Fingerprinted(fingerprint)
    );
    assert_eq!(
        installed.device_evidence,
        DisplayDeviceEvidence {
            identity_evidence: DisplayIdentityEvidence::Synthesized {
                display_fingerprint: fingerprint,
                serial: ReportedSerial::PlatformCannotReport,
            },
            platform_device_handle: PlatformDeviceHandle::Reported(
                ReportedId::new("77").expect("valid handle")
            ),
            attachment: AttachmentPath::PlatformHasNoConcept,
        }
    );

    let unlisted = build_native(monitor(11), observed, Platform::MacOs, macos);
    let unobservable = build_native(
        monitor(10),
        MonitorConfigurationState::Unavailable(
            MonitorIdentificationError::ConfigurationGenerationExhausted,
        ),
        Platform::MacOs,
        macos,
    );
    let wayland = build_native(
        monitor(10),
        observed,
        Platform::Wayland,
        OperatingSystem::Linux,
    );
    for topology in [&unlisted, &unobservable, &wayland] {
        assert_eq!(
            topology.installed()[0].legacy_identity,
            DisplayIdentity::Anonymous
        );
    }
    assert_eq!(
        wayland.installed()[0].device_evidence.platform_device_handle,
        PlatformDeviceHandle::PlatformHasNoConcept
    );
    let handleless = build_native(scanned(1, None), observed, Platform::MacOs, macos);
    assert_eq!(
        handleless.installed()[0]
            .device_evidence
            .platform_device_handle,
        PlatformDeviceHandle::PlatformReportedNothing
    );
}

#[test]
fn scripted_displays_publish_what_their_script_says() {
    let attachment = || AttachmentPath::Reported(ReportedId::new("HDMI-A-1").expect("valid"));
    let handle = || PlatformDeviceHandle::Reported(ReportedId::new("capture").expect("valid"));
    let mut script = InjectedMonitorEvidence::for_scripted_displays(vec![
        ScriptedDisplay {
            entity: 1,
            evidence: Some(b"panel".to_vec()),
            attachment: attachment(),
            device_handle: handle(),
        },
        ScriptedDisplay {
            entity: 2,
            evidence: None,
            attachment: attachment(),
            device_handle: handle(),
        },
    ]);
    let monitors = build_monitors(
        vec![scanned(1, None), scanned(2, None), scanned(3, None)],
        &EnumerationOrder::Scripted(vec![1, 2]),
        MonitorConfigurationState::Observed { generation: 0 },
        Platform::X11,
        OperatingSystem::Linux,
        None,
        Some(&mut script),
    );
    let installed = monitors.installed();
    let fingerprint = DisplayFingerprint::from_evidence_bytes(b"panel");
    assert_eq!(
        installed[0].legacy_identity,
        DisplayIdentity::Fingerprinted(fingerprint)
    );
    assert_eq!(installed[0].device_evidence.attachment, attachment());
    assert_eq!(installed[0].device_evidence.platform_device_handle, handle());
    assert_eq!(installed[1].legacy_identity, DisplayIdentity::Anonymous);
    assert_eq!(
        installed[1].device_evidence.attachment,
        AttachmentPath::PlatformReportedNothing
    );
    assert_eq!(installed[1].device_evidence.platform_device_handle, handle());
    assert_eq!(installed[2].legacy_identity, DisplayIdentity::Anonymous);
    assert_eq!(
        installed[2].device_evidence.platform_device_handle,
        PlatformDeviceHandle::PlatformHasNoConcept
    );
}

#[test]
fn only_a_real_change_advances_the_revision() {
    assert!(!topology_scan_is_due(false, false, false));
    assert!(topology_scan_is_due(false, false, true));

    let initial = init_monitors(Monitors::from_installed(vec![retained(
        1,
        0,
        DisplayIdentity::Anonymous,
    )]));
    assert_eq!(initial.revision.get(), 0);
    assert!(!initial.clears_current_monitors);
    assert_eq!(initial.changes.connected.len(), 1);
    assert!(matches!(
        &initial.observation,
        DisplayTopologyObservation::Observed(evidence) if evidence.len() == 1
    ));

    let same = Monitors::from_installed(vec![retained(1, 0, DisplayIdentity::Anonymous)]);
    assert!(!installed_topology_changed(&initial.monitors, &same));
    assert!(update_monitors(&initial.monitors, same, initial.revision).is_none());

    let install = update_monitors(&initial.monitors, Monitors::empty(), initial.revision)
        .expect("losing the only monitor is a change");
    assert_eq!(install.revision.get(), 1);
    assert!(install.clears_current_monitors);
    assert_eq!(install.changes.disconnected.len(), 1);
}

#[test]
fn changed_evidence_is_a_change_of_its_own() {
    let previous = Monitors::from_installed(vec![retained(1, 0, DisplayIdentity::Anonymous)]);
    let identity = DisplayIdentity::Fingerprinted(DisplayFingerprint::from_digest(9));
    let rebuilt = Monitors::from_installed(vec![retained(1, 0, identity)]);
    let changes = monitor_changes(&previous, &rebuilt);
    assert!(changes.connected.is_empty());
    assert!(changes.disconnected.is_empty());
    assert_eq!(changes.evidence_changed.len(), 1);
    assert!(installed_topology_changed(&previous, &rebuilt));
    let moved = Monitors::from_installed(vec![retained(1, 1, DisplayIdentity::Anonymous)]);
    assert!(installed_topology_changed(&previous, &moved));
    assert!(monitor_changes(&previous, &moved).evidence_changed.is_empty());
}

#[test]
fn probe_records_list_connected_then_changed_then_disconnected() {
    let previous = Monitors::from_installed(vec![
        retained(1, 0, DisplayIdentity::Anonymous),
        retained(2, 1, DisplayIdentity::Anonymous),
    ]);
    let identity = DisplayIdentity::Fingerprinted(DisplayFingerprint::from_digest(9));
    let rebuilt = Monitors::from_installed(vec![
        retained(2, 1, identity),
        retained(3, 0, DisplayIdentity::Anonymous),
    ]);
    let production = TopologyProduction {
        frame_count: 12,
        schedule: TopologyProducerSchedule::Update,
        configuration: MonitorConfigurationState::Observed { generation: 4 },
        revision: MonitorTopologyRevision::from_test_raw(6),
    };
    let changes = monitor_changes(&previous, &rebuilt);
    let labels: Vec<(u64, &str, &str)> = changed_probe_records(&changes, production)
        .iter()
        .map(|record| (record.entity, record.change.label(), record.entity_state.label()))
        .collect();
    assert_eq!(
        labels,
        vec![
            (3, "connected", "current"),
            (2, "evidence-changed", "current"),
            (1, "disconnected", "former"),
        ]
    );
    let current = current_probe_records(
        &rebuilt,
        production,
        TopologyChangeKind::RevalidatedUnchanged,
    );
    assert_eq!(current.len(), 2);
    assert_eq!(current[0].change.label(), "revalidated-unchanged");
    assert_eq!(current[0].entity_state, MonitorEntityState::Current);
    assert_eq!(current[0].production.revision.get(), 6);
    assert_eq!(
        TopologyProducerSchedule::PreStartup.label(),
        "PreStartup::init_monitors"
    );
    assert_eq!(
        TopologyProducerSchedule::Update.label(),
        "Update::monitor_topology_producer"
    );
}

#[test]
fn a_monitor_index_is_written_as_its_position() {
    assert_eq!(CurrentMonitorIndex::from_current_enumeration(0).to_text(), "0");
    assert_eq!(CurrentMonitorIndex::from_current_enumeration(12).to_text(), "12");
}

fn scripted_display(entity: u64, evidence: Option<&[u8]>) -> ScriptedDisplay {
    ScriptedDisplay {
        entity,
        evidence: evidence.map(<[u8]>::to_vec),
        attachment: AttachmentPath::Reported(ReportedId::new("HDMI-A-1").expect("valid")),
        device_handle: PlatformDeviceHandle::Reported(ReportedId::new("42").expect("valid")),
    }
}

#[test]
fn an_unlisted_scripted_display_keeps_its_handle_and_loads_no_evidence() {
    for configuration in [
        MonitorConfigurationState::Observed { generation: 0 },
        MonitorConfigurationState::Unavailable(
            MonitorIdentificationError::StablePhysicalIdentityUnavailable,
        ),
    ] {
        let mut script =
            InjectedMonitorEvidence::for_scripted_displays(vec![scripted_display(1, Some(b"a"))]);
        assert_eq!(script.recorded_activity(), TopologyProducerActivity::default());

        let (evidence, identity) = display_evidence(
            &scanned(1, None),
            configuration,
            Platform::X11,
            OperatingSystem::Linux,
            Some(&mut script),
        );

        assert_eq!(
            evidence,
            DisplayDeviceEvidence {
                identity_evidence: DisplayIdentityEvidence::Unavailable {
                    serial: ReportedSerial::PlatformCannotReport,
                },
                platform_device_handle: PlatformDeviceHandle::Reported(
                    ReportedId::new("42").expect("valid")
                ),
                attachment: AttachmentPath::PlatformReportedNothing,
            }
        );
        assert_eq!(identity, DisplayIdentity::Anonymous);
        assert_eq!(
            script.recorded_activity(),
            TopologyProducerActivity {
                identity_requests: 1,
                handle_lookups: 1,
                ..TopologyProducerActivity::default()
            }
        );
    }
}

#[test]
fn a_script_counts_what_a_scan_asks_for() {
    let mut script = InjectedMonitorEvidence::for_scripted_displays(vec![
        scripted_display(1, Some(b"a")),
        scripted_display(2, None),
    ]);
    for scans in 1..=2 {
        build_monitors(
            vec![scanned(1, None), scanned(2, None), scanned(3, None)],
            &EnumerationOrder::Scripted(vec![1, 2]),
            MonitorConfigurationState::Observed { generation: 0 },
            Platform::X11,
            OperatingSystem::Linux,
            None,
            Some(&mut script),
        );
        assert_eq!(
            script.recorded_activity(),
            TopologyProducerActivity {
                topology_scans: scans,
                component_reads: 3 * scans,
                cached_order_lookups: 3 * scans,
                identity_requests: 3 * scans,
                handle_lookups: 3 * scans,
                evidence_loads: scans,
            }
        );
    }
}
