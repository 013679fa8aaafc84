//! Product names, live lookups and device associations.

use hana_clerestory::device::AttachmentPath;
use hana_clerestory::device::DeviceIdSource;
use hana_clerestory::device::DeviceKey;
use hana_clerestory::device::DeviceKind;
use hana_clerestory::device::Digest;
use hana_clerestory::device::PlatformDeviceHandle;
use hana_clerestory::device::ReportedId;
use hana_clerestory::device::ReportedSerial;
use hana_clerestory::geometry::IVec2;
use hana_clerestory::geometry::UVec2;
use hana_clerestory::inventory::ConfiguredDeviceMode;
use hana_clerestory::inventory::HardwareInventory;
use hana_clerestory::inventory::KnownDevices;
use hana_clerestory::monitors::device_association::MonitorDeviceLookup;
use hana_clerestory::monitors::discovery::display_enumeration_source_for_test_adapter_installation;
use hana_clerestory::monitors::discovery::DisplayTestAdapterInstallation;
use hana_clerestory::monitors::discovery::MonitorDiscoveryRequestCoverage;
use hana_clerestory::monitors::display_product_name::from_platform;
use hana_clerestory::monitors::display_product_name::AppKitScreen;
use hana_clerestory::monitors::identity::DisplayIdentityEvidence;
use hana_clerestory::monitors::topology::DisplayDeviceEvidence;
use hana_clerestory::monitors::topology::InstalledMonitor;
use hana_clerestory::persistence::window_state::PersistedDisplayFingerprintV4;
use hana_clerestory::persistence::window_state::PersistedDisplayIdentityV4;
use hana_clerestory::platform::OperatingSystem;
use hana_clerestory::scale::ScaleFactor;
use hana_clerestory::CurrentMonitorIndex;
use hana_clerestory::DisplayEnumerationSource;
use hana_clerestory::DisplayFingerprint;
use hana_clerestory::DisplayIdentity;
use hana_clerestory::DisplayProductName;
use hana_clerestory::LiveDisplayContradictionCount;
use hana_clerestory::LiveDisplayDevices;
use hana_clerestory::LiveDisplayEndpoint;
use hana_clerestory::LiveDisplayEndpointLookup;
use hana_clerestory::LiveDisplayMatchError;
use hana_clerestory::LiveDisplayMonitor;
use hana_clerestory::MonitorDescriptor;
use hana_clerestory::MonitorDeviceAssociation;
use hana_clerestory::MonitorDeviceKeyLookup;
use hana_clerestory::MonitorReportedHandleLookup;
use hana_clerestory::MonitorTopologyRevision;
use hana_clerestory::Monitors;
use hana_clerestory::Platform;

#[test]
fn reported_product_name_exposes_its_rendering_value() {
    let product_name = DisplayProductName::Reported(String::from("DELL S3425DW"));

    assert_eq!(product_name.as_reported(), Some("DELL S3425DW"));
}

#[test]
fn absent_product_names_expose_no_rendering_value() {
    assert_eq!(DisplayProductName::PlatformHasNoConcept.as_reported(), None);
    assert_eq!(DisplayProductName::NotReported.as_reported(), None);
    assert_ne!(
        DisplayProductName::PlatformHasNoConcept,
        DisplayProductName::NotReported,
    );
}

#[test]
fn product_names_come_from_the_platform_that_has_them() {
    let name = Some(String::from("DELL S3425DW"));
    let screens = vec![
        AppKitScreen {
            screen_number: None,
            localized_name: String::from("unnumbered"),
        },
        AppKitScreen {
            screen_number: Some(7),
            localized_name: String::from("Studio Display"),
        },
    ];
    let linux = OperatingSystem::Linux;
    assert_eq!(
        from_platform(linux, Some(7), Some(&screens), &name, Platform::X11),
        DisplayProductName::Reported(String::from("DELL S3425DW"))
    );
    assert_eq!(
        from_platform(linux, None, None, &None, Platform::Windows),
        DisplayProductName::NotReported
    );
    assert_eq!(
        from_platform(linux, None, None, &name, Platform::Wayland),
        DisplayProductName::PlatformHasNoConcept
    );
    let macos = OperatingSystem::MacOs;
    assert_eq!(
        from_platform(macos, Some(7), Some(&screens), &None, Platform::MacOs),
        DisplayProductName::Reported(String::from("Studio Display"))
    );
    for (display, listed) in [(Some(8), Some(&screens)), (None, Some(&screens)), (Some(7), None)] {
        assert_eq!(
            from_platform(macos, display, listed, &name, Platform::MacOs),
            DisplayProductName::NotReported
        );
    }
}

#[test]
fn contradiction_count_rejects_zero_and_one() {
    assert!(LiveDisplayContradictionCount::try_new(0).is_err());
    assert!(LiveDisplayContradictionCount::try_new(1).is_err());
    assert_eq!(
        LiveDisplayContradictionCount::try_new(2).map(LiveDisplayContradictionCount::get),
        Ok(2)
    );
}

#[test]
fn contradiction_counts_start_at_two_and_saturate() {
    assert_eq!(
        LiveDisplayContradictionCount::from_second_and_remaining(0).get(),
        2
    );
    assert_eq!(
        LiveDisplayContradictionCount::from_second_and_remaining(5).get(),
        7
    );
    assert_eq!(
        LiveDisplayContradictionCount::from_second_and_remaining(usize::MAX).get(),
        usize::MAX
    );
    assert_eq!(
        LiveDisplayContradictionCount::try_new(1).map_err(|error| error.to_text()),
        Err(String::from(
            "a live-display contradiction requires at least two candidates, got 1"
        ))
    );
}

#[test]
fn a_monitor_resolves_to_its_only_device() {
    assert_eq!(LiveDisplayDevices::single_device_for_test(9).device(), Ok(9));
    assert_eq!(
        LiveDisplayDevices::new(Vec::new()).device(),
        Err(LiveDisplayMatchError::NoLiveDisplayMatches)
    );
    let several = LiveDisplayDevices::new(vec![1, 2, 3]).device();
    assert_eq!(
        several,
        Err(LiveDisplayMatchError::SeveralLiveDisplaysMatch {
            count: LiveDisplayContradictionCount::from_second_and_remaining(1),
        })
    );
    assert_eq!(
        several.map_err(|error| error.to_text()),
        Err(String::from("3 live displays match"))
    );
    assert_eq!(
        LiveDisplayMatchError::NoLiveDisplayMatches.to_text(),
        "no live display matches"
    );
    assert_eq!(LiveDisplayMonitor::new(4).monitor(), 4);
}

fn key(fingerprint: DisplayFingerprint) -> DeviceKey {
    DeviceKey {
        kind: DeviceKind::Display,
        id: DeviceIdSource::Synthesized {
            digest: Digest(fingerprint.get()),
        },
    }
}

fn installed_descriptor() -> MonitorDescriptor {
    MonitorDescriptor {
        index: CurrentMonitorIndex::from_current_enumeration(4),
        scale: ScaleFactor::from_bits(2.0_f64.to_bits()),
        physical_position: IVec2::new(2_000, 10),
        physical_size: UVec2::new(1_920, 1_080),
    }
}

fn installed(
    entity: u64,
    fingerprint: DisplayFingerprint,
    platform_device_handle: PlatformDeviceHandle,
) -> InstalledMonitor {
    InstalledMonitor {
        entity,
        descriptor: installed_descriptor(),
        product_name: DisplayProductName::PlatformHasNoConcept,
        device_evidence: DisplayDeviceEvidence {
            identity_evidence: DisplayIdentityEvidence::Synthesized {
                display_fingerprint: fingerprint,
                serial: ReportedSerial::NotExposedByUnit,
            },
            platform_device_handle,
            attachment: AttachmentPath::PlatformReportedNothing,
        },
        legacy_identity: DisplayIdentity::Fingerprinted(fingerprint),
    }
}

fn topology(entity: u64, fingerprint: DisplayFingerprint) -> Monitors {
    Monitors::from_installed(vec![installed(
        entity,
        fingerprint,
        PlatformDeviceHandle::PlatformHasNoConcept,
    )])
}

#[test]
fn durable_key_resolves_to_the_exact_live_reported_handle() -> Result<(), String> {
    let fingerprint = DisplayFingerprint::from_evidence_bytes(b"handled-display");
    let reported_id = ReportedId::new("42").map_err(|error| format!("{error:?}"))?;
    let mut association = MonitorDeviceAssociation::new();
    association.refresh(&Monitors::from_installed(vec![installed(
        42,
        fingerprint,
        PlatformDeviceHandle::Reported(reported_id.clone()),
    )]));

    assert_eq!(
        association.reported_handle_for_device(&key(fingerprint)),
        MonitorReportedHandleLookup::Exact(reported_id)
    );
    Ok(())
}

#[test]
fn reported_handle_lookup_distinguishes_absent_and_unjoinable_live_monitors() {
    let fingerprint = DisplayFingerprint::from_evidence_bytes(b"unhandled-display");
    let device_key = key(fingerprint);
    let mut association = MonitorDeviceAssociation::new();

    assert_eq!(
        association.reported_handle_for_device(&device_key),
        MonitorReportedHandleLookup::NoCurrentLiveMonitor
    );

    association.refresh(&topology(42, fingerprint));
    assert_eq!(
        association.reported_handle_for_device(&device_key),
        MonitorReportedHandleLookup::LiveMonitorWithoutReportedHandle
    );
}

#[test]
fn exact_key_resolves_to_its_installed_descriptor() {
    let fingerprint = DisplayFingerprint::from_evidence_bytes(b"desk-display");
    let monitor_entity = 42;
    let mut association = MonitorDeviceAssociation::new();
    association.refresh(&topology(monitor_entity, fingerprint));

    assert_eq!(
        association.lookup(
            &KnownDevices::new(),
            &HardwareInventory::new(),
            &key(fingerprint),
        ),
        MonitorDeviceLookup::Live {
            monitor_entity,
            descriptor: installed_descriptor(),
        }
    );
}

#[test]
fn frozen_v4_fingerprint_adopts_the_exact_fresh_reporter_key() {
    let fingerprint = DisplayFingerprint::from_evidence_bytes(b"desk-display");
    let device_key = key(fingerprint);
    let mut association = MonitorDeviceAssociation::new();
    association.refresh(&topology(42, fingerprint));

    assert!(matches!(
        association.device_for_legacy_panel(PersistedDisplayIdentityV4::Fingerprinted(
            PersistedDisplayFingerprintV4(fingerprint.get()),
        )),
        MonitorDeviceKeyLookup::Exact(actual) if actual == device_key
    ));
}

#[test]
fn anonymous_v4_target_cannot_select_a_live_monitor() {
    let fingerprint = DisplayFingerprint::from_evidence_bytes(b"desk-display");
    let mut association = MonitorDeviceAssociation::new();
    association.refresh(&topology(42, fingerprint));

    assert!(matches!(
        association.device_for_legacy_panel(PersistedDisplayIdentityV4::Anonymous),
        MonitorDeviceKeyLookup::Unresolved
    ));
}

#[test]
fn retained_absent_display_is_not_an_unknown_key() {
    let fingerprint = DisplayFingerprint::from_evidence_bytes(b"known-but-absent");
    let device_key = key(fingerprint);
    let mut devices = KnownDevices::new();
    devices.retain(device_key.clone());

    assert_eq!(
        MonitorDeviceAssociation::new().lookup(&devices, &HardwareInventory::new(), &device_key),
        MonitorDeviceLookup::KnownWithoutLiveMonitor
    );
}

#[test]
fn configured_display_is_known_before_any_reporter_observes_it() {
    let fingerprint = DisplayFingerprint::from_evidence_bytes(b"configured-but-unobserved");
    let device_key = key(fingerprint);
    let mut inventory = HardwareInventory::new();
    inventory.configure(device_key.clone(), ConfiguredDeviceMode::Offline);

    assert_eq!(
        MonitorDeviceAssociation::new().lookup(&KnownDevices::new(), &inventory, &device_key),
        MonitorDeviceLookup::KnownWithoutLiveMonitor
    );
}

#[test]
fn duplicate_live_key_never_selects_the_first_monitor() {
    let fingerprint = DisplayFingerprint::from_evidence_bytes(b"duplicate-display");
    let monitors = Monitors::from_installed(vec![
        installed(42, fingerprint, PlatformDeviceHandle::PlatformHasNoConcept),
        installed(84, fingerprint, PlatformDeviceHandle::PlatformHasNoConcept),
    ]);
    let mut association = MonitorDeviceAssociation::new();
    association.refresh(&monitors);
    let device_key = key(fingerprint);
    let mut inventory = HardwareInventory::new();
    inventory.configure(device_key.clone(), ConfiguredDeviceMode::Managed);

    assert_eq!(
        association.lookup(&KnownDevices::new(), &inventory, &device_key),
        MonitorDeviceLookup::KnownWithoutLiveMonitor
    );
}

#[test]
fn topology_refresh_removes_an_old_live_association() {
    let fingerprint = DisplayFingerprint::from_evidence_bytes(b"departed-display");
    let mut association = MonitorDeviceAssociation::new();
    association.refresh(&topology(42, fingerprint));
    association.refresh(&Monitors::empty());

    assert_eq!(
        association.lookup(
            &KnownDevices::new(),
            &HardwareInventory::new(),
            &key(fingerprint),
        ),
        MonitorDeviceLookup::UnknownDevice
    );
}

#[test]
fn never_retained_display_stays_unknown() {
    let fingerprint = DisplayFingerprint::from_evidence_bytes(b"never-reported");

    assert_eq!(
        MonitorDeviceAssociation::new().lookup(
            &KnownDevices::new(),
            &HardwareInventory::new(),
            &key(fingerprint),
        ),
        MonitorDeviceLookup::UnknownDevice
    );
}

#[test]
fn a_descriptor_that_two_monitors_share_selects_neither() {
    let first = DisplayFingerprint::from_evidence_bytes(b"first");
    let second = DisplayFingerprint::from_evidence_bytes(b"second");
    let mut association = MonitorDeviceAssociation::new();
    association.refresh(&topology(1, first));
    assert!(matches!(
        association.device_for_descriptor(installed_descriptor()),
        MonitorDeviceKeyLookup::Exact(found) if found == key(first)
    ));
    assert_eq!(
        association.live_descriptor(&key(first)),
        Some(installed_descriptor())
    );
    assert_eq!(association.live_descriptor(&key(second)), None);

    association.refresh(&Monitors::from_installed(vec![
        installed(1, first, PlatformDeviceHandle::PlatformHasNoConcept),
        installed(2, second, PlatformDeviceHandle::PlatformHasNoConcept),
    ]));
    assert!(matches!(
        association.device_for_descriptor(installed_descriptor()),
        MonitorDeviceKeyLookup::Unresolved
    ));
}

#[test]
fn the_last_configured_mode_counts() {
    let device_key = key(DisplayFingerprint::from_digest(5));
    let mut inventory = HardwareInventory::new();
    assert_eq!(inventory.configured_device(&device_key), None);
    inventory.configure(device_key.clone(), ConfiguredDeviceMode::Offline);
    inventory.configure(device_key.clone(), ConfiguredDeviceMode::Managed);
    assert_eq!(
        inventory.configured_device(&device_key),
        Some(ConfiguredDeviceMode::Managed)
    );
}

fn endpoint(monitor: u64, index: usize, legacy_identity: DisplayIdentity) -> LiveDisplayEndpoint {
    LiveDisplayEndpoint {
        monitor,
        descriptor: MonitorDescriptor::for_current_enumeration(
            index,
            ScaleFactor::from_bits(1.0_f64.to_bits()),
            IVec2::new(0, 0),
            UVec2::new(100, 100),
        ),
        legacy_identity,
    }
}

#[test]
fn live_lookups_report_how_many_displays_match() {
    let fingerprint = DisplayFingerprint::from_evidence_bytes(b"panel");
    let identity = DisplayIdentity::Fingerprinted(fingerprint);
    let lookup = LiveDisplayEndpointLookup::new(vec![
        (key(DisplayFingerprint::from_digest(1)), endpoint(1, 0, identity)),
        (
            key(DisplayFingerprint::from_digest(2)),
            endpoint(2, 1, DisplayIdentity::Anonymous),
        ),
        (
            key(DisplayFingerprint::from_digest(3)),
            endpoint(3, 1, DisplayIdentity::Anonymous),
        ),
    ]);
    assert_eq!(
        lookup.key_for_legacy_identity(identity),
        Ok(key(DisplayFingerprint::from_digest(1)))
    );
    assert_eq!(
        lookup.key_for_legacy_identity(DisplayIdentity::Anonymous),
        Err(LiveDisplayMatchError::NoLiveDisplayMatches)
    );
    assert_eq!(
        lookup.key_for_descriptor(endpoint(9, 0, identity).descriptor),
        Ok(key(DisplayFingerprint::from_digest(1)))
    );
    assert_eq!(
        lookup.key_for_descriptor(endpoint(9, 1, identity).descriptor),
        Err(LiveDisplayMatchError::SeveralLiveDisplaysMatch {
            count: LiveDisplayContradictionCount::from_second_and_remaining(0),
        })
    );
    assert_eq!(
        lookup.key_for_descriptor(endpoint(9, 7, identity).descriptor),
        Err(LiveDisplayMatchError::NoLiveDisplayMatches)
    );
}

#[test]
fn scales_compare_as_numbers() {
    let scale = |value: f64| ScaleFactor::from_bits(value.to_bits());
    assert_eq!(scale(1.5), scale(1.5));
    assert_ne!(scale(1.5), scale(2.0));
    assert_eq!(scale(0.0), scale(-0.0));
    assert_ne!(scale(f64::NAN), scale(f64::NAN));
    assert_ne!(scale(-f64::NAN), scale(-f64::NAN));
    assert_eq!(scale(f64::INFINITY), scale(f64::INFINITY));
    assert_eq!(scale(f64::NEG_INFINITY), scale(f64::NEG_INFINITY));
    assert!(scale(f64::MIN_POSITIVE).is_positive_finite());
    for unusable in [0.0, -0.0, -1.0, f64::INFINITY, f64::NEG_INFINITY, f64::NAN] {
        assert!(!scale(unusable).is_positive_finite(), "{unusable}");
    }
    assert_eq!(scale(1.25).to_bits(), 1.25_f64.to_bits());
}

#[test]
fn production_enumerates_the_live_window_system() {
    for (installation, source) in [
        (
            DisplayTestAdapterInstallation::NotInstalled,
            DisplayEnumerationSource::LiveWinit,
        ),
        (
            DisplayTestAdapterInstallation::ExplicitlyInstalled,
            DisplayEnumerationSource::ExplicitTestAdapter,
        ),
        (
            DisplayTestAdapterInstallation::InjectedWithoutExplicitAdapter,
            DisplayEnumerationSource::InjectedWithoutExplicitAdapter,
        ),
        (
            DisplayTestAdapterInstallation::ExplicitAdapterWithoutInjectedSource,
            DisplayEnumerationSource::ExplicitAdapterWithoutInjectedSource,
        ),
    ] {
        assert_eq!(
            display_enumeration_source_for_test_adapter_installation(installation),
            source
        );
    }
}

#[test]
fn only_an_accepted_request_covers_a_revision() {
    let initial = MonitorTopologyRevision::default();
    let mut coverage = MonitorDiscoveryRequestCoverage::from_initial_topology(initial);
    assert!(coverage.covers(initial));
    let changed = initial.next();
    assert!(!coverage.covers(changed));
    coverage.settle_dirty_request(changed, false);
    assert!(!coverage.covers(changed));
    coverage.settle_dirty_request(changed, true);
    assert!(coverage.covers(changed));
    assert!(!coverage.covers(initial));
}

#[test]
fn a_listed_display_counts_as_it_is_listed_last() {
    let key = |digest| DeviceKey {
        kind: DeviceKind::Display,
        id: DeviceIdSource::Synthesized {
            digest: Digest(digest),
        },
    };
    let descriptor = |index| {
        MonitorDescriptor::for_current_enumeration(
            index,
            ScaleFactor::from_bits(1.0_f64.to_bits()),
            IVec2::new(0, 0),
            UVec2::new(1_920, 1_080),
        )
    };
    let association = MonitorDeviceAssociation::from_test_live_displays(
        vec![
            (key(1), descriptor(0)),
            (key(2), descriptor(1)),
            (key(1), descriptor(2)),
        ],
        9,
    );
    assert_eq!(association.live_descriptor(&key(1)), Some(descriptor(2)));
    assert_eq!(association.live_descriptor(&key(2)), Some(descriptor(1)));
    assert_eq!(association.live_descriptor(&key(3)), None);
    assert_eq!(
        association.reported_handle_for_device(&key(1)),
        MonitorReportedHandleLookup::LiveMonitorWithoutReportedHandle
    );
    assert_eq!(
        association.lookup(&KnownDevices::new(), &HardwareInventory::new(), &key(2)),
        MonitorDeviceLookup::Live {
            monitor_entity: 9,
            descriptor: descriptor(1),
        }
    );
}
