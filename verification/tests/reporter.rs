//! Reporting displays as devices.

use hana_clerestory::device::AttachmentPath;
use hana_clerestory::device::DeviceIdSource;
use hana_clerestory::device::DeviceKey;
use hana_clerestory::device::DeviceKind;
use hana_clerestory::device::Digest;
use hana_clerestory::device::PlatformDeviceHandle;
use hana_clerestory::device::ReportedId;
use hana_clerestory::device::ReportedSerial;
use hana_clerestory::device::SchemeName;
use hana_clerestory::geometry::IVec2;
use hana_clerestory::geometry::UVec2;
use hana_clerestory::monitors::identity::DisplayIdentityEvidence;
use hana_clerestory::monitors::topology::DisplayDeviceEvidence;
use hana_clerestory::monitors::topology_change::DisplayTopologyObservation;
use hana_clerestory::monitors::topology_change::EnumeratedDisplayEvidence;
use hana_clerestory::reporter::display_record;
use hana_clerestory::reporter::display_scan;
use hana_clerestory::reporter::edid_serial_scheme;
use hana_clerestory::reporter::empty_current_display_list_error;
use hana_clerestory::reporter::ActiveDisplayQuery;
use hana_clerestory::reporter::CurrentDisplays;
use hana_clerestory::reporter::DeviceAccessError;
use hana_clerestory::reporter::DeviceRecord;
use hana_clerestory::reporter::DeviceScan;
use hana_clerestory::reporter::ReportedAs;
use hana_clerestory::reporter::ReporterDelivery;
use hana_clerestory::scale::ScaleFactor;
use hana_clerestory::DisplayFingerprint;
use hana_clerestory::DisplayIdentity;
use hana_clerestory::MonitorDescriptor;

fn reported_id(value: &str) -> ReportedId {
    match ReportedId::new(value) {
        Ok(reported_id) => reported_id,
        Err(error) => panic!("test reported id is invalid: {error:?}"),
    }
}

fn test_edid_serial_scheme() -> SchemeName {
    match edid_serial_scheme() {
        Ok(edid_serial_scheme) => edid_serial_scheme,
        Err(error) => panic!("test EDID serial scheme is invalid: {error:?}"),
    }
}

fn evidence(identity_evidence: DisplayIdentityEvidence) -> DisplayDeviceEvidence {
    DisplayDeviceEvidence {
        identity_evidence,
        platform_device_handle: PlatformDeviceHandle::PlatformHasNoConcept,
        attachment: AttachmentPath::PlatformHasNoConcept,
    }
}

fn unavailable_evidence() -> DisplayDeviceEvidence {
    evidence(DisplayIdentityEvidence::Unavailable {
        serial: ReportedSerial::PlatformCannotReport,
    })
}

fn enumerated(entity: u64, device_evidence: DisplayDeviceEvidence) -> EnumeratedDisplayEvidence {
    let legacy_identity = match &device_evidence.identity_evidence {
        DisplayIdentityEvidence::Synthesized {
            display_fingerprint,
            ..
        } => DisplayIdentity::Fingerprinted(*display_fingerprint),
        DisplayIdentityEvidence::Unavailable { .. }
        | DisplayIdentityEvidence::ReportedSerial(_) => DisplayIdentity::Anonymous,
    };
    EnumeratedDisplayEvidence {
        entity,
        descriptor: MonitorDescriptor::for_current_enumeration(
            0,
            ScaleFactor::from_bits(1.0_f64.to_bits()),
            IVec2::new(0, 0),
            UVec2::new(1, 1),
        ),
        device_evidence,
        legacy_identity,
    }
}

fn display_record_for_test(evidence: DisplayDeviceEvidence) -> DeviceRecord {
    display_record(&enumerated(u64::MAX, evidence), false, &test_edid_serial_scheme())
}

fn scan(observation: &DisplayTopologyObservation, current: &CurrentDisplays) -> DeviceScan {
    display_scan(
        observation,
        current,
        &vec![1],
        ActiveDisplayQuery::NotAvailable,
        ReporterDelivery::Deliver,
    )
}

fn failure(scan: DeviceScan) -> String {
    match scan {
        DeviceScan::Failed(DeviceAccessError::Transport { detail }) => detail,
        other => panic!("expected a transport failure, got {other:?}"),
    }
}

#[test]
fn pending_initial_topology_is_deferred_not_authoritative_absence() {
    assert!(matches!(
        scan(
            &DisplayTopologyObservation::default(),
            &CurrentDisplays::Scripted(Vec::new())
        ),
        DeviceScan::DeferredUntilTopology
    ));
}

#[test]
fn observed_empty_topology_is_an_authoritative_empty_scan() {
    let device_scan = scan(
        &DisplayTopologyObservation::Observed(Vec::new()),
        &CurrentDisplays::Scripted(Vec::new()),
    );
    assert!(matches!(&device_scan, DeviceScan::Complete(_)));
    let DeviceScan::Complete(records) = device_scan else {
        return;
    };
    assert!(records.is_empty());
}

#[test]
fn empty_current_handles_with_observed_displays_is_a_transport_failure() {
    let observation =
        DisplayTopologyObservation::Observed(vec![enumerated(1, unavailable_evidence())]);
    assert!(matches!(
        scan(&observation, &CurrentDisplays::Scripted(Vec::new())),
        DeviceScan::Failed(DeviceAccessError::Transport { .. })
    ));
    let listed = CurrentDisplays::Listed {
        current: Vec::new(),
        cached: vec![None],
    };
    assert_eq!(
        failure(scan(&observation, &listed)),
        "winit returned no current display handles while 1 observed displays remained"
    );
}

#[test]
fn reporter_uses_the_handle_retained_with_each_topology_entry() {
    let entity = 1;
    let expected_handle =
        PlatformDeviceHandle::Reported(reported_id("display-a-window-server-handle"));
    let observation = DisplayTopologyObservation::Observed(vec![enumerated(
        entity,
        DisplayDeviceEvidence {
            platform_device_handle: expected_handle.clone(),
            ..unavailable_evidence()
        },
    )]);

    let device_scan = scan(&observation, &CurrentDisplays::Scripted(vec![entity]));
    assert!(matches!(&device_scan, DeviceScan::Complete(_)));
    let DeviceScan::Complete(records) = device_scan else {
        return;
    };
    assert_eq!(
        records.first().map(|record| &record.platform_device_handle),
        Some(&expected_handle)
    );
    assert_eq!(
        records
            .first()
            .and_then(|record| record.capabilities.monitor)
            .map(|monitor| monitor.monitor()),
        Some(entity)
    );
}

#[test]
fn reported_edid_serial_creates_reported_identity_and_serial_evidence() {
    let serial = reported_id("SN-42-A");
    let record = display_record_for_test(evidence(DisplayIdentityEvidence::ReportedSerial(
        serial.clone(),
    )));

    assert_eq!(record.serial, ReportedSerial::Provided(serial.clone()));
    assert!(matches!(
        record.reported_as,
        ReportedAs::Keyed(DeviceKey {
            kind: DeviceKind::Display,
            id: DeviceIdSource::Reported { scheme, value },
        }) if scheme == test_edid_serial_scheme() && value == serial
    ));
}

#[test]
fn serial_less_descriptor_creates_synthesized_identity() {
    let fingerprint = DisplayFingerprint::from_evidence_bytes(b"validated-edid-descriptor");
    let record = display_record_for_test(evidence(DisplayIdentityEvidence::Synthesized {
        display_fingerprint: fingerprint,
        serial: ReportedSerial::NotExposedByUnit,
    }));

    assert_eq!(record.serial, ReportedSerial::NotExposedByUnit);
    assert!(matches!(
        record.reported_as,
        ReportedAs::Keyed(DeviceKey {
            kind: DeviceKind::Display,
            id: DeviceIdSource::Synthesized { digest },
        }) if digest == Digest(fingerprint.get())
    ));
}

#[test]
fn unavailable_display_evidence_remains_match_evidence_only() {
    let record = display_record_for_test(unavailable_evidence());

    assert!(matches!(record.reported_as, ReportedAs::MatchEvidenceOnly));
    assert_eq!(record.serial, ReportedSerial::PlatformCannotReport);
}

#[test]
fn connected_displays_are_joined_to_their_observation_by_handle() {
    let observation = DisplayTopologyObservation::Observed(vec![
        enumerated(1, unavailable_evidence()),
        enumerated(2, unavailable_evidence()),
    ]);
    let listed = |current: Vec<u64>, cached: Vec<Option<u64>>| CurrentDisplays::Listed {
        current,
        cached,
    };
    let DeviceScan::Complete(records) =
        scan(&observation, &listed(vec![20, 10], vec![Some(10), Some(20)]))
    else {
        panic!("expected a complete scan");
    };
    let monitors: Vec<u64> = records
        .iter()
        .map(|record| record.capabilities.endpoint.monitor)
        .collect();
    assert_eq!(monitors, vec![2, 1]);
    assert!(records[0].capabilities.monitor.is_none());
    assert!(records[1].capabilities.monitor.is_some());

    assert_eq!(
        failure(scan(&observation, &listed(vec![10, 30], vec![Some(10), Some(20)]))),
        "current winit display has no exact Clerestory evidence association"
    );
    assert_eq!(
        failure(scan(&observation, &listed(vec![10], vec![Some(10), Some(10)]))),
        "current winit display has multiple Clerestory evidence associations"
    );
    assert_eq!(
        failure(scan(&observation, &CurrentDisplays::Scripted(vec![3]))),
        "fresh test display has no exact Clerestory evidence association"
    );
    let doubled = DisplayTopologyObservation::Observed(vec![
        enumerated(1, unavailable_evidence()),
        enumerated(1, unavailable_evidence()),
    ]);
    assert_eq!(
        failure(scan(&doubled, &CurrentDisplays::Scripted(vec![1]))),
        "fresh test display has multiple Clerestory evidence associations"
    );
}

#[test]
fn displays_that_cannot_be_listed_fail_the_scan() {
    let observation = DisplayTopologyObservation::Observed(Vec::new());
    assert_eq!(
        failure(scan(&observation, &CurrentDisplays::MonitorsUnavailable)),
        "WinitMonitors is not available"
    );
    assert_eq!(
        failure(scan(&observation, &CurrentDisplays::NoWindow)),
        "no current winit window is available"
    );
    assert!(matches!(
        display_scan(
            &observation,
            &CurrentDisplays::Scripted(Vec::new()),
            &Vec::new(),
            ActiveDisplayQuery::NotAvailable,
            ReporterDelivery::Fail,
        ),
        DeviceScan::Failed(DeviceAccessError::Transport { .. })
    ));
}

#[test]
fn an_empty_list_says_what_macos_counted() {
    let detail = |query| match empty_current_display_list_error(3, query) {
        DeviceAccessError::Transport { detail } => detail,
        other => panic!("expected a transport error, got {other:?}"),
    };
    assert_eq!(
        detail(ActiveDisplayQuery::Failed { code: -1001 }),
        "CGGetActiveDisplayList failed with CGError code -1001 while 3 observed displays remained"
    );
    assert_eq!(
        detail(ActiveDisplayQuery::Found { count: 2 }),
        "winit returned no current display handles while CGGetActiveDisplayList reported 2 active \
         displays and 3 observed displays remained"
    );
}

fn synthesized_evidence(bytes: &[u8]) -> DisplayDeviceEvidence {
    evidence(DisplayIdentityEvidence::Synthesized {
        display_fingerprint: DisplayFingerprint::from_evidence_bytes(bytes),
        serial: ReportedSerial::NotExposedByUnit,
    })
}

fn key_of(record: &DeviceRecord) -> DeviceKey {
    match &record.reported_as {
        ReportedAs::Keyed(key) => key.clone(),
        ReportedAs::MatchEvidenceOnly => panic!("the display should have a synthesized key"),
    }
}

#[test]
fn live_monitor_record_projects_the_monitor_relationship() {
    let live = display_record(
        &enumerated(1, unavailable_evidence()),
        true,
        &test_edid_serial_scheme(),
    );
    assert_eq!(
        live.capabilities.monitor.map(|monitor| monitor.monitor()),
        Some(1)
    );
    assert!(display_record_for_test(unavailable_evidence())
        .capabilities
        .monitor
        .is_none());
}

#[test]
fn identical_serial_less_displays_share_one_key() {
    let records = [
        display_record_for_test(synthesized_evidence(b"same-serial-less-edid")),
        display_record_for_test(synthesized_evidence(b"same-serial-less-edid")),
    ];
    assert!(key_of(&records[0]) == key_of(&records[1]));
}

#[test]
fn every_scan_reads_the_fresh_display_set() {
    let observation = DisplayTopologyObservation::Observed(vec![
        enumerated(11, synthesized_evidence(b"display-a")),
        enumerated(12, synthesized_evidence(b"display-b")),
    ]);
    for (fresh, bytes) in [(11, b"display-a"), (12, b"display-b")] {
        let DeviceScan::Complete(records) =
            scan(&observation, &CurrentDisplays::Scripted(vec![fresh]))
        else {
            panic!("expected a complete scan");
        };
        assert_eq!(records.len(), 1);
        assert!(
            key_of(&records[0]) == key_of(&display_record_for_test(synthesized_evidence(bytes)))
        );
    }
}

#[test]
fn a_changed_display_on_a_reported_connector_changes_the_key_alone() {
    let on_connector = |display: &[u8]| {
        display_record_for_test(DisplayDeviceEvidence {
            attachment: AttachmentPath::Reported(reported_id("HDMI-A-1")),
            ..synthesized_evidence(display)
        })
    };
    let (before, after) = (on_connector(b"display-a"), on_connector(b"display-b"));
    assert!(key_of(&before) != key_of(&after));
    assert_eq!(before.attachment, after.attachment);
}
