//! What identifies a display on each platform.

use hana_clerestory::device::AttachmentPath;
use hana_clerestory::device::ReportedId;
use hana_clerestory::device::ReportedSerial;
use hana_clerestory::monitors::edid::EdidIdentityEvidence;
use hana_clerestory::monitors::edid::BLOCK_SIZE;
use hana_clerestory::monitors::edid::SERIAL_END;
use hana_clerestory::monitors::edid::SERIAL_START;
use hana_clerestory::monitors::identity::classify_display_evidence;
use hana_clerestory::monitors::identity::DisplayIdentityEvidence;
use hana_clerestory::monitors::identity::MonitorIdentificationError;
use hana_clerestory::monitors::identity::OperatingSystemQueryError;
use hana_clerestory::monitors::native::attachment_path_when_unreported;
use hana_clerestory::monitors::native::complete_edid_property;
use hana_clerestory::monitors::native::connector_attachment;
use hana_clerestory::monitors::native::drm_connector_directory;
use hana_clerestory::monitors::native::matched_output;
use hana_clerestory::monitors::native::monitor_evidence;
use hana_clerestory::monitors::native::qualify_edid;
use hana_clerestory::monitors::native::wayland_display_evidence;
use hana_clerestory::monitors::native::x11_display_evidence;
use hana_clerestory::monitors::native::InternalConnector;
use hana_clerestory::monitors::native::MacOsDisplayUuid;
use hana_clerestory::monitors::native::MonitorReading;
use hana_clerestory::monitors::native::QualifiedEvidence;
use hana_clerestory::monitors::native::X11Output;
use hana_clerestory::monitors::native::DRM_INTERNAL_CONNECTOR_PREFIXES;
use hana_clerestory::DisplayFingerprint;
use hana_clerestory::DisplayIdentity;
use hana_clerestory::Platform;

const HEADER: [u8; 8] = [0x00, 0xff, 0xff, 0xff, 0xff, 0xff, 0xff, 0x00];

fn serial_edid() -> Vec<u8> {
    let mut edid = vec![0_u8; BLOCK_SIZE];
    edid[..HEADER.len()].copy_from_slice(&HEADER);
    edid[SERIAL_START..SERIAL_END].copy_from_slice(&42_u32.to_le_bytes());
    let checksum_index = BLOCK_SIZE - 1;
    let checksum = edid[..checksum_index]
        .iter()
        .fold(0_u8, |sum, byte| sum.wrapping_add(*byte));
    edid[checksum_index] = 0_u8.wrapping_sub(checksum);
    edid
}

fn reported(value: &str) -> ReportedId {
    match ReportedId::new(value) {
        Ok(id) => id,
        Err(error) => panic!("identifier rejected: {error:?}"),
    }
}

/// A directory of connectors and the data file in each of them.
struct DrmClass {
    connectors: Vec<(&'static str, Vec<u8>)>,
}

impl DrmClass {
    fn evidence(
        &self,
        output_name: Option<&str>,
    ) -> Result<QualifiedEvidence, MonitorIdentificationError> {
        let entries: Vec<Option<String>> = self
            .connectors
            .iter()
            .map(|(name, _)| Some((*name).to_string()))
            .collect();
        let file = output_name
            .and_then(|name| drm_connector_directory(name, &entries))
            .map(|index| self.connectors[index].1.clone());
        wayland_display_evidence(output_name, file)
    }
}

#[test]
fn query_failures_and_rejected_identity_data_remain_distinct() {
    let query_error = qualify_edid(Err(MonitorIdentificationError::OperatingSystemQuery(
        OperatingSystemQueryError::StableIdentityProperty,
    )));
    let rejected_data = qualify_edid(Ok(Vec::new()));

    assert_eq!(
        query_error,
        Err(MonitorIdentificationError::OperatingSystemQuery(
            OperatingSystemQueryError::StableIdentityProperty
        ))
    );
    assert_eq!(
        rejected_data,
        Err(MonitorIdentificationError::InvalidStableIdentity)
    );
}

#[test]
fn every_internal_connector_prefix_names_its_display() {
    for prefix in DRM_INTERNAL_CONNECTOR_PREFIXES {
        let connector_name = format!("{prefix}1");

        assert!(InternalConnector::identify(&connector_name).is_some());
    }
}

#[test]
fn connectors_that_accept_any_display_name_no_display() {
    for connector_name in ["DP-1", "DVI-D-1", "HDMI-A-1", "VGA-1", "Virtual-1"] {
        assert!(InternalConnector::identify(connector_name).is_none());
    }
}

#[test]
fn internal_connector_evidence_is_tagged_and_distinct_per_connector() {
    let first = InternalConnector::identify("eDP-1").expect("eDP-1 is internal");
    let second = InternalConnector::identify("eDP-2").expect("eDP-2 is internal");
    let qualified = QualifiedEvidence::InternalConnector(first.clone());

    assert!(qualified.stable_bytes().starts_with(InternalConnector::tag()));
    assert_ne!(first.as_bytes(), second.as_bytes());
}

#[test]
fn qualified_edid_variants_retain_the_extracted_serial_tier() {
    let identity = qualify_edid(Ok(serial_edid())).expect("fixture EDID should qualify");
    let windows = QualifiedEvidence::WindowsEdid(identity.clone());
    let linux = QualifiedEvidence::LinuxEdid(identity);

    assert_eq!(windows.stable_bytes(), b"42");
    assert_eq!(linux.stable_bytes(), b"42");
}

#[test]
fn wayland_output_name_reads_the_edid_of_its_drm_connector() {
    let drm = DrmClass {
        connectors: vec![("card1-DP-3", serial_edid()), ("card1-HDMI-A-2", Vec::new())],
    };

    let identity = qualify_edid(Ok(serial_edid())).expect("fixture EDID should qualify");

    assert_eq!(
        drm.evidence(Some("DP-3")),
        Ok(QualifiedEvidence::LinuxEdid(identity))
    );
}

#[test]
fn wayland_built_in_panel_without_an_edid_is_named_by_its_connector() {
    let drm = DrmClass {
        connectors: vec![("card0-eDP-1", Vec::new())],
    };

    let connector = InternalConnector::identify("eDP-1").expect("eDP-1 is internal");

    assert_eq!(
        drm.evidence(Some("eDP-1")),
        Ok(QualifiedEvidence::InternalConnector(connector))
    );
}

#[test]
fn wayland_output_without_exactly_one_matching_connector_supplies_no_identity() {
    let drm = DrmClass {
        connectors: vec![
            ("card0-DP-1", serial_edid()),
            ("card1-DP-1", serial_edid()),
            ("card1-HDMI-A-1", Vec::new()),
        ],
    };

    for output_name in [None, Some("DP-2"), Some("DP-1"), Some("HDMI-A-1")] {
        assert_eq!(
            drm.evidence(output_name),
            Err(MonitorIdentificationError::StablePhysicalIdentityUnavailable),
            "output {output_name:?}"
        );
    }
}

#[test]
fn external_connector_is_attachment_evidence_not_identity() {
    let connector_name = b"HDMI-A-1";

    assert_eq!(
        connector_attachment(connector_name),
        AttachmentPath::Reported(ReportedId::new("HDMI-A-1").expect("valid connector"))
    );
    assert!(InternalConnector::identify("HDMI-A-1").is_none());
}

#[test]
fn internal_connector_supplies_attachment_and_display_evidence() {
    let connector_name = b"eDP-1";

    assert_eq!(
        connector_attachment(connector_name),
        AttachmentPath::Reported(ReportedId::new("eDP-1").expect("valid connector"))
    );
    assert!(InternalConnector::identify("eDP-1").is_some());
}

#[test]
fn test_only_edid_evidence_keeps_serial_tiers_and_query_errors_distinct() {
    let query_error = qualify_edid(Err(MonitorIdentificationError::OperatingSystemQuery(
        OperatingSystemQueryError::StableIdentityProperty,
    )));
    assert_eq!(
        query_error,
        Err(MonitorIdentificationError::OperatingSystemQuery(
            OperatingSystemQueryError::StableIdentityProperty
        ))
    );

    let identity = qualify_edid(Ok(serial_edid())).expect("fixture EDID should qualify");
    let windows = QualifiedEvidence::WindowsEdid(identity.clone());
    let x11 = QualifiedEvidence::LinuxEdid(identity);

    assert_eq!(windows.stable_bytes(), b"42");
    assert_eq!(x11.stable_bytes(), b"42");
}

#[test]
fn internal_connector_test_evidence_uses_the_linux_tag() {
    let connector = InternalConnector::identify("eDP-1").expect("eDP-1 is internal");
    let qualified = QualifiedEvidence::InternalConnector(connector);

    assert!(qualified.stable_bytes().starts_with(InternalConnector::tag()));
}

#[test]
fn fingerprints_are_the_published_fnv_1a_values() {
    assert_eq!(
        DisplayFingerprint::from_evidence_bytes(b"").get(),
        0xcbf2_9ce4_8422_2325
    );
    assert_eq!(
        DisplayFingerprint::from_evidence_bytes(b"a").get(),
        0xaf63_dc4c_8601_ec8c
    );
    assert_eq!(
        DisplayFingerprint::from_evidence_bytes(b"foobar").get(),
        0x8594_4171_f739_67e8
    );
}

#[test]
fn a_fingerprint_is_its_digest() {
    let fingerprint = DisplayFingerprint::from_evidence_bytes(b"desk-display");
    assert_eq!(DisplayFingerprint::from_digest(fingerprint.get()), fingerprint);
    assert_eq!(DisplayIdentity::default(), DisplayIdentity::Anonymous);
}

#[test]
fn evidence_is_classified_by_what_the_display_published() {
    let serial = QualifiedEvidence::LinuxEdid(EdidIdentityEvidence::ReportedSerial(reported("42")));
    let (evidence, identity) = classify_display_evidence(&serial);
    assert_eq!(
        evidence,
        DisplayIdentityEvidence::ReportedSerial(reported("42"))
    );
    assert_eq!(
        identity,
        DisplayIdentity::Fingerprinted(DisplayFingerprint::from_evidence_bytes(b"42"))
    );
    assert_eq!(
        evidence.reported_serial(),
        ReportedSerial::Provided(reported("42"))
    );

    let descriptor = QualifiedEvidence::WindowsEdid(EdidIdentityEvidence::Descriptor(vec![1, 2]));
    let (evidence, _) = classify_display_evidence(&descriptor);
    assert_eq!(
        evidence,
        DisplayIdentityEvidence::Synthesized {
            display_fingerprint: DisplayFingerprint::from_evidence_bytes(&[1, 2]),
            serial: ReportedSerial::NotExposedByUnit,
        }
    );

    let uuid = QualifiedEvidence::MacOsDisplayUuid(MacOsDisplayUuid::new([7; 16]));
    let (evidence, _) = classify_display_evidence(&uuid);
    assert_eq!(
        evidence.reported_serial(),
        ReportedSerial::PlatformCannotReport
    );

    let connector = InternalConnector::identify("LVDS-1").expect("LVDS-1 is internal");
    let (evidence, _) = classify_display_evidence(&QualifiedEvidence::InternalConnector(connector));
    assert_eq!(
        evidence.reported_serial(),
        ReportedSerial::PlatformCannotReport
    );
}

#[test]
fn unreported_attachments_follow_the_platform() {
    for platform in [Platform::MacOs, Platform::Wayland] {
        assert_eq!(
            attachment_path_when_unreported(platform),
            AttachmentPath::PlatformHasNoConcept
        );
    }
    for platform in [Platform::Windows, Platform::X11] {
        assert_eq!(
            attachment_path_when_unreported(platform),
            AttachmentPath::PlatformReportedNothing
        );
    }
}

#[test]
fn a_connector_name_that_is_no_text_is_no_attachment() {
    assert_eq!(
        connector_attachment(&[0xff, 0xfe]),
        AttachmentPath::PlatformReportedNothing
    );
    assert_eq!(
        connector_attachment(b""),
        AttachmentPath::PlatformReportedNothing
    );
}

#[test]
fn exactly_one_output_must_be_driven() {
    let output = |output, crtc| X11Output {
        output,
        crtc,
        name: b"DP-1".to_vec(),
    };
    assert_eq!(matched_output(&vec![output(1, 7), output(2, 9)], 9), Ok(1));
    for outputs in [vec![output(1, 7)], vec![output(1, 9), output(2, 9)]] {
        assert_eq!(
            matched_output(&outputs, 9),
            Err(MonitorIdentificationError::InvalidStableIdentity)
        );
    }
}

#[test]
fn an_incomplete_property_is_invalid() {
    assert_eq!(complete_edid_property(8, 0, vec![1]), Ok(vec![1]));
    assert_eq!(
        complete_edid_property(16, 0, vec![1]),
        Err(MonitorIdentificationError::InvalidStableIdentity)
    );
    assert_eq!(
        complete_edid_property(8, 1, vec![1]),
        Err(MonitorIdentificationError::InvalidStableIdentity)
    );
}

#[test]
fn an_unusable_property_falls_back_to_the_connector_file() {
    let query_error = MonitorIdentificationError::OperatingSystemQuery(
        OperatingSystemQueryError::StableIdentityProperty,
    );
    let identity = qualify_edid(Ok(serial_edid())).expect("fixture EDID should qualify");
    assert_eq!(
        x11_display_evidence(Err(query_error), b"HDMI-A-1", Some(serial_edid())),
        Ok(QualifiedEvidence::LinuxEdid(identity))
    );
    assert_eq!(
        x11_display_evidence(Err(query_error), b"HDMI-A-1", Some(Vec::new())),
        Err(query_error)
    );
    assert_eq!(
        x11_display_evidence(Err(query_error), b"HDMI-A-1", None),
        Err(query_error)
    );
    assert_eq!(
        x11_display_evidence(Err(query_error), &[0xff], Some(serial_edid())),
        Err(query_error)
    );
    assert_eq!(
        x11_display_evidence(Err(query_error), b"HDMI-A-1", Some(vec![1])),
        Err(MonitorIdentificationError::InvalidStableIdentity)
    );
}

#[test]
fn each_platform_reads_in_its_own_way_only() {
    let reading = MonitorReading::MacOs {
        uuid: Some(MacOsDisplayUuid::new([1; 16])),
    };
    let observation = monitor_evidence(&reading, Platform::MacOs);
    assert_eq!(
        observation.identity,
        Ok(QualifiedEvidence::MacOsDisplayUuid(MacOsDisplayUuid::new(
            [1; 16]
        )))
    );
    assert_eq!(observation.attachment, AttachmentPath::PlatformHasNoConcept);
    for platform in [Platform::Windows, Platform::X11, Platform::Wayland] {
        assert_eq!(
            monitor_evidence(&reading, platform).identity,
            Err(MonitorIdentificationError::StablePhysicalIdentityUnavailable)
        );
    }
    let located = MonitorReading::X11 {
        connector_name: b"DP-1".to_vec(),
        property: Ok(serial_edid()),
        connector_edid: None,
    };
    assert_eq!(
        monitor_evidence(&located, Platform::X11).attachment,
        AttachmentPath::Reported(reported("DP-1"))
    );
    let unlocated = MonitorReading::X11OutputNotLocated {
        error: MonitorIdentificationError::ConfigurationGenerationExhausted,
    };
    assert_eq!(
        monitor_evidence(&unlocated, Platform::X11).identity,
        Err(MonitorIdentificationError::ConfigurationGenerationExhausted)
    );
}

#[test]
fn one_changed_byte_of_evidence_changes_the_fingerprint() {
    let evidence = b"validated-edid-descriptor".to_vec();
    let fingerprint = DisplayFingerprint::from_evidence_bytes(&evidence);
    for position in 0..evidence.len() {
        let mut changed = evidence.clone();
        changed[position] ^= 0x80;
        assert_ne!(DisplayFingerprint::from_evidence_bytes(&changed), fingerprint);
    }
}

#[test]
fn errors_say_what_went_wrong() {
    for (error, message) in [
        (
            MonitorIdentificationError::OperatingSystemQuery(
                OperatingSystemQueryError::DisplayConfiguration,
            ),
            "operating-system monitor query failed: display-configuration query failed",
        ),
        (
            MonitorIdentificationError::InvalidStableIdentity,
            "stable physical monitor identity data is missing, incomplete, malformed, or a \
             placeholder",
        ),
        (
            MonitorIdentificationError::StablePhysicalIdentityUnavailable,
            "platform cannot expose stable physical monitor identity",
        ),
        (
            MonitorIdentificationError::ConfigurationGenerationExhausted,
            "monitor configuration generation is exhausted",
        ),
    ] {
        assert_eq!(error.to_text(), message);
    }
    assert_eq!(
        OperatingSystemQueryError::StableIdentityProperty.to_text(),
        "stable monitor identity-property query failed"
    );
}
