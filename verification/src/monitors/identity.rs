//! Stable identity of physical displays.

use super::edid::{EdidIdentityEvidence, EdidIdentityView};
use super::native::{QualifiedEvidence, QualifiedEvidenceView};
use crate::device::{ReportedId, ReportedSerial, ReportedSerialView};
use crate::text;
use vstd::prelude::*;
use vstd::std_specs::cmp::PartialEqSpecImpl;

verus! {

/// Failure while collecting one display's platform evidence.
#[derive(Clone, Copy, Debug, PartialEq, Eq, Structural)]
pub enum MonitorIdentificationError {
    /// A platform query needed for the reporter failed.
    OperatingSystemQuery(OperatingSystemQueryError),
    /// The platform returned identity data that failed its format or placeholder checks.
    InvalidStableIdentity,
    /// This platform cannot expose stable display evidence through the active API.
    StablePhysicalIdentityUnavailable,
    /// The display-configuration listener exhausted its monotonic generation.
    ConfigurationGenerationExhausted,
}

/// Platform operation that failed while collecting display evidence.
#[derive(Clone, Copy, Debug, PartialEq, Eq, Structural)]
pub enum OperatingSystemQueryError {
    /// The platform display-configuration query failed.
    DisplayConfiguration,
    /// Registration for display-configuration notifications failed.
    ConfigurationNotificationRegistration,
    /// The registered display-configuration notification stream failed.
    ConfigurationNotificationStream,
    /// Removing a display-configuration notification registration failed.
    ConfigurationNotificationRemoval,
    /// A display's device interface could not be enumerated.
    MonitorDeviceInterface,
    /// The platform property used for durable display evidence could not be read.
    StableIdentityProperty,
}

impl OperatingSystemQueryError {
    /// What went wrong, as text.
    pub open spec fn message(self) -> Seq<char> {
        match self {
            OperatingSystemQueryError::DisplayConfiguration =>
                "display-configuration query failed"@,
            OperatingSystemQueryError::ConfigurationNotificationRegistration =>
                "monitor configuration-notification registration failed"@,
            OperatingSystemQueryError::ConfigurationNotificationStream =>
                "monitor configuration-notification stream failed"@,
            OperatingSystemQueryError::ConfigurationNotificationRemoval =>
                "monitor configuration-notification removal failed"@,
            OperatingSystemQueryError::MonitorDeviceInterface =>
                "monitor device-interface query failed"@,
            OperatingSystemQueryError::StableIdentityProperty =>
                "stable monitor identity-property query failed"@,
        }
    }

    /// What went wrong, as text.
    pub fn to_text(self) -> (result: String)
        ensures
            result@ == self.message(),
    {
        match self {
            OperatingSystemQueryError::DisplayConfiguration =>
                "display-configuration query failed".to_owned(),
            OperatingSystemQueryError::ConfigurationNotificationRegistration =>
                "monitor configuration-notification registration failed".to_owned(),
            OperatingSystemQueryError::ConfigurationNotificationStream =>
                "monitor configuration-notification stream failed".to_owned(),
            OperatingSystemQueryError::ConfigurationNotificationRemoval =>
                "monitor configuration-notification removal failed".to_owned(),
            OperatingSystemQueryError::MonitorDeviceInterface =>
                "monitor device-interface query failed".to_owned(),
            OperatingSystemQueryError::StableIdentityProperty =>
                "stable monitor identity-property query failed".to_owned(),
        }
    }
}

impl MonitorIdentificationError {
    /// What went wrong, as text.
    pub fn to_text(self) -> (result: String)
        ensures
            result@ == match self {
                MonitorIdentificationError::OperatingSystemQuery(query) =>
                    "operating-system monitor query failed: "@ + query.message(),
                MonitorIdentificationError::InvalidStableIdentity =>
                    "stable physical monitor identity data is missing, incomplete, malformed, or a placeholder"@,
                MonitorIdentificationError::StablePhysicalIdentityUnavailable =>
                    "platform cannot expose stable physical monitor identity"@,
                MonitorIdentificationError::ConfigurationGenerationExhausted =>
                    "monitor configuration generation is exhausted"@,
            },
    {
        match self {
            MonitorIdentificationError::OperatingSystemQuery(query) => text::joined(
                "operating-system monitor query failed: ",
                query.to_text().as_str(),
            ),
            MonitorIdentificationError::InvalidStableIdentity =>
                "stable physical monitor identity data is missing, incomplete, malformed, or a placeholder".to_owned(),
            MonitorIdentificationError::StablePhysicalIdentityUnavailable =>
                "platform cannot expose stable physical monitor identity".to_owned(),
            MonitorIdentificationError::ConfigurationGenerationExhausted =>
                "monitor configuration generation is exhausted".to_owned(),
        }
    }
}

/// Start value of the 64-bit FNV-1a hash.
pub const FNV_1A_OFFSET_BASIS: u64 = 0xcbf2_9ce4_8422_2325;

/// Multiplier of the 64-bit FNV-1a hash.
pub const FNV_1A_PRIME: u64 = 0x0000_0100_0000_01b3;

/// The 64-bit FNV-1a hash of a byte sequence.
pub open spec fn fnv_1a(bytes: Seq<u8>) -> u64
    decreases bytes.len(),
{
    if bytes.len() == 0 {
        FNV_1A_OFFSET_BASIS
    } else {
        (((fnv_1a(bytes.drop_last()) ^ (bytes.last() as u64)) * FNV_1A_PRIME) % 0x1_0000_0000_0000_0000) as u64
    }
}

/// Stable fingerprint of one physical display, derived only from the display's own identity data.
///
/// The same display produces the same fingerprint on every launch. Two identical displays that
/// report no serial number share a fingerprint, so a match is a strong hint rather than proof.
#[derive(Clone, Copy, Debug, PartialEq, Eq, Hash, Structural)]
pub struct DisplayFingerprint(u64);

impl View for DisplayFingerprint {
    type V = u64;

    closed spec fn view(&self) -> u64 {
        self.0
    }
}

impl DisplayFingerprint {
    /// The fingerprint with this digest.
    pub closed spec fn of_digest(digest: u64) -> Self {
        DisplayFingerprint(digest)
    }

    /// FNV-1a over the display's evidence bytes.
    pub fn from_evidence_bytes(bytes: &[u8]) -> (result: Self)
        ensures
            result@ == fnv_1a(bytes@),
            result == Self::of_digest(fnv_1a(bytes@)),
    {
        let mut hash: u64 = FNV_1A_OFFSET_BASIS;
        let mut index: usize = 0;
        while index < bytes.len()
            invariant
                index <= bytes.len(),
                hash == fnv_1a(bytes@.take(index as int)),
            decreases bytes.len() - index,
        {
            assert(bytes@.take(index + 1).drop_last() =~= bytes@.take(index as int));
            hash = hash ^ (bytes[index] as u64);
            hash = hash.wrapping_mul(FNV_1A_PRIME);
            index += 1;
        }
        assert(bytes@.take(index as int) =~= bytes@);
        DisplayFingerprint(hash)
    }

    /// The digest that names a display in a synthesized device key.
    pub fn get(self) -> (result: u64)
        ensures
            result == self@,
    {
        self.0
    }

    /// The fingerprint with this digest.
    pub fn from_digest(digest: u64) -> (result: Self)
        ensures
            result@ == digest,
            result == Self::of_digest(digest),
    {
        DisplayFingerprint(digest)
    }
}

/// A fingerprint is its digest: equal digests are equal fingerprints.
pub proof fn fingerprints_are_their_digests(a: DisplayFingerprint, b: DisplayFingerprint)
    ensures
        a == b <==> a@ == b@,
        a == DisplayFingerprint::of_digest(a@),
{
}

/// The fingerprint of a digest has that digest.
pub proof fn fingerprint_keeps_its_digest(digest: u64)
    ensures
        DisplayFingerprint::of_digest(digest)@ == digest,
{
}

proof fn hash_step_is_reversible(a: u64, b: u64)
    requires
        a != b,
    ensures
        (a * FNV_1A_PRIME) % 0x1_0000_0000_0000_0000 != (b * FNV_1A_PRIME)
            % 0x1_0000_0000_0000_0000,
{
    let modulus: int = 0x1_0000_0000_0000_0000;
    let prime = FNV_1A_PRIME as int;
    let inverse: int = 0xce96_5057_aff6_957b;
    let carry = prime * inverse / modulus;
    assert(prime * inverse == 1 + carry * modulus);
    if (a * prime) % modulus == (b * prime) % modulus {
        let difference = a - b;
        let quotient = a * prime / modulus - b * prime / modulus;
        assert(difference * prime == quotient * modulus) by (nonlinear_arith)
            requires
                difference == a - b,
                quotient == a * prime / modulus - b * prime / modulus,
                (a * prime) % modulus == (b * prime) % modulus,
                modulus == 0x1_0000_0000_0000_0000,
        ;
        let multiple = quotient * inverse - difference * carry;
        assert(difference == multiple * modulus) by (nonlinear_arith)
            requires
                difference * prime == quotient * modulus,
                prime * inverse == 1 + carry * modulus,
                multiple == quotient * inverse - difference * carry,
        ;
        assert(multiple == 0) by (nonlinear_arith)
            requires
                difference == multiple * modulus,
                -modulus < difference < modulus,
        ;
    }
}

/// Evidence that differs in exactly one byte has different fingerprints.
pub proof fn one_changed_byte_changes_the_fingerprint(evidence: Seq<u8>, position: int, byte: u8)
    requires
        0 <= position < evidence.len(),
        byte != evidence[position],
    ensures
        fnv_1a(evidence.update(position, byte)) != fnv_1a(evidence),
        DisplayFingerprint::of_digest(fnv_1a(evidence.update(position, byte)))
            != DisplayFingerprint::of_digest(fnv_1a(evidence)),
    decreases evidence.len(),
{
    let changed = evidence.update(position, byte);
    let before = fnv_1a(evidence.drop_last());
    let after = fnv_1a(changed.drop_last());
    let last = evidence.last() as u64;
    let changed_last = changed.last() as u64;
    if position == evidence.len() - 1 {
        assert(changed.drop_last() =~= evidence.drop_last());
    } else {
        one_changed_byte_changes_the_fingerprint(evidence.drop_last(), position, byte);
        assert(changed.drop_last() =~= evidence.drop_last().update(position, byte));
    }
    assert((before ^ last) != (after ^ changed_last)) by (bit_vector)
        requires
            before == after && last != changed_last || before != after && last == changed_last,
    ;
    hash_step_is_reversible(before ^ last, after ^ changed_last);
}

/// Whether a monitor's physical display can be recognised again in a later run.
///
/// Two anonymous displays are not the same display: a lookup by identity never matches an
/// anonymous one.
#[derive(Clone, Copy, Debug, PartialEq, Eq, Hash, Structural)]
pub enum DisplayIdentity {
    /// The display reported evidence unique to it. Stable across runs, reboots and replugs.
    Fingerprinted(DisplayFingerprint),
    /// No usable display evidence, so a position saved against such a monitor has no target after
    /// a restart.
    Anonymous,
}

impl Default for DisplayIdentity {
    fn default() -> (result: Self)
        ensures
            result == DisplayIdentity::Anonymous,
    {
        DisplayIdentity::Anonymous
    }
}

/// Kernel-facing identity evidence retained for one enumerated display.
#[derive(Debug)]
pub enum DisplayIdentityEvidence {
    /// Serial value the display published.
    ReportedSerial(ReportedId),
    /// Stable descriptor material that identifies only a restore target.
    Synthesized {
        /// Digest material retained from the display descriptor.
        display_fingerprint: DisplayFingerprint,
        /// Why this observation did not include a serial published by the display itself.
        serial: ReportedSerial,
    },
    /// This scan produced no durable display identity.
    Unavailable {
        /// What the active platform can say about the missing serial.
        serial: ReportedSerial,
    },
}

/// The contents of a [`DisplayIdentityEvidence`].
pub enum DisplayIdentityEvidenceView {
    ReportedSerial(Seq<char>),
    Synthesized { display_fingerprint: DisplayFingerprint, serial: ReportedSerialView },
    Unavailable { serial: ReportedSerialView },
}

impl View for DisplayIdentityEvidence {
    type V = DisplayIdentityEvidenceView;

    open spec fn view(&self) -> DisplayIdentityEvidenceView {
        match self {
            DisplayIdentityEvidence::ReportedSerial(id) =>
                DisplayIdentityEvidenceView::ReportedSerial(id@),
            DisplayIdentityEvidence::Synthesized { display_fingerprint, serial } =>
                DisplayIdentityEvidenceView::Synthesized {
                display_fingerprint: *display_fingerprint,
                serial: serial@,
            },
            DisplayIdentityEvidence::Unavailable { serial } =>
                DisplayIdentityEvidenceView::Unavailable { serial: serial@ },
        }
    }
}

impl DisplayIdentityEvidenceView {
    /// What the evidence says about the display's own serial.
    pub open spec fn reported_serial(self) -> ReportedSerialView {
        match self {
            DisplayIdentityEvidenceView::ReportedSerial(id) => ReportedSerialView::Provided(id),
            DisplayIdentityEvidenceView::Synthesized { serial, .. } => serial,
            DisplayIdentityEvidenceView::Unavailable { serial } => serial,
        }
    }
}

impl DisplayIdentityEvidence {
    /// What the evidence says about the display's own serial.
    pub fn reported_serial(&self) -> (result: ReportedSerial)
        ensures
            result@ == self@.reported_serial(),
    {
        match self {
            DisplayIdentityEvidence::ReportedSerial(reported_id) => ReportedSerial::Provided(
                reported_id.clone(),
            ),
            DisplayIdentityEvidence::Synthesized { serial, .. } => serial.clone(),
            DisplayIdentityEvidence::Unavailable { serial } => serial.clone(),
        }
    }
}

impl Clone for DisplayIdentityEvidence {
    fn clone(&self) -> (copy: Self)
        ensures
            copy == *self,
    {
        match self {
            DisplayIdentityEvidence::ReportedSerial(id) => DisplayIdentityEvidence::ReportedSerial(
                id.clone(),
            ),
            DisplayIdentityEvidence::Synthesized { display_fingerprint, serial } =>
                DisplayIdentityEvidence::Synthesized {
                display_fingerprint: *display_fingerprint,
                serial: serial.clone(),
            },
            DisplayIdentityEvidence::Unavailable { serial } =>
                DisplayIdentityEvidence::Unavailable { serial: serial.clone() },
        }
    }
}

impl PartialEq for DisplayIdentityEvidence {
    fn eq(&self, other: &Self) -> (same: bool) {
        match (self, other) {
            (
                DisplayIdentityEvidence::ReportedSerial(id),
                DisplayIdentityEvidence::ReportedSerial(other_id),
            ) => id == other_id,
            (
                DisplayIdentityEvidence::Synthesized { display_fingerprint, serial },
                DisplayIdentityEvidence::Synthesized {
                    display_fingerprint: other_fingerprint,
                    serial: other_serial,
                },
            ) => *display_fingerprint == *other_fingerprint && serial == other_serial,
            (
                DisplayIdentityEvidence::Unavailable { serial },
                DisplayIdentityEvidence::Unavailable { serial: other_serial },
            ) => serial == other_serial,
            _ => false,
        }
    }
}

impl PartialEqSpecImpl for DisplayIdentityEvidence {
    open spec fn obeys_eq_spec() -> bool {
        true
    }

    open spec fn eq_spec(&self, other: &Self) -> bool {
        self@ == other@
    }
}

impl Eq for DisplayIdentityEvidence {

}

/// What the reporter says of a display with this qualified evidence and fingerprint.
pub open spec fn reporter_evidence(
    evidence: QualifiedEvidenceView,
    fingerprint: DisplayFingerprint,
) -> DisplayIdentityEvidenceView {
    match evidence {
        QualifiedEvidenceView::WindowsEdid(EdidIdentityView::ReportedSerial(serial))
        | QualifiedEvidenceView::LinuxEdid(EdidIdentityView::ReportedSerial(serial)) =>
            DisplayIdentityEvidenceView::ReportedSerial(serial),
        QualifiedEvidenceView::WindowsEdid(EdidIdentityView::Descriptor(_))
        | QualifiedEvidenceView::LinuxEdid(EdidIdentityView::Descriptor(_))
        | QualifiedEvidenceView::Synthetic(_) => DisplayIdentityEvidenceView::Synthesized {
            display_fingerprint: fingerprint,
            serial: ReportedSerialView::NotExposedByUnit,
        },
        QualifiedEvidenceView::InternalConnector(_)
        | QualifiedEvidenceView::MacOsDisplayUuid(_) => DisplayIdentityEvidenceView::Synthesized {
            display_fingerprint: fingerprint,
            serial: ReportedSerialView::PlatformCannotReport,
        },
    }
}

/// Reporter evidence and legacy identity of a display with this qualified evidence.
pub open spec fn classified_evidence(evidence: QualifiedEvidenceView) -> (
    DisplayIdentityEvidenceView,
    DisplayIdentity,
) {
    let fingerprint = DisplayFingerprint::of_digest(fnv_1a(evidence.stable_bytes()));
    (reporter_evidence(evidence, fingerprint), DisplayIdentity::Fingerprinted(fingerprint))
}

/// Convert one fresh platform observation into reporter evidence and the identity that older
/// state files recorded for the same display.
pub fn classify_display_evidence(evidence: &QualifiedEvidence) -> (result: (
    DisplayIdentityEvidence,
    DisplayIdentity,
))
    ensures
        (result.0@, result.1) == classified_evidence(evidence@),
{
    let fingerprint = DisplayFingerprint::from_evidence_bytes(evidence.stable_bytes());
    let reported = match evidence {
        QualifiedEvidence::WindowsEdid(identity) | QualifiedEvidence::LinuxEdid(identity) => {
            match identity {
                EdidIdentityEvidence::ReportedSerial(serial) =>
                    DisplayIdentityEvidence::ReportedSerial(serial.clone()),
                EdidIdentityEvidence::Descriptor(_) => synthesized_without_serial(fingerprint),
            }
        },
        QualifiedEvidence::Synthetic(_) => synthesized_without_serial(fingerprint),
        QualifiedEvidence::InternalConnector(_) | QualifiedEvidence::MacOsDisplayUuid(_) =>
            DisplayIdentityEvidence::Synthesized {
            display_fingerprint: fingerprint,
            serial: ReportedSerial::PlatformCannotReport,
        },
    };
    (reported, DisplayIdentity::Fingerprinted(fingerprint))
}

/// Evidence of a display that was read in full and publishes no usable serial.
fn synthesized_without_serial(fingerprint: DisplayFingerprint) -> (result: DisplayIdentityEvidence)
    ensures
        result@ == (DisplayIdentityEvidenceView::Synthesized {
            display_fingerprint: fingerprint,
            serial: ReportedSerialView::NotExposedByUnit,
        }),
{
    DisplayIdentityEvidence::Synthesized {
        display_fingerprint: fingerprint,
        serial: ReportedSerial::NotExposedByUnit,
    }
}

/// What is known of the operating system's display configuration.
#[derive(Clone, Copy, Debug, PartialEq, Eq, Structural)]
pub enum MonitorConfigurationState {
    /// The configuration listener is registered and has seen this many changes.
    Observed { generation: u64 },
    /// The configuration cannot be observed.
    Unavailable(MonitorIdentificationError),
}

/// The fingerprint's digest is the standard 64-bit FNV-1a hash: it starts from the offset basis, and
/// each byte is mixed in before multiplying by the prime, modulo 2 to the 64th.
pub proof fn the_digest_is_fnv_1a(bytes: Seq<u8>, byte: u8)
    ensures
        fnv_1a(Seq::<u8>::empty()) == 0xcbf2_9ce4_8422_2325,
        fnv_1a(bytes.push(byte)) as int == ((fnv_1a(bytes) ^ (byte as u64)) * 0x100_0000_01b3)
            % 0x1_0000_0000_0000_0000,
{
    assert(bytes.push(byte).drop_last() =~= bytes);
}

/// Evidence classifies a display by what it is: data with a serial gives that serial, data and scripted
/// evidence without one say that the unit exposes none, and evidence that cannot tell says so. Whatever
/// the evidence, the display is recognised by the fingerprint of its stable bytes.
pub proof fn evidence_is_classified_by_what_it_is(evidence: QualifiedEvidenceView)
    ensures
        classified_evidence(evidence).1 matches DisplayIdentity::Fingerprinted(fingerprint)
            && fingerprint@ == fnv_1a(evidence.stable_bytes()),
        evidence matches QualifiedEvidenceView::LinuxEdid(EdidIdentityView::ReportedSerial(serial))
            ==> classified_evidence(evidence).0 == DisplayIdentityEvidenceView::ReportedSerial(
            serial,
        ),
        evidence matches QualifiedEvidenceView::WindowsEdid(EdidIdentityView::ReportedSerial(serial))
            ==> classified_evidence(evidence).0 == DisplayIdentityEvidenceView::ReportedSerial(
            serial,
        ),
        evidence matches QualifiedEvidenceView::LinuxEdid(EdidIdentityView::Descriptor(_))
            || evidence matches QualifiedEvidenceView::WindowsEdid(EdidIdentityView::Descriptor(_))
            || evidence is Synthetic ==> (classified_evidence(
            evidence,
        ).0 matches DisplayIdentityEvidenceView::Synthesized { display_fingerprint, serial }
            && display_fingerprint@ == fnv_1a(evidence.stable_bytes())
            && serial is NotExposedByUnit),
        evidence is InternalConnector || evidence is MacOsDisplayUuid ==> (classified_evidence(
            evidence,
        ).0 matches DisplayIdentityEvidenceView::Synthesized { display_fingerprint, serial }
            && display_fingerprint@ == fnv_1a(evidence.stable_bytes())
            && serial is PlatformCannotReport),
{
}

/// A display reports the serial that it published, and otherwise why there is none.
pub proof fn a_reported_serial_is_the_published_one(evidence: DisplayIdentityEvidenceView)
    ensures
        evidence matches DisplayIdentityEvidenceView::ReportedSerial(id)
            ==> evidence.reported_serial() == ReportedSerialView::Provided(id),
        evidence matches DisplayIdentityEvidenceView::Synthesized { serial, .. }
            ==> evidence.reported_serial() == serial,
        evidence matches DisplayIdentityEvidenceView::Unavailable { serial }
            ==> evidence.reported_serial() == serial,
{
}

/// Fingerprints with the same digest are the same.
pub proof fn equal_digests_are_equal_fingerprints(a: DisplayFingerprint, b: DisplayFingerprint)
    ensures
        a@ == b@ <==> a == b,
{
}

} // verus!
