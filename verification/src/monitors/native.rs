//! Evidence that each platform supplies about a display.

use super::edid::{EdidEvidence, EdidIdentityEvidence, EdidIdentityView};
use super::edid::{edid_identity, is_valid_edid, published_serial, PROPERTY_FORMAT};
use super::identity::MonitorIdentificationError;
use crate::bytes::{copied, same_bytes};
use crate::device::{AttachmentPath, PlatformReportView, ReportedId};
use crate::platform::Platform;
use crate::text;
use crate::text::text_is_split_at_its_first_separator;
use vstd::prelude::*;
use vstd::std_specs::cmp::PartialEqSpecImpl;
use vstd::utf8::{decode_utf8, encode_utf8, valid_utf8};

verus! {

/// Connector names of displays built into the machine start with one of these.
pub const DRM_INTERNAL_CONNECTOR_PREFIXES: [&'static str; 3] = ["eDP-", "LVDS-", "DSI-"];

/// Separates the graphics card from the connector in a directory name such as `card1-DP-3`.
pub const DRM_CONNECTOR_NAME_SEPARATOR: char = '-';

/// Bytes in a display identifier of macOS.
pub const MACOS_DISPLAY_UUID_BYTES: usize = 16;

/// Marks evidence that is a connector name, so that it never equals a serial or a descriptor.
pub open spec fn internal_connector_tag() -> Seq<char> {
    "drm-internal-connector:"@
}

/// Whether a connector holds a display built into the machine.
pub open spec fn is_internal_connector(connector_name: Seq<char>) -> bool {
    exists|i: int|
        0 <= i < DRM_INTERNAL_CONNECTOR_PREFIXES@.len()
            && (#[trigger] DRM_INTERNAL_CONNECTOR_PREFIXES@[i])@.is_prefix_of(connector_name)
}

/// The evidence that an internal connector supplies: its tagged name.
pub open spec fn internal_connector_bytes(connector_name: Seq<char>) -> Seq<u8> {
    encode_utf8(internal_connector_tag()) + encode_utf8(connector_name)
}

/// The connector name of a display built into the machine, tagged as such.
#[derive(Debug, Hash)]
pub struct InternalConnector {
    evidence: Vec<u8>,
}

impl View for InternalConnector {
    type V = Seq<u8>;

    closed spec fn view(&self) -> Seq<u8> {
        self.evidence@
    }
}

impl InternalConnector {
    /// The bytes that the evidence of every internal connector starts with.
    pub fn tag() -> (result: &'static [u8])
        ensures
            result@ == encode_utf8(internal_connector_tag()),
    {
        "drm-internal-connector:".as_bytes()
    }

    /// The evidence for `connector_name`, or `None` when that connector accepts a replaceable
    /// display.
    pub fn identify(connector_name: &str) -> (result: Option<Self>)
        ensures
            result is Some <==> is_internal_connector(connector_name@),
            result matches Some(connector) ==> connector@ == internal_connector_bytes(
                connector_name@,
            ),
    {
        let prefixes = DRM_INTERNAL_CONNECTOR_PREFIXES;
        let mut index: usize = 0;
        while index < prefixes.len()
            invariant
                index <= prefixes@.len(),
                prefixes == DRM_INTERNAL_CONNECTOR_PREFIXES,
                forall|i: int|
                    0 <= i < index ==> !(
                    #[trigger] DRM_INTERNAL_CONNECTOR_PREFIXES@[i])@.is_prefix_of(connector_name@),
            decreases prefixes@.len() - index,
        {
            if text::starts_with(connector_name, prefixes[index]) {
                let mut evidence: Vec<u8> = copied(Self::tag());
                let mut name: Vec<u8> = copied(connector_name.as_bytes());
                evidence.append(&mut name);
                return Some(InternalConnector { evidence });
            }
            index += 1;
        }
        None
    }

    /// The tagged connector name.
    pub fn as_bytes(&self) -> (result: &[u8])
        ensures
            result@ == self@,
    {
        self.evidence.as_slice()
    }
}

impl Clone for InternalConnector {
    fn clone(&self) -> (copy: Self)
        ensures
            copy@ == self@,
    {
        InternalConnector { evidence: copied(self.evidence.as_slice()) }
    }
}

impl PartialEq for InternalConnector {
    fn eq(&self, other: &Self) -> (same: bool) {
        same_bytes(self.evidence.as_slice(), other.evidence.as_slice())
    }
}

impl PartialEqSpecImpl for InternalConnector {
    open spec fn obeys_eq_spec() -> bool {
        true
    }

    open spec fn eq_spec(&self, other: &Self) -> bool {
        self@ == other@
    }
}

impl Eq for InternalConnector {

}

/// Different internal connectors supply different evidence.
pub proof fn internal_connector_evidence_is_distinct(first: Seq<char>, second: Seq<char>)
    requires
        first != second,
    ensures
        internal_connector_bytes(first) != internal_connector_bytes(second),
{
    let tag = encode_utf8(internal_connector_tag());
    if internal_connector_bytes(first) == internal_connector_bytes(second) {
        assert(internal_connector_bytes(first).skip(tag.len() as int) =~= encode_utf8(first));
        assert(internal_connector_bytes(second).skip(tag.len() as int) =~= encode_utf8(second));
        vstd::utf8::encode_utf8_decode_utf8(first);
        vstd::utf8::encode_utf8_decode_utf8(second);
    }
}

/// The identifier macOS derives from a display's vendor, model and serial number.
#[derive(Clone, Copy, Debug, Hash)]
pub struct MacOsDisplayUuid {
    bytes: [u8; MACOS_DISPLAY_UUID_BYTES],
}

impl View for MacOsDisplayUuid {
    type V = Seq<u8>;

    closed spec fn view(&self) -> Seq<u8> {
        self.bytes@
    }
}

impl MacOsDisplayUuid {
    /// The identifier made of these bytes.
    pub fn new(bytes: [u8; MACOS_DISPLAY_UUID_BYTES]) -> (result: Self)
        ensures
            result@ == bytes@,
    {
        MacOsDisplayUuid { bytes }
    }

    /// The bytes of the identifier.
    pub fn as_bytes(&self) -> (result: &[u8])
        ensures
            result@ == self@,
    {
        self.bytes.as_slice()
    }
}

impl PartialEq for MacOsDisplayUuid {
    fn eq(&self, other: &Self) -> (same: bool) {
        same_bytes(self.bytes.as_slice(), other.bytes.as_slice())
    }
}

impl PartialEqSpecImpl for MacOsDisplayUuid {
    open spec fn obeys_eq_spec() -> bool {
        true
    }

    open spec fn eq_spec(&self, other: &Self) -> bool {
        self@ == other@
    }
}

impl Eq for MacOsDisplayUuid {

}

/// Evidence about one display that passed its platform's checks.
#[derive(Debug, Hash)]
pub enum QualifiedEvidence {
    /// The connector of a display built into the machine.
    InternalConnector(InternalConnector),
    /// Display identification data read on Linux.
    LinuxEdid(EdidIdentityEvidence),
    /// Display identification data read on Windows.
    WindowsEdid(EdidIdentityEvidence),
    /// The display identifier of macOS.
    MacOsDisplayUuid(MacOsDisplayUuid),
    /// Evidence that a scripted platform makes up.
    Synthetic(Vec<u8>),
}

/// The contents of a [`QualifiedEvidence`].
pub enum QualifiedEvidenceView {
    InternalConnector(Seq<u8>),
    LinuxEdid(EdidIdentityView),
    WindowsEdid(EdidIdentityView),
    MacOsDisplayUuid(Seq<u8>),
    Synthetic(Seq<u8>),
}

impl View for QualifiedEvidence {
    type V = QualifiedEvidenceView;

    open spec fn view(&self) -> QualifiedEvidenceView {
        match self {
            QualifiedEvidence::InternalConnector(connector) =>
                QualifiedEvidenceView::InternalConnector(connector@),
            QualifiedEvidence::LinuxEdid(edid) => QualifiedEvidenceView::LinuxEdid(edid@),
            QualifiedEvidence::WindowsEdid(edid) => QualifiedEvidenceView::WindowsEdid(edid@),
            QualifiedEvidence::MacOsDisplayUuid(uuid) => QualifiedEvidenceView::MacOsDisplayUuid(
                uuid@,
            ),
            QualifiedEvidence::Synthetic(bytes) => QualifiedEvidenceView::Synthetic(bytes@),
        }
    }
}

impl QualifiedEvidenceView {
    /// Bytes that identify the physical display and nothing about this process or this boot.
    pub open spec fn stable_bytes(self) -> Seq<u8> {
        match self {
            QualifiedEvidenceView::InternalConnector(connector) => connector,
            QualifiedEvidenceView::LinuxEdid(edid) => edid.stable_bytes(),
            QualifiedEvidenceView::WindowsEdid(edid) => edid.stable_bytes(),
            QualifiedEvidenceView::MacOsDisplayUuid(uuid) => uuid,
            QualifiedEvidenceView::Synthetic(bytes) => bytes,
        }
    }
}

impl QualifiedEvidence {
    /// Bytes that identify the physical display and nothing about this process or this boot.
    pub fn stable_bytes(&self) -> (result: &[u8])
        ensures
            result@ == self@.stable_bytes(),
    {
        match self {
            QualifiedEvidence::InternalConnector(connector) => connector.as_bytes(),
            QualifiedEvidence::LinuxEdid(edid) => edid.stable_bytes(),
            QualifiedEvidence::WindowsEdid(edid) => edid.stable_bytes(),
            QualifiedEvidence::MacOsDisplayUuid(uuid) => uuid.as_bytes(),
            QualifiedEvidence::Synthetic(bytes) => bytes.as_slice(),
        }
    }
}

impl Clone for QualifiedEvidence {
    fn clone(&self) -> (copy: Self)
        ensures
            copy@ == self@,
    {
        match self {
            QualifiedEvidence::InternalConnector(connector) =>
                QualifiedEvidence::InternalConnector(connector.clone()),
            QualifiedEvidence::LinuxEdid(edid) => QualifiedEvidence::LinuxEdid(edid.clone()),
            QualifiedEvidence::WindowsEdid(edid) => QualifiedEvidence::WindowsEdid(edid.clone()),
            QualifiedEvidence::MacOsDisplayUuid(uuid) => QualifiedEvidence::MacOsDisplayUuid(*uuid),
            QualifiedEvidence::Synthetic(bytes) => QualifiedEvidence::Synthetic(
                copied(bytes.as_slice()),
            ),
        }
    }
}

impl PartialEq for QualifiedEvidence {
    fn eq(&self, other: &Self) -> (same: bool) {
        match (self, other) {
            (
                QualifiedEvidence::InternalConnector(connector),
                QualifiedEvidence::InternalConnector(other_connector),
            ) => connector == other_connector,
            (
                QualifiedEvidence::LinuxEdid(edid),
                QualifiedEvidence::LinuxEdid(other_edid),
            ) => edid == other_edid,
            (
                QualifiedEvidence::WindowsEdid(edid),
                QualifiedEvidence::WindowsEdid(other_edid),
            ) => edid == other_edid,
            (
                QualifiedEvidence::MacOsDisplayUuid(uuid),
                QualifiedEvidence::MacOsDisplayUuid(other_uuid),
            ) => uuid == other_uuid,
            (
                QualifiedEvidence::Synthetic(bytes),
                QualifiedEvidence::Synthetic(other_bytes),
            ) => same_bytes(bytes.as_slice(), other_bytes.as_slice()),
            _ => false,
        }
    }
}

impl PartialEqSpecImpl for QualifiedEvidence {
    open spec fn obeys_eq_spec() -> bool {
        true
    }

    open spec fn eq_spec(&self, other: &Self) -> bool {
        self@ == other@
    }
}

impl Eq for QualifiedEvidence {

}

/// One monitor read with display identity kept separate from its attachment location.
#[derive(Debug)]
pub struct MonitorEvidenceObservation {
    pub identity: Result<QualifiedEvidence, MonitorIdentificationError>,
    pub attachment: AttachmentPath,
}

/// Attachment evidence for a platform observation that supplied no checked connector.
pub open spec fn unreported_attachment(platform: Platform) -> PlatformReportView {
    match platform {
        Platform::MacOs | Platform::Wayland => PlatformReportView::PlatformHasNoConcept,
        Platform::Windows | Platform::X11 => PlatformReportView::PlatformReportedNothing,
    }
}

/// Attachment evidence for a platform observation that supplied no checked connector.
pub fn attachment_path_when_unreported(platform: Platform) -> (result: AttachmentPath)
    ensures
        result@ == unreported_attachment(platform),
{
    match platform {
        Platform::MacOs | Platform::Wayland => AttachmentPath::PlatformHasNoConcept,
        Platform::Windows | Platform::X11 => AttachmentPath::PlatformReportedNothing,
    }
}

/// The attachment that a connector name supplies: the name itself where it is text and not empty.
pub open spec fn attachment_of_connector(connector_name: Seq<u8>) -> PlatformReportView {
    if valid_utf8(connector_name) && decode_utf8(connector_name).len() > 0 {
        PlatformReportView::Reported(decode_utf8(connector_name))
    } else {
        unreported_attachment(Platform::X11)
    }
}

/// The attachment that the connector of an X11 output supplies.
pub fn connector_attachment(connector_name: &[u8]) -> (result: AttachmentPath)
    ensures
        result@ == attachment_of_connector(connector_name@),
{
    match std::str::from_utf8(connector_name) {
        Ok(name) => match ReportedId::new(name) {
            Ok(reported_id) => AttachmentPath::Reported(reported_id),
            Err(_) => attachment_path_when_unreported(Platform::X11),
        },
        Err(_) => attachment_path_when_unreported(Platform::X11),
    }
}

/// What an X11 server says of one of its outputs.
#[derive(Debug)]
pub struct X11Output {
    /// Identifier of the output.
    pub output: u32,
    /// The display controller that drives the output.
    pub crtc: u32,
    /// Name of the connector.
    pub name: Vec<u8>,
}

/// Whether `index` is an output driven by `crtc`.
pub open spec fn drives(outputs: Seq<X11Output>, index: int, crtc: u32) -> bool {
    0 <= index < outputs.len() && outputs[index].crtc == crtc
}

/// The place of the one output that `crtc` drives. Driving none or several identifies nothing.
pub fn matched_output(outputs: &Vec<X11Output>, crtc: u32) -> (result: Result<
    usize,
    MonitorIdentificationError,
>)
    ensures
        match result {
            Ok(index) => drives(outputs@, index as int, crtc) && forall|other: int| #[trigger]
                drives(outputs@, other, crtc) ==> other == index,
            Err(error) => error == MonitorIdentificationError::InvalidStableIdentity && forall|
                index: int,
            | #[trigger]
                drives(outputs@, index, crtc) ==> exists|other: int| #[trigger]
                    drives(outputs@, other, crtc) && other != index,
        },
{
    let mut matched: Option<usize> = None;
    let mut index: usize = 0;
    while index < outputs.len()
        invariant
            index <= outputs@.len(),
            match matched {
                Some(found) => found < index && drives(outputs@, found as int, crtc) && forall|
                    other: int,
                | #[trigger] drives(outputs@, other, crtc) && other < index ==> other == found,
                None => forall|other: int| #[trigger]
                    drives(outputs@, other, crtc) ==> other >= index,
            },
        decreases outputs@.len() - index,
    {
        if outputs[index].crtc == crtc {
            assert(drives(outputs@, index as int, crtc));
            if let Some(found) = matched {
                assert forall|candidate: int| #[trigger] drives(outputs@, candidate, crtc) implies
                    exists|other: int| #[trigger]
                    drives(outputs@, other, crtc) && other != candidate by {
                    if candidate == index {
                        assert(drives(outputs@, found as int, crtc) && found != candidate);
                    } else {
                        assert(drives(outputs@, index as int, crtc) && index != candidate);
                    }
                }
                return Err(MonitorIdentificationError::InvalidStableIdentity);
            }
            matched = Some(index);
        }
        index += 1;
    }
    match matched {
        Some(found) => Ok(found),
        None => Err(MonitorIdentificationError::InvalidStableIdentity),
    }
}

/// The identification data in a window-system property, which must hold bytes and be complete.
pub fn complete_edid_property(format: u8, bytes_after: u32, data: Vec<u8>) -> (result: Result<
    Vec<u8>,
    MonitorIdentificationError,
>)
    ensures
        format == PROPERTY_FORMAT && bytes_after == 0 ==> result == Ok::<
            Vec<u8>,
            MonitorIdentificationError,
        >(data),
        format != PROPERTY_FORMAT || bytes_after != 0 ==> result == Err::<
            Vec<u8>,
            MonitorIdentificationError,
        >(MonitorIdentificationError::InvalidStableIdentity),
{
    if format != PROPERTY_FORMAT || bytes_after != 0 {
        return Err(MonitorIdentificationError::InvalidStableIdentity);
    }
    Ok(data)
}

/// The result of qualifying data that a query may have failed to deliver.
pub open spec fn qualified_edid(query: Result<Seq<u8>, MonitorIdentificationError>) -> Result<
    EdidIdentityView,
    MonitorIdentificationError,
> {
    match query {
        Ok(edid) => match edid_identity(edid) {
            Some(identity) => Ok(identity),
            None => Err(MonitorIdentificationError::InvalidStableIdentity),
        },
        Err(error) => Err(error),
    }
}

/// The contents of a query result.
pub open spec fn query_view(query: Result<Vec<u8>, MonitorIdentificationError>) -> Result<
    Seq<u8>,
    MonitorIdentificationError,
> {
    match query {
        Ok(edid) => Ok(edid@),
        Err(error) => Err(error),
    }
}

/// The contents of an evidence result.
pub open spec fn evidence_view(
    evidence: Result<QualifiedEvidence, MonitorIdentificationError>,
) -> Result<QualifiedEvidenceView, MonitorIdentificationError> {
    match evidence {
        Ok(qualified) => Ok(qualified@),
        Err(error) => Err(error),
    }
}

/// Qualify data that a query may have failed to deliver; a failed query keeps its own error.
pub fn qualify_edid(query: Result<Vec<u8>, MonitorIdentificationError>) -> (result: Result<
    EdidIdentityEvidence,
    MonitorIdentificationError,
>)
    ensures
        match result {
            Ok(identity) => qualified_edid(query_view(query)) == Ok::<
                EdidIdentityView,
                MonitorIdentificationError,
            >(identity@),
            Err(error) => qualified_edid(query_view(query)) == Err::<
                EdidIdentityView,
                MonitorIdentificationError,
            >(error),
        },
{
    match query {
        Ok(edid) => EdidEvidence::qualify(edid),
        Err(error) => Err(error),
    }
}

/// Whether a directory entry belongs to the connector: what follows the first separator in the
/// entry's name is the connector's name. An entry without a readable name belongs to none.
pub open spec fn belongs_to_connector(
    entries: Seq<Option<String>>,
    index: int,
    connector_name: Seq<char>,
) -> bool {
    &&& 0 <= index < entries.len()
    &&& entries[index] matches Some(name) && crate::text::after_first(
        name@,
        DRM_CONNECTOR_NAME_SEPARATOR,
    ) == Some(connector_name)
}

/// The place of the one entry that belongs to `connector_name`, or `None` when no entry or more
/// than one entry does.
pub fn drm_connector_directory(connector_name: &str, entries: &Vec<Option<String>>) -> (result:
    Option<usize>)
    ensures
        match result {
            Some(index) => belongs_to_connector(entries@, index as int, connector_name@) && forall|
                other: int,
            | #[trigger]
                belongs_to_connector(entries@, other, connector_name@) ==> other == index,
            None => forall|index: int| #[trigger]
                belongs_to_connector(entries@, index, connector_name@) ==> exists|other: int|
                    #[trigger]
                    belongs_to_connector(entries@, other, connector_name@) && other != index,
        },
{
    let wanted: String = connector_name.to_owned();
    let mut matched: Option<usize> = None;
    let mut index: usize = 0;
    while index < entries.len()
        invariant
            index <= entries@.len(),
            wanted@ == connector_name@,
            match matched {
                Some(found) => found < index && belongs_to_connector(
                    entries@,
                    found as int,
                    connector_name@,
                ) && forall|other: int| #[trigger]
                    belongs_to_connector(entries@, other, connector_name@) && other < index
                        ==> other == found,
                None => forall|other: int| #[trigger]
                    belongs_to_connector(entries@, other, connector_name@) ==> other >= index,
            },
        decreases entries@.len() - index,
    {
        let belongs = match &entries[index] {
            Some(name) => match text::text_after_first(
                name.as_str(),
                DRM_CONNECTOR_NAME_SEPARATOR,
            ) {
                Some(connector) => connector == wanted,
                None => false,
            },
            None => false,
        };
        assert(belongs == belongs_to_connector(entries@, index as int, connector_name@));
        if belongs {
            if let Some(found) = matched {
                assert forall|candidate: int| #[trigger]
                    belongs_to_connector(entries@, candidate, connector_name@) implies exists|
                    other: int,
                | #[trigger]
                    belongs_to_connector(entries@, other, connector_name@) && other
                        != candidate by {
                    if candidate == index {
                        assert(belongs_to_connector(entries@, found as int, connector_name@));
                    } else {
                        assert(belongs_to_connector(entries@, index as int, connector_name@));
                    }
                }
                return None;
            }
            matched = Some(index);
        }
        index += 1;
    }
    matched
}

/// Identity evidence from the kernel's connector file. `connector_edid` is what the file holds, or
/// `None` when there is no single connector directory or its file cannot be read.
pub open spec fn drm_evidence(
    connector_name: Seq<u8>,
    connector_edid: Option<Seq<u8>>,
    unresolved_error: MonitorIdentificationError,
) -> Result<QualifiedEvidenceView, MonitorIdentificationError> {
    if !valid_utf8(connector_name) {
        Err(unresolved_error)
    } else {
        match connector_edid {
            None => Err(unresolved_error),
            Some(edid) => if edid.len() > 0 {
                match edid_identity(edid) {
                    Some(identity) => Ok(QualifiedEvidenceView::LinuxEdid(identity)),
                    None => Err(MonitorIdentificationError::InvalidStableIdentity),
                }
            } else if is_internal_connector(decode_utf8(connector_name)) {
                Ok(
                    QualifiedEvidenceView::InternalConnector(
                        internal_connector_bytes(decode_utf8(connector_name)),
                    ),
                )
            } else {
                Err(unresolved_error)
            },
        }
    }
}

/// The contents of an optional file.
pub open spec fn file_view(file: Option<Vec<u8>>) -> Option<Seq<u8>> {
    match file {
        Some(bytes) => Some(bytes@),
        None => None,
    }
}

/// Identity evidence from the kernel's connector file, or `unresolved_error` when that file
/// supplies none.
pub fn drm_display_evidence(
    connector_name: &[u8],
    connector_edid: Option<Vec<u8>>,
    unresolved_error: MonitorIdentificationError,
) -> (result: Result<QualifiedEvidence, MonitorIdentificationError>)
    ensures
        evidence_view(result) == drm_evidence(
            connector_name@,
            file_view(connector_edid),
            unresolved_error,
        ),
{
    let name = match std::str::from_utf8(connector_name) {
        Ok(name) => name,
        Err(_) => {
            return Err(unresolved_error);
        },
    };
    let edid = match connector_edid {
        Some(edid) => edid,
        None => {
            return Err(unresolved_error);
        },
    };
    if edid.len() > 0 {
        return match EdidEvidence::qualify(edid) {
            Ok(identity) => Ok(QualifiedEvidence::LinuxEdid(identity)),
            Err(error) => Err(error),
        };
    }
    match InternalConnector::identify(name) {
        Some(connector) => Ok(QualifiedEvidence::InternalConnector(connector)),
        None => Err(unresolved_error),
    }
}

/// Identity evidence for a Wayland output from the connector that shares its name.
pub open spec fn wayland_evidence(
    output_name: Option<Seq<char>>,
    connector_edid: Option<Seq<u8>>,
) -> Result<QualifiedEvidenceView, MonitorIdentificationError> {
    match output_name {
        Some(name) => drm_evidence(
            encode_utf8(name),
            connector_edid,
            MonitorIdentificationError::StablePhysicalIdentityUnavailable,
        ),
        None => Err(MonitorIdentificationError::StablePhysicalIdentityUnavailable),
    }
}

/// The contents of an optional name.
pub open spec fn name_view(name: Option<&str>) -> Option<Seq<char>> {
    match name {
        Some(text) => Some(text@),
        None => None,
    }
}

/// Identity evidence for a Wayland output from the connector that shares its name.
///
/// No Wayland protocol carries the identification data to a client. Compositors name each output
/// after its connector, so the name only locates the connector's file. An output with no name, or
/// a name that matches no single connector, supplies none.
pub fn wayland_display_evidence(
    output_name: Option<&str>,
    connector_edid: Option<Vec<u8>>,
) -> (result: Result<QualifiedEvidence, MonitorIdentificationError>)
    ensures
        evidence_view(result) == wayland_evidence(name_view(output_name), file_view(connector_edid)),
{
    match output_name {
        Some(name) => drm_display_evidence(
            name.as_bytes(),
            connector_edid,
            MonitorIdentificationError::StablePhysicalIdentityUnavailable,
        ),
        None => Err(MonitorIdentificationError::StablePhysicalIdentityUnavailable),
    }
}

/// Identity evidence for an X11 output: the data in its property, else the connector file.
pub open spec fn x11_evidence(
    property: Result<Seq<u8>, MonitorIdentificationError>,
    connector_name: Seq<u8>,
    connector_edid: Option<Seq<u8>>,
) -> Result<QualifiedEvidenceView, MonitorIdentificationError> {
    match qualified_edid(property) {
        Ok(identity) => Ok(QualifiedEvidenceView::LinuxEdid(identity)),
        Err(error) => drm_evidence(connector_name, connector_edid, error),
    }
}

/// Identity evidence for an X11 output: the data in its property, else the connector file.
pub fn x11_display_evidence(
    property: Result<Vec<u8>, MonitorIdentificationError>,
    connector_name: &[u8],
    connector_edid: Option<Vec<u8>>,
) -> (result: Result<QualifiedEvidence, MonitorIdentificationError>)
    ensures
        evidence_view(result) == x11_evidence(
            query_view(property),
            connector_name@,
            file_view(connector_edid),
        ),
{
    match qualify_edid(property) {
        Ok(identity) => Ok(QualifiedEvidence::LinuxEdid(identity)),
        Err(error) => drm_display_evidence(connector_name, connector_edid, error),
    }
}

/// What a platform read about one monitor.
#[derive(Debug)]
pub enum MonitorReading {
    /// The X11 output behind the monitor, its property, and its connector file.
    X11 {
        connector_name: Vec<u8>,
        property: Result<Vec<u8>, MonitorIdentificationError>,
        connector_edid: Option<Vec<u8>>,
    },
    /// No single X11 output could be found behind the monitor.
    X11OutputNotLocated { error: MonitorIdentificationError },
    /// The name of the Wayland output, and the file of the connector that shares it.
    Wayland { output_name: Option<String>, connector_edid: Option<Vec<u8>> },
    /// The display identifier of macOS, where the display has one.
    MacOs { uuid: Option<MacOsDisplayUuid> },
    /// Nothing was read.
    Nothing,
}

/// The identity that a platform's reading supplies. Each platform reads in its own way only.
pub open spec fn reading_identity(reading: MonitorReading, platform: Platform) -> Result<
    QualifiedEvidenceView,
    MonitorIdentificationError,
> {
    match (platform, reading) {
        (
            Platform::X11,
            MonitorReading::X11 { connector_name, property, connector_edid },
        ) => x11_evidence(query_view(property), connector_name@, file_view(connector_edid)),
        (Platform::X11, MonitorReading::X11OutputNotLocated { error }) => Err(error),
        (
            Platform::Wayland,
            MonitorReading::Wayland { output_name, connector_edid },
        ) => wayland_evidence(
            match output_name {
                Some(name) => Some(name@),
                None => None,
            },
            file_view(connector_edid),
        ),
        (Platform::MacOs, MonitorReading::MacOs { uuid: Some(uuid) }) => Ok(
            QualifiedEvidenceView::MacOsDisplayUuid(uuid@),
        ),
        _ => Err(MonitorIdentificationError::StablePhysicalIdentityUnavailable),
    }
}

/// The attachment that a platform's reading supplies.
pub open spec fn reading_attachment(
    reading: MonitorReading,
    platform: Platform,
) -> PlatformReportView {
    match (platform, reading) {
        (
            Platform::X11,
            MonitorReading::X11 { connector_name, .. },
        ) => attachment_of_connector(connector_name@),
        _ => unreported_attachment(platform),
    }
}

/// A copy of a query result.
pub fn copied_query(query: &Result<Vec<u8>, MonitorIdentificationError>) -> (result: Result<
    Vec<u8>,
    MonitorIdentificationError,
>)
    ensures
        query_view(result) == query_view(*query),
{
    match query {
        Ok(edid) => Ok(copied(edid.as_slice())),
        Err(error) => Err(*error),
    }
}

fn copied_file(file: &Option<Vec<u8>>) -> (result: Option<Vec<u8>>)
    ensures
        file_view(result) == file_view(*file),
{
    match file {
        Some(bytes) => Some(copied(bytes.as_slice())),
        None => None,
    }
}

/// The identity and the attachment of one monitor, from what the platform read about it.
pub fn monitor_evidence(reading: &MonitorReading, platform: Platform) -> (result:
    MonitorEvidenceObservation)
    ensures
        evidence_view(result.identity) == reading_identity(*reading, platform),
        result.attachment@ == reading_attachment(*reading, platform),
{
    match (platform, reading) {
        (
            Platform::X11,
            MonitorReading::X11 { connector_name, property, connector_edid },
        ) => MonitorEvidenceObservation {
            identity: x11_display_evidence(
                copied_query(property),
                connector_name.as_slice(),
                copied_file(connector_edid),
            ),
            attachment: connector_attachment(connector_name.as_slice()),
        },
        (Platform::X11, MonitorReading::X11OutputNotLocated { error }) =>
            MonitorEvidenceObservation {
            identity: Err(*error),
            attachment: attachment_path_when_unreported(platform),
        },
        (
            Platform::Wayland,
            MonitorReading::Wayland { output_name, connector_edid },
        ) => MonitorEvidenceObservation {
            identity: match output_name {
                Some(name) => wayland_display_evidence(
                    Some(name.as_str()),
                    copied_file(connector_edid),
                ),
                None => wayland_display_evidence(None, copied_file(connector_edid)),
            },
            attachment: attachment_path_when_unreported(platform),
        },
        (Platform::MacOs, MonitorReading::MacOs { uuid: Some(uuid) }) =>
            MonitorEvidenceObservation {
            identity: Ok(QualifiedEvidence::MacOsDisplayUuid(*uuid)),
            attachment: attachment_path_when_unreported(platform),
        },
        (_, _) => MonitorEvidenceObservation {
            identity: Err(MonitorIdentificationError::StablePhysicalIdentityUnavailable),
            attachment: attachment_path_when_unreported(platform),
        },
    }
}

/// The same external connector never becomes display identity: an X11 output whose property holds
/// no usable data and whose connector file is empty is identified only on an internal connector.
pub proof fn external_connector_is_not_identity(
    error: MonitorIdentificationError,
    connector_name: Seq<u8>,
)
    requires
        valid_utf8(connector_name),
        !is_internal_connector(decode_utf8(connector_name)),
    ensures
        x11_evidence(Err(error), connector_name, Some(Seq::<u8>::empty())) == Err::<
            QualifiedEvidenceView,
            MonitorIdentificationError,
        >(error),
{
}

/// What identifies a display are the bytes of its evidence: the tagged connector, the serial's text or
/// all of the data, the identifier, or the scripted bytes.
pub proof fn stable_bytes_are_the_evidence(evidence: QualifiedEvidenceView)
    ensures
        evidence matches QualifiedEvidenceView::InternalConnector(bytes) ==> evidence.stable_bytes()
            == bytes,
        evidence matches QualifiedEvidenceView::MacOsDisplayUuid(bytes) ==> evidence.stable_bytes()
            == bytes,
        evidence matches QualifiedEvidenceView::Synthetic(bytes) ==> evidence.stable_bytes() == bytes,
        evidence matches QualifiedEvidenceView::LinuxEdid(EdidIdentityView::ReportedSerial(serial))
            ==> evidence.stable_bytes() == encode_utf8(serial),
        evidence matches QualifiedEvidenceView::WindowsEdid(EdidIdentityView::ReportedSerial(serial))
            ==> evidence.stable_bytes() == encode_utf8(serial),
        evidence matches QualifiedEvidenceView::LinuxEdid(EdidIdentityView::Descriptor(edid))
            ==> evidence.stable_bytes() == edid,
        evidence matches QualifiedEvidenceView::WindowsEdid(EdidIdentityView::Descriptor(edid))
            ==> evidence.stable_bytes() == edid,
{
}

/// A connector is built into the machine exactly where its name starts with `eDP-`, `LVDS-` or `DSI-`.
pub proof fn internal_connectors_are_told_by_their_names(connector_name: Seq<char>)
    ensures
        is_internal_connector(connector_name) <==> "eDP-"@.is_prefix_of(connector_name)
            || "LVDS-"@.is_prefix_of(connector_name) || "DSI-"@.is_prefix_of(connector_name),
{
    assert(DRM_INTERNAL_CONNECTOR_PREFIXES@[0] == "eDP-");
    assert(DRM_INTERNAL_CONNECTOR_PREFIXES@[1] == "LVDS-");
    assert(DRM_INTERNAL_CONNECTOR_PREFIXES@[2] == "DSI-");
}

/// The evidence of an internal connector is its name behind the tag.
pub proof fn internal_connector_evidence_is_the_tagged_name(connector_name: Seq<char>)
    ensures
        internal_connector_bytes(connector_name) == encode_utf8("drm-internal-connector:"@)
            + encode_utf8(connector_name),
{
}

/// An output whose property holds valid data is identified by that data, whatever its connector is
/// called and whatever the connector's file holds.
pub proof fn valid_property_data_identifies_the_display(
    edid: Seq<u8>,
    connector_name: Seq<u8>,
    connector_edid: Option<Seq<u8>>,
)
    requires
        is_valid_edid(edid),
    ensures
        x11_evidence(Ok(edid), connector_name, connector_edid)
            matches Ok(QualifiedEvidenceView::LinuxEdid(identity)) && match published_serial(edid) {
            Some(serial) => identity == EdidIdentityView::ReportedSerial(serial),
            None => identity == EdidIdentityView::Descriptor(edid),
        },
{
}

/// Where the property fails, the connector's file stands in: valid data there identifies the display,
/// invalid data is an error of its own, an empty file identifies a display only on an internal
/// connector, and without a file the property's error stands.
pub proof fn the_connector_file_stands_in_for_the_property(
    error: MonitorIdentificationError,
    connector_name: Seq<u8>,
    edid: Seq<u8>,
)
    requires
        valid_utf8(connector_name),
    ensures
        is_valid_edid(edid) ==> (x11_evidence(
            Err(error),
            connector_name,
            Some(edid),
        ) matches Ok(QualifiedEvidenceView::LinuxEdid(identity)) && match published_serial(edid) {
            Some(serial) => identity == EdidIdentityView::ReportedSerial(serial),
            None => identity == EdidIdentityView::Descriptor(edid),
        }),
        !is_valid_edid(edid) && edid.len() > 0 ==> x11_evidence(
            Err(error),
            connector_name,
            Some(edid),
        ) == Err::<QualifiedEvidenceView, MonitorIdentificationError>(
            MonitorIdentificationError::InvalidStableIdentity,
        ),
        edid.len() == 0 && is_internal_connector(decode_utf8(connector_name)) ==> x11_evidence(
            Err(error),
            connector_name,
            Some(edid),
        ) == Ok::<QualifiedEvidenceView, MonitorIdentificationError>(
            QualifiedEvidenceView::InternalConnector(
                encode_utf8("drm-internal-connector:"@) + encode_utf8(decode_utf8(connector_name)),
            ),
        ),
        edid.len() == 0 && !is_internal_connector(decode_utf8(connector_name)) ==> x11_evidence(
            Err(error),
            connector_name,
            Some(edid),
        ) == Err::<QualifiedEvidenceView, MonitorIdentificationError>(error),
        x11_evidence(Err(error), connector_name, None) == Err::<
            QualifiedEvidenceView,
            MonitorIdentificationError,
        >(error),
{
}

/// Data that a property holds but that is not valid counts as a failed property.
pub proof fn invalid_property_data_is_a_failed_property(
    edid: Seq<u8>,
    connector_name: Seq<u8>,
    connector_edid: Option<Seq<u8>>,
)
    requires
        !is_valid_edid(edid),
    ensures
        x11_evidence(Ok(edid), connector_name, connector_edid) == x11_evidence(
            Err(MonitorIdentificationError::InvalidStableIdentity),
            connector_name,
            connector_edid,
        ),
{
}

/// A Wayland output is identified through the connector that shares its name, as an X11 output whose
/// property is missing is; an output without a name is not identified.
pub proof fn a_wayland_output_is_identified_by_its_connector(
    output_name: Seq<char>,
    connector_edid: Option<Seq<u8>>,
)
    ensures
        wayland_evidence(None, connector_edid) is Err,
        wayland_evidence(Some(output_name), connector_edid) == x11_evidence(
            Err(MonitorIdentificationError::StablePhysicalIdentityUnavailable),
            encode_utf8(output_name),
            connector_edid,
        ),
{
}

/// Every platform's reading supplies the identity that the platform reads: on X11 and Wayland that of
/// the output, on macOS the display's identifier. The connector of an X11 output is its attachment.
pub proof fn a_reading_supplies_its_identity(
    reading: MonitorReading,
    connector_name: Vec<u8>,
    property: Result<Vec<u8>, MonitorIdentificationError>,
    connector_edid: Option<Vec<u8>>,
    uuid: MacOsDisplayUuid,
)
    ensures
        reading == (MonitorReading::X11 { connector_name, property, connector_edid }) ==> {
            &&& reading_identity(reading, Platform::X11) == x11_evidence(
                query_view(property),
                connector_name@,
                file_view(connector_edid),
            )
            &&& valid_utf8(connector_name@) && decode_utf8(connector_name@).len() > 0
                ==> reading_attachment(reading, Platform::X11) == PlatformReportView::Reported(
                decode_utf8(connector_name@),
            )
            &&& !valid_utf8(connector_name@) || decode_utf8(connector_name@).len() == 0
                ==> reading_attachment(reading, Platform::X11) is PlatformReportedNothing
        },
        reading == (MonitorReading::MacOs { uuid: Some(uuid) }) ==> reading_identity(
            reading,
            Platform::MacOs,
        ) == Ok::<QualifiedEvidenceView, MonitorIdentificationError>(
            QualifiedEvidenceView::MacOsDisplayUuid(uuid@),
        ),
        reading is Nothing ==> reading_identity(reading, Platform::X11) is Err,
        !(reading is X11) ==> reading_attachment(reading, Platform::X11) is PlatformReportedNothing,
        reading_attachment(reading, Platform::MacOs) is PlatformHasNoConcept,
        reading_attachment(reading, Platform::Wayland) is PlatformHasNoConcept,
        reading_attachment(reading, Platform::Windows) is PlatformReportedNothing,
{
}

/// A directory entry belongs to a connector exactly where it is some text without a dash, a dash, and
/// the connector's name.
pub proof fn a_connector_directory_is_named_after_its_connector(
    entries: Seq<Option<String>>,
    index: int,
    card: Seq<char>,
    connector_name: Seq<char>,
)
    requires
        0 <= index < entries.len(),
        entries[index] matches Some(name) && name@ == card + seq!['-'] + connector_name,
        !card.contains('-'),
    ensures
        belongs_to_connector(entries, index, connector_name),
        forall|other: Seq<char>| #[trigger]
            belongs_to_connector(entries, index, other) ==> other == connector_name,
{
    let name = entries[index]->0@;
    text_is_split_at_its_first_separator(name, '-');
    assert(name[card.len() as int] == '-');
    assert(name.contains('-'));
    let rest = crate::text::after_first(name, '-')->0;
    let place = name.len() - rest.len() - 1;
    if place < card.len() {
        assert(card[place] == '-');
    } else if place > card.len() {
        assert(name.take(place)[card.len() as int] == '-');
    }
    assert(rest =~= connector_name);
}

/// A reading is only ever that of its own platform: the error of an output that was not located is
/// passed on, a Wayland output is read by its name and its connector's file, and every other reading
/// identifies nothing.
pub proof fn a_reading_is_that_of_its_own_platform(
    error: MonitorIdentificationError,
    output_name: Option<String>,
    connector_edid: Option<Vec<u8>>,
    reading: MonitorReading,
    platform: Platform,
)
    ensures
        reading_identity(MonitorReading::X11OutputNotLocated { error }, Platform::X11) == Err::<
            QualifiedEvidenceView,
            MonitorIdentificationError,
        >(error),
        output_name matches Some(name) ==> reading_identity(
            MonitorReading::Wayland { output_name, connector_edid },
            Platform::Wayland,
        ) == wayland_evidence(Some(name@), file_view(connector_edid)),
        output_name is None ==> reading_identity(
            MonitorReading::Wayland { output_name, connector_edid },
            Platform::Wayland,
        ) is Err,
        reading_identity(reading, platform) is Ok ==> (platform is X11 && reading is X11) || (
        platform is Wayland && reading is Wayland) || (platform is MacOs && reading is MacOs),
{
}

/// A property is complete exactly where it is made of 8-bit values and nothing is left behind it; then
/// its data is taken as it is.
pub proof fn a_complete_property_is_its_data(
    format: u8,
    bytes_after: u32,
    data: Vec<u8>,
    result: Result<Vec<u8>, MonitorIdentificationError>,
)
    requires
        call_ensures(complete_edid_property, (format, bytes_after, data), result),
    ensures
        result is Ok <==> format == 8 && bytes_after == 0,
        result matches Ok(found) ==> found == data,
{
}

/// A controller drives exactly the outputs that are on it.
pub proof fn a_controller_drives_the_outputs_on_it(outputs: Seq<X11Output>, index: int, crtc: u32)
    ensures
        drives(outputs, index, crtc) ==> 0 <= index < outputs.len(),
        0 <= index < outputs.len() ==> (drives(outputs, index, crtc) <==> outputs[index].crtc
            == crtc),
{
}

} // verus!
