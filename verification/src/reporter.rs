//! Reports every connected display as one device.
//!
//! A display is named durably only by its own evidence: by a serial it publishes, or else by a
//! digest of its validated descriptor. A connector says where a display is attached and never who
//! it is, except for a display built into the machine. A display without evidence stays match
//! evidence only, which is no statement that the unit has no serial.

use crate::device::{
    AttachmentPath, DeviceIdView, DeviceKey, DeviceKeyView, DeviceKind, Digest, IdentifierError,
    PlatformDeviceHandle, ReportedSerial, ReportedSerialView, SchemeName,
};
use crate::monitors::identity::DisplayIdentityEvidenceView;
use crate::monitors::live_display_endpoint::{LiveDisplayEndpoint, LiveDisplayMonitor};
use crate::monitors::topology_change::{DisplayTopologyObservation, EnumeratedDisplayEvidence};
use crate::platform::{classify_display_key, display_key, DisplayKeyClassification};
use crate::text;
use crate::text::{decimal_spelling, signed_decimal_spelling};
use vstd::prelude::*;
use vstd::std_specs::cmp::PartialEqSpecImpl;

verus! {

/// The scheme under which displays publish their serials.
pub open spec fn edid_serial_scheme_name() -> Seq<char> {
    "edid-serial"@
}

/// The scheme under which displays publish their serials.
pub fn edid_serial_scheme() -> (result: Result<SchemeName, IdentifierError>)
    ensures
        result matches Ok(scheme) && scheme@ == edid_serial_scheme_name(),
{
    proof {
        reveal_strlit("edid-serial");
    }
    SchemeName::new("edid-serial")
}

/// Why a device cannot be reached.
#[derive(Debug)]
pub enum DeviceAccessError {
    /// Asking for the device failed.
    Transport { detail: String },
    /// The device is not there.
    Absent { detail: String },
}

/// Whether a display is named durably.
#[derive(Debug)]
pub enum ReportedAs {
    /// The display is named by this key.
    Keyed(DeviceKey),
    /// The display can be matched but not named.
    MatchEvidenceOnly,
}

/// What a reported display offers.
#[derive(Clone, Copy, Debug)]
pub struct DisplayCapabilities {
    /// The display's current geometry.
    pub endpoint: LiveDisplayEndpoint,
    /// The monitor behind the display, while it exists.
    pub monitor: Option<LiveDisplayMonitor>,
}

/// One reported display. Every display is present, unclaimed, attached to no other device, and
/// without a descriptor of the platform's own.
#[derive(Debug)]
pub struct DeviceRecord {
    pub reported_as: ReportedAs,
    pub capabilities: DisplayCapabilities,
    pub serial: ReportedSerial,
    pub platform_device_handle: PlatformDeviceHandle,
    pub attachment: AttachmentPath,
}

/// Outcome of one scan.
#[derive(Debug)]
pub enum DeviceScan {
    /// These are all the displays.
    Complete(Vec<DeviceRecord>),
    /// The first topology has not been installed yet, so the scan says nothing.
    DeferredUntilTopology,
    /// The displays could not be listed.
    Failed(DeviceAccessError),
}

/// The displays that are connected at the time of a scan.
#[derive(Debug)]
pub enum CurrentDisplays {
    /// A scripted platform lists these entities.
    Scripted(Vec<u64>),
    /// The window system has no list of monitors.
    MonitorsUnavailable,
    /// There is no window through which the window system could be asked.
    NoWindow,
    /// The window system lists these handles. For each observed display, `cached` holds the handle
    /// that it had when it was observed.
    Listed { current: Vec<u64>, cached: Vec<Option<u64>> },
}

/// What macOS says when the window system lists no display.
#[derive(Clone, Copy, Debug, PartialEq, Eq, Structural)]
pub enum ActiveDisplayQuery {
    /// The operating system is not macOS.
    NotAvailable,
    /// The query failed with this code.
    Failed { code: i32 },
    /// The query found this many active displays.
    Found { count: u32 },
}

/// The message for an empty display list while displays had been observed.
pub open spec fn empty_list_message(observed_count: nat, query: ActiveDisplayQuery) -> Seq<char> {
    match query {
        ActiveDisplayQuery::NotAvailable =>
            "winit returned no current display handles while "@ + decimal_spelling(observed_count)
            + " observed displays remained"@,
        ActiveDisplayQuery::Failed { code } =>
            "CGGetActiveDisplayList failed with CGError code "@ + signed_decimal_spelling(
            code as int,
        ) + " while "@ + decimal_spelling(observed_count) + " observed displays remained"@,
        ActiveDisplayQuery::Found { count } =>
            "winit returned no current display handles while CGGetActiveDisplayList reported "@
            + decimal_spelling(count as nat) + " active displays and "@ + decimal_spelling(
            observed_count,
        ) + " observed displays remained"@,
    }
}

/// The error for an empty display list while displays had been observed.
pub fn empty_current_display_list_error(observed_count: usize, query: ActiveDisplayQuery) -> (result:
    DeviceAccessError)
    ensures
        result matches DeviceAccessError::Transport { detail } && detail@ == empty_list_message(
            observed_count as nat,
            query,
        ),
{
    let observed = text::decimal(observed_count as u64);
    let detail = match query {
        ActiveDisplayQuery::NotAvailable => {
            let start = text::joined(
                "winit returned no current display handles while ",
                observed.as_str(),
            );
            text::joined(start.as_str(), " observed displays remained")
        },
        ActiveDisplayQuery::Failed { code } => {
            let start = text::joined(
                "CGGetActiveDisplayList failed with CGError code ",
                text::signed_decimal(code).as_str(),
            );
            let middle = text::joined(start.as_str(), " while ");
            let counted = text::joined(middle.as_str(), observed.as_str());
            text::joined(counted.as_str(), " observed displays remained")
        },
        ActiveDisplayQuery::Found { count } => {
            let start = text::joined(
                "winit returned no current display handles while CGGetActiveDisplayList reported ",
                text::decimal(count as u64).as_str(),
            );
            let middle = text::joined(start.as_str(), " active displays and ");
            let counted = text::joined(middle.as_str(), observed.as_str());
            text::joined(counted.as_str(), " observed displays remained")
        },
    };
    DeviceAccessError::Transport { detail }
}

fn discovery_transport_error(detail: &str) -> (result: DeviceAccessError)
    ensures
        result matches DeviceAccessError::Transport { detail: message } && message@ == detail@,
{
    DeviceAccessError::Transport { detail: detail.to_owned() }
}

/// A connected display, as the scan lists it.
pub enum ListedDisplay {
    /// By its entity.
    Entity(u64),
    /// By its handle; the second part holds the handle of each observed display.
    Handle(u64, Seq<Option<u64>>),
}

/// Whether the observed display at `index` is the connected one.
pub open spec fn is_listed_display(
    observed: Seq<EnumeratedDisplayEvidence>,
    index: int,
    listed: ListedDisplay,
) -> bool {
    &&& 0 <= index < observed.len()
    &&& match listed {
        ListedDisplay::Entity(entity) => observed[index].entity == entity,
        ListedDisplay::Handle(handle, cached) => index < cached.len() && cached[index] == Some(
            handle,
        ),
    }
}

/// Whether the observed display at `index` is the only one that is the connected one.
pub open spec fn only_listed_display(
    observed: Seq<EnumeratedDisplayEvidence>,
    index: int,
    listed: ListedDisplay,
) -> bool {
    &&& is_listed_display(observed, index, listed)
    &&& forall|other: int| #[trigger] is_listed_display(observed, other, listed) ==> other == index
}

/// The message for a connected display without a single observed one.
pub open spec fn association_message(listed: ListedDisplay, several: bool) -> Seq<char> {
    match (listed, several) {
        (ListedDisplay::Entity(_), false) =>
            "fresh test display has no exact Clerestory evidence association"@,
        (ListedDisplay::Entity(_), true) =>
            "fresh test display has multiple Clerestory evidence associations"@,
        (ListedDisplay::Handle(_, _), false) =>
            "current winit display has no exact Clerestory evidence association"@,
        (ListedDisplay::Handle(_, _), true) =>
            "current winit display has multiple Clerestory evidence associations"@,
    }
}

/// Whether an error says that no single observed display is the connected one.
pub open spec fn reports_association(
    error: DeviceAccessError,
    observed: Seq<EnumeratedDisplayEvidence>,
    listed: ListedDisplay,
) -> bool {
    &&& !has_only_display(observed, listed)
    &&& error matches DeviceAccessError::Transport { detail } && detail@ == association_message(
        listed,
        exists|index: int| is_listed_display(observed, index, listed),
    )
}

/// The connected displays, as the scan lists them.
pub open spec fn listed_displays(current: CurrentDisplays) -> Seq<ListedDisplay> {
    match current {
        CurrentDisplays::Scripted(entities) => entities@.map_values(
            |entity: u64| ListedDisplay::Entity(entity),
        ),
        CurrentDisplays::Listed { current, cached } => current@.map_values(
            |handle: u64| ListedDisplay::Handle(handle, cached@),
        ),
        _ => Seq::empty(),
    }
}

/// Whether a single observed display is the connected one.
pub open spec fn has_only_display(
    observed: Seq<EnumeratedDisplayEvidence>,
    listed: ListedDisplay,
) -> bool {
    exists|index: int| only_listed_display(observed, index, listed)
}

/// Whether evidence is that of the single observed display that is the connected one.
pub open spec fn is_evidence_of(
    evidence: EnumeratedDisplayEvidence,
    observed: Seq<EnumeratedDisplayEvidence>,
    listed: ListedDisplay,
) -> bool {
    exists|index: int|
        #[trigger] only_listed_display(observed, index, listed) && evidence == observed[index]
}

/// Whether a scan's evidence is that of every connected display, in the order in which the
/// displays are listed.
pub open spec fn is_fresh_evidence(
    evidence: Seq<EnumeratedDisplayEvidence>,
    observed: Seq<EnumeratedDisplayEvidence>,
    listed: Seq<ListedDisplay>,
) -> bool {
    &&& evidence.len() == listed.len()
    &&& forall|i: int|
        0 <= i < listed.len() ==> is_evidence_of(#[trigger] evidence[i], observed, listed[i])
}

/// The message for displays that cannot be listed at all, where there is one.
pub open spec fn unlisted_message(
    current: CurrentDisplays,
    observed_count: nat,
    query: ActiveDisplayQuery,
) -> Option<Seq<char>> {
    match current {
        CurrentDisplays::Scripted(entities) => if entities@.len() == 0 && observed_count > 0 {
            Some(
                "the injected current display list is empty while observed display evidence is non-empty"@,
            )
        } else {
            None
        },
        CurrentDisplays::MonitorsUnavailable => Some("WinitMonitors is not available"@),
        CurrentDisplays::NoWindow => Some("no current winit window is available"@),
        CurrentDisplays::Listed { current, .. } => if current@.len() == 0 && observed_count > 0 {
            Some(empty_list_message(observed_count, query))
        } else {
            None
        },
    }
}

/// Whether a scan fails because of the first connected display that no single observed one is.
pub open spec fn fails_at(
    error: DeviceAccessError,
    observed: Seq<EnumeratedDisplayEvidence>,
    listed: Seq<ListedDisplay>,
    place: int,
) -> bool {
    &&& 0 <= place < listed.len()
    &&& forall|earlier: int|
        0 <= earlier < place ==> has_only_display(observed, #[trigger] listed[earlier])
    &&& reports_association(error, observed, listed[place])
}

fn scripted_position(entity: u64, observed: &Vec<EnumeratedDisplayEvidence>) -> (result: Result<
    usize,
    DeviceAccessError,
>)
    ensures
        match result {
            Ok(index) => only_listed_display(observed@, index as int, ListedDisplay::Entity(entity)),
            Err(error) => reports_association(error, observed@, ListedDisplay::Entity(entity)),
        },
{
    let ghost listed = ListedDisplay::Entity(entity);
    let mut matched: Option<usize> = None;
    let mut index: usize = 0;
    while index < observed.len()
        invariant
            index <= observed@.len(),
            listed == ListedDisplay::Entity(entity),
            match matched {
                Some(found) => found < index && is_listed_display(observed@, found as int, listed)
                    && forall|i: int|
                    i < index && #[trigger] is_listed_display(observed@, i, listed) ==> i == found,
                None => forall|i: int| i < index ==> !#[trigger] is_listed_display(
                    observed@,
                    i,
                    listed,
                ),
            },
        decreases observed@.len() - index,
    {
        if observed[index].entity == entity {
            assert(is_listed_display(observed@, index as int, listed));
            if matched.is_some() {
                return Err(
                    discovery_transport_error(
                        "fresh test display has multiple Clerestory evidence associations",
                    ),
                );
            }
            matched = Some(index);
        }
        index += 1;
    }
    match matched {
        Some(found) => Ok(found),
        None => Err(
            discovery_transport_error(
                "fresh test display has no exact Clerestory evidence association",
            ),
        ),
    }
}

fn handle_position(
    handle: u64,
    cached: &Vec<Option<u64>>,
    observed: &Vec<EnumeratedDisplayEvidence>,
) -> (result: Result<usize, DeviceAccessError>)
    requires
        cached@.len() == observed@.len(),
    ensures
        match result {
            Ok(index) => only_listed_display(
                observed@,
                index as int,
                ListedDisplay::Handle(handle, cached@),
            ),
            Err(error) => reports_association(
                error,
                observed@,
                ListedDisplay::Handle(handle, cached@),
            ),
        },
{
    let ghost listed = ListedDisplay::Handle(handle, cached@);
    let mut matched: Option<usize> = None;
    let mut index: usize = 0;
    while index < observed.len()
        invariant
            index <= observed@.len(),
            cached@.len() == observed@.len(),
            listed == ListedDisplay::Handle(handle, cached@),
            match matched {
                Some(found) => found < index && is_listed_display(observed@, found as int, listed)
                    && forall|i: int|
                    i < index && #[trigger] is_listed_display(observed@, i, listed) ==> i == found,
                None => forall|i: int| i < index ==> !#[trigger] is_listed_display(
                    observed@,
                    i,
                    listed,
                ),
            },
        decreases observed@.len() - index,
    {
        let is_listed = match cached[index] {
            Some(cached_handle) => cached_handle == handle,
            None => false,
        };
        assert(is_listed == is_listed_display(observed@, index as int, listed));
        if is_listed {
            if matched.is_some() {
                return Err(
                    discovery_transport_error(
                        "current winit display has multiple Clerestory evidence associations",
                    ),
                );
            }
            matched = Some(index);
        }
        index += 1;
    }
    match matched {
        Some(found) => Ok(found),
        None => Err(
            discovery_transport_error(
                "current winit display has no exact Clerestory evidence association",
            ),
        ),
    }
}

/// The evidence of every connected display, joined to what was observed of it.
pub fn fresh_display_evidence(
    current: &CurrentDisplays,
    observed: &Vec<EnumeratedDisplayEvidence>,
    query: ActiveDisplayQuery,
) -> (result: Result<Vec<EnumeratedDisplayEvidence>, DeviceAccessError>)
    requires
        *current matches CurrentDisplays::Listed { cached, .. } ==> cached@.len() == observed@.len(),
    ensures
        match result {
            Ok(evidence) => unlisted_message(*current, observed@.len(), query) is None
                && is_fresh_evidence(evidence@, observed@, listed_displays(*current)),
            Err(error) => match unlisted_message(*current, observed@.len(), query) {
                Some(message) => error matches DeviceAccessError::Transport { detail } && detail@
                    == message,
                None => exists|place: int|
                    fails_at(error, observed@, listed_displays(*current), place),
            },
        },
{
    let ghost listed = listed_displays(*current);
    let mut evidence: Vec<EnumeratedDisplayEvidence> = Vec::new();
    match current {
        CurrentDisplays::Scripted(entities) => {
            if entities.len() == 0 && observed.len() > 0 {
                return Err(
                    discovery_transport_error(
                        "the injected current display list is empty while observed display evidence is non-empty",
                    ),
                );
            }
            let mut index: usize = 0;
            while index < entities.len()
                invariant
                    index <= entities@.len(),
                    *current == CurrentDisplays::Scripted(*entities),
                    unlisted_message(*current, observed@.len(), query) is None,
                    listed == listed_displays(*current),
                    evidence@.len() == index,
                    forall|i: int|
                        0 <= i < index ==> is_evidence_of(
                            #[trigger] evidence@[i],
                            observed@,
                            listed[i],
                        ),
                    forall|i: int|
                        0 <= i < index ==> has_only_display(observed@, #[trigger] listed[i]),
                decreases entities@.len() - index,
            {
                assert(listed[index as int] == ListedDisplay::Entity(entities@[index as int]));
                match scripted_position(entities[index], observed) {
                    Ok(found) => {
                        evidence.push(observed[found].clone());
                        assert(only_listed_display(observed@, found as int, listed[index as int]));
                    },
                    Err(error) => {
                        assert(fails_at(error, observed@, listed, index as int));
                        return Err(error);
                    },
                }
                index += 1;
            }
        },
        CurrentDisplays::MonitorsUnavailable => {
            return Err(discovery_transport_error("WinitMonitors is not available"));
        },
        CurrentDisplays::NoWindow => {
            return Err(discovery_transport_error("no current winit window is available"));
        },
        CurrentDisplays::Listed { current: handles, cached } => {
            if handles.len() == 0 && observed.len() > 0 {
                return Err(empty_current_display_list_error(observed.len(), query));
            }
            let mut index: usize = 0;
            while index < handles.len()
                invariant
                    index <= handles@.len(),
                    cached@.len() == observed@.len(),
                    *current == (CurrentDisplays::Listed { current: *handles, cached: *cached }),
                    unlisted_message(*current, observed@.len(), query) is None,
                    listed == listed_displays(*current),
                    evidence@.len() == index,
                    forall|i: int|
                        0 <= i < index ==> is_evidence_of(
                            #[trigger] evidence@[i],
                            observed@,
                            listed[i],
                        ),
                    forall|i: int|
                        0 <= i < index ==> has_only_display(observed@, #[trigger] listed[i]),
                decreases handles@.len() - index,
            {
                assert(listed[index as int] == ListedDisplay::Handle(
                    handles@[index as int],
                    cached@,
                ));
                match handle_position(handles[index], cached, observed) {
                    Ok(found) => {
                        evidence.push(observed[found].clone());
                        assert(only_listed_display(observed@, found as int, listed[index as int]));
                    },
                    Err(error) => {
                        assert(fails_at(error, observed@, listed, index as int));
                        return Err(error);
                    },
                }
                index += 1;
            }
        },
    }
    Ok(evidence)
}

/// Whether a record reports a display with this evidence.
pub open spec fn is_record_of(
    record: DeviceRecord,
    evidence: EnumeratedDisplayEvidence,
    monitor_exists: bool,
    edid_serial_scheme: Seq<char>,
) -> bool {
    &&& match display_key(evidence.device_evidence@, edid_serial_scheme) {
        Some(key) => record.reported_as matches ReportedAs::Keyed(reported) && reported@ == key,
        None => record.reported_as is MatchEvidenceOnly,
    }
    &&& record.capabilities.endpoint == (LiveDisplayEndpoint {
        monitor: evidence.entity,
        descriptor: evidence.descriptor,
        legacy_identity: evidence.legacy_identity,
    })
    &&& match record.capabilities.monitor {
        Some(monitor) => monitor_exists && monitor@ == evidence.entity,
        None => !monitor_exists,
    }
    &&& record.serial@ == evidence.device_evidence.identity_evidence@.reported_serial()
    &&& record.platform_device_handle == evidence.device_evidence.platform_device_handle
    &&& record.attachment == evidence.device_evidence.attachment
}

/// Report one display, naming it durably only when its own evidence can name it.
pub fn display_record(
    evidence: &EnumeratedDisplayEvidence,
    monitor_exists: bool,
    edid_serial_scheme: &SchemeName,
) -> (result: DeviceRecord)
    ensures
        is_record_of(result, *evidence, monitor_exists, edid_serial_scheme@),
{
    let reported_as = match classify_display_key(&evidence.device_evidence, edid_serial_scheme) {
        DisplayKeyClassification::Keyed(device_key) => ReportedAs::Keyed(device_key),
        DisplayKeyClassification::MatchEvidenceOnly => ReportedAs::MatchEvidenceOnly,
    };
    let monitor = if monitor_exists {
        Some(LiveDisplayMonitor::new(evidence.entity))
    } else {
        None
    };
    DeviceRecord {
        reported_as,
        capabilities: DisplayCapabilities {
            endpoint: LiveDisplayEndpoint {
                monitor: evidence.entity,
                descriptor: evidence.descriptor,
                legacy_identity: evidence.legacy_identity,
            },
            monitor,
        },
        serial: evidence.device_evidence.identity_evidence.reported_serial(),
        platform_device_handle: evidence.device_evidence.platform_device_handle.clone(),
        attachment: evidence.device_evidence.attachment.clone(),
    }
}

/// Whether a scripted platform lets the reporter deliver its scan.
#[derive(Clone, Copy, Debug, PartialEq, Eq, Structural)]
pub enum ReporterDelivery {
    Deliver,
    Fail,
}

/// Whether `entity` is among the entities that exist.
pub open spec fn exists_among(entities: Seq<u64>, entity: u64) -> bool {
    entities.contains(entity)
}

fn is_among(entities: &Vec<u64>, entity: u64) -> (result: bool)
    ensures
        result == exists_among(entities@, entity),
{
    let mut index: usize = 0;
    while index < entities.len()
        invariant
            index <= entities@.len(),
            forall|i: int| 0 <= i < index ==> entities@[i] != entity,
        decreases entities@.len() - index,
    {
        if entities[index] == entity {
            return true;
        }
        index += 1;
    }
    false
}

/// Whether records report the displays with this evidence, in order.
pub open spec fn are_records_of(
    records: Seq<DeviceRecord>,
    evidence: Seq<EnumeratedDisplayEvidence>,
    existing: Seq<u64>,
) -> bool {
    &&& records.len() == evidence.len()
    &&& forall|i: int|
        0 <= i < records.len() ==> is_record_of(
            #[trigger] records[i],
            evidence[i],
            exists_among(existing, evidence[i].entity),
            edid_serial_scheme_name(),
        )
}

/// One complete scan of an observed topology. Before the first topology there is nothing to report,
/// which is not the same as reporting that there are no displays.
pub fn display_scan(
    observation: &DisplayTopologyObservation,
    current: &CurrentDisplays,
    existing: &Vec<u64>,
    query: ActiveDisplayQuery,
    delivery: ReporterDelivery,
) -> (result: DeviceScan)
    requires
        (*observation matches DisplayTopologyObservation::Observed(observed) && *current matches
            CurrentDisplays::Listed { cached, .. }) ==> observation->Observed_0@.len()
            == current->cached@.len(),
    ensures
        match *observation {
            _ if delivery == ReporterDelivery::Fail => result matches DeviceScan::Failed(
                DeviceAccessError::Transport { detail },
            ) && detail@ == "the display test adapter failed this enumeration"@,
            DisplayTopologyObservation::AwaitingInitialTopology => result is DeferredUntilTopology,
            DisplayTopologyObservation::Observed(observed) => match result {
                DeviceScan::Complete(records) => unlisted_message(
                    *current,
                    observed@.len(),
                    query,
                ) is None && exists|evidence: Seq<EnumeratedDisplayEvidence>| #[trigger]
                    is_fresh_evidence(evidence, observed@, listed_displays(*current))
                        && are_records_of(records@, evidence, existing@),
                DeviceScan::Failed(error) => match unlisted_message(
                    *current,
                    observed@.len(),
                    query,
                ) {
                    Some(message) => error matches DeviceAccessError::Transport { detail }
                        && detail@ == message,
                    None => exists|place: int|
                        fails_at(error, observed@, listed_displays(*current), place),
                },
                DeviceScan::DeferredUntilTopology => false,
            },
        },
{
    if delivery == ReporterDelivery::Fail {
        return DeviceScan::Failed(
            discovery_transport_error("the display test adapter failed this enumeration"),
        );
    }
    let scheme = match edid_serial_scheme() {
        Ok(scheme) => scheme,
        Err(_) => {
            return DeviceScan::Failed(
                discovery_transport_error("invalid built-in EDID serial scheme"),
            );
        },
    };
    match observation {
        DisplayTopologyObservation::AwaitingInitialTopology => DeviceScan::DeferredUntilTopology,
        DisplayTopologyObservation::Observed(observed) => {
            match fresh_display_evidence(current, observed, query) {
                Ok(evidence) => {
                    let mut records: Vec<DeviceRecord> = Vec::new();
                    let mut index: usize = 0;
                    while index < evidence.len()
                        invariant
                            index <= evidence@.len(),
                            scheme@ == edid_serial_scheme_name(),
                            records@.len() == index,
                            forall|i: int|
                                0 <= i < index ==> is_record_of(
                                    #[trigger] records@[i],
                                    evidence@[i],
                                    exists_among(existing@, evidence@[i].entity),
                                    edid_serial_scheme_name(),
                                ),
                        decreases evidence@.len() - index,
                    {
                        let monitor_exists = is_among(existing, evidence[index].entity);
                        records.push(display_record(&evidence[index], monitor_exists, &scheme));
                        index += 1;
                    }
                    assert(are_records_of(records@, evidence@, existing@));
                    DeviceScan::Complete(records)
                },
                Err(error) => DeviceScan::Failed(error),
            }
        },
    }
}

/// A reported display is the observed one: its monitor, its geometry, its identity, its handle and its
/// attachment are those of the evidence, and its serial is the one that the evidence publishes.
pub proof fn a_record_is_what_was_observed(
    record: DeviceRecord,
    evidence: EnumeratedDisplayEvidence,
    monitor_exists: bool,
    scheme: Seq<char>,
)
    requires
        is_record_of(record, evidence, monitor_exists, scheme),
    ensures
        record.capabilities.endpoint.monitor == evidence.entity,
        record.capabilities.endpoint.descriptor.index@ == evidence.descriptor.index@,
        record.capabilities.endpoint.descriptor.scale@ == evidence.descriptor.scale@,
        record.capabilities.endpoint.descriptor.physical_position
            == evidence.descriptor.physical_position,
        record.capabilities.endpoint.descriptor.physical_size == evidence.descriptor.physical_size,
        record.capabilities.endpoint.legacy_identity == evidence.legacy_identity,
        record.capabilities.monitor is Some <==> monitor_exists,
        record.capabilities.monitor matches Some(monitor) ==> monitor@ == evidence.entity,
        record.platform_device_handle@ == evidence.device_evidence@.platform_device_handle,
        record.attachment@ == evidence.device_evidence@.attachment,
        match evidence.device_evidence@.identity_evidence {
            DisplayIdentityEvidenceView::ReportedSerial(serial) => {
                &&& record.serial@ == ReportedSerialView::Provided(serial)
                &&& record.reported_as matches ReportedAs::Keyed(key) && key@ == (DeviceKeyView {
                    kind: DeviceKind::Display,
                    id: DeviceIdView::Reported { scheme, value: serial },
                })
            },
            DisplayIdentityEvidenceView::Synthesized { display_fingerprint, serial } => {
                &&& record.serial@ == serial
                &&& record.reported_as matches ReportedAs::Keyed(key) && key@ == (DeviceKeyView {
                    kind: DeviceKind::Display,
                    id: DeviceIdView::Synthesized { digest: Digest(display_fingerprint@) },
                })
            },
            DisplayIdentityEvidenceView::Unavailable { serial } => {
                &&& record.serial@ == serial
                &&& record.reported_as is MatchEvidenceOnly
            },
        },
{
}

/// A complete scan reports as many displays as are connected, and each of them as it was observed: the
/// display at a place of the report is the one at that place of the list.
pub proof fn a_scan_reports_the_connected_displays(
    records: Seq<DeviceRecord>,
    evidence: Seq<EnumeratedDisplayEvidence>,
    observed: Seq<EnumeratedDisplayEvidence>,
    current: CurrentDisplays,
    existing: Seq<u64>,
    place: int,
)
    requires
        is_fresh_evidence(evidence, observed, listed_displays(current)),
        are_records_of(records, evidence, existing),
    ensures
        current matches CurrentDisplays::Scripted(entities) ==> {
            &&& records.len() == entities@.len()
            &&& 0 <= place < records.len() ==> records[place].capabilities.endpoint.monitor
                == entities@[place]
        },
        current matches CurrentDisplays::Listed { current: handles, cached } ==> {
            &&& records.len() == handles@.len()
            &&& 0 <= place < records.len() ==> exists|index: int|
                0 <= index < observed.len() && index < cached@.len() && #[trigger] cached@[index]
                    == Some(handles@[place])
                    && records[place].capabilities.endpoint.monitor == observed[index].entity
        },
        0 <= place < records.len() ==> (records[place].capabilities.monitor is Some
            <==> existing.contains(records[place].capabilities.endpoint.monitor)),
{
    let listed = listed_displays(current);
    if 0 <= place < records.len() {
        assert(is_record_of(
            records[place],
            evidence[place],
            exists_among(existing, evidence[place].entity),
            edid_serial_scheme_name(),
        ));
        assert(is_evidence_of(evidence[place], observed, listed[place]));
        let index = choose|index: int|
            #[trigger] only_listed_display(observed, index, listed[place]) && evidence[place]
                == observed[index];
        if let CurrentDisplays::Listed { current: handles, cached } = current {
            assert(listed[place] == ListedDisplay::Handle(handles@[place], cached@));
            assert(cached@[index] == Some(handles@[place]));
        }
    }
}

/// A connected display that two observed ones could be, or none, is nobody's.
pub proof fn an_ambiguous_display_has_no_evidence(
    observed: Seq<EnumeratedDisplayEvidence>,
    listed: ListedDisplay,
    first: int,
    second: int,
)
    ensures
        first != second && is_listed_display(observed, first, listed) && is_listed_display(
            observed,
            second,
            listed,
        ) ==> !has_only_display(observed, listed),
        (forall|index: int| !#[trigger] is_listed_display(observed, index, listed))
            ==> !has_only_display(observed, listed),
        is_listed_display(observed, first, listed) && (forall|index: int| #[trigger]
            is_listed_display(observed, index, listed) ==> index == first) ==> has_only_display(
            observed,
            listed,
        ),
{
    if is_listed_display(observed, first, listed) && (forall|index: int| #[trigger]
        is_listed_display(observed, index, listed) ==> index == first) {
        assert(only_listed_display(observed, first, listed));
    }
}

/// An empty list is believed only while nothing had been observed; without a window or a list of
/// monitors nothing can be listed.
pub proof fn an_empty_list_is_believed_only_at_first(
    current: CurrentDisplays,
    observed_count: nat,
    query: ActiveDisplayQuery,
)
    ensures
        unlisted_message(current, observed_count, query) is None <==> match current {
            CurrentDisplays::Scripted(entities) => entities@.len() > 0 || observed_count == 0,
            CurrentDisplays::Listed { current: handles, .. } => handles@.len() > 0 || observed_count
                == 0,
            CurrentDisplays::MonitorsUnavailable | CurrentDisplays::NoWindow => false,
        },
{
}

/// A scan that fails at a display names the first connected one that is nobody's, and says whether no
/// observed display could be it, or several could.
pub proof fn a_failed_scan_names_the_first_display_that_is_nobodys(
    error: DeviceAccessError,
    observed: Seq<EnumeratedDisplayEvidence>,
    current: CurrentDisplays,
    place: int,
)
    requires
        fails_at(error, observed, listed_displays(current), place),
    ensures
        0 <= place < listed_displays(current).len(),
        !has_only_display(observed, listed_displays(current)[place]),
        forall|earlier: int|
            0 <= earlier < place ==> has_only_display(
                observed,
                #[trigger] listed_displays(current)[earlier],
            ),
        error matches DeviceAccessError::Transport { detail } && {
            let several = exists|index: int| #[trigger]
                is_listed_display(observed, index, listed_displays(current)[place]);
            &&& current is Scripted ==> detail@ == if several {
                "fresh test display has multiple Clerestory evidence associations"@
            } else {
                "fresh test display has no exact Clerestory evidence association"@
            }
            &&& current is Listed ==> detail@ == if several {
                "current winit display has multiple Clerestory evidence associations"@
            } else {
                "current winit display has no exact Clerestory evidence association"@
            }
        },
{
}

/// A connected display is the observed one with its entity, or with its handle.
pub proof fn a_listed_display_is_found_by_entity_or_handle(
    observed: Seq<EnumeratedDisplayEvidence>,
    index: int,
    entity: u64,
    handle: u64,
    cached: Seq<Option<u64>>,
)
    requires
        0 <= index < observed.len(),
        cached.len() == observed.len(),
    ensures
        is_listed_display(observed, index, ListedDisplay::Entity(entity)) <==> observed[index].entity
            == entity,
        is_listed_display(observed, index, ListedDisplay::Handle(handle, cached)) <==> (
        cached[index] matches Some(found) && found == handle),
{
}

/// Displays that had been observed and are no longer listed are reported as a failure, which says how
/// many there were and what macOS says of it.
pub proof fn a_vanished_list_is_reported(
    current: CurrentDisplays,
    observed_count: nat,
    query: ActiveDisplayQuery,
)
    requires
        current matches CurrentDisplays::Listed { current: handles, .. } && handles@.len() == 0,
        observed_count > 0,
    ensures
        unlisted_message(current, observed_count, query) == Some(
            match query {
                ActiveDisplayQuery::NotAvailable =>
                    "winit returned no current display handles while "@ + decimal_spelling(
                    observed_count,
                ) + " observed displays remained"@,
                ActiveDisplayQuery::Failed { code } =>
                    "CGGetActiveDisplayList failed with CGError code "@ + signed_decimal_spelling(
                    code as int,
                ) + " while "@ + decimal_spelling(observed_count) + " observed displays remained"@,
                ActiveDisplayQuery::Found { count } =>
                    "winit returned no current display handles while CGGetActiveDisplayList reported "@
                    + decimal_spelling(count as nat) + " active displays and "@ + decimal_spelling(
                    observed_count,
                ) + " observed displays remained"@,
            },
        ),
{
}

} // verus!
