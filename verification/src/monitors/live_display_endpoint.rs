//! Reverse lookups over the displays that are live right now.

use super::identity::{equal_digests_are_equal_fingerprints, DisplayIdentity};
use super::topology::{
    equal_descriptors_agree_in_every_part, same_descriptor, MonitorDescriptor,
};
use crate::device::{DeviceKey, DeviceKeyView};
use crate::scale::encodings_equal;
use crate::text;
use crate::text::decimal_spelling;
use vstd::prelude::*;
use vstd::std_specs::cmp::PartialEqSpecImpl;

verus! {

/// Current monitor lifetime projected onto a kernel device.
#[derive(Clone, Copy, Debug)]
pub struct LiveDisplayEndpoint {
    /// Entity of the current operating-system monitor lifetime.
    pub monitor: u64,
    /// Geometry and adapter data for the current monitor lifetime.
    pub descriptor: MonitorDescriptor,
    /// Display identity retained only to migrate old state files.
    pub legacy_identity: DisplayIdentity,
}

impl PartialEq for LiveDisplayEndpoint {
    fn eq(&self, other: &Self) -> (same: bool) {
        self.monitor == other.monitor && self.descriptor == other.descriptor
            && self.legacy_identity == other.legacy_identity
    }
}

impl PartialEqSpecImpl for LiveDisplayEndpoint {
    open spec fn obeys_eq_spec() -> bool {
        true
    }

    open spec fn eq_spec(&self, other: &Self) -> bool {
        &&& self.monitor == other.monitor
        &&& same_descriptor(self.descriptor, other.descriptor)
        &&& self.legacy_identity == other.legacy_identity
    }
}

/// Relationship of a kernel device to the current monitor lifetime behind it.
#[derive(Clone, Copy, Debug, PartialEq, Eq, Structural)]
pub struct LiveDisplayMonitor(u64);

impl View for LiveDisplayMonitor {
    type V = u64;

    closed spec fn view(&self) -> u64 {
        self.0
    }
}

impl LiveDisplayMonitor {
    /// The relationship to this monitor.
    pub fn new(monitor: u64) -> (result: Self)
        ensures
            result@ == monitor,
    {
        LiveDisplayMonitor(monitor)
    }

    /// Current monitor entity related to this kernel device.
    pub fn monitor(self) -> (result: u64)
        ensures
            result == self@,
    {
        self.0
    }
}

/// Kernel devices currently projected for one monitor.
///
/// A real monitor has exactly one device; retaining a collection also represents contradictory
/// evidence.
#[derive(Debug)]
pub struct LiveDisplayDevices(Vec<u64>);

impl View for LiveDisplayDevices {
    type V = Seq<u64>;

    closed spec fn view(&self) -> Seq<u64> {
        self.0@
    }
}

/// Validated number of devices contradictorily related to one monitor: two or more.
#[derive(Clone, Copy, Debug, PartialEq, Eq, Structural)]
pub struct LiveDisplayContradictionCount(usize);

/// A contradiction needs at least two candidates.
#[derive(Clone, Copy, Debug, PartialEq, Eq, Structural)]
pub struct LiveDisplayContradictionCountError {
    pub supplied: usize,
}

impl View for LiveDisplayContradictionCount {
    type V = usize;

    closed spec fn view(&self) -> usize {
        self.0
    }
}

impl LiveDisplayContradictionCount {
    #[verifier::type_invariant]
    spec fn is_contradiction(&self) -> bool {
        self.0 >= 2
    }

    /// Count a second matching device plus however many followed it.
    pub fn from_second_and_remaining(remaining: usize) -> (result: Self)
        ensures
            result@ == if remaining + 2 > usize::MAX {
                usize::MAX as int
            } else {
                remaining + 2
            },
    {
        LiveDisplayContradictionCount(remaining.saturating_add(2))
    }

    /// The count, unless it is too small to be a contradiction.
    pub fn try_new(count: usize) -> (result: Result<Self, LiveDisplayContradictionCountError>)
        ensures
            match result {
                Ok(valid) => count >= 2 && valid@ == count,
                Err(error) => count < 2 && error.supplied == count,
            },
    {
        if count < 2 {
            return Err(LiveDisplayContradictionCountError { supplied: count });
        }
        Ok(LiveDisplayContradictionCount(count))
    }

    /// Number of contradictory devices.
    pub fn get(self) -> (result: usize)
        ensures
            result == self@,
            result >= 2,
    {
        proof {
            use_type_invariant(self);
        }
        self.0
    }

    /// The count as text.
    pub fn to_text(self) -> (result: String)
        ensures
            result@ == decimal_spelling(self@ as nat),
    {
        text::decimal(self.0 as u64)
    }
}

impl LiveDisplayContradictionCountError {
    /// What went wrong, as text.
    pub fn to_text(self) -> (result: String)
        ensures
            result@ == "a live-display contradiction requires at least two candidates, got "@
                + decimal_spelling(self.supplied as nat),
    {
        text::joined(
            "a live-display contradiction requires at least two candidates, got ",
            text::decimal(self.supplied as u64).as_str(),
        )
    }
}

/// Failure to resolve exactly one live display projection.
#[derive(Clone, Copy, Debug, PartialEq, Eq, Structural)]
pub enum LiveDisplayMatchError {
    /// No projected display capability matches the supplied evidence.
    NoLiveDisplayMatches,
    /// More than one projected display capability matches the supplied evidence.
    SeveralLiveDisplaysMatch {
        /// Validated number of matching projected devices.
        count: LiveDisplayContradictionCount,
    },
}

impl LiveDisplayMatchError {
    /// What went wrong, as text.
    pub fn to_text(self) -> (result: String)
        ensures
            result@ == match self {
                LiveDisplayMatchError::NoLiveDisplayMatches => "no live display matches"@,
                LiveDisplayMatchError::SeveralLiveDisplaysMatch { count } => decimal_spelling(
                    count@ as nat,
                ) + " live displays match"@,
            },
    {
        match self {
            LiveDisplayMatchError::NoLiveDisplayMatches => "no live display matches".to_owned(),
            LiveDisplayMatchError::SeveralLiveDisplaysMatch { count } => text::joined(
                count.to_text().as_str(),
                " live displays match",
            ),
        }
    }
}

impl LiveDisplayDevices {
    /// The devices projected for a monitor.
    pub fn new(devices: Vec<u64>) -> (result: Self)
        ensures
            result@ == devices@,
    {
        LiveDisplayDevices(devices)
    }

    /// One exact monitor-to-device association.
    pub fn single_device_for_test(device: u64) -> (result: Self)
        ensures
            result@ == seq![device],
    {
        let mut devices: Vec<u64> = Vec::new();
        devices.push(device);
        assert(devices@ =~= seq![device]);
        LiveDisplayDevices(devices)
    }

    /// Resolve the one kernel device projected for this monitor lifetime.
    pub fn device(&self) -> (result: Result<u64, LiveDisplayMatchError>)
        ensures
            match result {
                Ok(device) => self@ == seq![device],
                Err(LiveDisplayMatchError::NoLiveDisplayMatches) => self@.len() == 0,
                Err(LiveDisplayMatchError::SeveralLiveDisplaysMatch { count }) => self@.len() >= 2
                    && count@ == self@.len(),
            },
    {
        if self.0.len() == 0 {
            return Err(LiveDisplayMatchError::NoLiveDisplayMatches);
        }
        if self.0.len() == 1 {
            assert(self@ =~= seq![self@[0]]);
            return Ok(self.0[0]);
        }
        let count = LiveDisplayContradictionCount::from_second_and_remaining(self.0.len() - 2);
        Err(LiveDisplayMatchError::SeveralLiveDisplaysMatch { count })
    }
}

/// Exact reverse lookups over live display capabilities.
#[derive(Debug)]
pub struct LiveDisplayEndpointLookup {
    endpoints: Vec<(DeviceKey, LiveDisplayEndpoint)>,
}

impl View for LiveDisplayEndpointLookup {
    type V = Seq<(DeviceKey, LiveDisplayEndpoint)>;

    closed spec fn view(&self) -> Seq<(DeviceKey, LiveDisplayEndpoint)> {
        self.endpoints@
    }
}

/// What a live display is looked up by.
#[derive(Clone, Copy, Debug)]
pub enum LiveDisplayEvidence {
    /// Its geometry and adapter data.
    Descriptor(MonitorDescriptor),
    /// The identity that older state files recorded.
    LegacyIdentity(DisplayIdentity),
}

/// Whether a live display answers to the evidence. An anonymous identity is nobody's: two anonymous
/// displays are not thereby the same display.
pub open spec fn answers_to(endpoint: LiveDisplayEndpoint, evidence: LiveDisplayEvidence) -> bool {
    match evidence {
        LiveDisplayEvidence::Descriptor(descriptor) => same_descriptor(
            endpoint.descriptor,
            descriptor,
        ),
        LiveDisplayEvidence::LegacyIdentity(identity) => identity is Fingerprinted
            && endpoint.legacy_identity == identity,
    }
}

/// The keys of the live displays that answer to the evidence.
pub open spec fn matching_keys(
    endpoints: Seq<(DeviceKey, LiveDisplayEndpoint)>,
    evidence: LiveDisplayEvidence,
) -> Seq<DeviceKeyView>
    decreases endpoints.len(),
{
    if endpoints.len() == 0 {
        Seq::empty()
    } else if answers_to(endpoints.last().1, evidence) {
        matching_keys(endpoints.drop_last(), evidence).push(endpoints.last().0@)
    } else {
        matching_keys(endpoints.drop_last(), evidence)
    }
}

/// Whether a lookup's result says how many live displays answer: the key of the only one, that there
/// is none, or how many there are.
pub open spec fn reports_matches(
    result: Result<DeviceKey, LiveDisplayMatchError>,
    keys: Seq<DeviceKeyView>,
) -> bool {
    match result {
        Ok(key) => keys == seq![key@],
        Err(LiveDisplayMatchError::NoLiveDisplayMatches) => keys.len() == 0,
        Err(LiveDisplayMatchError::SeveralLiveDisplaysMatch { count }) => keys.len() >= 2 && count@
            == keys.len(),
    }
}

impl LiveDisplayEndpointLookup {
    /// A lookup over these live displays.
    pub fn new(endpoints: Vec<(DeviceKey, LiveDisplayEndpoint)>) -> (result: Self)
        ensures
            result@ == endpoints@,
    {
        LiveDisplayEndpointLookup { endpoints }
    }

    /// Find the one live device key carrying `descriptor`.
    pub fn key_for_descriptor(&self, descriptor: MonitorDescriptor) -> (result: Result<
        DeviceKey,
        LiveDisplayMatchError,
    >)
        ensures
            reports_matches(
                result,
                matching_keys(self@, LiveDisplayEvidence::Descriptor(descriptor)),
            ),
    {
        self.key_matching(LiveDisplayEvidence::Descriptor(descriptor))
    }

    /// Find the one live device key carrying `legacy_identity`. Anonymous identities never match.
    pub fn key_for_legacy_identity(&self, legacy_identity: DisplayIdentity) -> (result: Result<
        DeviceKey,
        LiveDisplayMatchError,
    >)
        ensures
            reports_matches(
                result,
                matching_keys(self@, LiveDisplayEvidence::LegacyIdentity(legacy_identity)),
            ),
    {
        self.key_matching(LiveDisplayEvidence::LegacyIdentity(legacy_identity))
    }

    fn key_matching(&self, evidence: LiveDisplayEvidence) -> (result: Result<
        DeviceKey,
        LiveDisplayMatchError,
    >)
        ensures
            reports_matches(result, matching_keys(self@, evidence)),
    {
        let mut first: Option<usize> = None;
        let mut count: usize = 0;
        let mut index: usize = 0;
        assert(self@.take(0) =~= Seq::empty());
        while index < self.endpoints.len()
            invariant
                index <= self@.len(),
                count <= index,
                count == matching_keys(self@.take(index as int), evidence).len(),
                match first {
                    Some(found) => count > 0 && found < index && self@[found as int].0@
                        == matching_keys(self@.take(index as int), evidence)[0],
                    None => count == 0,
                },
            decreases self@.len() - index,
        {
            assert(self@.take(index + 1).drop_last() =~= self@.take(index as int));
            let endpoint = &self.endpoints[index].1;
            let answers = match evidence {
                LiveDisplayEvidence::Descriptor(descriptor) => endpoint.descriptor == descriptor,
                LiveDisplayEvidence::LegacyIdentity(identity) => match identity {
                    DisplayIdentity::Fingerprinted(_) => endpoint.legacy_identity == identity,
                    DisplayIdentity::Anonymous => false,
                },
            };
            if answers {
                if first.is_none() {
                    first = Some(index);
                }
                count += 1;
            }
            index += 1;
        }
        assert(self@.take(index as int) =~= self@);
        match first {
            None => Err(LiveDisplayMatchError::NoLiveDisplayMatches),
            Some(found) => {
                if count == 1 {
                    assert(matching_keys(self@, evidence) =~= seq![self@[found as int].0@]);
                    Ok(self.endpoints[found].0.clone())
                } else {
                    Err(
                        LiveDisplayMatchError::SeveralLiveDisplaysMatch {
                            count: LiveDisplayContradictionCount::from_second_and_remaining(
                                count - 2,
                            ),
                        },
                    )
                }
            },
        }
    }
}

/// No live display answers to an anonymous identity, whatever displays are live.
pub proof fn anonymous_identity_matches_nothing(endpoints: Seq<(DeviceKey, LiveDisplayEndpoint)>)
    ensures
        matching_keys(
            endpoints,
            LiveDisplayEvidence::LegacyIdentity(DisplayIdentity::Anonymous),
        ).len() == 0,
    decreases endpoints.len(),
{
    if endpoints.len() > 0 {
        anonymous_identity_matches_nothing(endpoints.drop_last());
    }
}

/// A live display answers to geometry that is its own in every part, and to a fingerprint that is its
/// own.
pub proof fn a_display_answers_to_its_own_evidence(
    endpoint: LiveDisplayEndpoint,
    descriptor: MonitorDescriptor,
    identity: DisplayIdentity,
)
    ensures
        answers_to(endpoint, LiveDisplayEvidence::Descriptor(descriptor)) <==> {
            &&& endpoint.descriptor.index@ == descriptor.index@
            &&& encodings_equal(endpoint.descriptor.scale@, descriptor.scale@)
            &&& endpoint.descriptor.physical_position.x == descriptor.physical_position.x
            &&& endpoint.descriptor.physical_position.y == descriptor.physical_position.y
            &&& endpoint.descriptor.physical_size.x == descriptor.physical_size.x
            &&& endpoint.descriptor.physical_size.y == descriptor.physical_size.y
        },
        answers_to(endpoint, LiveDisplayEvidence::LegacyIdentity(identity)) <==> match (
            identity,
            endpoint.legacy_identity,
        ) {
            (DisplayIdentity::Fingerprinted(wanted), DisplayIdentity::Fingerprinted(found)) => wanted@
                == found@,
            _ => false,
        },
{
    equal_descriptors_agree_in_every_part(endpoint.descriptor, descriptor);
    if let DisplayIdentity::Fingerprinted(wanted) = identity {
        if let DisplayIdentity::Fingerprinted(found) = endpoint.legacy_identity {
            equal_digests_are_equal_fingerprints(wanted, found);
        }
    }
}

/// Looking through two lists of displays in turn finds what each of them holds; a list of one display
/// holds its key where it answers, and nothing where it does not.
pub proof fn every_answering_display_is_found(
    first: Seq<(DeviceKey, LiveDisplayEndpoint)>,
    second: Seq<(DeviceKey, LiveDisplayEndpoint)>,
    key: DeviceKey,
    endpoint: LiveDisplayEndpoint,
    evidence: LiveDisplayEvidence,
)
    ensures
        matching_keys(first + second, evidence) == matching_keys(first, evidence) + matching_keys(
            second,
            evidence,
        ),
        matching_keys(seq![(key, endpoint)], evidence) == if answers_to(endpoint, evidence) {
            seq![key@]
        } else {
            Seq::empty()
        },
    decreases second.len(),
{
    if second.len() == 0 {
        assert(first + second =~= first);
        assert(matching_keys(first, evidence) + Seq::<DeviceKeyView>::empty() =~= matching_keys(
            first,
            evidence,
        ));
    } else {
        assert((first + second).drop_last() =~= first + second.drop_last());
        every_answering_display_is_found(first, second.drop_last(), key, endpoint, evidence);
        assert(matching_keys(first + second, evidence) =~= matching_keys(first, evidence)
            + matching_keys(second, evidence));
    }
    let one = seq![(key, endpoint)];
    assert(one.drop_last() =~= Seq::empty());
    assert(matching_keys(one.drop_last(), evidence) =~= Seq::empty());
    assert(matching_keys(one, evidence) =~= if answers_to(endpoint, evidence) {
        seq![key@]
    } else {
        Seq::empty()
    });
}

/// One answering display is the one that is found; where none answers none is found, and where two
/// answer more than one is.
pub proof fn the_only_match_is_the_only_key(
    endpoints: Seq<(DeviceKey, LiveDisplayEndpoint)>,
    evidence: LiveDisplayEvidence,
    i: int,
    j: int,
)
    ensures
        0 <= i < endpoints.len() && answers_to(endpoints[i].1, evidence) && (forall|other: int|
            0 <= other < endpoints.len() && answers_to((#[trigger] endpoints[other]).1, evidence)
                ==> other == i) ==> matching_keys(endpoints, evidence) == seq![endpoints[i].0@],
        (forall|other: int|
            0 <= other < endpoints.len() ==> !answers_to((#[trigger] endpoints[other]).1, evidence))
            <==> matching_keys(endpoints, evidence).len() == 0,
        0 <= i < j < endpoints.len() && answers_to(endpoints[i].1, evidence) && answers_to(
            endpoints[j].1,
            evidence,
        ) ==> matching_keys(endpoints, evidence).len() >= 2,
{
    let all = matching_keys(endpoints, evidence);
    matches_are_counted(endpoints, evidence);
    if 0 <= i < endpoints.len() && answers_to(endpoints[i].1, evidence) {
        let front = endpoints.take(i);
        let rest = endpoints.skip(i + 1);
        let (key, endpoint) = endpoints[i];
        assert(front + (seq![(key, endpoint)] + rest) =~= endpoints);
        every_answering_display_is_found(
            front,
            seq![(key, endpoint)] + rest,
            key,
            endpoint,
            evidence,
        );
        every_answering_display_is_found(seq![(key, endpoint)], rest, key, endpoint, evidence);
        matches_are_counted(front, evidence);
        matches_are_counted(rest, evidence);
        assert(all == matching_keys(front, evidence) + (seq![key@] + matching_keys(rest, evidence)));
        if forall|other: int|
            0 <= other < endpoints.len() && answers_to((#[trigger] endpoints[other]).1, evidence)
                ==> other == i {
            assert forall|other: int| 0 <= other < front.len() implies !answers_to(
                (#[trigger] front[other]).1,
                evidence,
            ) by {
                assert(front[other] == endpoints[other]);
            }
            assert forall|other: int| 0 <= other < rest.len() implies !answers_to(
                (#[trigger] rest[other]).1,
                evidence,
            ) by {
                assert(rest[other] == endpoints[other + i + 1]);
            }
            assert(all =~= seq![key@]);
        }
        if i < j < endpoints.len() && answers_to(endpoints[j].1, evidence) {
            assert(rest[j - i - 1] == endpoints[j]);
            assert(matching_keys(rest, evidence).len() > 0);
        }
    }
}

/// A lookup gives the key of a display that answers while no other one does, says that none answers
/// where none does, and gives no key where two displays answer.
pub proof fn a_lookup_finds_the_only_answering_display(
    endpoints: Seq<(DeviceKey, LiveDisplayEndpoint)>,
    evidence: LiveDisplayEvidence,
    result: Result<DeviceKey, LiveDisplayMatchError>,
    i: int,
    j: int,
)
    requires
        reports_matches(result, matching_keys(endpoints, evidence)),
    ensures
        0 <= i < endpoints.len() && answers_to(endpoints[i].1, evidence) && (forall|other: int|
            0 <= other < endpoints.len() && answers_to((#[trigger] endpoints[other]).1, evidence)
                ==> other == i) ==> (result matches Ok(key) && key@ == endpoints[i].0@),
        (forall|other: int|
            0 <= other < endpoints.len() ==> !answers_to((#[trigger] endpoints[other]).1, evidence))
            <==> result == Err::<DeviceKey, LiveDisplayMatchError>(
            LiveDisplayMatchError::NoLiveDisplayMatches,
        ),
        0 <= i < j < endpoints.len() && answers_to(endpoints[i].1, evidence) && answers_to(
            endpoints[j].1,
            evidence,
        ) ==> (result matches Err(LiveDisplayMatchError::SeveralLiveDisplaysMatch { count })
            && count@ >= 2),
{
    the_only_match_is_the_only_key(endpoints, evidence, i, j);
    if let Ok(found) = result {
        assert(seq![found@].len() == 1);
        assert(seq![found@][0] == found@);
        if 0 <= i < endpoints.len() {
            assert(seq![endpoints[i].0@][0] == endpoints[i].0@);
        }
    }
}

proof fn matches_are_counted(
    endpoints: Seq<(DeviceKey, LiveDisplayEndpoint)>,
    evidence: LiveDisplayEvidence,
)
    ensures
        matching_keys(endpoints, evidence).len() <= endpoints.len(),
        matching_keys(endpoints, evidence).len() == 0 <==> forall|other: int|
            0 <= other < endpoints.len() ==> !answers_to((#[trigger] endpoints[other]).1, evidence),
    decreases endpoints.len(),
{
    if endpoints.len() > 0 {
        let rest = endpoints.drop_last();
        matches_are_counted(rest, evidence);
        assert forall|i: int| 0 <= i < rest.len() implies #[trigger] rest[i] == endpoints[i] by {}
        assert(endpoints.last() == endpoints[endpoints.len() - 1]);
        if forall|other: int|
            0 <= other < endpoints.len() ==> !answers_to((#[trigger] endpoints[other]).1, evidence) {
            assert forall|other: int| 0 <= other < rest.len() implies !answers_to(
                (#[trigger] rest[other]).1,
                evidence,
            ) by {
                assert(!answers_to(endpoints[other].1, evidence));
            }
        } else {
            let other = choose|other: int|
                0 <= other < endpoints.len() && answers_to(
                    (#[trigger] endpoints[other]).1,
                    evidence,
                );
            if other < rest.len() {
                assert(answers_to(rest[other].1, evidence));
            }
        }
    }
}

/// Where several displays answer, a lookup says how many do.
pub proof fn a_lookup_counts_the_answering_displays(
    endpoints: Seq<(DeviceKey, LiveDisplayEndpoint)>,
    evidence: LiveDisplayEvidence,
    result: Result<DeviceKey, LiveDisplayMatchError>,
)
    requires
        reports_matches(result, matching_keys(endpoints, evidence)),
    ensures
        ({
            let answering = endpoints.filter(
                |display: (DeviceKey, LiveDisplayEndpoint)| answers_to(display.1, evidence),
            ).len();
            &&& result is Ok <==> answering == 1
            &&& result matches Err(LiveDisplayMatchError::SeveralLiveDisplaysMatch { count })
                ==> count@ == answering && answering >= 2
            &&& result matches Err(LiveDisplayMatchError::NoLiveDisplayMatches) ==> answering == 0
        }),
{
    matching_displays_are_counted(endpoints, evidence);
    if let Ok(found) = result {
        assert(seq![found@].len() == 1);
    }
}

proof fn matching_displays_are_counted(
    endpoints: Seq<(DeviceKey, LiveDisplayEndpoint)>,
    evidence: LiveDisplayEvidence,
)
    ensures
        matching_keys(endpoints, evidence).len() == endpoints.filter(
            |display: (DeviceKey, LiveDisplayEndpoint)| answers_to(display.1, evidence),
        ).len(),
    decreases endpoints.len(),
{
    reveal(Seq::filter);
    if endpoints.len() > 0 {
        matching_displays_are_counted(endpoints.drop_last(), evidence);
    }
}

} // verus!
