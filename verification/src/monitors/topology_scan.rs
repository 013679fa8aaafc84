//! Building the monitor topology from one scan of the window system.

use super::display_product_name::{
    from_platform, optional_text, product_name, screens_view, AppKitScreen, DisplayProductName,
    DisplayProductNameView,
};
use super::edid::{is_valid_edid, published_serial};
use super::identity::{
    classified_evidence, classify_display_evidence, evidence_is_classified_by_what_it_is, fnv_1a,
    DisplayIdentity, DisplayIdentityEvidence,
    DisplayIdentityEvidenceView, MonitorConfigurationState, MonitorIdentificationError,
};
use super::native::{
    attachment_path_when_unreported, copied_query, file_view, is_internal_connector,
    monitor_evidence, query_view, the_connector_file_stands_in_for_the_property,
    valid_property_data_identifies_the_display, MacOsDisplayUuid,
    reading_attachment, reading_identity, unreported_attachment, MonitorReading, QualifiedEvidence,
    QualifiedEvidenceView,
};
use super::topology::{
    a_device_handle_is_the_window_servers_number, device_handle, index_keeps_its_position, platform_device_handle, CurrentMonitorIndex, DisplayDeviceEvidence,
    DisplayDeviceEvidenceView, InstalledMonitor, MonitorDescriptor, Monitors,
};
use crate::bytes::copied;
use crate::device::{
    AttachmentPath, PlatformDeviceHandle, PlatformReportView, ReportedSerial, ReportedSerialView,
};
use crate::geometry::{IVec2, UVec2};
use crate::platform::{OperatingSystem, Platform};
use crate::scale::ScaleFactor;
use crate::text::number_spelled_by;
use std::collections::HashMap;
use std::collections::HashSet;
use crate::sequences::filter_of_longer_prefix;
use vstd::prelude::*;
use vstd::utf8::{decode_utf8, encode_utf8, valid_utf8};

verus! {

broadcast use vstd::std_specs::hash::group_hash_axioms;

/// The window system's handle for a monitor.
#[derive(Clone, Copy, Debug, PartialEq, Eq, Structural)]
pub struct MonitorHandle {
    /// Equal for two handles exactly where the window system calls them equal.
    pub token: u64,
    /// The window system's own identifier of the display.
    pub native_id: u32,
}

/// One monitor as a scan found it.
#[derive(Debug)]
pub struct ScannedMonitor {
    pub entity: u64,
    /// Position in the window system's enumeration, once it has been looked up.
    pub cached_index: Option<usize>,
    pub handle: Option<MonitorHandle>,
    /// Position in the topology, once it has been assigned.
    pub index: usize,
    pub winit_name: Option<String>,
    pub scale: ScaleFactor,
    pub physical_position: IVec2,
    pub physical_size: UVec2,
    /// What the platform read about the monitor behind the handle.
    pub reading: MonitorReading,
}

/// The order in which the window system, or a scripted platform, lists the monitors.
#[derive(Debug)]
pub enum EnumerationOrder {
    /// The handles' tokens.
    Handles(Vec<u64>),
    /// The entities of a scripted platform.
    Scripted(Vec<u64>),
}

impl EnumerationOrder {
    /// What the order lists.
    pub open spec fn listed(self) -> Seq<u64> {
        match self {
            EnumerationOrder::Handles(tokens) => tokens@,
            EnumerationOrder::Scripted(entities) => entities@,
        }
    }

    /// What the order lists `monitor` as, where it lists it at all.
    pub open spec fn listed_as(self, monitor: ScannedMonitor) -> Option<u64> {
        match self {
            EnumerationOrder::Handles(_) => match monitor.handle {
                Some(handle) => Some(handle.token),
                None => None,
            },
            EnumerationOrder::Scripted(_) => Some(monitor.entity),
        }
    }

    /// Where the order lists `monitor`.
    pub open spec fn position_of(self, monitor: ScannedMonitor) -> Option<int> {
        match self {
            EnumerationOrder::Handles(tokens) => match monitor.handle {
                Some(handle) => first_position(tokens@, handle.token, 0),
                None => None,
            },
            EnumerationOrder::Scripted(entities) => first_position(entities@, monitor.entity, 0),
        }
    }
}

/// The first place of `item` in `items` from `index` on.
pub open spec fn first_position(items: Seq<u64>, item: u64, index: int) -> Option<int>
    decreases items.len() - index,
{
    if index < 0 || index >= items.len() {
        None
    } else if items[index] == item {
        Some(index)
    } else {
        first_position(items, item, index + 1)
    }
}

/// A position as an integer.
pub open spec fn as_position(cached_index: Option<usize>) -> Option<int> {
    match cached_index {
        Some(index) => Some(index as int),
        None => None,
    }
}

fn position_in(items: &Vec<u64>, item: u64) -> (result: Option<usize>)
    ensures
        as_position(result) == first_position(items@, item, 0),
{
    let mut index: usize = 0;
    while index < items.len()
        invariant
            index <= items@.len(),
            first_position(items@, item, 0) == first_position(items@, item, index as int),
        decreases items@.len() - index,
    {
        if items[index] == item {
            return Some(index);
        }
        index += 1;
    }
    None
}

/// Listed monitors come first, in the order's order; the others follow by entity.
pub open spec fn comes_before(
    position: Option<int>,
    entity: u64,
    other_position: Option<int>,
    other_entity: u64,
) -> bool {
    match (position, other_position) {
        (Some(place), Some(other_place)) => place < other_place || (place == other_place && entity
            < other_entity),
        (Some(_), None) => true,
        (None, Some(_)) => false,
        (None, None) => entity < other_entity,
    }
}

/// Whether the scan's monitor at `a` is enumerated before the one at `b`. Monitors that the order
/// does not tell apart keep the order of the scan.
pub open spec fn enumerated_before(
    scanned: Seq<ScannedMonitor>,
    order: EnumerationOrder,
    a: int,
    b: int,
) -> bool {
    let position = order.position_of(scanned[a]);
    let other_position = order.position_of(scanned[b]);
    ||| comes_before(position, scanned[a].entity, other_position, scanned[b].entity)
    ||| position == other_position && scanned[a].entity == scanned[b].entity && a < b
}

/// How many of the first `length` monitors the order does not list.
pub open spec fn unassociated_before(monitors: Seq<ScannedMonitor>, length: int) -> int
    decreases length,
{
    if length <= 0 {
        0
    } else if monitors[length - 1].cached_index is None {
        unassociated_before(monitors, length - 1) + 1
    } else {
        unassociated_before(monitors, length - 1)
    }
}

/// Whether `result` is a monitor of the scan with its cached position filled in.
pub open spec fn is_associated(
    result: ScannedMonitor,
    monitor: ScannedMonitor,
    order: EnumerationOrder,
) -> bool {
    &&& as_position(result.cached_index) == order.position_of(monitor)
    &&& result.entity == monitor.entity
    &&& result.handle == monitor.handle
    &&& result.winit_name == monitor.winit_name
    &&& result.scale == monitor.scale
    &&& result.physical_position == monitor.physical_position
    &&& result.physical_size == monitor.physical_size
    &&& result.reading == monitor.reading
}

/// Whether `origin` says from which place of the scan each enumerated monitor comes: every place
/// occurs once, in enumeration order.
pub open spec fn is_enumeration_origin(
    scanned: Seq<ScannedMonitor>,
    order: EnumerationOrder,
    origin: Seq<int>,
) -> bool {
    &&& origin.len() == scanned.len()
    &&& forall|i: int| 0 <= i < origin.len() ==> 0 <= #[trigger] origin[i] < scanned.len()
    &&& forall|place: int| 0 <= place < scanned.len() ==> #[trigger] origin.contains(place)
    &&& forall|i: int, j: int|
        0 <= i < j < origin.len() ==> enumerated_before(
            scanned,
            order,
            #[trigger] origin[i],
            #[trigger] origin[j],
        )
}

/// Whether `result` is the scan in enumeration order, every monitor with its positions filled in:
/// a listed monitor has the place where it is listed, and the others are numbered from the length
/// of the list on.
pub open spec fn is_enumeration(
    scanned: Seq<ScannedMonitor>,
    order: EnumerationOrder,
    origin: Seq<int>,
    result: Seq<ScannedMonitor>,
) -> bool {
    &&& is_enumeration_origin(scanned, order, origin)
    &&& result.len() == scanned.len()
    &&& forall|i: int|
        0 <= i < result.len() ==> is_associated(#[trigger] result[i], scanned[origin[i]], order)
    &&& forall|i: int|
        0 <= i < result.len() ==> (#[trigger] result[i]).index == match result[i].cached_index {
            Some(cached) => cached as int,
            None => order.listed().len() + unassociated_before(result, i),
        }
}

fn associate(scanned: Vec<ScannedMonitor>, order: &EnumerationOrder) -> (result: Vec<
    ScannedMonitor,
>)
    ensures
        result@.len() == scanned@.len(),
        forall|i: int|
            0 <= i < result@.len() ==> is_associated(#[trigger] result@[i], scanned@[i], *order),
{
    let mut result: Vec<ScannedMonitor> = Vec::new();
    for monitor in iter: scanned
        invariant
            iter.seq() == scanned@,
            result@.len() == iter.index(),
            forall|i: int|
                0 <= i < result@.len() ==> is_associated(
                    #[trigger] result@[i],
                    scanned@[i],
                    *order,
                ),
    {
        let cached_index: Option<usize> = match order {
            EnumerationOrder::Handles(tokens) => match monitor.handle {
                Some(handle) => position_in(tokens, handle.token),
                None => None,
            },
            EnumerationOrder::Scripted(entities) => position_in(entities, monitor.entity),
        };
        let mut associated = monitor;
        associated.cached_index = cached_index;
        result.push(associated);
    }
    result
}

/// Whether an associated monitor is enumerated before another.
spec fn sorts_before(a: ScannedMonitor, b: ScannedMonitor) -> bool {
    comes_before(as_position(a.cached_index), a.entity, as_position(b.cached_index), b.entity)
}

fn is_sorted_before(a: &ScannedMonitor, b: &ScannedMonitor) -> (result: bool)
    ensures
        result == sorts_before(*a, *b),
{
    match (a.cached_index, b.cached_index) {
        (Some(place), Some(other_place)) => place < other_place || (place == other_place && a.entity
            < b.entity),
        (Some(_), None) => true,
        (None, Some(_)) => false,
        (None, None) => a.entity < b.entity,
    }
}

/// Whether `sorted` holds the first monitors of `associated`, in enumeration order.
spec fn is_sorted_prefix(
    associated: Seq<ScannedMonitor>,
    length: int,
    origin: Seq<int>,
    sorted: Seq<ScannedMonitor>,
) -> bool {
    &&& origin.len() == length
    &&& sorted.len() == length
    &&& forall|i: int|
        0 <= i < length ==> 0 <= #[trigger] origin[i] < length && sorted[i] == associated[origin[i]]
    &&& forall|place: int| 0 <= place < length ==> #[trigger] origin.contains(place)
    &&& forall|i: int, j: int| 0 <= i < j < length ==> #[trigger] are_in_order(origin, sorted, i, j)
}

/// Whether two sorted monitors stand in enumeration order, or else in the order of the scan.
spec fn are_in_order(origin: Seq<int>, sorted: Seq<ScannedMonitor>, i: int, j: int) -> bool {
    ||| sorts_before(sorted[i], sorted[j])
    ||| (!sorts_before(sorted[j], sorted[i]) && origin[i] < origin[j])
}

proof fn sorted_prefix_grows(
    associated: Seq<ScannedMonitor>,
    length: int,
    origin: Seq<int>,
    sorted: Seq<ScannedMonitor>,
    place: int,
)
    requires
        0 <= length < associated.len(),
        is_sorted_prefix(associated, length, origin, sorted),
        0 <= place <= length,
        forall|i: int| 0 <= i < place ==> !sorts_before(associated[length], #[trigger] sorted[i]),
        forall|i: int| place <= i < length ==> sorts_before(associated[length], #[trigger] sorted[i]),
    ensures
        is_sorted_prefix(
            associated,
            length + 1,
            origin.insert(place, length),
            sorted.insert(place, associated[length]),
        ),
{
    let grown_origin = origin.insert(place, length);
    let grown = sorted.insert(place, associated[length]);
    assert forall|i: int| 0 <= i < length + 1 implies 0 <= #[trigger] grown_origin[i] < length + 1
        && grown[i] == associated[grown_origin[i]] by {
        if i < place {
            assert(grown_origin[i] == origin[i]);
        } else if i > place {
            assert(grown_origin[i] == origin[i - 1]);
        }
    }
    assert forall|wanted: int| 0 <= wanted < length + 1 implies #[trigger] grown_origin.contains(
        wanted,
    ) by {
        if wanted == length {
            assert(grown_origin[place] == wanted);
        } else {
            assert(origin.contains(wanted));
            let i = choose|i: int| 0 <= i < origin.len() && origin[i] == wanted;
            if i < place {
                assert(grown_origin[i] == wanted);
            } else {
                assert(grown_origin[i + 1] == wanted);
            }
        }
    }
    assert forall|i: int, j: int| 0 <= i < j < length + 1 implies #[trigger] are_in_order(
        grown_origin,
        grown,
        i,
        j,
    ) by {
        let old_i = if i < place {
            i
        } else {
            i - 1
        };
        let old_j = if j < place {
            j
        } else {
            j - 1
        };
        if i != place && j != place {
            assert(are_in_order(origin, sorted, old_i, old_j));
            assert(grown_origin[i] == origin[old_i] && grown_origin[j] == origin[old_j]);
            assert(grown[i] == sorted[old_i] && grown[j] == sorted[old_j]);
        } else if i == place {
            assert(grown[j] == sorted[old_j]);
        } else {
            assert(grown[i] == sorted[old_i]);
            assert(grown_origin[i] == origin[old_i]);
        }
    }
}

fn sort_by_enumeration(associated: Vec<ScannedMonitor>) -> (result: (
    Vec<ScannedMonitor>,
    Ghost<Seq<int>>,
))
    ensures
        is_sorted_prefix(associated@, associated@.len() as int, result.1@, result.0@),
{
    let ghost mut origin: Seq<int> = Seq::empty();
    let mut sorted: Vec<ScannedMonitor> = Vec::new();
    for monitor in iter: associated
        invariant
            iter.seq() == associated@,
            is_sorted_prefix(associated@, iter.index(), origin, sorted@),
    {
        let ghost length = iter.index();
        let mut place: usize = sorted.len();
        while place > 0 && is_sorted_before(&monitor, &sorted[place - 1])
            invariant
                place <= sorted@.len(),
                forall|i: int| place <= i < sorted@.len() ==> sorts_before(
                    monitor,
                    #[trigger] sorted@[i],
                ),
            decreases place,
        {
            place -= 1;
        }
        proof {
            assert forall|i: int| 0 <= i < place implies !sorts_before(
                monitor,
                #[trigger] sorted@[i],
            ) by {
                if i < place - 1 {
                    assert(are_in_order(origin, sorted@, i, place - 1));
                }
            }
            sorted_prefix_grows(associated@, length, origin, sorted@, place as int);
            origin = origin.insert(place as int, length);
        }
        sorted.insert(place, monitor);
    }
    (sorted, Ghost(origin))
}

/// Number the enumerated monitors: a listed one by the place where it is listed, the others from
/// `cached_monitor_count` on.
fn assign_unassociated_indices(
    sorted: Vec<ScannedMonitor>,
    cached_monitor_count: usize,
) -> (result: Vec<ScannedMonitor>)
    requires
        cached_monitor_count + sorted@.len() <= usize::MAX,
    ensures
        result@.len() == sorted@.len(),
        forall|i: int|
            0 <= i < result@.len() ==> {
                &&& (#[trigger] result@[i]) == (ScannedMonitor { index: result@[i].index, ..sorted@[i] })
                &&& result@[i].index == match result@[i].cached_index {
                    Some(cached) => cached as int,
                    None => cached_monitor_count + unassociated_before(result@, i),
                }
            },
{
    let mut result: Vec<ScannedMonitor> = Vec::new();
    let mut unassociated: usize = 0;
    for monitor in iter: sorted
        invariant
            iter.seq() == sorted@,
            result@.len() == iter.index(),
            cached_monitor_count + sorted@.len() <= usize::MAX,
            unassociated <= iter.index(),
            unassociated == unassociated_before(result@, iter.index()),
            forall|i: int|
                0 <= i < result@.len() ==> {
                    &&& (#[trigger] result@[i]) == (ScannedMonitor {
                        index: result@[i].index,
                        ..sorted@[i]
                    })
                    &&& result@[i].index == match result@[i].cached_index {
                        Some(cached) => cached as int,
                        None => cached_monitor_count + unassociated_before(result@, i),
                    }
                },
    {
        let ghost before = result@;
        let mut numbered = monitor;
        match numbered.cached_index {
            Some(cached) => {
                numbered.index = cached;
            },
            None => {
                numbered.index = cached_monitor_count + unassociated;
                unassociated += 1;
            },
        }
        result.push(numbered);
        proof {
            assert forall|i: int| 0 <= i <= before.len() implies #[trigger] unassociated_before(
                result@,
                i,
            ) == unassociated_before(before, i) by {
                unassociated_of_prefix(before, result@, i);
            }
            assert(unassociated_before(result@, (before.len() + 1) as int) == unassociated_before(
                result@,
                before.len() as int,
            ) + if numbered.cached_index is None {
                1int
            } else {
                0
            });
        }
    }
    result
}

proof fn unassociated_of_prefix(a: Seq<ScannedMonitor>, b: Seq<ScannedMonitor>, length: int)
    requires
        0 <= length <= a.len(),
        a.len() <= b.len(),
        forall|i: int| 0 <= i < a.len() ==> a[i].cached_index == b[i].cached_index,
    ensures
        unassociated_before(a, length) == unassociated_before(b, length),
    decreases length,
{
    if length > 0 {
        unassociated_of_prefix(a, b, length - 1);
    }
}

/// Put a scan in enumeration order and number its monitors. A script counts one lookup for each of
/// them.
pub fn assign_cached_monitor_order(
    scanned: Vec<ScannedMonitor>,
    order: &EnumerationOrder,
    script: Option<&mut InjectedMonitorEvidence>,
) -> (result: Vec<ScannedMonitor>)
    requires
        order.listed().len() + scanned@.len() <= usize::MAX,
        script matches Some(scripted) ==> scripted.activity().leaves_room_for_lookups(
            scanned@.len() as int,
        ),
    ensures
        exists|origin: Seq<int>| is_enumeration(scanned@, *order, origin, result@),
        script matches Some(scripted) ==> {
            &&& final(scripted).says_the_same_as(&*scripted)
            &&& final(scripted).activity() == scripted.activity().after_lookups(
                scanned@.len() as int,
            )
        },
{
    if let Some(scripted) = script {
        scripted.activity.cached_order_lookups += scanned.len();
    }
    let ghost scan = scanned@;
    let associated = associate(scanned, order);
    let ghost all = associated@;
    let (sorted, Ghost(origin)) = sort_by_enumeration(associated);
    let cached_monitor_count: usize = match order {
        EnumerationOrder::Handles(tokens) => tokens.len(),
        EnumerationOrder::Scripted(entities) => entities.len(),
    };
    let result = assign_unassociated_indices(sorted, cached_monitor_count);
    proof {
        assert forall|i: int, j: int| 0 <= i < j < origin.len() implies enumerated_before(
            scan,
            *order,
            #[trigger] origin[i],
            #[trigger] origin[j],
        ) by {
            assert(are_in_order(origin, sorted@, i, j));
            assert(is_associated(all[origin[i]], scan[origin[i]], *order));
            assert(is_associated(all[origin[j]], scan[origin[j]], *order));
        }
        assert forall|i: int| 0 <= i < result@.len() implies is_associated(
            #[trigger] result@[i],
            scan[origin[i]],
            *order,
        ) by {
            assert(0 <= origin[i] < all.len());
            assert(is_associated(all[origin[i]], scan[origin[i]], *order));
        }
        assert(is_enumeration(scan, *order, origin, result@));
    }
    result
}

proof fn enumerated_before_goes_one_way(
    scanned: Seq<ScannedMonitor>,
    order: EnumerationOrder,
    a: int,
    b: int,
)
    ensures
        !(enumerated_before(scanned, order, a, b) && enumerated_before(scanned, order, b, a)),
{
}

proof fn enumeration_origin_is_unique(
    scanned: Seq<ScannedMonitor>,
    order: EnumerationOrder,
    first: Seq<int>,
    second: Seq<int>,
    length: int,
)
    requires
        is_enumeration_origin(scanned, order, first),
        is_enumeration_origin(scanned, order, second),
        0 <= length <= scanned.len(),
    ensures
        first.take(length) == second.take(length),
    decreases length,
{
    if length > 0 {
        let last = length - 1;
        enumeration_origin_is_unique(scanned, order, first, second, last);
        assert forall|i: int| 0 <= i < last implies first[i] == second[i] by {
            assert(first.take(last)[i] == second.take(last)[i]);
        }
        if first[last] != second[last] {
            assert(second.contains(first[last]));
            let j = choose|j: int| 0 <= j < second.len() && second[j] == first[last];
            assert(first.contains(second[last]));
            let k = choose|k: int| 0 <= k < first.len() && first[k] == second[last];
            if j < last {
                enumerated_before_goes_one_way(scanned, order, first[j], first[last]);
            }
            if k < last {
                enumerated_before_goes_one_way(scanned, order, second[k], second[last]);
            }
            enumerated_before_goes_one_way(scanned, order, first[last], second[last]);
        }
        assert(first.take(length) =~= second.take(length));
    }
}

/// A scan has one enumeration: the order and the numbers of its monitors are determined by the scan
/// and the list.
pub proof fn enumeration_is_unique(
    scanned: Seq<ScannedMonitor>,
    order: EnumerationOrder,
    first_origin: Seq<int>,
    first: Seq<ScannedMonitor>,
    second_origin: Seq<int>,
    second: Seq<ScannedMonitor>,
)
    requires
        is_enumeration(scanned, order, first_origin, first),
        is_enumeration(scanned, order, second_origin, second),
    ensures
        first == second,
{
    let length = scanned.len() as int;
    enumeration_origin_is_unique(scanned, order, first_origin, second_origin, length);
    assert(first_origin.take(length) =~= first_origin);
    assert(second_origin.take(length) =~= second_origin);
    assert forall|i: int| 0 <= i < first.len() implies first[i].cached_index
        == second[i].cached_index by {
        assert(is_associated(first[i], scanned[first_origin[i]], order));
        assert(is_associated(second[i], scanned[second_origin[i]], order));
    }
    assert forall|i: int| 0 <= i < first.len() implies first[i] == second[i] by {
        assert(is_associated(first[i], scanned[first_origin[i]], order));
        assert(is_associated(second[i], scanned[second_origin[i]], order));
        unassociated_of_prefix(first, second, i);
    }
    assert(first =~= second);
}

proof fn unassociated_count_grows(monitors: Seq<ScannedMonitor>, shorter: int, longer: int)
    requires
        0 <= shorter <= longer,
    ensures
        0 <= unassociated_before(monitors, shorter) <= unassociated_before(monitors, longer),
    decreases longer,
{
    if shorter < longer {
        unassociated_count_grows(monitors, shorter, longer - 1);
    } else if shorter > 0 {
        unassociated_count_grows(monitors, shorter - 1, longer - 1);
    }
}

proof fn position_is_listed(items: Seq<u64>, item: u64, index: int)
    requires
        0 <= index,
    ensures
        match first_position(items, item, index) {
            Some(position) => index <= position < items.len() && items[position] == item,
            None => true,
        },
    decreases items.len() - index,
{
    if index < items.len() && items[index] != item {
        position_is_listed(items, item, index + 1);
    }
}

/// Positions are not shared: a monitor that the window system does not list is numbered after
/// every listed one, and no two such monitors have the same number.
pub proof fn unlisted_monitors_are_numbered_apart(
    scanned: Seq<ScannedMonitor>,
    order: EnumerationOrder,
    origin: Seq<int>,
    result: Seq<ScannedMonitor>,
    i: int,
    j: int,
)
    requires
        is_enumeration(scanned, order, origin, result),
        0 <= i < result.len(),
        0 <= j < result.len(),
        i != j,
        result[i].cached_index is None,
    ensures
        result[i].index != result[j].index,
        result[j].cached_index is Some ==> result[j].index < result[i].index,
{
    unassociated_count_grows(result, 0, i);
    if result[j].cached_index is Some {
        assert(is_associated(result[j], scanned[origin[j]], order));
        match order {
            EnumerationOrder::Handles(tokens) => {
                position_is_listed(tokens@, scanned[origin[j]].handle->0.token, 0);
            },
            EnumerationOrder::Scripted(entities) => {
                position_is_listed(entities@, scanned[origin[j]].entity, 0);
            },
        }
    } else if i < j {
        unassociated_count_grows(result, i + 1, j);
    } else {
        unassociated_count_grows(result, j + 1, i);
    }
}

/// Listed monitors are numbered in the order of the list, each by a place where it is listed, and
/// apart where they are listed as different things: under handles of their own, or as entities of a
/// scripted platform.
pub proof fn listed_monitors_are_numbered_apart(
    scanned: Seq<ScannedMonitor>,
    order: EnumerationOrder,
    origin: Seq<int>,
    result: Seq<ScannedMonitor>,
    i: int,
    j: int,
)
    requires
        is_enumeration(scanned, order, origin, result),
        0 <= i < j < result.len(),
        result[i].cached_index is Some,
        result[j].cached_index is Some,
        order.listed_as(result[i]) != order.listed_as(result[j]),
    ensures
        result[i].index < result[j].index,
        Some(order.listed()[result[i].index as int]) == order.listed_as(result[i]),
        Some(order.listed()[result[j].index as int]) == order.listed_as(result[j]),
{
    assert(is_associated(result[i], scanned[origin[i]], order));
    assert(is_associated(result[j], scanned[origin[j]], order));
    position_is_listed(order.listed(), order.listed_as(result[i])->0, 0);
    position_is_listed(order.listed(), order.listed_as(result[j])->0, 0);
    assert(enumerated_before(scanned, order, origin[i], origin[j]));
}

/// How often a scan has asked for each thing.
#[derive(Clone, Copy, Debug, PartialEq, Eq, Structural)]
pub struct TopologyProducerActivity {
    /// Scans of the whole topology.
    pub topology_scans: usize,
    /// Monitors that a scan read.
    pub component_reads: usize,
    /// Monitors that were looked up in the enumeration.
    pub cached_order_lookups: usize,
    /// Displays whose identity was asked for.
    pub identity_requests: usize,
    /// Displays whose handle was looked up.
    pub handle_lookups: usize,
    /// Displays whose evidence was loaded.
    pub evidence_loads: usize,
}

impl Default for TopologyProducerActivity {
    fn default() -> (result: Self)
        ensures
            result.is_unused(),
    {
        TopologyProducerActivity {
            topology_scans: 0,
            component_reads: 0,
            cached_order_lookups: 0,
            identity_requests: 0,
            handle_lookups: 0,
            evidence_loads: 0,
        }
    }
}

impl TopologyProducerActivity {
    /// Whether nothing has been asked for.
    pub open spec fn is_unused(self) -> bool {
        &&& self.topology_scans == 0
        &&& self.component_reads == 0
        &&& self.cached_order_lookups == 0
        &&& self.identity_requests == 0
        &&& self.handle_lookups == 0
        &&& self.evidence_loads == 0
    }

    /// Whether so many identities can still be counted.
    pub open spec fn leaves_room_for_requests(self, requests: int) -> bool {
        &&& self.identity_requests + requests <= usize::MAX
        &&& self.handle_lookups + requests <= usize::MAX
        &&& self.evidence_loads + requests <= usize::MAX
    }

    /// Whether so many lookups in the enumeration can still be counted.
    pub open spec fn leaves_room_for_lookups(self, lookups: int) -> bool {
        self.cached_order_lookups + lookups <= usize::MAX
    }

    /// Whether a scan that reads so many monitors can still be counted.
    pub open spec fn leaves_room_for_scan(self, reads: int) -> bool {
        &&& self.topology_scans + 1 <= usize::MAX
        &&& self.component_reads + reads <= usize::MAX
        &&& self.leaves_room_for_lookups(reads)
        &&& self.leaves_room_for_requests(reads)
    }

    /// The counts after some identities were asked for, of which some were loaded.
    pub open spec fn after_requests(self, requests: int, loads: int) -> Self {
        TopologyProducerActivity {
            identity_requests: (self.identity_requests + requests) as usize,
            handle_lookups: (self.handle_lookups + requests) as usize,
            evidence_loads: (self.evidence_loads + loads) as usize,
            ..self
        }
    }

    /// The counts after some monitors were looked up in the enumeration.
    pub open spec fn after_lookups(self, lookups: int) -> Self {
        TopologyProducerActivity {
            cached_order_lookups: (self.cached_order_lookups + lookups) as usize,
            ..self
        }
    }

    /// The counts after a scan that read some monitors.
    pub open spec fn after_scan(self, reads: int) -> Self {
        TopologyProducerActivity {
            topology_scans: (self.topology_scans + 1) as usize,
            component_reads: (self.component_reads + reads) as usize,
            ..self
        }
    }
}

/// Evidence that a scripted platform supplies in place of the operating system.
#[derive(Debug)]
pub struct InjectedMonitorEvidence {
    evidence: HashMap<u64, Result<Vec<u8>, MonitorIdentificationError>>,
    attachments: HashMap<u64, AttachmentPath>,
    device_handles: HashMap<u64, PlatformDeviceHandle>,
    product_names: HashMap<u64, DisplayProductName>,
    missing_handles: HashSet<u64>,
    activity: TopologyProducerActivity,
}

/// One display of a scripted platform.
#[derive(Debug)]
pub struct ScriptedDisplay {
    pub entity: u64,
    /// The identity material the display publishes, or `None` for a display that publishes none.
    pub evidence: Option<Vec<u8>>,
    pub attachment: AttachmentPath,
    /// The capture address the platform reports for the display.
    pub device_handle: PlatformDeviceHandle,
}

/// What the last of the entries for `entity` that publish anything publishes.
pub open spec fn last_published(displays: Seq<ScriptedDisplay>, entity: u64) -> Option<Seq<u8>>
    decreases displays.len(),
{
    if displays.len() == 0 {
        None
    } else if displays.last().entity == entity && displays.last().evidence is Some {
        Some(displays.last().evidence->0@)
    } else {
        last_published(displays.drop_last(), entity)
    }
}

/// The last entry of a script for `entity`.
pub open spec fn last_scripted(displays: Seq<ScriptedDisplay>, entity: u64) -> Option<
    ScriptedDisplay,
>
    decreases displays.len(),
{
    if displays.len() == 0 {
        None
    } else if displays.last().entity == entity {
        Some(displays.last())
    } else {
        last_scripted(displays.drop_last(), entity)
    }
}

/// Whether some entry of a script for `entity` publishes nothing.
pub open spec fn publishes_nothing(displays: Seq<ScriptedDisplay>, entity: u64) -> bool {
    exists|i: int|
        0 <= i < displays.len() && (#[trigger] displays[i]).entity == entity
            && displays[i].evidence is None
}

impl InjectedMonitorEvidence {
    /// The evidence for a display, where the script holds any.
    pub closed spec fn evidence_of(&self, entity: u64) -> Option<
        Result<Seq<u8>, MonitorIdentificationError>,
    > {
        if self.evidence@.contains_key(entity) {
            Some(query_view(self.evidence@[entity]))
        } else {
            None
        }
    }

    /// The attachment of a display, where the script holds one.
    pub closed spec fn attachment_of(&self, entity: u64) -> Option<PlatformReportView> {
        if self.attachments@.contains_key(entity) {
            Some(self.attachments@[entity]@)
        } else {
            None
        }
    }

    /// The capture address of a display, where the script holds one.
    pub closed spec fn device_handle_of(&self, entity: u64) -> Option<PlatformReportView> {
        if self.device_handles@.contains_key(entity) {
            Some(self.device_handles@[entity]@)
        } else {
            None
        }
    }

    /// The product name of a display, where the script holds one.
    pub closed spec fn product_name_of(&self, entity: u64) -> Option<DisplayProductNameView> {
        if self.product_names@.contains_key(entity) {
            Some(self.product_names@[entity]@)
        } else {
            None
        }
    }

    /// Whether the script says that the window system has no handle for a display.
    pub closed spec fn misses_handle(&self, entity: u64) -> bool {
        self.missing_handles@.contains(entity)
    }

    /// What has been asked of the script so far.
    pub closed spec fn activity(&self) -> TopologyProducerActivity {
        self.activity
    }

    /// Whether both scripts say the same of every display, whatever has been asked of them.
    pub open spec fn says_the_same_as(&self, other: &Self) -> bool {
        &&& forall|entity: u64| #[trigger]
            self.evidence_of(entity) == other.evidence_of(entity)
        &&& forall|entity: u64| #[trigger]
            self.attachment_of(entity) == other.attachment_of(entity)
        &&& forall|entity: u64| #[trigger]
            self.device_handle_of(entity) == other.device_handle_of(entity)
        &&& forall|entity: u64| #[trigger]
            self.product_name_of(entity) == other.product_name_of(entity)
        &&& forall|entity: u64| #[trigger]
            self.misses_handle(entity) == other.misses_handle(entity)
    }

    /// What has been asked of the script so far.
    pub fn recorded_activity(&self) -> (result: TopologyProducerActivity)
        ensures
            result == self.activity(),
    {
        self.activity
    }

    /// A script that says nothing, and that nothing has been asked of.
    pub fn new() -> (result: Self)
        ensures
            result.activity().is_unused(),
            forall|entity: u64|
                {
                    &&& #[trigger] result.evidence_of(entity) is None
                    &&& result.attachment_of(entity) is None
                    &&& result.device_handle_of(entity) is None
                    &&& result.product_name_of(entity) is None
                    &&& !result.misses_handle(entity)
                },
    {
        InjectedMonitorEvidence {
            evidence: HashMap::new(),
            attachments: HashMap::new(),
            device_handles: HashMap::new(),
            product_names: HashMap::new(),
            missing_handles: HashSet::new(),
            activity: TopologyProducerActivity::default(),
        }
    }

    /// Stand in for the platform behind a set of scripted displays. A display that publishes no
    /// identity material is one that the window system has no handle for.
    pub fn for_scripted_displays(displays: Vec<ScriptedDisplay>) -> (result: Self)
        ensures
            result.activity().is_unused(),
            forall|entity: u64|
                {
                    &&& #[trigger] result.evidence_of(entity) == match last_published(
                        displays@,
                        entity,
                    ) {
                        Some(bytes) => Some(Ok::<Seq<u8>, MonitorIdentificationError>(bytes)),
                        None => None,
                    }
                    &&& result.attachment_of(entity) == match last_scripted(displays@, entity) {
                        Some(display) => Some(display.attachment@),
                        None => None,
                    }
                    &&& result.device_handle_of(entity) == match last_scripted(displays@, entity) {
                        Some(display) => Some(display.device_handle@),
                        None => None,
                    }
                    &&& result.product_name_of(entity) is None
                    &&& result.misses_handle(entity) == publishes_nothing(displays@, entity)
                },
    {
        let mut result = InjectedMonitorEvidence::new();
        for display in iter: displays
            invariant
                iter.seq() == displays@,
                result.activity().is_unused(),
                forall|entity: u64|
                    {
                        &&& #[trigger] result.evidence_of(entity) == match last_published(
                            displays@.take(iter.index()),
                            entity,
                        ) {
                            Some(bytes) => Some(Ok::<Seq<u8>, MonitorIdentificationError>(bytes)),
                            None => None,
                        }
                        &&& result.attachment_of(entity) == match last_scripted(
                            displays@.take(iter.index()),
                            entity,
                        ) {
                            Some(display) => Some(display.attachment@),
                            None => None,
                        }
                        &&& result.device_handle_of(entity) == match last_scripted(
                            displays@.take(iter.index()),
                            entity,
                        ) {
                            Some(display) => Some(display.device_handle@),
                            None => None,
                        }
                        &&& result.product_name_of(entity) is None
                        &&& result.misses_handle(entity) == publishes_nothing(
                            displays@.take(iter.index()),
                            entity,
                        )
                    },
        {
            let ghost before = displays@.take(iter.index());
            let ghost after = displays@.take(iter.index() + 1);
            let ghost scripted = display;
            let ghost previous = result;
            assert(after.drop_last() =~= before);
            assert(after.last() == display);
            assert forall|entity: u64| publishes_nothing(after, entity) == (publishes_nothing(
                before,
                entity,
            ) || (scripted.entity == entity && scripted.evidence is None)) by {
                if publishes_nothing(before, entity) {
                    let i = choose|i: int|
                        0 <= i < before.len() && (#[trigger] before[i]).entity == entity
                            && before[i].evidence is None;
                    assert(after[i] == before[i]);
                }
                if scripted.entity == entity && scripted.evidence is None {
                    assert(after[before.len() as int] == scripted);
                }
                if publishes_nothing(after, entity) {
                    let i = choose|i: int|
                        0 <= i < after.len() && (#[trigger] after[i]).entity == entity
                            && after[i].evidence is None;
                    if i < before.len() {
                        assert(after[i] == before[i]);
                    }
                }
            }
            result.attachments.insert(display.entity, display.attachment);
            result.device_handles.insert(display.entity, display.device_handle);
            match display.evidence {
                Some(bytes) => {
                    result.evidence.insert(display.entity, Ok(bytes));
                },
                None => {
                    result.missing_handles.insert(display.entity);
                },
            }
            assert forall|entity: u64|
                {
                    &&& #[trigger] result.evidence_of(entity) == match last_published(
                        after,
                        entity,
                    ) {
                        Some(bytes) => Some(Ok::<Seq<u8>, MonitorIdentificationError>(bytes)),
                        None => None,
                    }
                    &&& result.attachment_of(entity) == match last_scripted(after, entity) {
                        Some(display) => Some(display.attachment@),
                        None => None,
                    }
                    &&& result.device_handle_of(entity) == match last_scripted(after, entity) {
                        Some(display) => Some(display.device_handle@),
                        None => None,
                    }
                    &&& result.product_name_of(entity) is None
                    &&& result.misses_handle(entity) == publishes_nothing(after, entity)
                } by {
                assert(previous.evidence_of(entity) == previous.evidence_of(entity));
            }
        }
        assert(displays@.take(displays@.len() as int) =~= displays@);
        result
    }

    /// Let the script report a product name.
    pub fn report_product_name(&mut self, entity: u64, product_name: String)
        ensures
            final(self).activity() == old(self).activity(),
            final(self).product_name_of(entity) == Some(
                DisplayProductNameView::Reported(product_name@),
            ),
            forall|other: u64|
                {
                    &&& #[trigger] final(self).evidence_of(other) == old(self).evidence_of(other)
                    &&& final(self).attachment_of(other) == old(self).attachment_of(other)
                    &&& final(self).device_handle_of(other) == old(self).device_handle_of(other)
                    &&& final(self).misses_handle(other) == old(self).misses_handle(other)
                    &&& other != entity ==> final(self).product_name_of(other) == old(
                        self,
                    ).product_name_of(other)
                },
    {
        self.product_names.insert(entity, DisplayProductName::Reported(product_name));
    }
}

/// Kernel-facing evidence and legacy identity of a display that this scan cannot name.
pub open spec fn unnamed_evidence(
    handle: PlatformReportView,
    attachment: PlatformReportView,
) -> (DisplayDeviceEvidenceView, DisplayIdentity) {
    (
        DisplayDeviceEvidenceView {
            identity_evidence: DisplayIdentityEvidenceView::Unavailable {
                serial: ReportedSerialView::PlatformCannotReport,
            },
            platform_device_handle: handle,
            attachment,
        },
        DisplayIdentity::Anonymous,
    )
}

/// Kernel-facing evidence and legacy identity of a display, from what was read about it.
pub open spec fn evidence_from(
    identity: Result<QualifiedEvidenceView, MonitorIdentificationError>,
    handle: PlatformReportView,
    attachment: PlatformReportView,
) -> (DisplayDeviceEvidenceView, DisplayIdentity) {
    match identity {
        Ok(evidence) => (
            DisplayDeviceEvidenceView {
                identity_evidence: classified_evidence(evidence).0,
                platform_device_handle: handle,
                attachment,
            },
            classified_evidence(evidence).1,
        ),
        Err(_) => unnamed_evidence(handle, attachment),
    }
}

/// The native identifier behind a handle.
pub open spec fn native_id_of(handle: Option<MonitorHandle>) -> Option<u32> {
    match handle {
        Some(known) => Some(known.native_id),
        None => None,
    }
}

/// The value in an option, or else `fallback`.
pub open spec fn or_else<T>(value: Option<T>, fallback: T) -> T {
    match value {
        Some(found) => found,
        None => fallback,
    }
}

/// Evidence of a scripted display. A display that the enumeration does not list, or that the script
/// has no handle for, is read no further.
pub open spec fn scripted_evidence(
    monitor: ScannedMonitor,
    platform: Platform,
    operating_system: OperatingSystem,
    script: InjectedMonitorEvidence,
) -> (DisplayDeviceEvidenceView, DisplayIdentity) {
    let handle = or_else(
        script.device_handle_of(monitor.entity),
        device_handle(operating_system, native_id_of(monitor.handle)),
    );
    if monitor.cached_index is None || script.misses_handle(monitor.entity) {
        unnamed_evidence(handle, unreported_attachment(platform))
    } else {
        evidence_from(
            match script.evidence_of(monitor.entity) {
                Some(Ok(bytes)) => Ok(QualifiedEvidenceView::Synthetic(bytes)),
                Some(Err(error)) => Err(error),
                None => Err(MonitorIdentificationError::StablePhysicalIdentityUnavailable),
            },
            handle,
            or_else(script.attachment_of(monitor.entity), unreported_attachment(platform)),
        )
    }
}

/// Evidence of a display that the operating system reads. Nothing is read for a monitor that the
/// enumeration does not list, that has no handle, or while the configuration cannot be observed;
/// and Wayland withholds display evidence entirely.
pub open spec fn native_evidence(
    monitor: ScannedMonitor,
    configuration: MonitorConfigurationState,
    platform: Platform,
    operating_system: OperatingSystem,
) -> (DisplayDeviceEvidenceView, DisplayIdentity) {
    let handle = device_handle(operating_system, native_id_of(monitor.handle));
    if monitor.cached_index is None || configuration is Unavailable || platform == Platform::Wayland
        || monitor.handle is None {
        unnamed_evidence(handle, unreported_attachment(platform))
    } else {
        evidence_from(
            reading_identity(monitor.reading, platform),
            handle,
            reading_attachment(monitor.reading, platform),
        )
    }
}

/// Evidence of one scanned display.
pub open spec fn evidence_of_scanned(
    monitor: ScannedMonitor,
    configuration: MonitorConfigurationState,
    platform: Platform,
    operating_system: OperatingSystem,
    script: Option<InjectedMonitorEvidence>,
) -> (DisplayDeviceEvidenceView, DisplayIdentity) {
    match script {
        Some(scripted) => scripted_evidence(monitor, platform, operating_system, scripted),
        None => native_evidence(monitor, configuration, platform, operating_system),
    }
}

/// The contents of an optional reference.
pub open spec fn dereferenced<T>(reference: Option<&T>) -> Option<T> {
    match reference {
        Some(value) => Some(*value),
        None => None,
    }
}

/// What an optional script holds when it is handed over.
pub open spec fn script_before(script: Option<&mut InjectedMonitorEvidence>) -> Option<
    InjectedMonitorEvidence,
> {
    match script {
        Some(scripted) => Some(*scripted),
        None => None,
    }
}

fn unnamed(handle: PlatformDeviceHandle, attachment: AttachmentPath) -> (result: (
    DisplayDeviceEvidence,
    DisplayIdentity,
))
    ensures
        (result.0@, result.1) == unnamed_evidence(handle@, attachment@),
{
    (
        DisplayDeviceEvidence {
            identity_evidence: DisplayIdentityEvidence::Unavailable {
                serial: ReportedSerial::PlatformCannotReport,
            },
            platform_device_handle: handle,
            attachment,
        },
        DisplayIdentity::Anonymous,
    )
}

fn named(
    qualified: &QualifiedEvidence,
    handle: PlatformDeviceHandle,
    attachment: AttachmentPath,
) -> (result: (DisplayDeviceEvidence, DisplayIdentity))
    ensures
        (result.0@, result.1) == evidence_from(Ok(qualified@), handle@, attachment@),
{
    let (identity_evidence, legacy_identity) = classify_display_evidence(qualified);
    (
        DisplayDeviceEvidence { identity_evidence, platform_device_handle: handle, attachment },
        legacy_identity,
    )
}

/// Whether the evidence of a display is loaded from a script: the enumeration lists the display, and
/// the script has a handle for it.
pub open spec fn loads_evidence(
    monitor: ScannedMonitor,
    script: InjectedMonitorEvidence,
) -> bool {
    monitor.cached_index is Some && !script.misses_handle(monitor.entity)
}

/// Whether a script has been asked for the evidence of one display, and is otherwise unchanged.
pub open spec fn counts_one_request(
    monitor: ScannedMonitor,
    before: InjectedMonitorEvidence,
    after: InjectedMonitorEvidence,
) -> bool {
    &&& after.says_the_same_as(&before)
    &&& after.activity() == before.activity().after_requests(
        1,
        if loads_evidence(monitor, before) {
            1
        } else {
            0
        },
    )
}

fn scripted_display_evidence(
    monitor: &ScannedMonitor,
    platform: Platform,
    operating_system: OperatingSystem,
    script: &mut InjectedMonitorEvidence,
) -> (result: (DisplayDeviceEvidence, DisplayIdentity))
    requires
        old(script).activity().leaves_room_for_requests(1),
    ensures
        (result.0@, result.1) == scripted_evidence(
            *monitor,
            platform,
            operating_system,
            *old(script),
        ),
        counts_one_request(*monitor, *old(script), *final(script)),
{
    script.activity.identity_requests += 1;
    script.activity.handle_lookups += 1;
    let native_id: Option<u32> = match monitor.handle {
        Some(handle) => Some(handle.native_id),
        None => None,
    };
    let handle = match script.device_handles.get(&monitor.entity) {
        Some(handle) => handle.clone(),
        None => platform_device_handle(operating_system, native_id),
    };
    if monitor.cached_index.is_none() || script.missing_handles.contains(&monitor.entity) {
        return unnamed(handle, attachment_path_when_unreported(platform));
    }
    script.activity.evidence_loads += 1;
    let attachment = match script.attachments.get(&monitor.entity) {
        Some(attachment) => attachment.clone(),
        None => attachment_path_when_unreported(platform),
    };
    match script.evidence.get(&monitor.entity) {
        Some(Ok(bytes)) => {
            let qualified = QualifiedEvidence::Synthetic(copied(bytes.as_slice()));
            named(&qualified, handle, attachment)
        },
        Some(Err(_)) => unnamed(handle, attachment),
        None => unnamed(handle, attachment),
    }
}

/// Kernel-facing evidence and legacy identity of one scanned display, from the script where there
/// is one, else from what the operating system read. The script counts what it is asked for: an
/// identity and a handle each time, and evidence where it is loaded.
pub fn display_evidence(
    monitor: &ScannedMonitor,
    configuration: MonitorConfigurationState,
    platform: Platform,
    operating_system: OperatingSystem,
    script: Option<&mut InjectedMonitorEvidence>,
) -> (result: (DisplayDeviceEvidence, DisplayIdentity))
    requires
        script matches Some(scripted) ==> scripted.activity().leaves_room_for_requests(1),
    ensures
        (result.0@, result.1) == evidence_of_scanned(
            *monitor,
            configuration,
            platform,
            operating_system,
            script_before(script),
        ),
        script matches Some(scripted) ==> counts_one_request(
            *monitor,
            *scripted,
            *final(scripted),
        ),
{
    if let Some(scripted) = script {
        return scripted_display_evidence(monitor, platform, operating_system, scripted);
    }
    let native_id: Option<u32> = match monitor.handle {
        Some(handle) => Some(handle.native_id),
        None => None,
    };
    let handle = platform_device_handle(operating_system, native_id);
    let unobservable = match configuration {
        MonitorConfigurationState::Unavailable(_) => true,
        MonitorConfigurationState::Observed { .. } => false,
    };
    if monitor.cached_index.is_none() || unobservable || platform == Platform::Wayland
        || monitor.handle.is_none() {
        return unnamed(handle, attachment_path_when_unreported(platform));
    }
    let observation = monitor_evidence(&monitor.reading, platform);
    match observation.identity {
        Ok(qualified) => named(&qualified, handle, observation.attachment),
        Err(_) => unnamed(handle, observation.attachment),
    }
}

/// The product name of a scanned display: what the script reports where there is a script, else
/// what the platform supplies.
pub open spec fn name_of_scanned(
    monitor: ScannedMonitor,
    platform: Platform,
    operating_system: OperatingSystem,
    screens: Option<Seq<AppKitScreen>>,
    script: Option<InjectedMonitorEvidence>,
) -> DisplayProductNameView {
    match script {
        Some(scripted) => or_else(
            scripted.product_name_of(monitor.entity),
            DisplayProductNameView::PlatformHasNoConcept,
        ),
        None => product_name(
            operating_system,
            native_id_of(monitor.handle),
            screens,
            optional_text(monitor.winit_name),
            platform,
        ),
    }
}

/// The product name of one scanned display.
pub fn display_product_name(
    monitor: &ScannedMonitor,
    platform: Platform,
    operating_system: OperatingSystem,
    screens: Option<&Vec<AppKitScreen>>,
    script: Option<&InjectedMonitorEvidence>,
) -> (result: DisplayProductName)
    ensures
        result@ == name_of_scanned(
            *monitor,
            platform,
            operating_system,
            screens_view(screens),
            dereferenced(script),
        ),
{
    if let Some(scripted) = script {
        return match scripted.product_names.get(&monitor.entity) {
            Some(name) => name.clone(),
            None => DisplayProductName::PlatformHasNoConcept,
        };
    }
    let native_id: Option<u32> = match monitor.handle {
        Some(handle) => Some(handle.native_id),
        None => None,
    };
    from_platform(operating_system, native_id, screens, &monitor.winit_name, platform)
}

/// Whether an installed monitor is an enumerated one with its evidence and its name.
pub open spec fn is_installation_of(
    installed: InstalledMonitor,
    monitor: ScannedMonitor,
    configuration: MonitorConfigurationState,
    platform: Platform,
    operating_system: OperatingSystem,
    screens: Option<Seq<AppKitScreen>>,
    script: Option<InjectedMonitorEvidence>,
) -> bool {
    &&& installed.entity == monitor.entity
    &&& installed.descriptor == (MonitorDescriptor {
        index: CurrentMonitorIndex::of(monitor.index),
        scale: monitor.scale,
        physical_position: monitor.physical_position,
        physical_size: monitor.physical_size,
    })
    &&& installed.product_name@ == name_of_scanned(
        monitor,
        platform,
        operating_system,
        screens,
        script,
    )
    &&& (installed.device_evidence@, installed.legacy_identity) == evidence_of_scanned(
        monitor,
        configuration,
        platform,
        operating_system,
        script,
    )
}

/// How many of the first `length` displays a script loads the evidence of.
pub open spec fn loads_among(
    monitors: Seq<ScannedMonitor>,
    script: InjectedMonitorEvidence,
    length: int,
) -> int
    decreases length,
{
    if length <= 0 {
        0
    } else if loads_evidence(monitors[length - 1], script) {
        loads_among(monitors, script, length - 1) + 1
    } else {
        loads_among(monitors, script, length - 1)
    }
}

/// Whether a script has been asked for the evidence of the first `length` displays, and is otherwise
/// unchanged.
pub open spec fn counts_requests(
    monitors: Seq<ScannedMonitor>,
    length: int,
    before: InjectedMonitorEvidence,
    after: InjectedMonitorEvidence,
) -> bool {
    &&& after.says_the_same_as(&before)
    &&& after.activity() == before.activity().after_requests(
        length,
        loads_among(monitors, before, length),
    )
}

/// Whether a script has served one scan of these enumerated monitors, and is otherwise unchanged:
/// every monitor was read, looked up, and asked for, and the evidence of some was loaded.
pub open spec fn counts_scan(
    ordered: Seq<ScannedMonitor>,
    before: InjectedMonitorEvidence,
    after: InjectedMonitorEvidence,
) -> bool {
    let length = ordered.len() as int;
    &&& after.says_the_same_as(&before)
    &&& after.activity() == before.activity().after_scan(length).after_lookups(
        length,
    ).after_requests(length, loads_among(ordered, before, length))
}

proof fn loads_are_among_all(
    monitors: Seq<ScannedMonitor>,
    script: InjectedMonitorEvidence,
    length: int,
)
    requires
        0 <= length,
    ensures
        0 <= loads_among(monitors, script, length) <= length,
    decreases length,
{
    if length > 0 {
        loads_are_among_all(monitors, script, length - 1);
    }
}

proof fn same_scripts_load_the_same(
    monitors: Seq<ScannedMonitor>,
    first: InjectedMonitorEvidence,
    second: InjectedMonitorEvidence,
    length: int,
)
    requires
        first.says_the_same_as(&second),
    ensures
        loads_among(monitors, first, length) == loads_among(monitors, second, length),
    decreases length,
{
    if length > 0 {
        same_scripts_load_the_same(monitors, first, second, length - 1);
    }
}

/// Whether every enumerated monitor is installed, in order, with its evidence and its name.
pub open spec fn are_installations_of(
    installed: Seq<InstalledMonitor>,
    ordered: Seq<ScannedMonitor>,
    configuration: MonitorConfigurationState,
    platform: Platform,
    operating_system: OperatingSystem,
    screens: Option<Seq<AppKitScreen>>,
    script: Option<InjectedMonitorEvidence>,
) -> bool {
    &&& installed.len() == ordered.len()
    &&& forall|i: int|
        0 <= i < installed.len() ==> is_installation_of(
            #[trigger] installed[i],
            ordered[i],
            configuration,
            platform,
            operating_system,
            screens,
            script,
        )
}

fn installed_monitor(
    monitor: &ScannedMonitor,
    product_name: DisplayProductName,
    evidence: (DisplayDeviceEvidence, DisplayIdentity),
) -> (result: InstalledMonitor)
    ensures
        result.entity == monitor.entity,
        result.descriptor == (MonitorDescriptor {
            index: CurrentMonitorIndex::of(monitor.index),
            scale: monitor.scale,
            physical_position: monitor.physical_position,
            physical_size: monitor.physical_size,
        }),
        result.product_name == product_name,
        result.device_evidence == evidence.0,
        result.legacy_identity == evidence.1,
{
    InstalledMonitor {
        entity: monitor.entity,
        descriptor: MonitorDescriptor::for_current_enumeration(
            monitor.index,
            monitor.scale,
            monitor.physical_position,
            monitor.physical_size,
        ),
        product_name,
        device_evidence: evidence.0,
        legacy_identity: evidence.1,
    }
}

fn scripted_monitors(
    ordered: &Vec<ScannedMonitor>,
    configuration: MonitorConfigurationState,
    platform: Platform,
    operating_system: OperatingSystem,
    screens: Option<&Vec<AppKitScreen>>,
    script: &mut InjectedMonitorEvidence,
) -> (result: Vec<InstalledMonitor>)
    requires
        old(script).activity().leaves_room_for_requests(ordered@.len() as int),
    ensures
        are_installations_of(
            result@,
            ordered@,
            configuration,
            platform,
            operating_system,
            screens_view(screens),
            Some(*old(script)),
        ),
        counts_requests(ordered@, ordered@.len() as int, *old(script), *final(script)),
{
    let ghost before = *script;
    let mut live: Vec<InstalledMonitor> = Vec::new();
    let mut index: usize = 0;
    while index < ordered.len()
        invariant
            index <= ordered@.len(),
            live@.len() == index,
            before.activity().leaves_room_for_requests(ordered@.len() as int),
            counts_requests(ordered@, index as int, before, *script),
            forall|i: int|
                0 <= i < index ==> is_installation_of(
                    #[trigger] live@[i],
                    ordered@[i],
                    configuration,
                    platform,
                    operating_system,
                    screens_view(screens),
                    Some(before),
                ),
        decreases ordered@.len() - index,
    {
        let monitor = &ordered[index];
        proof {
            loads_are_among_all(ordered@, before, index as int);
        }
        let evidence = display_evidence(
            monitor,
            configuration,
            platform,
            operating_system,
            Some(&mut *script),
        );
        let product_name = display_product_name(
            monitor,
            platform,
            operating_system,
            screens,
            Some(&*script),
        );
        live.push(installed_monitor(monitor, product_name, evidence));
        index += 1;
    }
    live
}

fn native_monitors(
    ordered: &Vec<ScannedMonitor>,
    configuration: MonitorConfigurationState,
    platform: Platform,
    operating_system: OperatingSystem,
    screens: Option<&Vec<AppKitScreen>>,
) -> (result: Vec<InstalledMonitor>)
    ensures
        are_installations_of(
            result@,
            ordered@,
            configuration,
            platform,
            operating_system,
            screens_view(screens),
            None,
        ),
{
    let mut live: Vec<InstalledMonitor> = Vec::new();
    let mut index: usize = 0;
    while index < ordered.len()
        invariant
            index <= ordered@.len(),
            live@.len() == index,
            forall|i: int|
                0 <= i < index ==> is_installation_of(
                    #[trigger] live@[i],
                    ordered@[i],
                    configuration,
                    platform,
                    operating_system,
                    screens_view(screens),
                    None,
                ),
        decreases ordered@.len() - index,
    {
        let monitor = &ordered[index];
        let evidence = display_evidence(monitor, configuration, platform, operating_system, None);
        let product_name = display_product_name(
            monitor,
            platform,
            operating_system,
            screens,
            None,
        );
        live.push(installed_monitor(monitor, product_name, evidence));
        index += 1;
    }
    live
}

/// The topology that one scan stands for: every scanned monitor, in enumeration order, with its
/// evidence and its name. A script counts the scan and what it is asked for.
pub fn build_monitors(
    scanned: Vec<ScannedMonitor>,
    order: &EnumerationOrder,
    configuration: MonitorConfigurationState,
    platform: Platform,
    operating_system: OperatingSystem,
    screens: Option<&Vec<AppKitScreen>>,
    script: Option<&mut InjectedMonitorEvidence>,
) -> (result: Monitors)
    requires
        order.listed().len() + scanned@.len() <= usize::MAX,
        script matches Some(scripted) ==> scripted.activity().leaves_room_for_scan(
            scanned@.len() as int,
        ),
    ensures
        exists|origin: Seq<int>, ordered: Seq<ScannedMonitor>|
            {
                &&& #[trigger] is_enumeration(scanned@, *order, origin, ordered)
                &&& are_installations_of(
                    result@,
                    ordered,
                    configuration,
                    platform,
                    operating_system,
                    screens_view(screens),
                    script_before(script),
                )
                &&& script matches Some(scripted) ==> counts_scan(
                    ordered,
                    *scripted,
                    *final(scripted),
                )
            },
{
    match script {
        Some(scripted) => {
            let ghost before = *scripted;
            scripted.activity.topology_scans += 1;
            scripted.activity.component_reads += scanned.len();
            let ordered = assign_cached_monitor_order(scanned, order, Some(&mut *scripted));
            let ghost enumerated = *scripted;
            let live = scripted_monitors(
                &ordered,
                configuration,
                platform,
                operating_system,
                screens,
                scripted,
            );
            proof {
                same_scripts_load_the_same(
                    ordered@,
                    enumerated,
                    before,
                    ordered@.len() as int,
                );
            }
            Monitors::from_installed(live)
        },
        None => {
            let ordered = assign_cached_monitor_order(scanned, order, None);
            Monitors::from_installed(
                native_monitors(&ordered, configuration, platform, operating_system, screens),
            )
        },
    }
}

/// Wayland withholds display evidence: no display that the operating system reads there has a
/// durable identity.
pub proof fn wayland_displays_stay_anonymous(
    monitor: ScannedMonitor,
    configuration: MonitorConfigurationState,
    operating_system: OperatingSystem,
)
    ensures
        evidence_of_scanned(monitor, configuration, Platform::Wayland, operating_system, None).1
            == DisplayIdentity::Anonymous,
{
}

/// Whether the operating system is asked about a monitor: the enumeration lists it, it has a handle,
/// and the configuration can be observed.
pub open spec fn can_be_read(
    monitor: ScannedMonitor,
    configuration: MonitorConfigurationState,
) -> bool {
    &&& monitor.cached_index is Some
    &&& monitor.handle is Some
    &&& configuration is Observed
}

/// An installed monitor is the scanned one: its entity, its number, its scale, its position and its
/// size.
pub proof fn an_installed_monitor_is_the_scanned_one(
    installed: InstalledMonitor,
    monitor: ScannedMonitor,
    configuration: MonitorConfigurationState,
    platform: Platform,
    operating_system: OperatingSystem,
    screens: Option<Seq<AppKitScreen>>,
    script: Option<InjectedMonitorEvidence>,
)
    requires
        is_installation_of(
            installed,
            monitor,
            configuration,
            platform,
            operating_system,
            screens,
            script,
        ),
    ensures
        installed.entity == monitor.entity,
        installed.descriptor.index@ == monitor.index,
        installed.descriptor.scale@ == monitor.scale@,
        installed.descriptor.physical_position.x == monitor.physical_position.x,
        installed.descriptor.physical_position.y == monitor.physical_position.y,
        installed.descriptor.physical_size.x == monitor.physical_size.x,
        installed.descriptor.physical_size.y == monitor.physical_size.y,
{
    index_keeps_its_position(monitor.index);
}

/// On X11 a monitor that can be read and whose output property holds valid data is installed under the
/// identity of that data: the serial that the data publishes, or else all of it. Its fingerprint is
/// that of the same bytes, and its connector is its attachment.
pub proof fn an_x11_display_is_identified_by_its_data(
    installed: InstalledMonitor,
    monitor: ScannedMonitor,
    configuration: MonitorConfigurationState,
    operating_system: OperatingSystem,
    screens: Option<Seq<AppKitScreen>>,
    connector_name: Vec<u8>,
    edid: Vec<u8>,
    connector_edid: Option<Vec<u8>>,
)
    requires
        is_installation_of(
            installed,
            monitor,
            configuration,
            Platform::X11,
            operating_system,
            screens,
            None,
        ),
        can_be_read(monitor, configuration),
        monitor.reading == (MonitorReading::X11 {
            connector_name,
            property: Ok(edid),
            connector_edid,
        }),
        is_valid_edid(edid@),
    ensures
        ({
            let evidence = installed.device_evidence@;
            &&& !(evidence.identity_evidence is Unavailable)
            &&& match published_serial(edid@) {
                Some(serial) => {
                    &&& evidence.identity_evidence == DisplayIdentityEvidenceView::ReportedSerial(
                        serial,
                    )
                    &&& installed.legacy_identity matches DisplayIdentity::Fingerprinted(fingerprint)
                        && fingerprint@ == fnv_1a(encode_utf8(serial))
                },
                None => {
                    &&& evidence.identity_evidence
                        matches DisplayIdentityEvidenceView::Synthesized {
                        display_fingerprint,
                        serial,
                    } && display_fingerprint@ == fnv_1a(edid@) && serial is NotExposedByUnit
                    &&& installed.legacy_identity matches DisplayIdentity::Fingerprinted(fingerprint)
                        && fingerprint@ == fnv_1a(edid@)
                },
            }
            &&& valid_utf8(connector_name@) && decode_utf8(connector_name@).len() > 0
                ==> evidence.attachment == PlatformReportView::Reported(
                decode_utf8(connector_name@),
            )
        }),
{
    valid_property_data_identifies_the_display(
        edid@,
        connector_name@,
        file_view(connector_edid),
    );
    let identity = reading_identity(monitor.reading, Platform::X11)->Ok_0;
    evidence_is_classified_by_what_it_is(identity);
}

/// On X11 a monitor that can be read, whose property failed and whose connector file holds valid data,
/// is installed under the identity of that data.
pub proof fn an_x11_display_is_identified_by_its_connector_file(
    installed: InstalledMonitor,
    monitor: ScannedMonitor,
    configuration: MonitorConfigurationState,
    operating_system: OperatingSystem,
    screens: Option<Seq<AppKitScreen>>,
    connector_name: Vec<u8>,
    error: MonitorIdentificationError,
    edid: Vec<u8>,
)
    requires
        is_installation_of(
            installed,
            monitor,
            configuration,
            Platform::X11,
            operating_system,
            screens,
            None,
        ),
        can_be_read(monitor, configuration),
        monitor.reading == (MonitorReading::X11 {
            connector_name,
            property: Err(error),
            connector_edid: Some(edid),
        }),
        valid_utf8(connector_name@),
        is_valid_edid(edid@),
    ensures
        ({
            let stable = match published_serial(edid@) {
                Some(serial) => encode_utf8(serial),
                None => edid@,
            };
            &&& installed.legacy_identity matches DisplayIdentity::Fingerprinted(fingerprint)
                && fingerprint@ == fnv_1a(stable)
            &&& !(installed.device_evidence@.identity_evidence is Unavailable)
            &&& published_serial(edid@) matches Some(serial)
                ==> installed.device_evidence@.identity_evidence
                == DisplayIdentityEvidenceView::ReportedSerial(serial)
            &&& decode_utf8(connector_name@).len() > 0 ==> installed.device_evidence@.attachment
                == PlatformReportView::Reported(decode_utf8(connector_name@))
        }),
{
    the_connector_file_stands_in_for_the_property(error, connector_name@, edid@);
    let identity = reading_identity(monitor.reading, Platform::X11)->Ok_0;
    evidence_is_classified_by_what_it_is(identity);
}

/// On X11 a display on an internal connector that publishes no data at all is identified by that
/// connector, and so differs from every display on another one.
pub proof fn a_built_in_display_is_identified_by_its_connector(
    installed: InstalledMonitor,
    monitor: ScannedMonitor,
    configuration: MonitorConfigurationState,
    operating_system: OperatingSystem,
    screens: Option<Seq<AppKitScreen>>,
    connector_name: Vec<u8>,
    error: MonitorIdentificationError,
    empty: Vec<u8>,
)
    requires
        is_installation_of(
            installed,
            monitor,
            configuration,
            Platform::X11,
            operating_system,
            screens,
            None,
        ),
        can_be_read(monitor, configuration),
        monitor.reading == (MonitorReading::X11 {
            connector_name,
            property: Err(error),
            connector_edid: Some(empty),
        }),
        empty@.len() == 0,
        valid_utf8(connector_name@),
        is_internal_connector(decode_utf8(connector_name@)),
    ensures
        installed.legacy_identity matches DisplayIdentity::Fingerprinted(fingerprint)
            && fingerprint@ == fnv_1a(
            encode_utf8("drm-internal-connector:"@) + encode_utf8(decode_utf8(connector_name@)),
        ),
        installed.device_evidence@.identity_evidence
            matches DisplayIdentityEvidenceView::Synthesized { serial, .. }
            && serial is PlatformCannotReport,
{
    the_connector_file_stands_in_for_the_property(error, connector_name@, empty@);
    let identity = reading_identity(monitor.reading, Platform::X11)->Ok_0;
    evidence_is_classified_by_what_it_is(identity);
}

/// On macOS a monitor that can be read and has an identifier is installed under the fingerprint of that
/// identifier, and under the number that the window server gives it.
pub proof fn a_macos_display_is_identified_by_its_identifier(
    installed: InstalledMonitor,
    monitor: ScannedMonitor,
    configuration: MonitorConfigurationState,
    screens: Option<Seq<AppKitScreen>>,
    uuid: MacOsDisplayUuid,
)
    requires
        is_installation_of(
            installed,
            monitor,
            configuration,
            Platform::MacOs,
            OperatingSystem::MacOs,
            screens,
            None,
        ),
        can_be_read(monitor, configuration),
        monitor.reading == (MonitorReading::MacOs { uuid: Some(uuid) }),
    ensures
        installed.legacy_identity matches DisplayIdentity::Fingerprinted(fingerprint)
            && fingerprint@ == fnv_1a(uuid@),
        installed.device_evidence@.identity_evidence
            matches DisplayIdentityEvidenceView::Synthesized { display_fingerprint, serial }
            && display_fingerprint@ == fnv_1a(uuid@) && serial is PlatformCannotReport,
        installed.device_evidence@.platform_device_handle matches PlatformReportView::Reported(handle)
            && number_spelled_by(handle) == monitor.handle->0.native_id,
{
    let identity = reading_identity(monitor.reading, Platform::MacOs)->Ok_0;
    evidence_is_classified_by_what_it_is(identity);
    a_device_handle_is_the_window_servers_number(
        OperatingSystem::MacOs,
        monitor.handle->0.native_id,
        0,
    );
}

/// A display is recognised again: two monitors whose readings hold the same valid data in their property
/// are installed under the same identity, whatever their entities, numbers, handles, scales, places,
/// connectors and connector files are.
pub proof fn the_same_display_is_recognised_again(
    first: InstalledMonitor,
    second: InstalledMonitor,
    monitor: ScannedMonitor,
    again: ScannedMonitor,
    configuration: MonitorConfigurationState,
    later: MonitorConfigurationState,
    operating_system: OperatingSystem,
    edid: Vec<u8>,
)
    requires
        is_installation_of(
            first,
            monitor,
            configuration,
            Platform::X11,
            operating_system,
            None,
            None,
        ),
        is_installation_of(second, again, later, Platform::X11, operating_system, None, None),
        can_be_read(monitor, configuration),
        can_be_read(again, later),
        monitor.reading matches MonitorReading::X11 { property, .. } && property == Ok::<
            Vec<u8>,
            MonitorIdentificationError,
        >(edid),
        again.reading matches MonitorReading::X11 { property, .. } && property == Ok::<
            Vec<u8>,
            MonitorIdentificationError,
        >(edid),
        is_valid_edid(edid@),
    ensures
        first.legacy_identity == second.legacy_identity,
        first.device_evidence@.identity_evidence == second.device_evidence@.identity_evidence,
        first.legacy_identity is Fingerprinted,
{
}

/// A monitor that cannot be read, or that Wayland keeps to itself, is installed as nobody's: it is
/// anonymous, has no evidence, and has no attachment.
pub proof fn an_unread_display_is_nobodys(
    installed: InstalledMonitor,
    monitor: ScannedMonitor,
    configuration: MonitorConfigurationState,
    platform: Platform,
    operating_system: OperatingSystem,
    screens: Option<Seq<AppKitScreen>>,
)
    requires
        is_installation_of(
            installed,
            monitor,
            configuration,
            platform,
            operating_system,
            screens,
            None,
        ),
        !can_be_read(monitor, configuration) || platform == Platform::Wayland || (platform
            == Platform::X11 && monitor.reading is X11OutputNotLocated) || monitor.reading is Nothing,
    ensures
        installed.legacy_identity is Anonymous,
        installed.device_evidence@.identity_evidence matches DisplayIdentityEvidenceView::Unavailable {
            serial,
        } && serial is PlatformCannotReport,
        !(installed.device_evidence@.attachment is Reported),
{
}

/// A scripted display that is listed and has a handle is installed as its script says: under the
/// fingerprint of the published bytes, with its attachment and its capture address. A display that is
/// not listed, or that publishes nothing, keeps its capture address alone.
pub proof fn a_scripted_display_is_what_its_script_says(
    installed: InstalledMonitor,
    monitor: ScannedMonitor,
    configuration: MonitorConfigurationState,
    platform: Platform,
    operating_system: OperatingSystem,
    screens: Option<Seq<AppKitScreen>>,
    script: InjectedMonitorEvidence,
    bytes: Seq<u8>,
    handle: PlatformReportView,
    attachment: PlatformReportView,
)
    requires
        is_installation_of(
            installed,
            monitor,
            configuration,
            platform,
            operating_system,
            screens,
            Some(script),
        ),
        script.device_handle_of(monitor.entity) == Some(handle),
        script.attachment_of(monitor.entity) == Some(attachment),
    ensures
        installed.device_evidence@.platform_device_handle == handle,
        monitor.cached_index is Some && !script.misses_handle(monitor.entity) && script.evidence_of(
            monitor.entity,
        ) == Some(Ok::<Seq<u8>, MonitorIdentificationError>(bytes)) ==> {
            &&& installed.device_evidence@.attachment == attachment
            &&& installed.legacy_identity matches DisplayIdentity::Fingerprinted(fingerprint)
                && fingerprint@ == fnv_1a(bytes)
            &&& installed.device_evidence@.identity_evidence
                matches DisplayIdentityEvidenceView::Synthesized { display_fingerprint, serial }
                && display_fingerprint@ == fnv_1a(bytes) && serial is NotExposedByUnit
        },
        monitor.cached_index is None || script.misses_handle(monitor.entity) ==> {
            &&& installed.legacy_identity is Anonymous
            &&& installed.device_evidence@.identity_evidence is Unavailable
            &&& !(installed.device_evidence@.attachment is Reported)
        },
{
    evidence_is_classified_by_what_it_is(QualifiedEvidenceView::Synthetic(bytes));
}

/// A display is called what the operating system or the script calls it: on Windows and X11 by the
/// window system's name, in a script by the scripted one.
pub proof fn a_display_has_the_name_it_is_given(
    installed: InstalledMonitor,
    monitor: ScannedMonitor,
    configuration: MonitorConfigurationState,
    platform: Platform,
    operating_system: OperatingSystem,
    screens: Option<Seq<AppKitScreen>>,
    script: Option<InjectedMonitorEvidence>,
)
    requires
        is_installation_of(
            installed,
            monitor,
            configuration,
            platform,
            operating_system,
            screens,
            script,
        ),
    ensures
        script is None && operating_system != OperatingSystem::MacOs && (platform
            == Platform::Windows || platform == Platform::X11) ==> match monitor.winit_name {
            Some(name) => installed.product_name@ == DisplayProductNameView::Reported(name@),
            None => installed.product_name@ is NotReported,
        },
        script is None && operating_system != OperatingSystem::MacOs && platform
            == Platform::Wayland ==> installed.product_name@ is PlatformHasNoConcept,
        script matches Some(scripted) ==> match scripted.product_name_of(monitor.entity) {
            Some(name) => installed.product_name@ == name,
            None => installed.product_name@ is PlatformHasNoConcept,
        },
{
}

/// An enumeration keeps every monitor as it was scanned, and makes none up: for every scanned monitor
/// there is one in the result with its entity, handle, name, scale, position, size and reading, and the
/// other way round.
pub proof fn an_enumeration_keeps_every_monitor(
    scanned: Seq<ScannedMonitor>,
    order: EnumerationOrder,
    origin: Seq<int>,
    result: Seq<ScannedMonitor>,
    place: int,
    i: int,
)
    requires
        is_enumeration(scanned, order, origin, result),
    ensures
        result.len() == scanned.len(),
        0 <= place < scanned.len() ==> exists|j: int|
            0 <= j < result.len() && #[trigger] is_scanned_as(result[j], scanned[place]),
        0 <= i < result.len() ==> exists|p: int|
            0 <= p < scanned.len() && #[trigger] is_scanned_as(result[i], scanned[p]),
{
    if 0 <= place < scanned.len() {
        assert(origin.contains(place));
        let j = choose|j: int| 0 <= j < origin.len() && origin[j] == place;
        assert(is_associated(result[j], scanned[origin[j]], order));
        assert(is_scanned_as(result[j], scanned[place]));
    }
    if 0 <= i < result.len() {
        assert(is_associated(result[i], scanned[origin[i]], order));
        assert(is_scanned_as(result[i], scanned[origin[i]]));
    }
}

/// Whether a monitor is one of the scan, but for the numbers that the enumeration gives it.
pub open spec fn is_scanned_as(result: ScannedMonitor, monitor: ScannedMonitor) -> bool {
    &&& result.entity == monitor.entity
    &&& result.handle == monitor.handle
    &&& result.winit_name == monitor.winit_name
    &&& result.scale == monitor.scale
    &&& result.physical_position == monitor.physical_position
    &&& result.physical_size == monitor.physical_size
    &&& result.reading == monitor.reading
}

proof fn a_listed_item_has_a_first_place(items: Seq<u64>, item: u64, index: int)
    requires
        0 <= index,
    ensures
        match first_position(items, item, index) {
            Some(position) => {
                &&& index <= position < items.len() && items[position] == item
                &&& forall|i: int| index <= i < position ==> #[trigger] items[i] != item
            },
            None => forall|i: int| index <= i < items.len() ==> #[trigger] items[i] != item,
        },
    decreases items.len() - index,
{
    if index < items.len() && items[index] != item {
        a_listed_item_has_a_first_place(items, item, index + 1);
    }
}

/// A listed monitor is numbered by the first place where the list has its handle, or its entity in a
/// script; a monitor that the list does not have is numbered from the end of the list on. Listed
/// monitors come first, in the order of the list, and the others follow by entity.
pub proof fn monitors_are_numbered_by_the_list(
    scanned: Seq<ScannedMonitor>,
    order: EnumerationOrder,
    origin: Seq<int>,
    result: Seq<ScannedMonitor>,
    i: int,
    j: int,
)
    requires
        is_enumeration(scanned, order, origin, result),
        0 <= i < result.len(),
    ensures
        match order.listed_as(result[i]) {
            Some(item) => result[i].cached_index is Some <==> order.listed().contains(item),
            None => result[i].cached_index is None,
        },
        result[i].cached_index matches Some(cached) ==> {
            &&& result[i].index == cached
            &&& cached < order.listed().len()
            &&& order.listed_as(result[i]) == Some(order.listed()[cached as int])
            &&& !order.listed().take(cached as int).contains(order.listed()[cached as int])
        },
        result[i].cached_index is None ==> result[i].index >= order.listed().len(),
        i < j < result.len() ==> {
            &&& result[j].cached_index is Some ==> result[i].cached_index is Some && result[i].index
                <= result[j].index
            &&& result[i].cached_index is None ==> result[i].entity <= result[j].entity
                && result[i].index < result[j].index
        },
{
    assert(is_associated(result[i], scanned[origin[i]], order));
    unassociated_count_grows(result, 0, i);
    let item = order.listed_as(result[i]);
    if item is Some {
        a_listed_item_has_a_first_place(order.listed(), item->0, 0);
        if let Some(cached) = result[i].cached_index {
            let front = order.listed().take(cached as int);
            if front.contains(item->0) {
                let k = choose|k: int| 0 <= k < front.len() && front[k] == item->0;
                assert(order.listed()[k] == item->0);
            }
            assert(order.listed()[cached as int] == item->0);
        }
    }
    if i < j < result.len() {
        assert(is_associated(result[j], scanned[origin[j]], order));
        assert(enumerated_before(scanned, order, origin[i], origin[j]));
        if result[i].cached_index is None {
            unassociated_count_grows(result, i + 1, j);
        }
    }
}

/// A scan is counted once, and every monitor in it as one read, one lookup in the list, one request and
/// one look for a handle. The evidence of a monitor is loaded where the list has it and the script does
/// not say that its handle is missing. What the script says of the displays stays as it is.
pub proof fn a_scan_is_counted(
    ordered: Seq<ScannedMonitor>,
    before: InjectedMonitorEvidence,
    after: InjectedMonitorEvidence,
    entity: u64,
)
    requires
        counts_scan(ordered, before, after),
        before.activity().leaves_room_for_scan(ordered.len() as int),
    ensures
        after.activity().topology_scans == before.activity().topology_scans + 1,
        after.activity().component_reads == before.activity().component_reads + ordered.len(),
        after.activity().cached_order_lookups == before.activity().cached_order_lookups
            + ordered.len(),
        after.activity().identity_requests == before.activity().identity_requests + ordered.len(),
        after.activity().handle_lookups == before.activity().handle_lookups + ordered.len(),
        after.activity().evidence_loads == before.activity().evidence_loads + ordered.filter(
            |monitor: ScannedMonitor|
                monitor.cached_index is Some && !before.misses_handle(monitor.entity),
        ).len(),
        after.evidence_of(entity) == before.evidence_of(entity),
        after.attachment_of(entity) == before.attachment_of(entity),
        after.device_handle_of(entity) == before.device_handle_of(entity),
        after.product_name_of(entity) == before.product_name_of(entity),
        after.misses_handle(entity) == before.misses_handle(entity),
{
    let length = ordered.len() as int;
    loads_are_among_all(ordered, before, length);
    loads_are_counted(ordered, before, length);
    assert(ordered.take(length) =~= ordered);
}

proof fn loads_are_counted(
    monitors: Seq<ScannedMonitor>,
    script: InjectedMonitorEvidence,
    length: int,
)
    requires
        0 <= length <= monitors.len(),
    ensures
        loads_among(monitors, script, length) == monitors.take(length).filter(
            |monitor: ScannedMonitor|
                monitor.cached_index is Some && !script.misses_handle(monitor.entity),
        ).len(),
    decreases length,
{
    let is_loaded = |monitor: ScannedMonitor|
        monitor.cached_index is Some && !script.misses_handle(monitor.entity);
    reveal(Seq::filter);
    if length > 0 {
        loads_are_counted(monitors, script, length - 1);
        filter_of_longer_prefix(monitors, length - 1, is_loaded);
    }
}

/// A scan can be counted exactly where none of the counts overflows.
pub proof fn a_scan_can_be_counted_while_counts_fit(activity: TopologyProducerActivity, reads: int)
    ensures
        activity.leaves_room_for_scan(reads) <==> {
            &&& activity.topology_scans < usize::MAX
            &&& activity.component_reads + reads <= usize::MAX
            &&& activity.cached_order_lookups + reads <= usize::MAX
            &&& activity.identity_requests + reads <= usize::MAX
            &&& activity.handle_lookups + reads <= usize::MAX
            &&& activity.evidence_loads + reads <= usize::MAX
        },
{
}

/// A display that is scripted several times has the attachment and the capture address of its last
/// entry.
pub proof fn the_last_entry_of_a_script_counts(
    displays: Seq<ScriptedDisplay>,
    entity: u64,
    index: int,
)
    ensures
        0 <= index < displays.len() && displays[index].entity == entity && (forall|later: int|
            index < later < displays.len() ==> (#[trigger] displays[later]).entity != entity)
            ==> last_scripted(displays, entity) == Some(displays[index]),
        (forall|place: int|
            0 <= place < displays.len() ==> (#[trigger] displays[place]).entity != entity)
            ==> last_scripted(displays, entity) is None,
    decreases displays.len(),
{
    if displays.len() > 0 {
        let rest = displays.drop_last();
        let last = displays.len() - 1;
        the_last_entry_of_a_script_counts(rest, entity, index);
        assert(displays.last() == displays[last]);
        assert forall|place: int| 0 <= place < last implies #[trigger] rest[place]
            == displays[place] by {}
    }
}

/// A display publishes what its last entry that publishes anything publishes.
pub proof fn the_last_publication_of_a_script_counts(
    displays: Seq<ScriptedDisplay>,
    entity: u64,
    index: int,
    bytes: Vec<u8>,
)
    ensures
        0 <= index < displays.len() && displays[index].entity == entity && displays[index].evidence
            == Some(bytes) && (forall|later: int|
            index < later < displays.len() && (#[trigger] displays[later]).entity == entity
                ==> displays[later].evidence is None) ==> last_published(displays, entity) == Some(
            bytes@,
        ),
        (forall|place: int|
            0 <= place < displays.len() && (#[trigger] displays[place]).entity == entity
                ==> displays[place].evidence is None) ==> last_published(displays, entity) is None,
    decreases displays.len(),
{
    if displays.len() > 0 {
        let rest = displays.drop_last();
        let last = displays.len() - 1;
        the_last_publication_of_a_script_counts(rest, entity, index, bytes);
        assert(displays.last() == displays[last]);
        assert forall|place: int| 0 <= place < last implies #[trigger] rest[place]
            == displays[place] by {}
    }
}

/// Without a script for it, a display's attachment and capture address are those that the platform
/// supplies, and a scripted display whose evidence is refused or absent is nobody's.
pub proof fn a_script_falls_back_on_the_platform(
    installed: InstalledMonitor,
    monitor: ScannedMonitor,
    configuration: MonitorConfigurationState,
    platform: Platform,
    operating_system: OperatingSystem,
    screens: Option<Seq<AppKitScreen>>,
    script: InjectedMonitorEvidence,
)
    requires
        is_installation_of(
            installed,
            monitor,
            configuration,
            platform,
            operating_system,
            screens,
            Some(script),
        ),
    ensures
        script.device_handle_of(monitor.entity) is None
            ==> installed.device_evidence@.platform_device_handle == device_handle(
            operating_system,
            native_id_of(monitor.handle),
        ),
        script.attachment_of(monitor.entity) is None ==> installed.device_evidence@.attachment
            == if platform is MacOs || platform is Wayland {
            PlatformReportView::PlatformHasNoConcept
        } else {
            PlatformReportView::PlatformReportedNothing
        },
        !(script.evidence_of(monitor.entity) matches Some(Ok(_))) ==> {
            &&& installed.legacy_identity is Anonymous
            &&& installed.device_evidence@.identity_evidence
                == DisplayIdentityEvidenceView::Unavailable {
                serial: ReportedSerialView::PlatformCannotReport,
            }
        },
{
}

/// A display that the operating system reads keeps the number that the window server gives it, whether
/// or not it can be identified, and without a reported connector its attachment is the platform's
/// answer: on macOS and Wayland there is no such thing, and elsewhere nothing was reported.
pub proof fn a_read_display_keeps_its_handle(
    installed: InstalledMonitor,
    monitor: ScannedMonitor,
    configuration: MonitorConfigurationState,
    platform: Platform,
    operating_system: OperatingSystem,
    screens: Option<Seq<AppKitScreen>>,
)
    requires
        is_installation_of(
            installed,
            monitor,
            configuration,
            platform,
            operating_system,
            screens,
            None,
        ),
    ensures
        operating_system is MacOs ==> match monitor.handle {
            Some(handle) => installed.device_evidence@.platform_device_handle
                matches PlatformReportView::Reported(spelling) && number_spelled_by(spelling)
                == handle.native_id,
            None => installed.device_evidence@.platform_device_handle is PlatformReportedNothing,
        },
        !(operating_system is MacOs)
            ==> installed.device_evidence@.platform_device_handle is PlatformHasNoConcept,
        !can_be_read(monitor, configuration) || !(platform is X11)
            ==> installed.device_evidence@.attachment == if platform is MacOs
            || platform is Wayland {
            PlatformReportView::PlatformHasNoConcept
        } else {
            PlatformReportView::PlatformReportedNothing
        },
{
    if let Some(handle) = monitor.handle {
        a_device_handle_is_the_window_servers_number(operating_system, handle.native_id, 0);
    }
}

/// A new script has counted nothing.
pub proof fn an_unused_script_has_counted_nothing(activity: TopologyProducerActivity)
    ensures
        activity.is_unused() <==> {
            &&& activity.topology_scans + activity.component_reads + activity.cached_order_lookups
                + activity.identity_requests + activity.handle_lookups + activity.evidence_loads
                == 0
        },
{
}

/// Asking a script for one display is one request and one look for a handle; it loads evidence where the
/// list has the display and the script does not say that its handle is missing, and scans nothing.
pub proof fn a_request_is_counted(
    monitor: ScannedMonitor,
    before: InjectedMonitorEvidence,
    after: InjectedMonitorEvidence,
    entity: u64,
)
    requires
        counts_one_request(monitor, before, after),
        before.activity().leaves_room_for_requests(1),
    ensures
        after.activity().identity_requests == before.activity().identity_requests + 1,
        after.activity().handle_lookups == before.activity().handle_lookups + 1,
        monitor.cached_index is Some && !before.misses_handle(monitor.entity)
            ==> after.activity().evidence_loads == before.activity().evidence_loads + 1,
        monitor.cached_index is None || before.misses_handle(monitor.entity)
            ==> after.activity().evidence_loads == before.activity().evidence_loads,
        after.activity().topology_scans == before.activity().topology_scans,
        after.activity().component_reads == before.activity().component_reads,
        after.activity().cached_order_lookups == before.activity().cached_order_lookups,
        after.evidence_of(entity) == before.evidence_of(entity),
        after.attachment_of(entity) == before.attachment_of(entity),
        after.device_handle_of(entity) == before.device_handle_of(entity),
        after.product_name_of(entity) == before.product_name_of(entity),
        after.misses_handle(entity) == before.misses_handle(entity),
{
}

/// A script has no handle for a display exactly where one of the display's entries publishes nothing.
pub proof fn a_display_that_publishes_nothing_has_no_handle(
    displays: Seq<ScriptedDisplay>,
    entity: u64,
    place: int,
)
    ensures
        0 <= place < displays.len() && displays[place].entity == entity
            && displays[place].evidence is None ==> publishes_nothing(displays, entity),
        (forall|i: int|
            0 <= i < displays.len() && (#[trigger] displays[i]).entity == entity
                ==> displays[i].evidence is Some) ==> !publishes_nothing(displays, entity),
{
}

/// The monitors that the list does not have are numbered one by one, from the length of the list on.
pub proof fn unlisted_monitors_are_numbered_one_by_one(
    scanned: Seq<ScannedMonitor>,
    order: EnumerationOrder,
    origin: Seq<int>,
    result: Seq<ScannedMonitor>,
    i: int,
)
    requires
        is_enumeration(scanned, order, origin, result),
        0 <= i < result.len(),
        result[i].cached_index is None,
    ensures
        i == 0 || result[i - 1].cached_index is Some ==> result[i].index == order.listed().len(),
        i > 0 && result[i - 1].cached_index is None ==> result[i].index == result[i - 1].index + 1,
{
    if i == 0 || result[i - 1].cached_index is Some {
        assert forall|j: int| 0 <= j < i implies (#[trigger] result[j]).cached_index is Some by {
            if j < i - 1 {
                monitors_are_numbered_by_the_list(scanned, order, origin, result, j, i - 1);
            }
        }
        listed_monitors_are_not_counted(result, i);
    }
}

proof fn listed_monitors_are_not_counted(monitors: Seq<ScannedMonitor>, length: int)
    requires
        0 <= length <= monitors.len(),
        forall|j: int| 0 <= j < length ==> (#[trigger] monitors[j]).cached_index is Some,
    ensures
        unassociated_before(monitors, length) == 0,
    decreases length,
{
    if length > 0 {
        listed_monitors_are_not_counted(monitors, length - 1);
    }
}

/// A topology is the whole scan: it has as many monitors as were scanned, every scanned monitor is
/// installed in it, and every installed monitor was scanned.
pub proof fn every_scanned_monitor_is_installed(
    scanned: Seq<ScannedMonitor>,
    order: EnumerationOrder,
    origin: Seq<int>,
    ordered: Seq<ScannedMonitor>,
    installed: Seq<InstalledMonitor>,
    configuration: MonitorConfigurationState,
    platform: Platform,
    operating_system: OperatingSystem,
    screens: Option<Seq<AppKitScreen>>,
    script: Option<InjectedMonitorEvidence>,
    place: int,
)
    requires
        is_enumeration(scanned, order, origin, ordered),
        are_installations_of(
            installed,
            ordered,
            configuration,
            platform,
            operating_system,
            screens,
            script,
        ),
    ensures
        installed.len() == scanned.len(),
        0 <= place < installed.len() ==> {
            &&& installed[place].entity == ordered[place].entity
            &&& installed[place].descriptor.index@ == ordered[place].index
            &&& is_installation_of(
                installed[place],
                ordered[place],
                configuration,
                platform,
                operating_system,
                screens,
                script,
            )
            &&& exists|p: int|
                0 <= p < scanned.len() && is_scanned_as(ordered[place], #[trigger] scanned[p])
        },
        0 <= place < scanned.len() ==> exists|i: int|
            0 <= i < installed.len() && (#[trigger] installed[i]).entity == scanned[place].entity
                && installed[i].descriptor.scale == scanned[place].scale
                && installed[i].descriptor.physical_position == scanned[place].physical_position
                && installed[i].descriptor.physical_size == scanned[place].physical_size,
{
    if 0 <= place < installed.len() {
        assert(is_installation_of(
            installed[place],
            ordered[place],
            configuration,
            platform,
            operating_system,
            screens,
            script,
        ));
        index_keeps_its_position(ordered[place].index);
        an_enumeration_keeps_every_monitor(scanned, order, origin, ordered, place, place);
        let i = choose|i: int|
            0 <= i < ordered.len() && #[trigger] is_scanned_as(ordered[i], scanned[place]);
        assert(is_installation_of(
            installed[i],
            ordered[i],
            configuration,
            platform,
            operating_system,
            screens,
            script,
        ));
        let p = choose|p: int|
            0 <= p < scanned.len() && #[trigger] is_scanned_as(ordered[place], scanned[p]);
        assert(is_scanned_as(ordered[place], scanned[p]));
    }
}

/// Monitors of one entity that the list has at the same place, or does not have, stay in the order of
/// the scan.
pub proof fn monitors_that_the_list_does_not_tell_apart_keep_their_order(
    scanned: Seq<ScannedMonitor>,
    order: EnumerationOrder,
    origin: Seq<int>,
    result: Seq<ScannedMonitor>,
    i: int,
    j: int,
)
    requires
        is_enumeration(scanned, order, origin, result),
        0 <= i < j < result.len(),
        result[i].entity == result[j].entity,
        result[i].cached_index == result[j].cached_index,
    ensures
        origin[i] < origin[j],
        is_scanned_as(result[i], scanned[origin[i]]),
        is_scanned_as(result[j], scanned[origin[j]]),
{
    assert(is_associated(result[i], scanned[origin[i]], order));
    assert(is_associated(result[j], scanned[origin[j]], order));
    assert(enumerated_before(scanned, order, origin[i], origin[j]));
}

} // verus!
