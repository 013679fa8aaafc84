//! Installed monitor topology and how it changes.

use super::display_product_name::{DisplayProductName, DisplayProductNameView};
use super::identity::{DisplayIdentity, DisplayIdentityEvidence, DisplayIdentityEvidenceView};
use crate::device::{
    AttachmentPath, PlatformDeviceHandle, PlatformReportView, ReportedId, ReportedSerial,
    ReportedSerialView,
};
use crate::geometry::{IVec2, UVec2};
use crate::platform::OperatingSystem;
use crate::scale::{encodings_equal, ScaleFactor};
use crate::text;
use crate::text::{a_decimal_spelling_reads_back, decimal_spelling, number_spelled_by};
use crate::window_mode::MonitorSelection;
use vstd::prelude::*;
use vstd::std_specs::cmp::PartialEqSpecImpl;

verus! {

/// Position of one monitor in the current operating-system enumeration.
///
/// The position is an adapter value for interfaces that select a monitor by enumeration order. It
/// says nothing about which display it is.
#[derive(Clone, Copy, Debug, PartialEq, Eq, Hash, Structural)]
pub struct CurrentMonitorIndex(usize);

impl View for CurrentMonitorIndex {
    type V = usize;

    closed spec fn view(&self) -> usize {
        self.0
    }
}

impl CurrentMonitorIndex {
    /// The index with this value.
    pub closed spec fn of(index: usize) -> Self {
        CurrentMonitorIndex(index)
    }

    /// Mark a position as belonging to the current operating-system monitor enumeration.
    pub fn from_current_enumeration(index: usize) -> (result: Self)
        ensures
            result@ == index,
            result == Self::of(index),
    {
        CurrentMonitorIndex(index)
    }

    /// Select this monitor in the current enumeration.
    pub fn selection(self) -> (result: MonitorSelection)
        ensures
            result == MonitorSelection::Index(self@),
    {
        MonitorSelection::Index(self.0)
    }

    /// Read the entry at this position from a collection ordered like the current monitor
    /// enumeration.
    pub fn select<T>(self, values: &[T]) -> (result: Option<&T>)
        ensures
            match result {
                Some(value) => self@ < values@.len() && *value == values@[self@ as int],
                None => self@ >= values@.len(),
            },
    {
        if self.0 < values.len() {
            Some(&values[self.0])
        } else {
            None
        }
    }

    /// The integer required by an adapter protocol that uses the same current enumeration.
    pub fn adapter_value(self) -> (result: usize)
        ensures
            result == self@,
    {
        self.0
    }

    /// The position as text.
    pub fn to_text(self) -> (result: String)
        ensures
            result@ == decimal_spelling(self@ as nat),
    {
        text::decimal(self.0 as u64)
    }
}

/// An index is its position: equal positions are equal indices.
pub proof fn indices_are_their_positions(a: CurrentMonitorIndex, b: CurrentMonitorIndex)
    ensures
        a == b <==> a@ == b@,
        CurrentMonitorIndex::of(a@) == a,
{
}

/// The index of a position has that position.
pub proof fn index_keeps_its_position(index: usize)
    ensures
        CurrentMonitorIndex::of(index)@ == index,
{
}

/// Geometry and window-system adapter data for one live monitor.
#[derive(Clone, Copy, Debug)]
pub struct MonitorDescriptor {
    /// Position in the current operating-system monitor enumeration.
    pub index: CurrentMonitorIndex,
    /// Scale factor of the monitor.
    pub scale: ScaleFactor,
    /// Top-left corner in physical pixels.
    pub physical_position: IVec2,
    /// Dimensions in physical pixels.
    pub physical_size: UVec2,
}

/// Whether two descriptors compare equal; their scales compare as numbers.
pub open spec fn same_descriptor(a: MonitorDescriptor, b: MonitorDescriptor) -> bool {
    &&& a.index == b.index
    &&& encodings_equal(a.scale@, b.scale@)
    &&& a.physical_position == b.physical_position
    &&& a.physical_size == b.physical_size
}

impl PartialEq for MonitorDescriptor {
    fn eq(&self, other: &Self) -> (same: bool) {
        self.index == other.index && self.scale == other.scale && self.physical_position
            == other.physical_position && self.physical_size == other.physical_size
    }
}

impl PartialEqSpecImpl for MonitorDescriptor {
    open spec fn obeys_eq_spec() -> bool {
        true
    }

    open spec fn eq_spec(&self, other: &Self) -> bool {
        same_descriptor(*self, *other)
    }
}

/// A pixel length as a signed coordinate; a length beyond the largest coordinate counts as that.
pub open spec fn extent(length: u32) -> int {
    if length > i32::MAX {
        i32::MAX as int
    } else {
        length as int
    }
}

/// How far `coordinate` lies outside the `length` pixels that start at `start`.
pub open spec fn axis_distance(coordinate: int, start: int, length: u32) -> int {
    if coordinate < start {
        start - coordinate
    } else if coordinate >= start + extent(length) {
        coordinate - (start + extent(length)) + 1
    } else {
        0
    }
}

impl MonitorDescriptor {
    /// Whether a physical point lies on the monitor; the right and bottom edges are outside.
    pub open spec fn contains(self, x: int, y: int) -> bool {
        &&& self.physical_position.x <= x < self.physical_position.x + extent(self.physical_size.x)
        &&& self.physical_position.y <= y < self.physical_position.y + extent(self.physical_size.y)
    }

    /// The square of the distance from a physical point to the monitor.
    pub open spec fn squared_distance(self, x: int, y: int) -> int {
        let dx = axis_distance(x, self.physical_position.x as int, self.physical_size.x);
        let dy = axis_distance(y, self.physical_position.y as int, self.physical_size.y);
        dx * dx + dy * dy
    }

    /// Geometry for one entry in the current operating-system monitor enumeration.
    pub fn for_current_enumeration(
        index: usize,
        scale: ScaleFactor,
        physical_position: IVec2,
        physical_size: UVec2,
    ) -> (result: Self)
        ensures
            result == (MonitorDescriptor {
                index: CurrentMonitorIndex::of(index),
                scale,
                physical_position,
                physical_size,
            }),
    {
        MonitorDescriptor {
            index: CurrentMonitorIndex::from_current_enumeration(index),
            scale,
            physical_position,
            physical_size,
        }
    }

    /// Physical desktop position of a window whose offset from this monitor's top-left corner is
    /// `physical_offset` pixels.
    pub fn physical_from_offset(&self, physical_offset: IVec2) -> (result: IVec2)
        requires
            self.physical_position.sum_fits(physical_offset),
        ensures
            result == self.physical_position.sum(physical_offset),
    {
        self.physical_position.plus(physical_offset)
    }

    /// Whether a physical point lies on the monitor.
    fn contains_point(&self, x: i64, y: i64) -> (result: bool)
        ensures
            result == self.contains(x as int, y as int),
    {
        let right: i64 = self.physical_position.x as i64 + saturated(self.physical_size.x);
        let bottom: i64 = self.physical_position.y as i64 + saturated(self.physical_size.y);
        x >= self.physical_position.x as i64 && x < right && y >= self.physical_position.y as i64
            && y < bottom
    }

    fn distance_to(&self, x: i64, y: i64) -> (result: i128)
        requires
            is_desktop_coordinate(x as int),
            is_desktop_coordinate(y as int),
        ensures
            result == self.squared_distance(x as int, y as int),
    {
        let dx: i128 = axis_gap(x, self.physical_position.x, self.physical_size.x) as i128;
        let dy: i128 = axis_gap(y, self.physical_position.y, self.physical_size.y) as i128;
        assert(0 <= dx * dx <= 0x8_0000_0000 * 0x8_0000_0000) by (nonlinear_arith)
            requires
                0 <= dx <= 0x8_0000_0000,
        ;
        assert(0 <= dy * dy <= 0x8_0000_0000 * 0x8_0000_0000) by (nonlinear_arith)
            requires
                0 <= dy <= 0x8_0000_0000,
        ;
        dx * dx + dy * dy
    }
}

fn saturated(length: u32) -> (result: i64)
    ensures
        result == extent(length),
{
    if length > i32::MAX as u32 {
        i32::MAX as i64
    } else {
        length as i64
    }
}

/// Whether a coordinate is one that a window's corner or centre can have.
spec fn is_desktop_coordinate(coordinate: int) -> bool {
    -0x1_0000_0000 <= coordinate <= 0x2_0000_0000
}

fn axis_gap(coordinate: i64, start: i32, length: u32) -> (result: i64)
    requires
        is_desktop_coordinate(coordinate as int),
    ensures
        result == axis_distance(coordinate as int, start as int, length),
        0 <= result <= 0x8_0000_0000,
{
    let end: i64 = start as i64 + saturated(length);
    if coordinate < start as i64 {
        start as i64 - coordinate
    } else if coordinate >= end {
        coordinate - end + 1
    } else {
        0
    }
}

/// Kernel-facing evidence retained for one display without its descriptor.
#[derive(Debug)]
pub struct DisplayDeviceEvidence {
    pub identity_evidence: DisplayIdentityEvidence,
    pub platform_device_handle: PlatformDeviceHandle,
    pub attachment: AttachmentPath,
}

/// The contents of a [`DisplayDeviceEvidence`].
pub struct DisplayDeviceEvidenceView {
    pub identity_evidence: DisplayIdentityEvidenceView,
    pub platform_device_handle: PlatformReportView,
    pub attachment: PlatformReportView,
}

impl View for DisplayDeviceEvidence {
    type V = DisplayDeviceEvidenceView;

    open spec fn view(&self) -> DisplayDeviceEvidenceView {
        DisplayDeviceEvidenceView {
            identity_evidence: self.identity_evidence@,
            platform_device_handle: self.platform_device_handle@,
            attachment: self.attachment@,
        }
    }
}

/// Evidence of a display that nothing is known about.
pub open spec fn unavailable_evidence(
    operating_system: OperatingSystem,
) -> DisplayDeviceEvidenceView {
    DisplayDeviceEvidenceView {
        identity_evidence: DisplayIdentityEvidenceView::Unavailable {
            serial: ReportedSerialView::PlatformCannotReport,
        },
        platform_device_handle: device_handle(operating_system, None),
        attachment: PlatformReportView::PlatformHasNoConcept,
    }
}

impl DisplayDeviceEvidence {
    /// Evidence of a display that nothing is known about.
    pub fn unavailable(operating_system: OperatingSystem) -> (result: Self)
        ensures
            result@ == unavailable_evidence(operating_system),
    {
        DisplayDeviceEvidence {
            identity_evidence: DisplayIdentityEvidence::Unavailable {
                serial: ReportedSerial::PlatformCannotReport,
            },
            platform_device_handle: platform_device_handle(operating_system, None),
            attachment: AttachmentPath::PlatformHasNoConcept,
        }
    }
}

impl Clone for DisplayDeviceEvidence {
    fn clone(&self) -> (copy: Self)
        ensures
            copy == *self,
    {
        DisplayDeviceEvidence {
            identity_evidence: self.identity_evidence.clone(),
            platform_device_handle: self.platform_device_handle.clone(),
            attachment: self.attachment.clone(),
        }
    }
}

impl PartialEq for DisplayDeviceEvidence {
    fn eq(&self, other: &Self) -> (same: bool) {
        self.identity_evidence == other.identity_evidence && self.platform_device_handle
            == other.platform_device_handle && self.attachment == other.attachment
    }
}

impl PartialEqSpecImpl for DisplayDeviceEvidence {
    open spec fn obeys_eq_spec() -> bool {
        true
    }

    open spec fn eq_spec(&self, other: &Self) -> bool {
        self@ == other@
    }
}

impl Eq for DisplayDeviceEvidence {

}

/// The handle that a topology entry retains: on macOS the decimal spelling of the window server's
/// display identifier, elsewhere nothing shared with another display reporter.
pub open spec fn device_handle(
    operating_system: OperatingSystem,
    native_id: Option<u32>,
) -> PlatformReportView {
    if operating_system != OperatingSystem::MacOs {
        PlatformReportView::PlatformHasNoConcept
    } else {
        match native_id {
            Some(id) => PlatformReportView::Reported(decimal_spelling(id as nat)),
            None => PlatformReportView::PlatformReportedNothing,
        }
    }
}

/// The handle that a topology entry retains for the display with this native identifier.
pub fn platform_device_handle(
    operating_system: OperatingSystem,
    native_id: Option<u32>,
) -> (result: PlatformDeviceHandle)
    ensures
        result@ == device_handle(operating_system, native_id),
{
    if operating_system != OperatingSystem::MacOs {
        return PlatformDeviceHandle::PlatformHasNoConcept;
    }
    match native_id {
        Some(id) => {
            let spelling = text::decimal(id as u64);
            assert(spelling@.len() > 0);
            match ReportedId::new(spelling.as_str()) {
                Ok(reported_id) => PlatformDeviceHandle::Reported(reported_id),
                Err(_) => PlatformDeviceHandle::PlatformReportedNothing,
            }
        },
        None => PlatformDeviceHandle::PlatformReportedNothing,
    }
}

/// One monitor of the installed topology.
#[derive(Debug)]
pub struct InstalledMonitor {
    pub entity: u64,
    pub descriptor: MonitorDescriptor,
    pub product_name: DisplayProductName,
    pub device_evidence: DisplayDeviceEvidence,
    pub legacy_identity: DisplayIdentity,
}

/// Whether two installed monitors compare equal.
pub open spec fn same_installation(a: InstalledMonitor, b: InstalledMonitor) -> bool {
    &&& a.entity == b.entity
    &&& same_descriptor(a.descriptor, b.descriptor)
    &&& a.product_name@ == b.product_name@
    &&& a.device_evidence@ == b.device_evidence@
    &&& a.legacy_identity == b.legacy_identity
}

impl Clone for InstalledMonitor {
    fn clone(&self) -> (copy: Self)
        ensures
            copy == *self,
    {
        InstalledMonitor {
            entity: self.entity,
            descriptor: self.descriptor,
            product_name: self.product_name.clone(),
            device_evidence: self.device_evidence.clone(),
            legacy_identity: self.legacy_identity,
        }
    }
}

impl PartialEq for InstalledMonitor {
    fn eq(&self, other: &Self) -> (same: bool) {
        self.entity == other.entity && self.descriptor == other.descriptor && self.product_name
            == other.product_name && self.device_evidence == other.device_evidence
            && self.legacy_identity == other.legacy_identity
    }
}

impl PartialEqSpecImpl for InstalledMonitor {
    open spec fn obeys_eq_spec() -> bool {
        true
    }

    open spec fn eq_spec(&self, other: &Self) -> bool {
        same_installation(*self, *other)
    }
}

/// One current monitor and its metadata.
#[derive(Clone, Copy, Debug)]
pub struct LiveMonitor<'a> {
    /// Entity of the current monitor lifetime.
    pub entity: u64,
    /// Geometry and adapter data of the current monitor lifetime.
    pub descriptor: &'a MonitorDescriptor,
    /// Product name the operating system shows the user for this display.
    pub product_name: &'a DisplayProductName,
}

/// Monotonic version of the installed monitor entities, geometry, and reporter evidence.
#[derive(Clone, Copy, Debug, PartialEq, Eq, Structural)]
pub struct MonitorTopologyRevision(u64);

impl View for MonitorTopologyRevision {
    type V = u64;

    closed spec fn view(&self) -> u64 {
        self.0
    }
}

impl Default for MonitorTopologyRevision {
    fn default() -> (result: Self)
        ensures
            result@ == 0,
    {
        MonitorTopologyRevision(0)
    }
}

impl MonitorTopologyRevision {
    /// The installed revision number.
    pub fn get(self) -> (result: u64)
        ensures
            result == self@,
    {
        self.0
    }

    /// The revision after this one.
    pub fn next(self) -> (result: Self)
        requires
            self@ < u64::MAX,
        ensures
            result@ == self@ + 1,
    {
        MonitorTopologyRevision(self.0 + 1)
    }

    /// The revision with this number.
    pub fn from_test_raw(revision: u64) -> (result: Self)
        ensures
            result@ == revision,
    {
        MonitorTopologyRevision(revision)
    }
}

/// A revision is its number.
pub proof fn revisions_are_their_numbers(a: MonitorTopologyRevision, b: MonitorTopologyRevision)
    ensures
        a == b <==> a@ == b@,
{
}

/// Last installed monitor topology, in enumeration order.
#[derive(Debug)]
pub struct Monitors {
    live: Vec<InstalledMonitor>,
}

impl View for Monitors {
    type V = Seq<InstalledMonitor>;

    closed spec fn view(&self) -> Seq<InstalledMonitor> {
        self.live@
    }
}

/// Whether `index` is the first monitor that holds the point.
pub open spec fn is_first_containing(
    monitors: Seq<InstalledMonitor>,
    index: int,
    x: int,
    y: int,
) -> bool {
    &&& 0 <= index < monitors.len()
    &&& monitors[index].descriptor.contains(x, y)
    &&& forall|earlier: int|
        0 <= earlier < index ==> !(#[trigger] monitors[earlier]).descriptor.contains(x, y)
}

/// Whether `index` is the first monitor among those nearest to the point.
pub open spec fn is_first_nearest(
    monitors: Seq<InstalledMonitor>,
    index: int,
    x: int,
    y: int,
) -> bool {
    let distance = monitors[index].descriptor.squared_distance(x, y);
    &&& 0 <= index < monitors.len()
    &&& forall|earlier: int|
        0 <= earlier < index ==> (#[trigger] monitors[earlier]).descriptor.squared_distance(x, y)
            > distance
    &&& forall|other: int|
        0 <= other < monitors.len() ==> (#[trigger] monitors[other]).descriptor.squared_distance(
            x,
            y,
        ) >= distance
}

/// A point is on a monitor exactly where its distance to it is zero.
pub proof fn distance_is_zero_exactly_on_the_monitor(
    descriptor: MonitorDescriptor,
    x: int,
    y: int,
)
    ensures
        descriptor.squared_distance(x, y) >= 0,
        descriptor.contains(x, y) <==> descriptor.squared_distance(x, y) == 0,
{
    let dx = axis_distance(x, descriptor.physical_position.x as int, descriptor.physical_size.x);
    let dy = axis_distance(y, descriptor.physical_position.y as int, descriptor.physical_size.y);
    assert(dx * dx >= 0 && (dx >= 1 ==> dx * dx >= 1) && (dx == 0 ==> dx * dx == 0))
        by (nonlinear_arith);
    assert(dy * dy >= 0 && (dy >= 1 ==> dy * dy >= 1) && (dy == 0 ==> dy * dy == 0))
        by (nonlinear_arith);
}

/// The monitor that holds a point is also the nearest one: looking a point up directly and looking
/// up the closest monitor agree wherever the first succeeds.
pub proof fn containing_monitor_is_the_nearest(
    monitors: Seq<InstalledMonitor>,
    index: int,
    x: int,
    y: int,
)
    ensures
        is_first_containing(monitors, index, x, y) ==> is_first_nearest(monitors, index, x, y),
        is_first_nearest(monitors, index, x, y) && (exists|other: int|
            0 <= other < monitors.len() && (#[trigger] monitors[other]).descriptor.contains(x, y))
            ==> is_first_containing(monitors, index, x, y),
{
    assert forall|i: int| 0 <= i < monitors.len() implies {
        &&& (#[trigger] monitors[i]).descriptor.squared_distance(x, y) >= 0
        &&& monitors[i].descriptor.contains(x, y) <==> monitors[i].descriptor.squared_distance(
            x,
            y,
        ) == 0
    } by {
        distance_is_zero_exactly_on_the_monitor(monitors[i].descriptor, x, y);
    }
}

/// There is at most one first nearest monitor.
pub proof fn first_nearest_monitor_is_unique(
    monitors: Seq<InstalledMonitor>,
    a: int,
    b: int,
    x: int,
    y: int,
)
    requires
        is_first_nearest(monitors, a, x, y),
        is_first_nearest(monitors, b, x, y),
    ensures
        a == b,
{
    if a < b {
        assert(monitors[a].descriptor.squared_distance(x, y)
            > monitors[b].descriptor.squared_distance(x, y));
    } else if b < a {
        assert(monitors[b].descriptor.squared_distance(x, y)
            > monitors[a].descriptor.squared_distance(x, y));
    }
}

impl Monitors {
    /// The topology without monitors.
    pub fn empty() -> (result: Self)
        ensures
            result@ == Seq::<InstalledMonitor>::empty(),
    {
        Monitors { live: Vec::new() }
    }

    /// The topology made of these monitors.
    pub fn from_installed(live: Vec<InstalledMonitor>) -> (result: Self)
        ensures
            result@ == live@,
    {
        Monitors { live }
    }

    /// The installed monitors.
    pub fn installed(&self) -> (result: &Vec<InstalledMonitor>)
        ensures
            result@ == self@,
    {
        &self.live
    }

    /// All current monitors and their metadata, in enumeration order.
    pub fn iter(&self) -> (result: Vec<LiveMonitor<'_>>)
        ensures
            result@.len() == self@.len(),
            forall|i: int|
                0 <= i < result@.len() ==> {
                    &&& (#[trigger] result@[i]).entity == self@[i].entity
                    &&& *result@[i].descriptor == self@[i].descriptor
                    &&& *result@[i].product_name == self@[i].product_name
                },
    {
        let mut result: Vec<LiveMonitor<'_>> = Vec::new();
        let mut index: usize = 0;
        while index < self.live.len()
            invariant
                index <= self@.len(),
                result@.len() == index,
                forall|i: int|
                    0 <= i < index ==> {
                        &&& (#[trigger] result@[i]).entity == self@[i].entity
                        &&& *result@[i].descriptor == self@[i].descriptor
                        &&& *result@[i].product_name == self@[i].product_name
                    },
            decreases self@.len() - index,
        {
            let monitor = &self.live[index];
            result.push(
                LiveMonitor {
                    entity: monitor.entity,
                    descriptor: &monitor.descriptor,
                    product_name: &monitor.product_name,
                },
            );
            index += 1;
        }
        result
    }

    fn position_at(&self, x: i64, y: i64) -> (result: Option<usize>)
        ensures
            match result {
                Some(index) => is_first_containing(self@, index as int, x as int, y as int),
                None => forall|i: int|
                    0 <= i < self@.len() ==> !(#[trigger] self@[i]).descriptor.contains(
                        x as int,
                        y as int,
                    ),
            },
    {
        let mut index: usize = 0;
        while index < self.live.len()
            invariant
                index <= self@.len(),
                forall|i: int|
                    0 <= i < index ==> !(#[trigger] self@[i]).descriptor.contains(
                        x as int,
                        y as int,
                    ),
            decreases self@.len() - index,
        {
            if self.live[index].descriptor.contains_point(x, y) {
                return Some(index);
            }
            index += 1;
        }
        None
    }

    /// The first monitor that holds the point `(physical_x, physical_y)`.
    pub fn at(&self, physical_x: i32, physical_y: i32) -> (result: Option<&MonitorDescriptor>)
        ensures
            match result {
                Some(descriptor) => exists|index: int|
                    is_first_containing(self@, index, physical_x as int, physical_y as int)
                        && *descriptor == (#[trigger] self@[index]).descriptor,
                None => forall|i: int|
                    0 <= i < self@.len() ==> !(#[trigger] self@[i]).descriptor.contains(
                        physical_x as int,
                        physical_y as int,
                    ),
            },
    {
        match self.position_at(physical_x as i64, physical_y as i64) {
            Some(index) => {
                assert(self@[index as int] == self.live@[index as int]);
                Some(&self.live[index].descriptor)
            },
            None => None,
        }
    }

    /// Whether no monitors are available.
    pub fn is_empty(&self) -> (result: bool)
        ensures
            result == (self@.len() == 0),
    {
        self.live.len() == 0
    }

    /// The first monitor in current enumeration order.
    pub fn first(&self) -> (result: &MonitorDescriptor)
        requires
            self@.len() > 0,
        ensures
            *result == self@[0].descriptor,
    {
        &self.live[0].descriptor
    }

    fn position_closest_to(&self, x: i64, y: i64) -> (result: usize)
        requires
            self@.len() > 0,
            is_desktop_coordinate(x as int),
            is_desktop_coordinate(y as int),
        ensures
            is_first_nearest(self@, result as int, x as int, y as int),
    {
        let mut nearest: usize = 0;
        let mut distance: i128 = self.live[0].descriptor.distance_to(x, y);
        let mut index: usize = 1;
        while index < self.live.len()
            invariant
                1 <= index <= self@.len(),
                is_desktop_coordinate(x as int),
                is_desktop_coordinate(y as int),
                0 <= nearest < index,
                distance == self@[nearest as int].descriptor.squared_distance(x as int, y as int),
                forall|earlier: int|
                    0 <= earlier < nearest ==> (
                    #[trigger] self@[earlier]).descriptor.squared_distance(x as int, y as int)
                        > distance,
                forall|other: int|
                    0 <= other < index ==> (#[trigger] self@[other]).descriptor.squared_distance(
                        x as int,
                        y as int,
                    ) >= distance,
            decreases self@.len() - index,
        {
            let candidate: i128 = self.live[index].descriptor.distance_to(x, y);
            if candidate < distance {
                nearest = index;
                distance = candidate;
            }
            index += 1;
        }
        nearest
    }

    /// The monitor that holds a point, or else the first of those nearest to it.
    pub fn closest_to(&self, physical_x: i32, physical_y: i32) -> (result: &MonitorDescriptor)
        requires
            self@.len() > 0,
        ensures
            exists|index: int|
                is_first_nearest(self@, index, physical_x as int, physical_y as int) && *result == (
                #[trigger] self@[index]).descriptor,
    {
        let index: usize = self.position_closest_to(physical_x as i64, physical_y as i64);
        assert(self@[index as int] == self.live@[index as int]);
        &self.live[index].descriptor
    }

    /// The monitor that a window belongs to: the one that holds its centre, or else the first of
    /// those nearest to it.
    pub fn monitor_for_window(
        &self,
        physical_position: IVec2,
        physical_width: u32,
        physical_height: u32,
    ) -> (result: &MonitorDescriptor)
        requires
            self@.len() > 0,
        ensures
            exists|index: int|
                is_first_nearest(
                    self@,
                    index,
                    physical_position.x + physical_width / 2,
                    physical_position.y + physical_height / 2,
                ) && *result == (#[trigger] self@[index]).descriptor,
    {
        let center_x: i64 = physical_position.x as i64 + (physical_width / 2) as i64;
        let center_y: i64 = physical_position.y as i64 + (physical_height / 2) as i64;
        let index: usize = self.position_closest_to(center_x, center_y);
        assert(self@[index as int] == self.live@[index as int]);
        &self.live[index].descriptor
    }

    /// A topology for tests: monitors that nothing is known about but where they are.
    pub fn from_test_monitors(
        monitors: Vec<(u64, MonitorDescriptor)>,
        operating_system: OperatingSystem,
    ) -> (result: Self)
        ensures
            result@.len() == monitors@.len(),
            forall|i: int|
                0 <= i < result@.len() ==> {
                    &&& (#[trigger] result@[i]).entity == monitors@[i].0
                    &&& result@[i].descriptor == monitors@[i].1
                    &&& result@[i].product_name@ == DisplayProductNameView::PlatformHasNoConcept
                    &&& result@[i].device_evidence@ == unavailable_evidence(operating_system)
                    &&& result@[i].legacy_identity == DisplayIdentity::Anonymous
                },
    {
        let mut live: Vec<InstalledMonitor> = Vec::new();
        let mut index: usize = 0;
        while index < monitors.len()
            invariant
                index <= monitors@.len(),
                live@.len() == index,
                forall|i: int|
                    0 <= i < index ==> {
                        &&& (#[trigger] live@[i]).entity == monitors@[i].0
                        &&& live@[i].descriptor == monitors@[i].1
                        &&& live@[i].product_name@ == DisplayProductNameView::PlatformHasNoConcept
                        &&& live@[i].device_evidence@ == unavailable_evidence(operating_system)
                        &&& live@[i].legacy_identity == DisplayIdentity::Anonymous
                    },
            decreases monitors@.len() - index,
        {
            live.push(
                InstalledMonitor {
                    entity: monitors[index].0,
                    descriptor: monitors[index].1,
                    product_name: DisplayProductName::PlatformHasNoConcept,
                    device_evidence: DisplayDeviceEvidence::unavailable(operating_system),
                    legacy_identity: DisplayIdentity::Anonymous,
                },
            );
            index += 1;
        }
        Monitors { live }
    }
}

/// Two descriptors compare equal exactly where they agree in the place in the enumeration, the scale
/// as a number, both coordinates and both dimensions.
pub proof fn equal_descriptors_agree_in_every_part(a: MonitorDescriptor, b: MonitorDescriptor)
    ensures
        same_descriptor(a, b) <==> {
            &&& a.index@ == b.index@
            &&& encodings_equal(a.scale@, b.scale@)
            &&& a.physical_position.x == b.physical_position.x
            &&& a.physical_position.y == b.physical_position.y
            &&& a.physical_size.x == b.physical_size.x
            &&& a.physical_size.y == b.physical_size.y
        },
{
}

/// A monitor of ordinary size holds exactly the points whose distance from its corner is at least 0
/// and less than its size, in each direction; a monitor never ends before it starts.
pub proof fn a_monitor_holds_the_points_on_it(descriptor: MonitorDescriptor, x: int, y: int)
    requires
        descriptor.physical_size.x <= i32::MAX,
        descriptor.physical_size.y <= i32::MAX,
    ensures
        descriptor.contains(x, y) <==> {
            &&& 0 <= x - descriptor.physical_position.x < descriptor.physical_size.x
            &&& 0 <= y - descriptor.physical_position.y < descriptor.physical_size.y
        },
{
}

/// The distance to a monitor is the shortest way to a point on it: no point on the monitor is nearer,
/// and one is just as near.
pub proof fn the_distance_is_the_shortest_way(
    descriptor: MonitorDescriptor,
    x: int,
    y: int,
    on_x: int,
    on_y: int,
)
    requires
        0 < descriptor.physical_size.x <= i32::MAX,
        0 < descriptor.physical_size.y <= i32::MAX,
    ensures
        0 <= on_x - descriptor.physical_position.x < descriptor.physical_size.x && 0 <= on_y
            - descriptor.physical_position.y < descriptor.physical_size.y
            ==> descriptor.squared_distance(x, y) <= (x - on_x) * (x - on_x) + (y - on_y) * (y
            - on_y),
        exists|near_x: int, near_y: int| #[trigger]
            descriptor.contains(near_x, near_y) && descriptor.squared_distance(x, y) == (x - near_x)
                * (x - near_x) + (y - near_y) * (y - near_y),
{
    let left = descriptor.physical_position.x as int;
    let top = descriptor.physical_position.y as int;
    let right = left + descriptor.physical_size.x - 1;
    let bottom = top + descriptor.physical_size.y - 1;
    let near_x = if x < left {
        left
    } else if x > right {
        right
    } else {
        x
    };
    let near_y = if y < top {
        top
    } else if y > bottom {
        bottom
    } else {
        y
    };
    let dx = axis_distance(x, left, descriptor.physical_size.x);
    let dy = axis_distance(y, top, descriptor.physical_size.y);
    assert(dx * dx == (x - near_x) * (x - near_x)) by (nonlinear_arith)
        requires
            dx == x - near_x || dx == near_x - x,
    ;
    assert(dy * dy == (y - near_y) * (y - near_y)) by (nonlinear_arith)
        requires
            dy == y - near_y || dy == near_y - y,
    ;
    assert(descriptor.contains(near_x, near_y));
    if left <= on_x <= right && top <= on_y <= bottom {
        assert(dx * dx <= (x - on_x) * (x - on_x)) by (nonlinear_arith)
            requires
                0 <= dx <= x - on_x || 0 <= dx <= on_x - x,
        ;
        assert(dy * dy <= (y - on_y) * (y - on_y)) by (nonlinear_arith)
            requires
                0 <= dy <= y - on_y || 0 <= dy <= on_y - y,
        ;
    }
}

/// A display that nothing is known about has no identity, no serial and no attachment.
pub proof fn unavailable_evidence_names_nothing(operating_system: OperatingSystem)
    ensures
        unavailable_evidence(operating_system).identity_evidence is Unavailable,
        unavailable_evidence(operating_system).attachment is PlatformHasNoConcept,
        !(unavailable_evidence(operating_system).platform_device_handle is Reported),
{
}

/// On macOS a display is reported under the number that the window server gives it, so different
/// displays have different handles; no other system has such handles.
pub proof fn a_device_handle_is_the_window_servers_number(
    operating_system: OperatingSystem,
    native_id: u32,
    other_id: u32,
)
    ensures
        operating_system == OperatingSystem::MacOs ==> {
            &&& device_handle(operating_system, Some(native_id))
                matches PlatformReportView::Reported(handle) && number_spelled_by(handle)
                == native_id
            &&& device_handle(operating_system, None) is PlatformReportedNothing
            &&& native_id != other_id ==> device_handle(operating_system, Some(native_id))
                != device_handle(operating_system, Some(other_id))
        },
        operating_system != OperatingSystem::MacOs ==> device_handle(
            operating_system,
            Some(native_id),
        ) is PlatformHasNoConcept,
{
    a_decimal_spelling_reads_back(native_id as nat);
    a_decimal_spelling_reads_back(other_id as nat);
}

/// Installed monitors are equal exactly where they agree in their entity, their geometry, their name,
/// their evidence and their identity.
pub proof fn equal_installations_agree_in_every_part(a: InstalledMonitor, b: InstalledMonitor)
    ensures
        same_installation(a, b) <==> {
            &&& a.entity == b.entity
            &&& a.descriptor.index@ == b.descriptor.index@
            &&& encodings_equal(a.descriptor.scale@, b.descriptor.scale@)
            &&& a.descriptor.physical_position.x == b.descriptor.physical_position.x
            &&& a.descriptor.physical_position.y == b.descriptor.physical_position.y
            &&& a.descriptor.physical_size.x == b.descriptor.physical_size.x
            &&& a.descriptor.physical_size.y == b.descriptor.physical_size.y
            &&& a.product_name@ == b.product_name@
            &&& a.device_evidence@.identity_evidence == b.device_evidence@.identity_evidence
            &&& a.device_evidence@.platform_device_handle
                == b.device_evidence@.platform_device_handle
            &&& a.device_evidence@.attachment == b.device_evidence@.attachment
            &&& a.legacy_identity == b.legacy_identity
        },
{
    equal_descriptors_agree_in_every_part(a.descriptor, b.descriptor);
}

/// A window belongs to a monitor that holds its centre, where there is one, and otherwise to one that no
/// other monitor is nearer than.
pub proof fn a_window_belongs_to_the_monitor_under_its_centre(
    monitors: Monitors,
    position: IVec2,
    width: u32,
    height: u32,
    result: &MonitorDescriptor,
    other: int,
)
    requires
        monitors@.len() > 0,
        call_ensures(
            Monitors::monitor_for_window,
            (&monitors, position, width, height),
            result,
        ),
        0 <= other < monitors@.len(),
    ensures
        monitors@[other].descriptor.contains(position.x + width / 2, position.y + height / 2)
            ==> result.contains(position.x + width / 2, position.y + height / 2),
        result.squared_distance(position.x + width / 2, position.y + height / 2)
            <= monitors@[other].descriptor.squared_distance(
            position.x + width / 2,
            position.y + height / 2,
        ),
{
    let x = position.x + width / 2;
    let y = position.y + height / 2;
    let index = choose|index: int|
        is_first_nearest(monitors@, index, x, y) && *result == (
        #[trigger] monitors@[index]).descriptor;
    containing_monitor_is_the_nearest(monitors@, index, x, y);
}

} // verus!
