//! Projection of live window configurations into the records that a save writes.

use super::established_window_placement::{EstablishedWindowPlacement, EstablishedWindowPosition};
use super::placements::{placement_views, PendingWrite, PersistedWindowPlacements};
use super::roles::{primary_role_name, primary_window_role};
use super::window_state::{
    positions_agree, same_placement, BindingPolicy, LoadedBindingPolicy, PersistedPosition,
    PersistedWindowPlacement, PersistedWindowPlacementView, PersistedWindowStateView,
    PersistedWindowTargetView,
};
use crate::device::{DeviceKey, DeviceKeyView, RoleKey};
use crate::inventory::{ConfiguredDeviceMode, HardwareInventory};
use crate::role_map::RoleMap;
use vstd::prelude::*;

verus! {

/// How long the records of managed windows are kept.
#[derive(Clone, Copy, Debug, PartialEq, Eq, Structural)]
pub enum ManagedWindowPersistence {
    /// A record stays after its window closes.
    RememberAll,
    /// A record goes when its window does.
    ActiveOnly,
}

/// What became of writing the state file.
#[derive(Clone, Copy, Debug, PartialEq, Eq, Structural)]
pub enum StateFileWrite {
    Written,
    Failed,
}

/// What the kernel says of a role.
#[derive(Clone, Copy, Debug, PartialEq, Eq, Structural)]
pub enum RoleStatus {
    Waiting,
    Applying,
    Established,
    Stopped,
}

/// Whether a role is ready for authoritative persistence.
#[derive(Clone, Copy, Debug, PartialEq, Eq, Structural)]
pub enum EstablishedRoleReadiness {
    Established,
    NotEstablished,
}

/// The last configuration that a role is known to have worked with.
#[derive(Clone, Copy, Debug, PartialEq, Eq, Structural)]
pub enum LastKnownGoodConfiguration {
    /// There is none yet.
    NotEstablished,
    /// It places a window.
    Window(EstablishedWindowPlacement),
    /// It belongs to a driver that does not place windows.
    OtherDriver,
}

/// A role's binding to a device.
#[derive(Debug)]
pub struct WindowBinding {
    /// The device that the role is bound to.
    pub device: DeviceKey,
    pub policy: BindingPolicy,
    pub last_known_good: LastKnownGoodConfiguration,
}

/// Outcome of projecting one role's binding into a writable record.
///
/// Only `AbsentBinding` means that the role itself is gone. Every other refusal is a condition of
/// this frame and never costs a role the record it already has.
#[derive(Debug)]
pub enum EstablishedWindowPersistenceProjection {
    /// No kernel binding is registered for this persistence role.
    AbsentBinding,
    /// The kernel has not made this role ready for authoritative persistence.
    NonReadyRole,
    /// The endpoint's configured display is currently marked offline.
    OfflineInventory,
    /// The role has not yet captured a last known good configuration.
    MissingLastKnownGoodConfiguration,
    /// The role's configuration belongs to a driver that does not place windows.
    WrongErasedConfiguration,
    /// The ready binding supplied a record.
    WritableSerializedValue(PersistedWindowPlacement),
}

/// The contents of an [`EstablishedWindowPersistenceProjection`].
pub enum ProjectionView {
    AbsentBinding,
    NonReadyRole,
    OfflineInventory,
    MissingLastKnownGoodConfiguration,
    WrongErasedConfiguration,
    WritableSerializedValue(PersistedWindowPlacementView),
}

impl View for EstablishedWindowPersistenceProjection {
    type V = ProjectionView;

    open spec fn view(&self) -> ProjectionView {
        match self {
            EstablishedWindowPersistenceProjection::AbsentBinding => ProjectionView::AbsentBinding,
            EstablishedWindowPersistenceProjection::NonReadyRole => ProjectionView::NonReadyRole,
            EstablishedWindowPersistenceProjection::OfflineInventory =>
                ProjectionView::OfflineInventory,
            EstablishedWindowPersistenceProjection::MissingLastKnownGoodConfiguration =>
                ProjectionView::MissingLastKnownGoodConfiguration,
            EstablishedWindowPersistenceProjection::WrongErasedConfiguration =>
                ProjectionView::WrongErasedConfiguration,
            EstablishedWindowPersistenceProjection::WritableSerializedValue(placement) =>
                ProjectionView::WritableSerializedValue(placement@),
        }
    }
}

/// Whether a role with this status is ready for authoritative persistence.
pub fn readiness_of(status: RoleStatus) -> (result: EstablishedRoleReadiness)
    ensures
        result == if status == RoleStatus::Established {
            EstablishedRoleReadiness::Established
        } else {
            EstablishedRoleReadiness::NotEstablished
        },
{
    match status {
        RoleStatus::Established => EstablishedRoleReadiness::Established,
        RoleStatus::Waiting | RoleStatus::Applying | RoleStatus::Stopped =>
            EstablishedRoleReadiness::NotEstablished,
    }
}

/// The record of a placement on the display with this key.
pub open spec fn record_of(
    placement: EstablishedWindowPlacement,
    device: DeviceKeyView,
    app_name: Seq<char>,
) -> PersistedWindowStateView {
    PersistedWindowStateView {
        target: PersistedWindowTargetView::Classified(device),
        position: match placement.position {
            EstablishedWindowPosition::Restorable { logical_offset } =>
                PersistedPosition::MonitorOffset(logical_offset),
            EstablishedWindowPosition::CompositorControlled => PersistedPosition::Unpositioned,
        },
        logical_width: placement.logical_size.x,
        logical_height: placement.logical_size.y,
        saved_window_mode: placement.saved_window_mode,
        app_name,
    }
}

/// The projection of a role that is bound to `device`.
pub open spec fn projection_of_values(
    device: DeviceKeyView,
    readiness: EstablishedRoleReadiness,
    last_known_good: LastKnownGoodConfiguration,
    device_mode: Option<ConfiguredDeviceMode>,
    app_name: Seq<char>,
    policy: LoadedBindingPolicy,
) -> ProjectionView {
    if readiness == EstablishedRoleReadiness::NotEstablished {
        ProjectionView::NonReadyRole
    } else if device_mode == Some(ConfiguredDeviceMode::Offline) {
        ProjectionView::OfflineInventory
    } else {
        match last_known_good {
            LastKnownGoodConfiguration::NotEstablished =>
                ProjectionView::MissingLastKnownGoodConfiguration,
            LastKnownGoodConfiguration::OtherDriver => ProjectionView::WrongErasedConfiguration,
            LastKnownGoodConfiguration::Window(placement) =>
                ProjectionView::WritableSerializedValue(
                PersistedWindowPlacementView {
                    window_state: record_of(placement, device, app_name),
                    loaded_binding_policy: policy,
                },
            ),
        }
    }
}

/// Project a role that is bound to `device`. The record does not say yet which policy it has.
pub fn project_established_values(
    device: &DeviceKey,
    readiness: EstablishedRoleReadiness,
    last_known_good: LastKnownGoodConfiguration,
    inventory: &HardwareInventory,
    app_name: &str,
) -> (result: EstablishedWindowPersistenceProjection)
    ensures
        result@ == projection_of_values(
            device@,
            readiness,
            last_known_good,
            inventory.mode_of(device@),
            app_name@,
            LoadedBindingPolicy::LegacyWindowMarkers,
        ),
{
    if readiness == EstablishedRoleReadiness::NotEstablished {
        return EstablishedWindowPersistenceProjection::NonReadyRole;
    }
    if let Some(mode) = inventory.configured_device(device) {
        if mode == ConfiguredDeviceMode::Offline {
            return EstablishedWindowPersistenceProjection::OfflineInventory;
        }
    }
    match last_known_good {
        LastKnownGoodConfiguration::NotEstablished =>
            EstablishedWindowPersistenceProjection::MissingLastKnownGoodConfiguration,
        LastKnownGoodConfiguration::OtherDriver =>
            EstablishedWindowPersistenceProjection::WrongErasedConfiguration,
        LastKnownGoodConfiguration::Window(placement) =>
            EstablishedWindowPersistenceProjection::WritableSerializedValue(
            PersistedWindowPlacement::from(placement.project(device.clone(), app_name)),
        ),
    }
}

/// Project a bound role; the record carries the binding's policy.
pub fn project_established_binding(
    binding: &WindowBinding,
    role_status: RoleStatus,
    inventory: &HardwareInventory,
    app_name: &str,
) -> (result: EstablishedWindowPersistenceProjection)
    ensures
        result@ == projection_of_values(
            binding.device@,
            if role_status == RoleStatus::Established {
                EstablishedRoleReadiness::Established
            } else {
                EstablishedRoleReadiness::NotEstablished
            },
            binding.last_known_good,
            inventory.mode_of(binding.device@),
            app_name@,
            LoadedBindingPolicy::Saved(binding.policy),
        ),
{
    match project_established_values(
        &binding.device,
        readiness_of(role_status),
        binding.last_known_good,
        inventory,
        app_name,
    ) {
        EstablishedWindowPersistenceProjection::WritableSerializedValue(placement) => {
            let mut governed = placement;
            governed.loaded_binding_policy = LoadedBindingPolicy::Saved(binding.policy);
            EstablishedWindowPersistenceProjection::WritableSerializedValue(governed)
        },
        other => other,
    }
}

/// Everything that a save projects from.
#[derive(Debug)]
pub struct ProjectionSource {
    /// The bound roles.
    pub bindings: RoleMap<WindowBinding>,
    /// What the kernel says of each role.
    pub role_statuses: RoleMap<RoleStatus>,
    pub inventory: HardwareInventory,
    pub app_name: String,
}

impl ProjectionSource {
    /// No role is bound twice or has two statuses.
    pub open spec fn wf(&self) -> bool {
        self.bindings.wf() && self.role_statuses.wf()
    }

    /// The projection of a role.
    pub open spec fn projection(&self, role: Seq<char>) -> ProjectionView {
        if !self.bindings@.contains_key(role) {
            ProjectionView::AbsentBinding
        } else if !self.role_statuses@.contains_key(role) {
            ProjectionView::NonReadyRole
        } else {
            let binding = self.bindings@[role];
            projection_of_values(
                binding.device@,
                if self.role_statuses@[role] == RoleStatus::Established {
                    EstablishedRoleReadiness::Established
                } else {
                    EstablishedRoleReadiness::NotEstablished
                },
                binding.last_known_good,
                self.inventory.mode_of(binding.device@),
                self.app_name@,
                LoadedBindingPolicy::Saved(binding.policy),
            )
        }
    }

    /// Project one role.
    pub fn project_established(&self, role: &RoleKey) -> (result:
        EstablishedWindowPersistenceProjection)
        requires
            self.wf(),
        ensures
            result@ == self.projection(role@),
    {
        let binding = match self.bindings.get(role) {
            Some(binding) => binding,
            None => {
                return EstablishedWindowPersistenceProjection::AbsentBinding;
            },
        };
        let role_status = match self.role_statuses.get(role) {
            Some(status) => *status,
            None => {
                return EstablishedWindowPersistenceProjection::NonReadyRole;
            },
        };
        project_established_binding(
            binding,
            role_status,
            &self.inventory,
            self.app_name.as_str(),
        )
    }
}

/// The records after one role's projection.
pub open spec fn with_projection(
    projected: Map<Seq<char>, PersistedWindowPlacementView>,
    role: Seq<char>,
    projection: ProjectionView,
    retention: ManagedWindowPersistence,
) -> Map<Seq<char>, PersistedWindowPlacementView> {
    match projection {
        ProjectionView::WritableSerializedValue(record) => projected.insert(role, record),
        ProjectionView::AbsentBinding => if retention == ManagedWindowPersistence::ActiveOnly {
            projected.remove(role)
        } else {
            projected
        },
        _ => projected,
    }
}

/// Fold one role's projection into the records to write.
///
/// A writable record always replaces what was retained. An absent binding means that the role is
/// gone, so `ActiveOnly` drops its record. Every other refusal leaves the retained record alone.
pub fn apply_projection(
    projected: &mut RoleMap<PersistedWindowPlacement>,
    role: RoleKey,
    projection: EstablishedWindowPersistenceProjection,
    retention: ManagedWindowPersistence,
)
    requires
        old(projected).wf(),
    ensures
        final(projected).wf(),
        placement_views(final(projected)@) == with_projection(
            placement_views(old(projected)@),
            role@,
            projection@,
            retention,
        ),
{
    let ghost before = projected@;
    let ghost key = role@;
    match projection {
        EstablishedWindowPersistenceProjection::WritableSerializedValue(placement) => {
            let ghost value = placement;
            projected.insert(role, placement);
            assert(placement_views(before.insert(key, value)) =~= placement_views(before).insert(
                key,
                value@,
            ));
        },
        EstablishedWindowPersistenceProjection::AbsentBinding => {
            if retention == ManagedWindowPersistence::ActiveOnly {
                projected.remove(&role);
                assert(placement_views(before.remove(key)) =~= placement_views(before).remove(key));
            }
        },
        EstablishedWindowPersistenceProjection::NonReadyRole
        | EstablishedWindowPersistenceProjection::OfflineInventory
        | EstablishedWindowPersistenceProjection::MissingLastKnownGoodConfiguration
        | EstablishedWindowPersistenceProjection::WrongErasedConfiguration => {},
    }
}

/// Only an absent binding costs a role its retained record, and only while records go with their
/// windows.
pub proof fn only_an_absent_binding_costs_a_record(
    projected: Map<Seq<char>, PersistedWindowPlacementView>,
    role: Seq<char>,
    projection: ProjectionView,
    retention: ManagedWindowPersistence,
    retained: Seq<char>,
)
    requires
        projected.contains_key(retained),
        !with_projection(projected, role, projection, retention).contains_key(retained),
    ensures
        retained == role,
        projection is AbsentBinding,
        retention == ManagedWindowPersistence::ActiveOnly,
{
}

/// The spellings of some roles.
pub open spec fn names_of(roles: Seq<RoleKey>) -> Seq<Seq<char>> {
    roles.map_values(|role: RoleKey| role@)
}

/// Whether a role's window is managed right now: the primary window, or a live named one.
pub open spec fn is_managed(role: Seq<char>, managed_roles: Seq<RoleKey>) -> bool {
    role == primary_role_name() || names_of(managed_roles).contains(role)
}

/// Whether a retained record may still be kept by this save.
pub open spec fn may_be_kept(
    role: Seq<char>,
    retention: ManagedWindowPersistence,
    managed_roles: Seq<RoleKey>,
) -> bool {
    retention == ManagedWindowPersistence::RememberAll || is_managed(role, managed_roles)
}

/// The retained records that a save may still keep.
pub open spec fn kept_records(
    retention: ManagedWindowPersistence,
    saved: Map<Seq<char>, PersistedWindowPlacement>,
    managed_roles: Seq<RoleKey>,
) -> Map<Seq<char>, PersistedWindowPlacement> {
    saved.restrict(
        Set::new(|role: Seq<char>| may_be_kept(role, retention, managed_roles)),
    )
}

fn is_managed_role(role: &RoleKey, managed_roles: &Vec<RoleKey>) -> (result: bool)
    ensures
        result == is_managed(role@, managed_roles@),
{
    if let Ok(primary) = primary_window_role() {
        if *role == primary {
            return true;
        }
    }
    let ghost names = names_of(managed_roles@);
    let mut index: usize = 0;
    while index < managed_roles.len()
        invariant
            index <= managed_roles@.len(),
            names == names_of(managed_roles@),
            forall|i: int| 0 <= i < index ==> #[trigger] names[i] != role@,
        decreases managed_roles@.len() - index,
    {
        if managed_roles[index] == *role {
            assert(names[index as int] == role@);
            return true;
        }
        assert(names[index as int] == managed_roles@[index as int]@);
        index += 1;
    }
    assert(!names.contains(role@));
    false
}

/// The retained records that a save may still keep.
///
/// `RememberAll` keeps every record. `ActiveOnly` keeps those of currently managed windows: a window
/// that has closed drops out, while one that is still open keeps its record even when it cannot
/// supply a fresh one.
pub fn initial_serialized_states(
    retention: ManagedWindowPersistence,
    persisted: &PersistedWindowPlacements,
    managed_roles: &Vec<RoleKey>,
) -> (result: RoleMap<PersistedWindowPlacement>)
    requires
        persisted.wf(),
    ensures
        result.wf(),
        result@ == kept_records(retention, persisted.saved(), managed_roles@),
{
    let states = persisted.states();
    let ghost saved = persisted.saved();
    let ghost roles = states.roles();
    proof {
        states.roles_list_the_domain();
    }
    let count: usize = states.len();
    let mut result: RoleMap<PersistedWindowPlacement> = RoleMap::new();
    let mut index: usize = 0;
    while index < count
        invariant
            states.wf(),
            saved == states@,
            roles == states.roles(),
            index <= count == roles.len(),
            result.wf(),
            forall|role: Seq<char>| #[trigger]
                result@.contains_key(role) <==> roles.take(index as int).contains(role)
                    && may_be_kept(role, retention, managed_roles@),
            forall|role: Seq<char>| #[trigger]
                result@.contains_key(role) ==> result@[role] == saved[role],
        decreases count - index,
    {
        let role = states.role_at(index);
        let ghost key = role@;
        let ghost before = result@;
        assert(roles.take(index + 1) =~= roles.take(index as int).push(key));
        assert forall|other: Seq<char>| #[trigger] roles.take(index + 1).contains(other) == (
        roles.take(index as int).contains(other) || other == key) by {
            if roles.take(index as int).contains(other) {
                let i = choose|i: int| 0 <= i < index && roles.take(index as int)[i] == other;
                assert(roles.take(index + 1)[i] == other);
            }
            if other == key {
                assert(roles.take(index + 1)[index as int] == other);
            }
        }
        let keep = retention == ManagedWindowPersistence::RememberAll || is_managed_role(
            role,
            managed_roles,
        );
        if keep {
            result.insert(role.clone(), states.value_at(index).clone());
        }
        assert forall|other: Seq<char>| #[trigger]
            result@.contains_key(other) <==> roles.take(index + 1).contains(other) && may_be_kept(
                other,
                retention,
                managed_roles@,
            ) by {
            assert(before.contains_key(other) <==> roles.take(index as int).contains(other)
                && may_be_kept(other, retention, managed_roles@));
        }
        index += 1;
    }
    assert(roles.take(index as int) =~= roles);
    assert(result@ =~= kept_records(retention, saved, managed_roles@));
    result
}

/// Whether a save has anything to write: the file is owed a write, or the records differ from those
/// that were last read or written.
pub open spec fn records_differ(
    saved: Map<Seq<char>, PersistedWindowPlacement>,
    projected: Map<Seq<char>, PersistedWindowPlacement>,
) -> bool {
    ||| saved.dom().len() != projected.dom().len()
    ||| exists|role: Seq<char>| #[trigger]
        saved.contains_key(role) && !(projected.contains_key(role) && same_placement(
            projected[role],
            saved[role],
        ))
}

/// Whether a normal save must write the projected records.
///
/// Adopting a display key changes the retained records themselves, so comparing with them alone
/// would suppress the write that is owed.
pub fn write_is_required_after_projection(
    persisted: &PersistedWindowPlacements,
    projected: &RoleMap<PersistedWindowPlacement>,
) -> (result: bool)
    requires
        persisted.wf(),
        projected.wf(),
    ensures
        result == (persisted.write_status() == PendingWrite::Owed || records_differ(
            persisted.saved(),
            projected@,
        )),
{
    if persisted.pending_write() == PendingWrite::Owed {
        return true;
    }
    let states = persisted.states();
    let ghost saved = persisted.saved();
    let ghost roles = states.roles();
    proof {
        states.roles_list_the_domain();
    }
    let count: usize = states.len();
    if count != projected.len() {
        return true;
    }
    let mut index: usize = 0;
    while index < count
        invariant
            states.wf(),
            projected.wf(),
            saved == states@,
            saved == persisted.saved(),
            persisted.write_status() != PendingWrite::Owed,
            saved.dom().len() == projected@.dom().len(),
            roles == states.roles(),
            index <= count == roles.len(),
            forall|place: int|
                0 <= place < index ==> projected@.contains_key(#[trigger] roles[place])
                    && same_placement(projected@[roles[place]], saved[roles[place]]),
        decreases count - index,
    {
        let role = states.role_at(index);
        let same = match projected.get(role) {
            Some(placement) => *placement == *states.value_at(index),
            None => false,
        };
        if !same {
            assert(saved.contains_key(role@));
            return true;
        }
        index += 1;
    }
    proof {
        if records_differ(saved, projected@) {
            let role = choose|role: Seq<char>| #[trigger]
                saved.contains_key(role) && !(projected@.contains_key(role) && same_placement(
                    projected@[role],
                    saved[role],
                ));
            assert(roles.contains(role));
            let place = choose|place: int| 0 <= place < roles.len() && roles[place] == role;
            assert(projected@.contains_key(roles[place]));
        }
    }
    false
}

/// The records after the projections of some roles, in order.
pub open spec fn with_projections(
    projected: Map<Seq<char>, PersistedWindowPlacementView>,
    roles: Seq<Seq<char>>,
    source: ProjectionSource,
    retention: ManagedWindowPersistence,
) -> Map<Seq<char>, PersistedWindowPlacementView>
    decreases roles.len(),
{
    if roles.len() == 0 {
        projected
    } else {
        with_projection(
            with_projections(projected, roles.drop_last(), source, retention),
            roles.last(),
            source.projection(roles.last()),
            retention,
        )
    }
}

/// The records that a save projects: what may be kept, then the primary window's projection, then
/// those of the managed windows.
pub open spec fn projected_records(
    saved: Map<Seq<char>, PersistedWindowPlacement>,
    managed_roles: Seq<RoleKey>,
    source: ProjectionSource,
    retention: ManagedWindowPersistence,
) -> Map<Seq<char>, PersistedWindowPlacementView> {
    with_projections(
        placement_views(kept_records(retention, saved, managed_roles)),
        seq![primary_role_name()] + names_of(managed_roles),
        source,
        retention,
    )
}

/// The records that a save writes, or `None` when nothing has changed since the last one.
/// `observed_change` tells whether anything that a save projects from changed.
pub fn write_established_window_configurations(
    source: &ProjectionSource,
    managed_roles: &Vec<RoleKey>,
    retention: ManagedWindowPersistence,
    persisted: &PersistedWindowPlacements,
    observed_change: bool,
) -> (result: Option<RoleMap<PersistedWindowPlacement>>)
    requires
        source.wf(),
        persisted.wf(),
    ensures
        !observed_change && persisted.write_status() == PendingWrite::Settled ==> result is None,
        result matches Some(records) ==> {
            &&& records.wf()
            &&& placement_views(records@) == projected_records(
                persisted.saved(),
                managed_roles@,
                *source,
                retention,
            )
            &&& persisted.write_status() == PendingWrite::Owed || records_differ(
                persisted.saved(),
                records@,
            )
        },
        (observed_change || persisted.write_status() == PendingWrite::Owed) && result is None ==> (
        persisted.write_status() == PendingWrite::Settled && exists|
            records: Map<Seq<char>, PersistedWindowPlacement>,
        |
            #![trigger placement_views(records)]
            placement_views(records) == projected_records(
                persisted.saved(),
                managed_roles@,
                *source,
                retention,
            ) && !records_differ(persisted.saved(), records)),
{
    if !observed_change && persisted.pending_write() == PendingWrite::Settled {
        return None;
    }
    let mut projected = initial_serialized_states(retention, persisted, managed_roles);
    let ghost start = placement_views(projected@);
    let ghost names = seq![primary_role_name()] + names_of(managed_roles@);
    if let Ok(primary) = primary_window_role() {
        let projection = source.project_established(&primary);
        apply_projection(&mut projected, primary, projection, retention);
    }
    proof {
        assert(names.take(1).drop_last() =~= Seq::empty());
        assert(names.take(1).last() == primary_role_name());
        reveal_with_fuel(with_projections, 2);
    }
    let mut index: usize = 0;
    while index < managed_roles.len()
        invariant
            source.wf(),
            index <= managed_roles@.len(),
            names == seq![primary_role_name()] + names_of(managed_roles@),
            projected.wf(),
            placement_views(projected@) == with_projections(
                start,
                names.take(index + 1),
                *source,
                retention,
            ),
        decreases managed_roles@.len() - index,
    {
        let role = &managed_roles[index];
        proof {
            assert(names.take(index + 2).drop_last() =~= names.take(index + 1));
            assert(names.take(index + 2).last() == role@);
        }
        let projection = source.project_established(role);
        apply_projection(&mut projected, role.clone(), projection, retention);
        index += 1;
    }
    assert(names.take(index + 1) =~= names);
    if write_is_required_after_projection(persisted, &projected) {
        Some(projected)
    } else {
        None
    }
}

/// Take the result of writing the file into account: only what was written counts as saved.
pub fn settle_write(
    persisted: &mut PersistedWindowPlacements,
    records: RoleMap<PersistedWindowPlacement>,
    write: StateFileWrite,
)
    requires
        old(persisted).wf(),
        records.wf(),
    ensures
        final(persisted).wf(),
        write == StateFileWrite::Failed ==> *final(persisted) == *old(persisted),
        write == StateFileWrite::Written ==> {
            &&& final(persisted).saved() == records@
            &&& final(persisted).ever_saved() == old(persisted).ever_saved().union(records@.dom())
            &&& final(persisted).load_status() == old(persisted).load_status()
            &&& final(persisted).write_status() == PendingWrite::Settled
        },
{
    if write == StateFileWrite::Written {
        persisted.replace_serialized(records);
        persisted.mark_written();
    }
}

proof fn refused_role_keeps_its_record(
    projected: Map<Seq<char>, PersistedWindowPlacementView>,
    roles: Seq<Seq<char>>,
    source: ProjectionSource,
    retention: ManagedWindowPersistence,
    role: Seq<char>,
)
    requires
        projected.contains_key(role),
        source.projection(role) is AbsentBinding ==> retention
            == ManagedWindowPersistence::RememberAll,
    ensures
        with_projections(projected, roles, source, retention).contains_key(role),
        !(source.projection(role) is WritableSerializedValue) ==> with_projections(
            projected,
            roles,
            source,
            retention,
        )[role] == projected[role],
    decreases roles.len(),
{
    if roles.len() > 0 {
        refused_role_keeps_its_record(projected, roles.drop_last(), source, retention, role);
    }
}

/// A whole save costs no open window its record: a role that may be kept and still has a binding is
/// in the projected records, unchanged where it has nothing fresh to supply. While every record is
/// remembered, this holds of every saved role.
pub proof fn a_save_keeps_the_records_of_open_windows(
    saved: Map<Seq<char>, PersistedWindowPlacement>,
    managed_roles: Seq<RoleKey>,
    source: ProjectionSource,
    retention: ManagedWindowPersistence,
    role: Seq<char>,
)
    requires
        saved.contains_key(role),
        retention == ManagedWindowPersistence::RememberAll || (is_managed(role, managed_roles) && !(
        source.projection(role) is AbsentBinding)),
    ensures
        projected_records(saved, managed_roles, source, retention).contains_key(role),
        !(source.projection(role) is WritableSerializedValue) ==> projected_records(
            saved,
            managed_roles,
            source,
            retention,
        )[role] == saved[role]@,
{
    let kept = kept_records(retention, saved, managed_roles);
    assert(kept.contains_key(role) && kept[role] == saved[role]);
    assert(placement_views(kept).contains_key(role));
    refused_role_keeps_its_record(
        placement_views(kept),
        seq![primary_role_name()] + names_of(managed_roles),
        source,
        retention,
        role,
    );
}

/// While records go with their windows, the record of a window that has closed is not written again.
pub proof fn a_closed_window_drops_out_of_the_file(
    saved: Map<Seq<char>, PersistedWindowPlacement>,
    managed_roles: Seq<RoleKey>,
    source: ProjectionSource,
    role: Seq<char>,
)
    requires
        !is_managed(role, managed_roles),
    ensures
        !projected_records(
            saved,
            managed_roles,
            source,
            ManagedWindowPersistence::ActiveOnly,
        ).contains_key(role),
{
    let kept = kept_records(ManagedWindowPersistence::ActiveOnly, saved, managed_roles);
    let roles = seq![primary_role_name()] + names_of(managed_roles);
    assert(!roles.contains(role)) by {
        if roles.contains(role) {
            let i = choose|i: int| 0 <= i < roles.len() && roles[i] == role;
            if i > 0 {
                assert(names_of(managed_roles)[i - 1] == role);
            }
        }
    }
    untouched_role_stays_absent(
        placement_views(kept),
        roles,
        source,
        ManagedWindowPersistence::ActiveOnly,
        role,
    );
}

proof fn untouched_role_stays_absent(
    projected: Map<Seq<char>, PersistedWindowPlacementView>,
    roles: Seq<Seq<char>>,
    source: ProjectionSource,
    retention: ManagedWindowPersistence,
    role: Seq<char>,
)
    requires
        !projected.contains_key(role),
        !roles.contains(role),
    ensures
        !with_projections(projected, roles, source, retention).contains_key(role),
    decreases roles.len(),
{
    if roles.len() > 0 {
        let rest = roles.drop_last();
        assert(!rest.contains(role)) by {
            if rest.contains(role) {
                let i = choose|i: int| 0 <= i < rest.len() && rest[i] == role;
                assert(roles[i] == role);
            }
        }
        assert(roles[roles.len() - 1] != role);
        untouched_role_stays_absent(projected, rest, source, retention, role);
    }
}

/// A save finds nothing to write only where nothing has changed: the same roles have records, and each
/// projected record has the target, the position, the width, the height, the mode, the application's
/// name and the policy of the saved one.
pub proof fn nothing_is_written_only_where_nothing_changed(
    saved: Map<Seq<char>, PersistedWindowPlacement>,
    projected: Map<Seq<char>, PersistedWindowPlacement>,
    role: Seq<char>,
)
    requires
        !records_differ(saved, projected),
        saved.contains_key(role),
    ensures
        saved.dom().len() == projected.dom().len(),
        projected.contains_key(role),
        projected[role].window_state.target@ == saved[role].window_state.target@,
        positions_agree(projected[role].window_state.position, saved[role].window_state.position),
        projected[role].window_state.logical_width == saved[role].window_state.logical_width,
        projected[role].window_state.logical_height == saved[role].window_state.logical_height,
        projected[role].window_state.saved_window_mode == saved[role].window_state.saved_window_mode,
        projected[role].window_state.app_name@ == saved[role].window_state.app_name@,
        projected[role].loaded_binding_policy == saved[role].loaded_binding_policy,
{
}

/// A record that differs from the saved one in any part, or a role more or less, is something to write.
pub proof fn every_change_is_written(
    saved: Map<Seq<char>, PersistedWindowPlacement>,
    projected: Map<Seq<char>, PersistedWindowPlacement>,
    role: Seq<char>,
)
    requires
        saved.contains_key(role),
        saved.dom().finite(),
        projected.dom().finite(),
    ensures
        !projected.contains_key(role) ==> records_differ(saved, projected),
        projected.contains_key(role) && {
            ||| projected[role].window_state.logical_width
                != saved[role].window_state.logical_width
            ||| projected[role].window_state.logical_height
                != saved[role].window_state.logical_height
            ||| projected[role].window_state.saved_window_mode
                != saved[role].window_state.saved_window_mode
            ||| projected[role].window_state.target@ != saved[role].window_state.target@
            ||| projected[role].window_state.app_name@ != saved[role].window_state.app_name@
            ||| projected[role].loaded_binding_policy != saved[role].loaded_binding_policy
            ||| !positions_agree(
                projected[role].window_state.position,
                saved[role].window_state.position,
            )
        } ==> records_differ(saved, projected),
        saved.dom().len() != projected.dom().len() ==> records_differ(saved, projected),
{
}

/// A save that finds nothing to write leaves the file right: where it returned no records although
/// something was observed to change, the record that each saved role would get is the one it has.
pub proof fn a_skipped_save_would_have_changed_nothing(
    saved: Map<Seq<char>, PersistedWindowPlacement>,
    managed_roles: Seq<RoleKey>,
    source: ProjectionSource,
    retention: ManagedWindowPersistence,
    records: Map<Seq<char>, PersistedWindowPlacement>,
    role: Seq<char>,
)
    requires
        placement_views(records) == projected_records(saved, managed_roles, source, retention),
        !records_differ(saved, records),
        saved.contains_key(role),
    ensures
        ({
            let projected = projected_records(saved, managed_roles, source, retention);
            &&& projected.contains_key(role)
            &&& projected[role].window_state.target == saved[role].window_state.target@
            &&& positions_agree(
                projected[role].window_state.position,
                saved[role].window_state.position,
            )
            &&& projected[role].window_state.logical_width
                == saved[role].window_state.logical_width
            &&& projected[role].window_state.logical_height
                == saved[role].window_state.logical_height
            &&& projected[role].window_state.saved_window_mode
                == saved[role].window_state.saved_window_mode
            &&& projected[role].window_state.app_name == saved[role].window_state.app_name@
            &&& projected[role].loaded_binding_policy == saved[role].loaded_binding_policy
        }),
{
    assert(placement_views(records).contains_key(role));
    assert(placement_views(records)[role] == records[role]@);
}

/// Whether a record says that a window is placed so on that display, under that policy.
pub open spec fn records_the_window(
    record: PersistedWindowPlacementView,
    placement: EstablishedWindowPlacement,
    device: DeviceKeyView,
    app_name: Seq<char>,
    policy: BindingPolicy,
) -> bool {
    &&& record.window_state.target == PersistedWindowTargetView::Classified(device)
    &&& record.window_state.logical_width == placement.logical_size.x
    &&& record.window_state.logical_height == placement.logical_size.y
    &&& record.window_state.saved_window_mode == placement.saved_window_mode
    &&& record.window_state.app_name == app_name
    &&& match placement.position {
        EstablishedWindowPosition::Restorable { logical_offset } => record.window_state.position
            == PersistedPosition::MonitorOffset(logical_offset),
        EstablishedWindowPosition::CompositorControlled =>
            record.window_state.position is Unpositioned,
    }
    &&& record.loaded_binding_policy == LoadedBindingPolicy::Saved(policy)
}

proof fn the_last_projection_of_a_role_counts(
    projected: Map<Seq<char>, PersistedWindowPlacementView>,
    roles: Seq<Seq<char>>,
    source: ProjectionSource,
    retention: ManagedWindowPersistence,
    role: Seq<char>,
    record: PersistedWindowPlacementView,
)
    requires
        roles.contains(role),
        source.projection(role) == ProjectionView::WritableSerializedValue(record),
    ensures
        with_projections(projected, roles, source, retention).contains_key(role),
        with_projections(projected, roles, source, retention)[role] == record,
    decreases roles.len(),
{
    let rest = roles.drop_last();
    if roles.last() != role {
        let i = choose|i: int| 0 <= i < roles.len() && roles[i] == role;
        assert(rest[i] == role);
        the_last_projection_of_a_role_counts(projected, rest, source, retention, role, record);
    }
}

/// A window that is established on a display that is not offline is recorded as it is: the save's
/// record for its role has the window's size, offset and mode, and the display, name and policy that
/// the window is bound with, whatever was saved before.
pub proof fn an_established_window_is_recorded_as_it_is(
    saved: Map<Seq<char>, PersistedWindowPlacement>,
    managed_roles: Seq<RoleKey>,
    source: ProjectionSource,
    retention: ManagedWindowPersistence,
    role: Seq<char>,
    placement: EstablishedWindowPlacement,
)
    requires
        is_managed(role, managed_roles),
        source.bindings@.contains_key(role),
        source.role_statuses@.contains_key(role),
        source.role_statuses@[role] == RoleStatus::Established,
        source.inventory.mode_of(source.bindings@[role].device@) != Some(
            ConfiguredDeviceMode::Offline,
        ),
        source.bindings@[role].last_known_good == LastKnownGoodConfiguration::Window(placement),
    ensures
        ({
            let projected = projected_records(saved, managed_roles, source, retention);
            &&& projected.contains_key(role)
            &&& records_the_window(
                projected[role],
                placement,
                source.bindings@[role].device@,
                source.app_name@,
                source.bindings@[role].policy,
            )
        }),
{
    let roles = seq![primary_role_name()] + names_of(managed_roles);
    if role == primary_role_name() {
        assert(roles[0] == role);
    } else {
        let i = choose|i: int|
            0 <= i < names_of(managed_roles).len() && names_of(managed_roles)[i] == role;
        assert(roles[i + 1] == role);
    }
    let record = source.projection(role)->WritableSerializedValue_0;
    the_last_projection_of_a_role_counts(
        placement_views(kept_records(retention, saved, managed_roles)),
        roles,
        source,
        retention,
        role,
        record,
    );
}

/// Only a role that is bound and established, on a display that is not offline, with a known window
/// configuration, supplies a fresh record.
pub proof fn only_an_established_window_supplies_a_record(
    source: ProjectionSource,
    role: Seq<char>,
)
    requires
        source.projection(role) is WritableSerializedValue,
    ensures
        source.bindings@.contains_key(role),
        source.role_statuses@.contains_key(role),
        source.role_statuses@[role] == RoleStatus::Established,
        source.inventory.mode_of(source.bindings@[role].device@) != Some(
            ConfiguredDeviceMode::Offline,
        ),
        source.bindings@[role].last_known_good is Window,
{
}

/// A role whose binding is absent is the only one that is reported so.
pub proof fn a_refusal_says_what_is_missing(source: ProjectionSource, role: Seq<char>)
    ensures
        source.projection(role) is AbsentBinding <==> !source.bindings@.contains_key(role),
        source.projection(role) is NonReadyRole <==> source.bindings@.contains_key(role) && !(
        source.role_statuses@.contains_key(role) && source.role_statuses@[role]
            == RoleStatus::Established),
{
}

/// A save makes no record up: every record that it projects was saved before or is that of a window
/// whose projection supplied it.
pub proof fn a_save_makes_no_record_up(
    saved: Map<Seq<char>, PersistedWindowPlacement>,
    managed_roles: Seq<RoleKey>,
    source: ProjectionSource,
    retention: ManagedWindowPersistence,
    role: Seq<char>,
)
    requires
        projected_records(saved, managed_roles, source, retention).contains_key(role),
    ensures
        ({
            let record = projected_records(saved, managed_roles, source, retention)[role];
            ||| saved.contains_key(role) && record == saved[role]@
            ||| source.projection(role) == ProjectionView::WritableSerializedValue(record)
        }),
{
    let kept = kept_records(retention, saved, managed_roles);
    records_come_from_somewhere(
        placement_views(kept),
        seq![primary_role_name()] + names_of(managed_roles),
        source,
        retention,
        role,
    );
}

proof fn records_come_from_somewhere(
    projected: Map<Seq<char>, PersistedWindowPlacementView>,
    roles: Seq<Seq<char>>,
    source: ProjectionSource,
    retention: ManagedWindowPersistence,
    role: Seq<char>,
)
    requires
        with_projections(projected, roles, source, retention).contains_key(role),
    ensures
        ({
            let record = with_projections(projected, roles, source, retention)[role];
            ||| projected.contains_key(role) && record == projected[role]
            ||| source.projection(role) == ProjectionView::WritableSerializedValue(record)
        }),
    decreases roles.len(),
{
    if roles.len() > 0 {
        let rest = with_projections(projected, roles.drop_last(), source, retention);
        if rest.contains_key(role) {
            records_come_from_somewhere(projected, roles.drop_last(), source, retention, role);
        }
    }
}

} // verus!
