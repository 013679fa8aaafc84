//! The saved placements that this process holds.

use super::format::{
    a_key_anchors_a_window_if_it_names_a_known_display, anchors_windows, migrated_target, resolve_legacy_target, state_views, PersistedWindowIdentityMigrationOutcome,
};
use super::window_state::{
    a_saved_fingerprint_keeps_its_digest, live_identity, BindingPolicy, LoadedBindingPolicy, PersistedDisplayIdentityV4,
    PersistedWindowPlacement, PersistedWindowPlacementLookup, PersistedWindowPlacementView,
    PersistedWindowState, PersistedWindowStateView, PersistedWindowTargetV5,
    PersistedWindowTargetView,
};
use crate::device::{DeviceKey, DeviceKeyView, RegisteredSchemes, RoleKey};
use crate::monitors::identity::DisplayIdentity;
use crate::monitors::live_display_endpoint::{
    a_display_answers_to_its_own_evidence, answers_to, matching_keys,
    the_only_match_is_the_only_key, LiveDisplayEndpoint, LiveDisplayEndpointLookup, LiveDisplayEvidence,
};
use crate::role_map::RoleMap;
use vstd::prelude::*;

verus! {

/// Whether the state file has been read.
#[derive(Clone, Copy, Debug, PartialEq, Eq, Structural)]
pub enum StartupLoadStatus {
    Pending,
    Read,
}

/// Whether the placements this process holds still owe the file a write.
#[derive(Clone, Copy, Debug, PartialEq, Eq, Structural)]
pub enum PendingWrite {
    Settled,
    Owed,
}

/// Roles that have had saved window configuration during this process. It only grows: a record that
/// is dropped from the file does not mean that the role was never saved.
#[derive(Debug)]
struct RolesWithSavedConfiguration {
    roles: Vec<RoleKey>,
}

/// The spellings of some roles.
spec fn role_names(roles: Seq<RoleKey>) -> Set<Seq<char>> {
    Set::new(|name: Seq<char>| exists|i: int| 0 <= i < roles.len() && #[trigger] roles[i]@ == name)
}

impl RolesWithSavedConfiguration {
    fn contains(&self, role: &RoleKey) -> (result: bool)
        ensures
            result == role_names(self.roles@).contains(role@),
    {
        let mut index: usize = 0;
        while index < self.roles.len()
            invariant
                index <= self.roles@.len(),
                forall|i: int| 0 <= i < index ==> #[trigger] self.roles@[i]@ != role@,
            decreases self.roles@.len() - index,
        {
            if self.roles[index] == *role {
                return true;
            }
            index += 1;
        }
        false
    }

    fn record_serialized_roles(&mut self, states: &RoleMap<PersistedWindowPlacement>)
        requires
            states.wf(),
        ensures
            role_names(final(self).roles@) == role_names(old(self).roles@).union(states@.dom()),
    {
        let count: usize = states.len();
        let ghost before = self.roles@;
        let ghost listed = states.roles();
        proof {
            states.roles_list_the_domain();
        }
        let mut index: usize = 0;
        while index < count
            invariant
                states.wf(),
                listed == states.roles(),
                index <= count == listed.len(),
                self.roles@.len() == before.len() + index,
                forall|i: int| 0 <= i < before.len() ==> #[trigger] self.roles@[i] == before[i],
                forall|i: int|
                    before.len() <= i < self.roles@.len() ==> (#[trigger] self.roles@[i])@
                        == listed[i - before.len()],
            decreases count - index,
        {
            self.roles.push(states.role_at(index).clone());
            index += 1;
        }
        proof {
            let after = self.roles@;
            assert forall|name: Seq<char>| role_names(after).contains(name) == (role_names(
                before,
            ).contains(name) || states@.contains_key(name)) by {
                if role_names(after).contains(name) {
                    let i = choose|i: int| 0 <= i < after.len() && #[trigger] after[i]@ == name;
                    if i < before.len() {
                        assert(before[i]@ == name);
                    } else {
                        assert(listed[i - before.len()] == name);
                    }
                }
                if role_names(before).contains(name) {
                    let i = choose|i: int| 0 <= i < before.len() && #[trigger] before[i]@ == name;
                    assert(after[i]@ == name);
                }
                if states@.contains_key(name) {
                    assert(listed.contains(name));
                    let i = choose|i: int| 0 <= i < listed.len() && listed[i] == name;
                    assert(after[i + before.len()]@ == name);
                }
            }
            assert(role_names(after) =~= role_names(before).union(states@.dom()));
        }
    }
}

/// The placements read from the file or last written to it, and which roles ever had one.
///
/// This is an adapter cache. Once a window is bound, the binding's last known good configuration is
/// the authority.
#[derive(Debug)]
pub struct PersistedWindowPlacements {
    states: RoleMap<PersistedWindowPlacement>,
    roles_with_saved_configuration: RolesWithSavedConfiguration,
    startup_load_status: StartupLoadStatus,
    pending_write: PendingWrite,
}

/// The one live key that answers to an old identity.
pub open spec fn live_key_for(
    identity: PersistedDisplayIdentityV4,
    live: Seq<(DeviceKey, LiveDisplayEndpoint)>,
) -> Option<DeviceKeyView> {
    let keys = matching_keys(live, LiveDisplayEvidence::LegacyIdentity(live_identity(identity)));
    if keys.len() == 1 {
        Some(keys[0])
    } else {
        None
    }
}

/// The target that a saved one becomes while these displays are live; `None` where it is rejected.
pub open spec fn resolved_target(
    target: PersistedWindowTargetView,
    live: Seq<(DeviceKey, LiveDisplayEndpoint)>,
    schemes: Set<Seq<char>>,
) -> Option<PersistedWindowTargetView> {
    match target {
        PersistedWindowTargetView::Classified(_) => Some(target),
        PersistedWindowTargetView::AwaitingLegacyEvidence(identity) => migrated_target(
            identity,
            live_key_for(identity, live),
            schemes,
        ),
    }
}

/// A placement with another target.
pub open spec fn with_target(
    placement: PersistedWindowPlacementView,
    target: PersistedWindowTargetView,
) -> PersistedWindowPlacementView {
    PersistedWindowPlacementView {
        window_state: PersistedWindowStateView { target, ..placement.window_state },
        ..placement
    }
}

/// The contents of some placements.
pub open spec fn placement_views(states: Map<Seq<char>, PersistedWindowPlacement>) -> Map<
    Seq<char>,
    PersistedWindowPlacementView,
> {
    states.map_values(|placement: PersistedWindowPlacement| placement@)
}

/// What placements become while these displays are live: a rejected target takes only its own
/// record away.
pub open spec fn resolved_placements(
    states: Map<Seq<char>, PersistedWindowPlacement>,
    live: Seq<(DeviceKey, LiveDisplayEndpoint)>,
    schemes: Set<Seq<char>>,
) -> Map<Seq<char>, PersistedWindowPlacementView> {
    Map::new(
        |role: Seq<char>|
            states.contains_key(role) && resolved_target(
                states[role]@.window_state.target,
                live,
                schemes,
            ) is Some,
        |role: Seq<char>|
            with_target(
                states[role]@,
                resolved_target(states[role]@.window_state.target, live, schemes)->0,
            ),
    )
}

/// Whether the target of some placement changes or is rejected while these displays are live.
pub open spec fn some_target_resolves(
    states: Map<Seq<char>, PersistedWindowPlacement>,
    live: Seq<(DeviceKey, LiveDisplayEndpoint)>,
    schemes: Set<Seq<char>>,
) -> bool {
    exists|role: Seq<char>| #[trigger]
        states.contains_key(role) && resolved_target(
            states[role]@.window_state.target,
            live,
            schemes,
        ) != Some(states[role]@.window_state.target)
}

impl PersistedWindowPlacements {
    /// The saved placements.
    pub closed spec fn saved(&self) -> Map<Seq<char>, PersistedWindowPlacement> {
        self.states@
    }

    /// The roles that have had a saved placement during this process.
    pub closed spec fn ever_saved(&self) -> Set<Seq<char>> {
        role_names(self.roles_with_saved_configuration.roles@)
    }

    /// Whether the file has been read.
    pub closed spec fn load_status(&self) -> StartupLoadStatus {
        self.startup_load_status
    }

    /// Whether the file is owed a write.
    pub closed spec fn write_status(&self) -> PendingWrite {
        self.pending_write
    }

    /// Every role with a saved placement is known to have had one.
    pub closed spec fn wf(&self) -> bool {
        &&& self.states.wf()
        &&& self.saved().dom().subset_of(self.ever_saved())
    }

    /// Every role with a saved placement is known to have had one.
    pub proof fn saved_roles_are_remembered(&self)
        requires
            self.wf(),
        ensures
            self.saved().dom().subset_of(self.ever_saved()),
    {
    }

    /// Nothing saved, and the file not yet read.
    pub fn new() -> (result: Self)
        ensures
            result.wf(),
            result.saved() == Map::<Seq<char>, PersistedWindowPlacement>::empty(),
            result.ever_saved() == Set::<Seq<char>>::empty(),
            result.load_status() == StartupLoadStatus::Pending,
            result.write_status() == PendingWrite::Settled,
    {
        let result = PersistedWindowPlacements {
            states: RoleMap::new(),
            roles_with_saved_configuration: RolesWithSavedConfiguration { roles: Vec::new() },
            startup_load_status: StartupLoadStatus::Pending,
            pending_write: PendingWrite::Settled,
        };
        assert(result.ever_saved() =~= Set::<Seq<char>>::empty());
        result
    }

    /// Take over what the file holds. Only the first time counts.
    pub fn seed(&mut self, states: RoleMap<PersistedWindowPlacement>)
        requires
            old(self).wf(),
            states.wf(),
        ensures
            final(self).wf(),
            final(self).load_status() == StartupLoadStatus::Read,
            old(self).load_status() == StartupLoadStatus::Read ==> *final(self) == *old(self),
            old(self).load_status() == StartupLoadStatus::Pending ==> {
                &&& final(self).saved() == states@
                &&& final(self).ever_saved() == states@.dom()
                &&& final(self).write_status() == PendingWrite::Settled
            },
    {
        if self.startup_load_status == StartupLoadStatus::Read {
            return;
        }
        let mut roles = RolesWithSavedConfiguration { roles: Vec::new() };
        roles.record_serialized_roles(&states);
        assert(role_names(Seq::empty()).union(states@.dom()) =~= states@.dom());
        self.roles_with_saved_configuration = roles;
        self.states = states;
        self.startup_load_status = StartupLoadStatus::Read;
        self.pending_write = PendingWrite::Settled;
    }

    /// Whether the file has been read.
    pub fn startup_load_status(&self) -> (result: StartupLoadStatus)
        ensures
            result == self.load_status(),
    {
        self.startup_load_status
    }

    /// The saved placement of `role`.
    pub fn get(&self, role: &RoleKey) -> (result: PersistedWindowPlacementLookup<'_>)
        requires
            self.wf(),
        ensures
            match result {
                PersistedWindowPlacementLookup::Saved(placement) => self.saved().contains_key(role@)
                    && *placement == self.saved()[role@],
                PersistedWindowPlacementLookup::NotSaved => !self.saved().contains_key(role@),
            },
    {
        match self.states.get(role) {
            Some(placement) => PersistedWindowPlacementLookup::Saved(placement),
            None => PersistedWindowPlacementLookup::NotSaved,
        }
    }

    /// Whether this process has loaded or written a saved configuration for `role`.
    pub fn has_saved_configuration(&self, role: &RoleKey) -> (result: bool)
        ensures
            result == self.ever_saved().contains(role@),
    {
        self.roles_with_saved_configuration.contains(role)
    }

    /// Take over what has been written to the file. No role is forgotten.
    pub fn replace_serialized(&mut self, states: RoleMap<PersistedWindowPlacement>)
        requires
            old(self).wf(),
            states.wf(),
        ensures
            final(self).wf(),
            final(self).saved() == states@,
            final(self).ever_saved() == old(self).ever_saved().union(states@.dom()),
            final(self).load_status() == old(self).load_status(),
            final(self).write_status() == old(self).write_status(),
    {
        self.roles_with_saved_configuration.record_serialized_roles(&states);
        self.states = states;
    }

    /// Whether the file is owed a write.
    pub fn pending_write(&self) -> (result: PendingWrite)
        ensures
            result == self.write_status(),
    {
        self.pending_write
    }

    /// The file is up to date.
    pub fn mark_written(&mut self)
        requires
            old(self).wf(),
        ensures
            final(self).wf(),
            final(self).saved() == old(self).saved(),
            final(self).ever_saved() == old(self).ever_saved(),
            final(self).load_status() == old(self).load_status(),
            final(self).write_status() == PendingWrite::Settled,
    {
        self.pending_write = PendingWrite::Settled;
    }

    /// Record the policy that a saved window turned out to have, which the file has yet to learn.
    pub fn resolve_loaded_policy(&mut self, role: &RoleKey, binding_policy: BindingPolicy)
        requires
            old(self).wf(),
        ensures
            final(self).wf(),
            final(self).ever_saved() == old(self).ever_saved(),
            final(self).load_status() == old(self).load_status(),
            !old(self).saved().contains_key(role@) ==> *final(self) == *old(self),
            old(self).saved().contains_key(role@) ==> {
                &&& final(self).saved() == old(self).saved().insert(
                    role@,
                    (PersistedWindowPlacement {
                        window_state: old(self).saved()[role@].window_state,
                        loaded_binding_policy: LoadedBindingPolicy::Saved(binding_policy),
                    }),
                )
                &&& final(self).write_status() == PendingWrite::Owed
            },
    {
        let placement = match self.states.get(role) {
            Some(placement) => PersistedWindowPlacement {
                window_state: placement.window_state.clone(),
                loaded_binding_policy: LoadedBindingPolicy::Saved(binding_policy),
            },
            None => {
                return;
            },
        };
        self.states.insert(role.clone(), placement);
        self.pending_write = PendingWrite::Owed;
    }

    /// Adopt reporter keys for retained evidence after an exact live display appears.
    ///
    /// A rejected fresh key removes only the affected record. Every other saved role stays available
    /// for its own later match or normal save.
    pub fn resolve_pending(
        &mut self,
        live_displays: &LiveDisplayEndpointLookup,
        registered_schemes: &RegisteredSchemes,
    )
        requires
            old(self).wf(),
        ensures
            final(self).wf(),
            placement_views(final(self).saved()) == resolved_placements(
                old(self).saved(),
                live_displays@,
                registered_schemes@,
            ),
            final(self).ever_saved() == old(self).ever_saved(),
            final(self).load_status() == old(self).load_status(),
            final(self).write_status() == if some_target_resolves(
                old(self).saved(),
                live_displays@,
                registered_schemes@,
            ) {
                PendingWrite::Owed
            } else {
                old(self).write_status()
            },
    {
        let ghost saved = self.states@;
        let ghost live = live_displays@;
        let ghost schemes = registered_schemes@;
        let ghost roles = self.states.roles();
        proof {
            self.states.roles_list_the_domain();
        }
        let count: usize = self.states.len();
        let mut resolved: RoleMap<PersistedWindowPlacement> = RoleMap::new();
        let mut pending_write = self.pending_write;
        let mut index: usize = 0;
        while index < count
            invariant
                self.states.wf(),
                saved == self.states@,
                roles == self.states.roles(),
                index <= count == roles.len(),
                roles.no_duplicates(),
                live == live_displays@,
                schemes == registered_schemes@,
                resolved.wf(),
                forall|role: Seq<char>| #[trigger]
                    resolved@.contains_key(role) <==> roles.take(index as int).contains(role)
                        && resolved_target(saved[role]@.window_state.target, live, schemes) is Some,
                forall|role: Seq<char>| #[trigger]
                    resolved@.contains_key(role) ==> resolved@[role]@ == with_target(
                        saved[role]@,
                        resolved_target(saved[role]@.window_state.target, live, schemes)->0,
                    ),
                forall|place: int|
                    0 <= place < roles.len() ==> saved.contains_key(#[trigger] roles[place]),
                pending_write == if exists|place: int|
                    0 <= place < index && resolved_target(
                        saved[#[trigger] roles[place]]@.window_state.target,
                        live,
                        schemes,
                    ) != Some(saved[roles[place]]@.window_state.target) {
                    PendingWrite::Owed
                } else {
                    self.pending_write
                },
            decreases count - index,
        {
            let role = self.states.role_at(index);
            let placement = self.states.value_at(index);
            let ghost key = role@;
            let ghost before = resolved@;
            let ghost earlier = pending_write;
            assert(roles.take(index + 1) =~= roles.take(index as int).push(key));
            assert forall|other: Seq<char>| roles.take(index + 1).contains(other) == (roles.take(
                index as int,
            ).contains(other) || other == key) by {
                if roles.take(index as int).contains(other) {
                    let i = choose|i: int|
                        0 <= i < index && roles.take(index as int)[i] == other;
                    assert(roles.take(index + 1)[i] == other);
                }
                if other == key {
                    assert(roles.take(index + 1)[index as int] == other);
                }
            }
            assert(!roles.take(index as int).contains(key)) by {
                if roles.take(index as int).contains(key) {
                    let i = choose|i: int| 0 <= i < index && roles.take(index as int)[i] == key;
                    assert(roles[i] == roles[index as int]);
                }
            }
            let ghost outcome = resolved_target(
                saved[key]@.window_state.target,
                live,
                schemes,
            );
            match &placement.window_state.target {
                PersistedWindowTargetV5::Classified(_) => {
                    resolved.insert(role.clone(), placement.clone());
                },
                PersistedWindowTargetV5::AwaitingLegacyEvidence(identity) => {
                    let live_key = match live_displays.key_for_legacy_identity(
                        DisplayIdentity::from(*identity),
                    ) {
                        Ok(device_key) => Some(device_key),
                        Err(_) => None,
                    };
                    match resolve_legacy_target(*identity, live_key, registered_schemes) {
                        PersistedWindowIdentityMigrationOutcome::Resolved(device_key) => {
                            let mut adopted = placement.clone();
                            adopted.window_state.target = PersistedWindowTargetV5::Classified(
                                device_key,
                            );
                            resolved.insert(role.clone(), adopted);
                            pending_write = PendingWrite::Owed;
                        },
                        PersistedWindowIdentityMigrationOutcome::AwaitingLiveEvidence(_) => {
                            resolved.insert(role.clone(), placement.clone());
                        },
                        PersistedWindowIdentityMigrationOutcome::Rejected(_) => {
                            pending_write = PendingWrite::Owed;
                        },
                    }
                },
            }
            proof {
                let changed = outcome != Some(saved[key]@.window_state.target);
                if changed {
                    assert(saved[roles[index as int]] == saved[key]);
                }
                assert((exists|place: int|
                    0 <= place < index + 1 && resolved_target(
                        saved[#[trigger] roles[place]]@.window_state.target,
                        live,
                        schemes,
                    ) != Some(saved[roles[place]]@.window_state.target)) == ((exists|place: int|
                    0 <= place < index && resolved_target(
                        saved[#[trigger] roles[place]]@.window_state.target,
                        live,
                        schemes,
                    ) != Some(saved[roles[place]]@.window_state.target)) || changed)) by {
                    if exists|place: int|
                        0 <= place < index && resolved_target(
                            saved[#[trigger] roles[place]]@.window_state.target,
                            live,
                            schemes,
                        ) != Some(saved[roles[place]]@.window_state.target) {
                        let place = choose|place: int|
                            0 <= place < index && resolved_target(
                                saved[#[trigger] roles[place]]@.window_state.target,
                                live,
                                schemes,
                            ) != Some(saved[roles[place]]@.window_state.target);
                        assert(0 <= place < index + 1);
                    }
                }
            }
            index += 1;
        }
        proof {
            assert(roles.take(index as int) =~= roles);
            assert(placement_views(resolved@) =~= resolved_placements(saved, live, schemes));
            if some_target_resolves(saved, live, schemes) {
                let role = choose|role: Seq<char>| #[trigger]
                    saved.contains_key(role) && resolved_target(
                        saved[role]@.window_state.target,
                        live,
                        schemes,
                    ) != Some(saved[role]@.window_state.target);
                assert(roles.contains(role));
                let place = choose|place: int| 0 <= place < roles.len() && roles[place] == role;
                assert(saved[roles[place]] == saved[role]);
            }
            assert forall|role: Seq<char>| resolved@.contains_key(role) implies saved.contains_key(
                role,
            ) by {}
        }
        self.states = resolved;
        self.pending_write = pending_write;
    }

    /// The saved placements.
    pub fn states(&self) -> (result: &RoleMap<PersistedWindowPlacement>)
        requires
            self.wf(),
        ensures
            result.wf(),
            result@ == self.saved(),
    {
        &self.states
    }
}

/// The placements that decoded states stand for: none of them brings a policy along.
pub fn placements_of_states(states: &RoleMap<PersistedWindowState>) -> (result: RoleMap<
    PersistedWindowPlacement,
>)
    requires
        states.wf(),
    ensures
        result.wf(),
        result@ == states@.map_values(
            |state: PersistedWindowState|
                PersistedWindowPlacement {
                    window_state: state,
                    loaded_binding_policy: LoadedBindingPolicy::LegacyWindowMarkers,
                },
        ),
{
    let ghost roles = states.roles();
    proof {
        states.roles_list_the_domain();
    }
    let ghost of_state = |state: PersistedWindowState|
        PersistedWindowPlacement {
            window_state: state,
            loaded_binding_policy: LoadedBindingPolicy::LegacyWindowMarkers,
        };
    let count: usize = states.len();
    let mut result: RoleMap<PersistedWindowPlacement> = RoleMap::new();
    let mut index: usize = 0;
    while index < count
        invariant
            states.wf(),
            roles == states.roles(),
            index <= count == roles.len(),
            roles.no_duplicates(),
            of_state == (|state: PersistedWindowState|
                PersistedWindowPlacement {
                    window_state: state,
                    loaded_binding_policy: LoadedBindingPolicy::LegacyWindowMarkers,
                }),
            result.wf(),
            forall|role: Seq<char>| #[trigger]
                result@.contains_key(role) <==> roles.take(index as int).contains(role),
            forall|role: Seq<char>| #[trigger]
                result@.contains_key(role) ==> result@[role] == of_state(states@[role]),
        decreases count - index,
    {
        let role = states.role_at(index);
        let ghost key = role@;
        assert(roles.take(index + 1) =~= roles.take(index as int).push(key));
        assert forall|other: Seq<char>| roles.take(index + 1).contains(other) == (roles.take(
            index as int,
        ).contains(other) || other == key) by {
            if roles.take(index as int).contains(other) {
                let i = choose|i: int| 0 <= i < index && roles.take(index as int)[i] == other;
                assert(roles.take(index + 1)[i] == other);
            }
            if other == key {
                assert(roles.take(index + 1)[index as int] == other);
            }
        }
        let ghost before = result@;
        result.insert(role.clone(), PersistedWindowPlacement::from(states.value_at(index).clone()));
        assert forall|other: Seq<char>| #[trigger]
            result@.contains_key(other) <==> roles.take(index + 1).contains(other) by {
            assert(before.contains_key(other) <==> roles.take(index as int).contains(other));
        }
        index += 1;
    }
    assert(roles.take(index as int) =~= roles);
    assert(result@ =~= states@.map_values(of_state));
    result
}

/// A target that is already classified is never touched by later evidence, so resolving twice with
/// the same live displays changes nothing more.
pub proof fn resolving_targets_is_stable(
    target: PersistedWindowTargetView,
    live: Seq<(DeviceKey, LiveDisplayEndpoint)>,
    schemes: Set<Seq<char>>,
)
    ensures
        target is Classified ==> resolved_target(target, live, schemes) == Some(target),
        resolved_target(target, live, schemes) matches Some(resolved) ==> resolved_target(
            resolved,
            live,
            schemes,
        ) == Some(resolved),
{
}

/// A target without durable evidence is never given a display, whichever displays are live.
pub proof fn anonymous_targets_keep_waiting(
    live: Seq<(DeviceKey, LiveDisplayEndpoint)>,
    schemes: Set<Seq<char>>,
)
    ensures
        resolved_target(
            PersistedWindowTargetView::AwaitingLegacyEvidence(
                PersistedDisplayIdentityV4::Anonymous,
            ),
            live,
            schemes,
        ) == Some(
            PersistedWindowTargetView::AwaitingLegacyEvidence(
                PersistedDisplayIdentityV4::Anonymous,
            ),
        ),
{
    crate::monitors::live_display_endpoint::anonymous_identity_matches_nothing(live);
}

/// Resolving changes targets and nothing else: a record that stays keeps its position, its size, its
/// mode, its application's name and its policy, and no record appears. A classified record always
/// stays as it is.
pub proof fn resolving_changes_targets_alone(
    states: Map<Seq<char>, PersistedWindowPlacement>,
    live: Seq<(DeviceKey, LiveDisplayEndpoint)>,
    schemes: Set<Seq<char>>,
    role: Seq<char>,
)
    ensures
        ({
            let resolved = resolved_placements(states, live, schemes);
            let before = states[role];
            let after = resolved[role];
            &&& resolved.contains_key(role) ==> {
                &&& states.contains_key(role)
                &&& after.window_state.position == before.window_state.position
                &&& after.window_state.logical_width == before.window_state.logical_width
                &&& after.window_state.logical_height == before.window_state.logical_height
                &&& after.window_state.saved_window_mode == before.window_state.saved_window_mode
                &&& after.window_state.app_name == before.window_state.app_name@
                &&& after.loaded_binding_policy == before.loaded_binding_policy
            }
            &&& states.contains_key(role) && before.window_state.target@ is Classified ==> {
                &&& resolved.contains_key(role)
                &&& after.window_state.target == before.window_state.target@
            }
        }),
{
}

/// A record that waits becomes the one live display's whose identity it has, if that display's key can
/// anchor a window, and is dropped if it cannot; while no display or several have that identity, it
/// keeps waiting for the same one.
pub proof fn a_waiting_record_gets_the_one_display_it_waits_for(
    states: Map<Seq<char>, PersistedWindowPlacement>,
    live: Seq<(DeviceKey, LiveDisplayEndpoint)>,
    schemes: Set<Seq<char>>,
    role: Seq<char>,
    identity: PersistedDisplayIdentityV4,
    i: int,
    j: int,
)
    requires
        states.contains_key(role),
        states[role].window_state.target@ == PersistedWindowTargetView::AwaitingLegacyEvidence(
            identity,
        ),
    ensures
        ({
            let resolved = resolved_placements(states, live, schemes);
            &&& 0 <= i < live.len() && has_identity(live[i].1, identity) && (forall|other: int|
                0 <= other < live.len() && has_identity((#[trigger] live[other]).1, identity)
                    ==> other == i) ==> if anchors_windows(live[i].0@, schemes) {
                resolved.contains_key(role) && resolved[role].window_state.target
                    == PersistedWindowTargetView::Classified(live[i].0@)
            } else {
                !resolved.contains_key(role)
            }
            &&& (forall|other: int|
                0 <= other < live.len() ==> !has_identity((#[trigger] live[other]).1, identity)) || (
            0 <= i < j < live.len() && has_identity(live[i].1, identity) && has_identity(
                live[j].1,
                identity,
            )) ==> resolved.contains_key(role) && resolved[role].window_state.target
                == states[role].window_state.target@
        }),
{
    let wanted = LiveDisplayEvidence::LegacyIdentity(live_identity(identity));
    let keys = matching_keys(live, wanted);
    a_saved_fingerprint_keeps_its_digest(identity);
    assert forall|other: int| 0 <= other < live.len() implies has_identity(
        (#[trigger] live[other]).1,
        identity,
    ) == answers_to(live[other].1, wanted) by {
        a_display_answers_to_its_own_evidence(
            live[other].1,
            live[other].1.descriptor,
            live_identity(identity),
        );
    }
    the_only_match_is_the_only_key(live, wanted, i, j);
    if forall|other: int|
        0 <= other < live.len() ==> !has_identity((#[trigger] live[other]).1, identity) {
        assert forall|other: int| 0 <= other < live.len() implies !answers_to(
            (#[trigger] live[other]).1,
            wanted,
        ) by {
            assert(!has_identity(live[other].1, identity));
        }
    }
    if 0 <= i < live.len() && has_identity(live[i].1, identity) && (forall|other: int|
        0 <= other < live.len() && has_identity((#[trigger] live[other]).1, identity) ==> other
            == i) {
        assert forall|other: int| 0 <= other < live.len() && answers_to(
            (#[trigger] live[other]).1,
            wanted,
        ) implies other == i by {
            assert(has_identity(live[other].1, identity));
        }
        assert(keys == seq![live[i].0@]);
        assert(keys[0] == live[i].0@);
        a_key_anchors_a_window_if_it_names_a_known_display(live[i].0@, schemes);
    }
}

/// Whether a live display has a saved identity: both have fingerprints, and the same digest.
pub open spec fn has_identity(
    endpoint: LiveDisplayEndpoint,
    identity: PersistedDisplayIdentityV4,
) -> bool {
    match (identity, endpoint.legacy_identity) {
        (
            PersistedDisplayIdentityV4::Fingerprinted(saved),
            DisplayIdentity::Fingerprinted(found),
        ) => saved.0 == found@,
        _ => false,
    }
}

/// The file is owed a write exactly where resolving drops a record or gives one another target.
pub proof fn a_write_is_owed_where_a_record_changes(
    states: Map<Seq<char>, PersistedWindowPlacement>,
    live: Seq<(DeviceKey, LiveDisplayEndpoint)>,
    schemes: Set<Seq<char>>,
)
    ensures
        some_target_resolves(states, live, schemes) <==> resolved_placements(states, live, schemes)
            != placement_views(states),
{
    let resolved = resolved_placements(states, live, schemes);
    let before = placement_views(states);
    if some_target_resolves(states, live, schemes) {
        let role = choose|role: Seq<char>| #[trigger]
            states.contains_key(role) && resolved_target(
                states[role]@.window_state.target,
                live,
                schemes,
            ) != Some(states[role]@.window_state.target);
        assert(before.contains_key(role));
        if resolved.contains_key(role) {
            assert(resolved[role].window_state.target != before[role].window_state.target);
        }
    } else {
        assert forall|role: Seq<char>| #[trigger] states.contains_key(role) implies {
            &&& resolved.contains_key(role)
            &&& resolved[role] == before[role]
        } by {
            assert(resolved_target(states[role]@.window_state.target, live, schemes) == Some(
                states[role]@.window_state.target,
            ));
        }
        assert(resolved =~= before);
    }
}

} // verus!
