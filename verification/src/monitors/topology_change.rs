//! How one installed topology follows another.

use super::identity::DisplayIdentity;
use super::topology::{
    indices_are_their_positions, same_installation, DisplayDeviceEvidence, InstalledMonitor, MonitorDescriptor,
    MonitorTopologyRevision, Monitors,
};
use crate::scale::encodings_equal;
use crate::sequences::{filter_contains, filter_of_longer_prefix};
use vstd::prelude::*;

verus! {

/// Whether a monitor of this entity is installed.
pub open spec fn has_entity(monitors: Seq<InstalledMonitor>, entity: u64) -> bool {
    exists|i: int| 0 <= i < monitors.len() && (#[trigger] monitors[i]).entity == entity
}

/// The first installed monitor of this entity.
pub open spec fn first_of_entity(monitors: Seq<InstalledMonitor>, entity: u64) -> Option<
    InstalledMonitor,
>
    decreases monitors.len(),
{
    if monitors.len() == 0 {
        None
    } else if monitors[0].entity == entity {
        Some(monitors[0])
    } else {
        first_of_entity(monitors.drop_first(), entity)
    }
}

/// Whether some installed monitor of the same entity had other evidence or another identity.
pub open spec fn had_other_evidence(
    previous: Seq<InstalledMonitor>,
    monitor: InstalledMonitor,
) -> bool {
    exists|i: int|
        0 <= i < previous.len() && (#[trigger] previous[i]).entity == monitor.entity && (
        previous[i].device_evidence@ != monitor.device_evidence@ || previous[i].legacy_identity
            != monitor.legacy_identity)
}

/// Monitors that came, went, or changed their evidence.
#[derive(Debug)]
pub struct MonitorChanges {
    pub connected: Vec<InstalledMonitor>,
    pub disconnected: Vec<InstalledMonitor>,
    pub evidence_changed: Vec<InstalledMonitor>,
}

/// The monitors of `monitors` whose entity is not in `others`.
pub open spec fn without_entities_of(
    monitors: Seq<InstalledMonitor>,
    others: Seq<InstalledMonitor>,
) -> Seq<InstalledMonitor> {
    monitors.filter(|monitor: InstalledMonitor| !has_entity(others, monitor.entity))
}

/// The monitors of `rebuilt` whose entity stays while its evidence or identity changes.
pub open spec fn with_other_evidence(
    rebuilt: Seq<InstalledMonitor>,
    previous: Seq<InstalledMonitor>,
) -> Seq<InstalledMonitor> {
    rebuilt.filter(|monitor: InstalledMonitor| had_other_evidence(previous, monitor))
}

fn contains_entity(monitors: &Vec<InstalledMonitor>, entity: u64) -> (result: bool)
    ensures
        result == has_entity(monitors@, entity),
{
    let mut index: usize = 0;
    while index < monitors.len()
        invariant
            index <= monitors@.len(),
            forall|i: int| 0 <= i < index ==> (#[trigger] monitors@[i]).entity != entity,
        decreases monitors@.len() - index,
    {
        if monitors[index].entity == entity {
            return true;
        }
        index += 1;
    }
    false
}

fn evidence_differs(previous: &Vec<InstalledMonitor>, monitor: &InstalledMonitor) -> (result: bool)
    ensures
        result == had_other_evidence(previous@, *monitor),
{
    let mut index: usize = 0;
    while index < previous.len()
        invariant
            index <= previous@.len(),
            forall|i: int|
                0 <= i < index ==> !((#[trigger] previous@[i]).entity == monitor.entity && (
                previous@[i].device_evidence@ != monitor.device_evidence@
                    || previous@[i].legacy_identity != monitor.legacy_identity)),
        decreases previous@.len() - index,
    {
        let earlier = &previous[index];
        if earlier.entity == monitor.entity && (earlier.device_evidence != monitor.device_evidence
            || earlier.legacy_identity != monitor.legacy_identity) {
            return true;
        }
        index += 1;
    }
    false
}

fn clones_without_entities_of(
    monitors: &Vec<InstalledMonitor>,
    others: &Vec<InstalledMonitor>,
) -> (result: Vec<InstalledMonitor>)
    ensures
        result@ == without_entities_of(monitors@, others@),
{
    let ghost keep = |monitor: InstalledMonitor| !has_entity(others@, monitor.entity);
    let mut result: Vec<InstalledMonitor> = Vec::new();
    let mut index: usize = 0;
    assert(monitors@.take(0) =~= Seq::empty());
    proof {
        reveal(Seq::filter);
    }
    while index < monitors.len()
        invariant
            index <= monitors@.len(),
            keep == (|monitor: InstalledMonitor| !has_entity(others@, monitor.entity)),
            result@ == monitors@.take(index as int).filter(keep),
        decreases monitors@.len() - index,
    {
        proof {
            filter_of_longer_prefix(monitors@, index as int, keep);
        }
        if !contains_entity(others, monitors[index].entity) {
            result.push(monitors[index].clone());
        }
        index += 1;
    }
    assert(monitors@.take(index as int) =~= monitors@);
    result
}

/// What changed from `previous` to `rebuilt`: monitor lifetimes follow entities, not geometry.
pub fn monitor_changes(previous: &Monitors, rebuilt: &Monitors) -> (result: MonitorChanges)
    ensures
        result.connected@ == without_entities_of(rebuilt@, previous@),
        result.disconnected@ == without_entities_of(previous@, rebuilt@),
        result.evidence_changed@ == with_other_evidence(rebuilt@, previous@),
{
    let connected = clones_without_entities_of(rebuilt.installed(), previous.installed());
    let disconnected = clones_without_entities_of(previous.installed(), rebuilt.installed());
    let before = previous.installed();
    let after = rebuilt.installed();
    let ghost keep = |monitor: InstalledMonitor| had_other_evidence(before@, monitor);
    let mut evidence_changed: Vec<InstalledMonitor> = Vec::new();
    let mut index: usize = 0;
    assert(after@.take(0) =~= Seq::empty());
    proof {
        reveal(Seq::filter);
    }
    while index < after.len()
        invariant
            index <= after@.len(),
            keep == (|monitor: InstalledMonitor| had_other_evidence(before@, monitor)),
            evidence_changed@ == after@.take(index as int).filter(keep),
        decreases after@.len() - index,
    {
        proof {
            filter_of_longer_prefix(after@, index as int, keep);
        }
        if evidence_differs(before, &after[index]) {
            evidence_changed.push(after[index].clone());
        }
        index += 1;
    }
    assert(after@.take(index as int) =~= after@);
    MonitorChanges { connected, disconnected, evidence_changed }
}

/// Whether a previously installed monitor is no longer installed just as it was.
pub open spec fn is_changed_in(monitor: InstalledMonitor, rebuilt: Seq<InstalledMonitor>) -> bool {
    match first_of_entity(rebuilt, monitor.entity) {
        Some(found) => !same_installation(found, monitor),
        None => true,
    }
}

/// Whether the rebuilt topology differs from the previous one.
pub open spec fn topology_differs(
    previous: Seq<InstalledMonitor>,
    rebuilt: Seq<InstalledMonitor>,
) -> bool {
    ||| previous.len() != rebuilt.len()
    ||| exists|i: int| 0 <= i < previous.len() && is_changed_in(#[trigger] previous[i], rebuilt)
}

fn monitor_changed(monitor: &InstalledMonitor, rebuilt: &Vec<InstalledMonitor>) -> (result: bool)
    ensures
        result == is_changed_in(*monitor, rebuilt@),
{
    let mut index: usize = 0;
    assert(rebuilt@.skip(0) =~= rebuilt@);
    while index < rebuilt.len()
        invariant
            index <= rebuilt@.len(),
            first_of_entity(rebuilt@, monitor.entity) == first_of_entity(
                rebuilt@.skip(index as int),
                monitor.entity,
            ),
        decreases rebuilt@.len() - index,
    {
        assert(rebuilt@.skip(index as int).drop_first() =~= rebuilt@.skip(index + 1));
        if rebuilt[index].entity == monitor.entity {
            return rebuilt[index] != *monitor;
        }
        index += 1;
    }
    true
}

/// Whether the rebuilt topology must be installed in place of the previous one.
pub fn installed_topology_changed(previous: &Monitors, rebuilt: &Monitors) -> (result: bool)
    ensures
        result == topology_differs(previous@, rebuilt@),
{
    let before = previous.installed();
    let after = rebuilt.installed();
    if before.len() != after.len() {
        return true;
    }
    let mut index: usize = 0;
    while index < before.len()
        invariant
            index <= before@.len(),
            before@ == previous@,
            after@ == rebuilt@,
            forall|i: int| 0 <= i < index ==> !is_changed_in(#[trigger] before@[i], after@),
        decreases before@.len() - index,
    {
        if monitor_changed(&before[index], after) {
            assert(is_changed_in(before@[index as int], after@));
            return true;
        }
        index += 1;
    }
    false
}

/// Evidence cached for one exact entity of the current topology.
#[derive(Debug)]
pub struct EnumeratedDisplayEvidence {
    pub entity: u64,
    pub descriptor: MonitorDescriptor,
    pub device_evidence: DisplayDeviceEvidence,
    pub legacy_identity: DisplayIdentity,
}

impl Clone for EnumeratedDisplayEvidence {
    fn clone(&self) -> (copy: Self)
        ensures
            copy == *self,
    {
        EnumeratedDisplayEvidence {
            entity: self.entity,
            descriptor: self.descriptor,
            device_evidence: self.device_evidence.clone(),
            legacy_identity: self.legacy_identity,
        }
    }
}

/// What the device reporter may know of an installed monitor.
pub open spec fn enumerated_evidence(monitor: InstalledMonitor) -> EnumeratedDisplayEvidence {
    EnumeratedDisplayEvidence {
        entity: monitor.entity,
        descriptor: monitor.descriptor,
        device_evidence: monitor.device_evidence,
        legacy_identity: monitor.legacy_identity,
    }
}

/// Whether a display topology has been installed for the device reporter.
#[derive(Debug)]
pub enum DisplayTopologyObservation {
    /// The first observed topology has not been installed yet.
    AwaitingInitialTopology,
    /// Kernel-facing evidence from a completed topology observation.
    Observed(Vec<EnumeratedDisplayEvidence>),
}

impl Default for DisplayTopologyObservation {
    fn default() -> (result: Self)
        ensures
            result is AwaitingInitialTopology,
    {
        DisplayTopologyObservation::AwaitingInitialTopology
    }
}

/// Everything that takes effect when a topology is installed.
#[derive(Debug)]
pub struct TopologyInstall {
    /// The topology from now on.
    pub monitors: Monitors,
    /// What the device reporter sees from now on.
    pub observation: DisplayTopologyObservation,
    /// The revision from now on.
    pub revision: MonitorTopologyRevision,
    /// Whether windows lose the monitor they are on, because there is none left.
    pub clears_current_monitors: bool,
    /// What changed; every connected monitor is announced, then every disconnected one.
    pub changes: MonitorChanges,
}

impl TopologyInstall {
    /// Whether this installs `rebuilt` as `revision` in place of `previous`.
    pub open spec fn installs(
        self,
        previous: Seq<InstalledMonitor>,
        rebuilt: Seq<InstalledMonitor>,
        revision: int,
    ) -> bool {
        &&& self.monitors@ == rebuilt
        &&& self.observation matches DisplayTopologyObservation::Observed(evidence) && evidence@
            == rebuilt.map_values(|monitor: InstalledMonitor| enumerated_evidence(monitor))
        &&& self.revision@ == revision
        &&& self.clears_current_monitors == (rebuilt.len() == 0)
        &&& self.changes.connected@ == without_entities_of(rebuilt, previous)
        &&& self.changes.disconnected@ == without_entities_of(previous, rebuilt)
        &&& self.changes.evidence_changed@ == with_other_evidence(rebuilt, previous)
    }
}

fn queue_topology_install(
    previous: &Monitors,
    rebuilt: Monitors,
    revision: MonitorTopologyRevision,
) -> (result: TopologyInstall)
    ensures
        result.installs(previous@, rebuilt@, revision@ as int),
{
    let changes = monitor_changes(previous, &rebuilt);
    let ghost of_monitor = |monitor: InstalledMonitor| enumerated_evidence(monitor);
    let mut evidence: Vec<EnumeratedDisplayEvidence> = Vec::new();
    let installed = rebuilt.installed();
    let mut index: usize = 0;
    while index < installed.len()
        invariant
            index <= installed@.len(),
            evidence@.len() == index,
            forall|i: int|
                0 <= i < index ==> #[trigger] evidence@[i] == enumerated_evidence(installed@[i]),
        decreases installed@.len() - index,
    {
        let monitor = &installed[index];
        evidence.push(
            EnumeratedDisplayEvidence {
                entity: monitor.entity,
                descriptor: monitor.descriptor,
                device_evidence: monitor.device_evidence.clone(),
                legacy_identity: monitor.legacy_identity,
            },
        );
        index += 1;
    }
    assert(evidence@ =~= rebuilt@.map_values(of_monitor));
    let clears_current_monitors = rebuilt.is_empty();
    TopologyInstall {
        monitors: rebuilt,
        observation: DisplayTopologyObservation::Observed(evidence),
        revision,
        clears_current_monitors,
        changes,
    }
}

/// Install the first topology, as the initial revision.
pub fn init_monitors(rebuilt: Monitors) -> (result: TopologyInstall)
    ensures
        result.installs(Seq::empty(), rebuilt@, 0),
{
    queue_topology_install(&Monitors::empty(), rebuilt, MonitorTopologyRevision::default())
}

/// Whether anything happened that could change the topology.
pub fn topology_scan_is_due(
    monitor_added: bool,
    monitor_removed: bool,
    configuration_changed: bool,
) -> (result: bool)
    ensures
        result == (monitor_added || monitor_removed || configuration_changed),
{
    monitor_added || monitor_removed || configuration_changed
}

/// Install a rebuilt topology as the next revision, if it differs from the previous one.
pub fn update_monitors(
    previous: &Monitors,
    rebuilt: Monitors,
    revision: MonitorTopologyRevision,
) -> (result: Option<TopologyInstall>)
    requires
        revision@ < u64::MAX,
    ensures
        match result {
            Some(install) => topology_differs(previous@, rebuilt@) && install.installs(
                previous@,
                rebuilt@,
                revision@ + 1,
            ),
            None => !topology_differs(previous@, rebuilt@),
        },
{
    if !installed_topology_changed(previous, &rebuilt) {
        return None;
    }
    Some(queue_topology_install(previous, rebuilt, revision.next()))
}

/// The entities of a topology.
pub open spec fn entities(monitors: Seq<InstalledMonitor>) -> Seq<u64> {
    monitors.map_values(|monitor: InstalledMonitor| monitor.entity)
}

proof fn has_entity_is_membership(monitors: Seq<InstalledMonitor>, entity: u64)
    ensures
        has_entity(monitors, entity) <==> entities(monitors).contains(entity),
{
    if has_entity(monitors, entity) {
        let i = choose|i: int|
            0 <= i < monitors.len() && (#[trigger] monitors[i]).entity == entity;
        assert(entities(monitors)[i] == entity);
    }
    if entities(monitors).contains(entity) {
        let i = choose|i: int|
            0 <= i < entities(monitors).len() && entities(monitors)[i] == entity;
        assert(monitors[i].entity == entity);
    }
}

proof fn kept_entities(
    monitors: Seq<InstalledMonitor>,
    others: Seq<InstalledMonitor>,
    entity: u64,
)
    ensures
        has_entity(without_entities_of(monitors, others), entity) <==> has_entity(monitors, entity)
            && !has_entity(others, entity),
{
    let keep = |monitor: InstalledMonitor| !has_entity(others, monitor.entity);
    let kept = without_entities_of(monitors, others);
    if has_entity(kept, entity) {
        let i = choose|i: int| 0 <= i < kept.len() && (#[trigger] kept[i]).entity == entity;
        filter_contains(monitors, keep, kept[i]);
        let j = choose|j: int| 0 <= j < monitors.len() && monitors[j] == kept[i];
        assert(monitors[j].entity == entity);
    }
    if has_entity(monitors, entity) && !has_entity(others, entity) {
        let i = choose|i: int|
            0 <= i < monitors.len() && (#[trigger] monitors[i]).entity == entity;
        filter_contains(monitors, keep, monitors[i]);
        let j = choose|j: int| 0 <= j < kept.len() && kept[j] == monitors[i];
        assert(kept[j].entity == entity);
    }
}

/// Lifetimes add up: the entities installed after a change are those installed before it, less the
/// disconnected ones, plus the connected ones; and no entity both connects and disconnects.
pub proof fn monitor_lifetimes_follow_entities(
    previous: Seq<InstalledMonitor>,
    rebuilt: Seq<InstalledMonitor>,
    entity: u64,
)
    ensures
        has_entity(rebuilt, entity) <==> (has_entity(previous, entity) && !has_entity(
            without_entities_of(previous, rebuilt),
            entity,
        )) || has_entity(without_entities_of(rebuilt, previous), entity),
        !(has_entity(without_entities_of(previous, rebuilt), entity) && has_entity(
            without_entities_of(rebuilt, previous),
            entity,
        )),
{
    kept_entities(previous, rebuilt, entity);
    kept_entities(rebuilt, previous, entity);
}

proof fn first_of_entity_is_installed(monitors: Seq<InstalledMonitor>, entity: u64)
    ensures
        match first_of_entity(monitors, entity) {
            Some(found) => monitors.contains(found) && found.entity == entity && has_entity(
                monitors,
                entity,
            ),
            None => !has_entity(monitors, entity),
        },
    decreases monitors.len(),
{
    if monitors.len() > 0 {
        if monitors[0].entity != entity {
            let rest = monitors.drop_first();
            first_of_entity_is_installed(rest, entity);
            match first_of_entity(rest, entity) {
                Some(found) => {
                    let i = choose|i: int| 0 <= i < rest.len() && rest[i] == found;
                    assert(monitors[i + 1] == found);
                },
                None => {
                    assert forall|i: int| 0 <= i < monitors.len() implies (
                    #[trigger] monitors[i]).entity != entity by {
                        if i > 0 {
                            assert(rest[i - 1] == monitors[i]);
                        }
                    }
                },
            }
        } else {
            assert(monitors[0].entity == entity);
        }
    }
}

/// A topology that counts as unchanged announces nothing: where every entity is installed once, no
/// monitor connects, disconnects, or changes its evidence.
pub proof fn unchanged_topology_announces_nothing(
    previous: Seq<InstalledMonitor>,
    rebuilt: Seq<InstalledMonitor>,
)
    requires
        entities(previous).no_duplicates(),
        entities(rebuilt).no_duplicates(),
        !topology_differs(previous, rebuilt),
    ensures
        without_entities_of(previous, rebuilt).len() == 0,
        without_entities_of(rebuilt, previous).len() == 0,
        with_other_evidence(rebuilt, previous).len() == 0,
{
    let before = entities(previous);
    let after = entities(rebuilt);
    assert forall|i: int| 0 <= i < previous.len() implies has_entity(
        rebuilt,
        (#[trigger] previous[i]).entity,
    ) by {
        assert(!is_changed_in(previous[i], rebuilt));
        first_of_entity_is_installed(rebuilt, previous[i].entity);
    }
    assert forall|entity: u64| has_entity(previous, entity) implies has_entity(
        rebuilt,
        entity,
    ) by {
        let i = choose|i: int|
            0 <= i < previous.len() && (#[trigger] previous[i]).entity == entity;
        assert(has_entity(rebuilt, previous[i].entity));
    }
    assert(before.to_set().subset_of(after.to_set())) by {
        assert forall|entity: u64| before.to_set().contains(entity) implies after.to_set().contains(
            entity,
        ) by {
            has_entity_is_membership(previous, entity);
            has_entity_is_membership(rebuilt, entity);
        }
    }
    before.unique_seq_to_set();
    after.unique_seq_to_set();
    vstd::seq_lib::seq_to_set_is_finite(before);
    vstd::seq_lib::seq_to_set_is_finite(after);
    vstd::set_lib::lemma_subset_equality(before.to_set(), after.to_set());
    assert forall|entity: u64| has_entity(rebuilt, entity) implies has_entity(
        previous,
        entity,
    ) by {
        has_entity_is_membership(previous, entity);
        has_entity_is_membership(rebuilt, entity);
        assert(after.to_set().contains(entity));
    }
    nothing_is_kept(previous, rebuilt);
    nothing_is_kept(rebuilt, previous);
    let changed = with_other_evidence(rebuilt, previous);
    if changed.len() > 0 {
        let monitor = changed[0];
        filter_contains(
            rebuilt,
            |monitor: InstalledMonitor| had_other_evidence(previous, monitor),
            monitor,
        );
        let i = choose|i: int|
            0 <= i < previous.len() && (#[trigger] previous[i]).entity == monitor.entity && (
            previous[i].device_evidence@ != monitor.device_evidence@ || previous[i].legacy_identity
                != monitor.legacy_identity);
        assert(!is_changed_in(previous[i], rebuilt));
        first_of_entity_is_installed(rebuilt, monitor.entity);
        let found = first_of_entity(rebuilt, monitor.entity)->0;
        let a = choose|a: int| 0 <= a < rebuilt.len() && rebuilt[a] == found;
        let b = choose|b: int| 0 <= b < rebuilt.len() && rebuilt[b] == monitor;
        assert(after[a] == after[b]);
    }
}

proof fn nothing_is_kept(monitors: Seq<InstalledMonitor>, others: Seq<InstalledMonitor>)
    requires
        forall|entity: u64| has_entity(monitors, entity) ==> has_entity(others, entity),
    ensures
        without_entities_of(monitors, others).len() == 0,
{
    let kept = without_entities_of(monitors, others);
    if kept.len() > 0 {
        let entity = kept[0].entity;
        assert(has_entity(kept, entity));
        kept_entities(monitors, others, entity);
    }
}

/// Whether two installed monitors are the same in every part: the place in the enumeration, the scale
/// as a number, the position, the size, the name, the evidence and the identity.
pub open spec fn is_installed_alike(a: InstalledMonitor, b: InstalledMonitor) -> bool {
    &&& a.entity == b.entity
    &&& a.descriptor.index@ == b.descriptor.index@
    &&& encodings_equal(a.descriptor.scale@, b.descriptor.scale@)
    &&& a.descriptor.physical_position.x == b.descriptor.physical_position.x
    &&& a.descriptor.physical_position.y == b.descriptor.physical_position.y
    &&& a.descriptor.physical_size.x == b.descriptor.physical_size.x
    &&& a.descriptor.physical_size.y == b.descriptor.physical_size.y
    &&& a.product_name@ == b.product_name@
    &&& a.device_evidence@.identity_evidence == b.device_evidence@.identity_evidence
    &&& a.device_evidence@.platform_device_handle == b.device_evidence@.platform_device_handle
    &&& a.device_evidence@.attachment == b.device_evidence@.attachment
    &&& a.legacy_identity == b.legacy_identity
}

/// A topology counts as unchanged only if every monitor is still installed just as it was: with the
/// same place, scale, position, size, name, evidence and identity.
pub proof fn an_unchanged_topology_has_the_same_monitors(
    previous: Seq<InstalledMonitor>,
    rebuilt: Seq<InstalledMonitor>,
    i: int,
)
    requires
        !topology_differs(previous, rebuilt),
        0 <= i < previous.len(),
    ensures
        previous.len() == rebuilt.len(),
        exists|j: int|
            0 <= j < rebuilt.len() && #[trigger] is_installed_alike(rebuilt[j], previous[i]),
{
    assert(!is_changed_in(previous[i], rebuilt));
    first_of_entity_is_installed(rebuilt, previous[i].entity);
    let found = first_of_entity(rebuilt, previous[i].entity)->0;
    let j = choose|j: int| 0 <= j < rebuilt.len() && rebuilt[j] == found;
    assert(is_installed_alike(rebuilt[j], previous[i]));
}

/// Where an entity is installed once in the rebuilt topology, any difference in its place, scale,
/// position, size, name, evidence or identity makes the topology a changed one.
pub proof fn every_change_of_a_monitor_changes_the_topology(
    previous: Seq<InstalledMonitor>,
    rebuilt: Seq<InstalledMonitor>,
    i: int,
    j: int,
)
    requires
        0 <= i < previous.len(),
        0 <= j < rebuilt.len(),
        previous[i].entity == rebuilt[j].entity,
        entities(rebuilt).no_duplicates(),
        !is_installed_alike(rebuilt[j], previous[i]),
    ensures
        topology_differs(previous, rebuilt),
{
    if !topology_differs(previous, rebuilt) {
        an_unchanged_topology_has_the_same_monitors(previous, rebuilt, i);
        let k = choose|k: int|
            0 <= k < rebuilt.len() && #[trigger] is_installed_alike(rebuilt[k], previous[i]);
        assert(entities(rebuilt)[k] == entities(rebuilt)[j]);
    }
}

/// A monitor that came or went changes the topology.
pub proof fn a_monitor_that_comes_or_goes_changes_the_topology(
    previous: Seq<InstalledMonitor>,
    rebuilt: Seq<InstalledMonitor>,
    entity: u64,
)
    requires
        entities(previous).no_duplicates(),
        entities(rebuilt).no_duplicates(),
        has_entity(previous, entity) != has_entity(rebuilt, entity),
    ensures
        topology_differs(previous, rebuilt),
{
    if !topology_differs(previous, rebuilt) {
        unchanged_topology_announces_nothing(previous, rebuilt);
        monitor_lifetimes_follow_entities(previous, rebuilt, entity);
    }
}

/// Monitors that are all installed alike, in the same order, are no change: nothing is installed anew
/// because of a scan alone.
pub proof fn a_topology_that_is_the_same_is_unchanged(
    previous: Seq<InstalledMonitor>,
    rebuilt: Seq<InstalledMonitor>,
)
    requires
        previous.len() == rebuilt.len(),
        entities(previous).no_duplicates(),
        forall|i: int|
            0 <= i < previous.len() ==> is_installed_alike(#[trigger] rebuilt[i], previous[i]),
    ensures
        !topology_differs(previous, rebuilt),
{
    assert forall|i: int| 0 <= i < previous.len() implies !is_changed_in(
        #[trigger] previous[i],
        rebuilt,
    ) by {
        assert(is_installed_alike(rebuilt[i], previous[i]));
        first_of_entity_is_installed(rebuilt, previous[i].entity);
        assert(has_entity(rebuilt, rebuilt[i].entity));
        let found = first_of_entity(rebuilt, previous[i].entity)->0;
        let j = choose|j: int| 0 <= j < rebuilt.len() && rebuilt[j] == found;
        assert(is_installed_alike(rebuilt[j], previous[j]));
        assert(entities(previous)[i] == entities(previous)[j]);
        indices_are_their_positions(rebuilt[i].descriptor.index, previous[i].descriptor.index);
    }
}

/// Installing a topology puts the whole of it in place: the monitors are the rebuilt ones, the display
/// reporter sees each of them with its entity, geometry, evidence and identity, in order, and windows
/// lose their monitor exactly where none is left.
pub proof fn an_install_is_the_rebuilt_topology(
    install: TopologyInstall,
    previous: Seq<InstalledMonitor>,
    rebuilt: Seq<InstalledMonitor>,
    revision: int,
    i: int,
)
    requires
        install.installs(previous, rebuilt, revision),
    ensures
        install.monitors@ == rebuilt,
        install.revision@ == revision,
        install.clears_current_monitors <==> rebuilt.len() == 0,
        install.observation matches DisplayTopologyObservation::Observed(evidence) && {
            &&& evidence@.len() == rebuilt.len()
            &&& 0 <= i < rebuilt.len() ==> {
                &&& evidence@[i].entity == rebuilt[i].entity
                &&& evidence@[i].descriptor == rebuilt[i].descriptor
                &&& evidence@[i].device_evidence@ == rebuilt[i].device_evidence@
                &&& evidence@[i].legacy_identity == rebuilt[i].legacy_identity
            }
        },
{
}

/// What an install announces is what happened: a monitor is announced as connected exactly where it is
/// in the rebuilt topology and its entity was not installed, as disconnected exactly where it was
/// installed and its entity is gone, and as changed exactly where its entity stayed with other evidence
/// or another identity.
pub proof fn an_install_announces_what_happened(
    install: TopologyInstall,
    previous: Seq<InstalledMonitor>,
    rebuilt: Seq<InstalledMonitor>,
    revision: int,
    monitor: InstalledMonitor,
)
    requires
        install.installs(previous, rebuilt, revision),
    ensures
        install.changes.connected@.contains(monitor) <==> rebuilt.contains(monitor) && !entities(
            previous,
        ).contains(monitor.entity),
        install.changes.disconnected@.contains(monitor) <==> previous.contains(monitor)
            && !entities(rebuilt).contains(monitor.entity),
        install.changes.evidence_changed@.contains(monitor) <==> rebuilt.contains(monitor) && exists|
            i: int,
        |
            0 <= i < previous.len() && (#[trigger] previous[i]).entity == monitor.entity && (
            previous[i].device_evidence@ != monitor.device_evidence@ || previous[i].legacy_identity
                != monitor.legacy_identity),
{
    has_entity_is_membership(previous, monitor.entity);
    has_entity_is_membership(rebuilt, monitor.entity);
    filter_contains(
        rebuilt,
        |other: InstalledMonitor| !has_entity(previous, other.entity),
        monitor,
    );
    filter_contains(
        previous,
        |other: InstalledMonitor| !has_entity(rebuilt, other.entity),
        monitor,
    );
    filter_contains(
        rebuilt,
        |other: InstalledMonitor| had_other_evidence(previous, other),
        monitor,
    );
}

/// A scan is due whenever a monitor came, a monitor went, or the configuration changed, and only then.
pub proof fn a_scan_is_due_after_any_change(
    added: bool,
    removed: bool,
    changed: bool,
    result: bool,
)
    requires
        call_ensures(topology_scan_is_due, (added, removed, changed), result),
    ensures
        added ==> result,
        removed ==> result,
        changed ==> result,
        result ==> added || removed || changed,
{
}

/// An update that installs nothing leaves every entity with a monitor that agrees with its own in every
/// part; an update that finds a monitor changed in any part installs the rebuilt topology as the next
/// revision.
pub proof fn an_update_installs_every_change(
    previous: Monitors,
    rebuilt: Monitors,
    revision: MonitorTopologyRevision,
    result: Option<TopologyInstall>,
    i: int,
    j: int,
)
    requires
        revision@ < u64::MAX,
        call_ensures(update_monitors, (&previous, rebuilt, revision), result),
        0 <= i < previous@.len(),
    ensures
        result is None ==> {
            &&& previous@.len() == rebuilt@.len()
            &&& exists|k: int|
                0 <= k < rebuilt@.len() && #[trigger] is_installed_alike(rebuilt@[k], previous@[i])
        },
        0 <= j < rebuilt@.len() && entities(rebuilt@).no_duplicates() && previous@[i].entity
            == rebuilt@[j].entity && !is_installed_alike(rebuilt@[j], previous@[i]) ==> (
        result matches Some(install) && install.revision@ == revision@ + 1 && install.monitors@
            == rebuilt@),
{
    if result is None {
        an_unchanged_topology_has_the_same_monitors(previous@, rebuilt@, i);
    }
    if 0 <= j < rebuilt@.len() && entities(rebuilt@).no_duplicates() && previous@[i].entity
        == rebuilt@[j].entity && !is_installed_alike(rebuilt@[j], previous@[i]) {
        every_change_of_a_monitor_changes_the_topology(previous@, rebuilt@, i, j);
    }
}

} // verus!
