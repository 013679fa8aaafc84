//! Records that trace how the installed topology changes.

use super::identity::MonitorConfigurationState;
use super::topology::{
    DisplayDeviceEvidence, InstalledMonitor, MonitorDescriptor, MonitorTopologyRevision, Monitors,
};
use super::topology_change::MonitorChanges;
use vstd::prelude::*;

verus! {

/// The schedule that produced a topology.
#[derive(Clone, Copy, Debug, PartialEq, Eq, Structural)]
pub enum TopologyProducerSchedule {
    PreStartup,
    Update,
}

impl TopologyProducerSchedule {
    /// Name of the producer.
    pub fn label(self) -> (result: &'static str)
        ensures
            result@ == match self {
                TopologyProducerSchedule::PreStartup => "PreStartup::init_monitors"@,
                TopologyProducerSchedule::Update => "Update::monitor_topology_producer"@,
            },
    {
        match self {
            TopologyProducerSchedule::PreStartup => "PreStartup::init_monitors",
            TopologyProducerSchedule::Update => "Update::monitor_topology_producer",
        }
    }
}

/// What happened to a monitor.
#[derive(Clone, Copy, Debug, PartialEq, Eq, Structural)]
pub enum TopologyChangeKind {
    Connected,
    Disconnected,
    EvidenceChanged,
    RevalidatedUnchanged,
}

impl TopologyChangeKind {
    /// Name of the change.
    pub fn label(self) -> (result: &'static str)
        ensures
            result@ == match self {
                TopologyChangeKind::Connected => "connected"@,
                TopologyChangeKind::Disconnected => "disconnected"@,
                TopologyChangeKind::EvidenceChanged => "evidence-changed"@,
                TopologyChangeKind::RevalidatedUnchanged => "revalidated-unchanged"@,
            },
    {
        match self {
            TopologyChangeKind::Connected => "connected",
            TopologyChangeKind::Disconnected => "disconnected",
            TopologyChangeKind::EvidenceChanged => "evidence-changed",
            TopologyChangeKind::RevalidatedUnchanged => "revalidated-unchanged",
        }
    }
}

/// Whether a monitor's entity still names it.
#[derive(Clone, Copy, Debug, PartialEq, Eq, Structural)]
pub enum MonitorEntityState {
    Current,
    Former,
}

impl MonitorEntityState {
    /// Name of the state.
    pub fn label(self) -> (result: &'static str)
        ensures
            result@ == match self {
                MonitorEntityState::Current => "current"@,
                MonitorEntityState::Former => "former"@,
            },
    {
        match self {
            MonitorEntityState::Current => "current",
            MonitorEntityState::Former => "former",
        }
    }
}

/// When and by whom a topology was produced.
#[derive(Clone, Copy, Debug, PartialEq, Eq, Structural)]
pub struct TopologyProduction {
    pub frame_count: u32,
    pub schedule: TopologyProducerSchedule,
    pub configuration: MonitorConfigurationState,
    pub revision: MonitorTopologyRevision,
}

/// One monitor of a topology that was produced.
#[derive(Debug)]
pub struct TopologyProbeRecord {
    pub production: TopologyProduction,
    pub evidence: DisplayDeviceEvidence,
    pub descriptor: MonitorDescriptor,
    pub entity: u64,
    pub entity_state: MonitorEntityState,
    pub change: TopologyChangeKind,
}

/// The record of what happened to a monitor.
pub open spec fn probe_record(
    monitor: InstalledMonitor,
    production: TopologyProduction,
    entity_state: MonitorEntityState,
    change: TopologyChangeKind,
) -> TopologyProbeRecord {
    TopologyProbeRecord {
        production,
        evidence: monitor.device_evidence,
        descriptor: monitor.descriptor,
        entity: monitor.entity,
        entity_state,
        change,
    }
}

/// The records of what happened to some monitors.
pub open spec fn probe_records(
    monitors: Seq<InstalledMonitor>,
    production: TopologyProduction,
    entity_state: MonitorEntityState,
    change: TopologyChangeKind,
) -> Seq<TopologyProbeRecord> {
    monitors.map_values(
        |monitor: InstalledMonitor| probe_record(monitor, production, entity_state, change),
    )
}

fn append_records(
    records: &mut Vec<TopologyProbeRecord>,
    monitors: &Vec<InstalledMonitor>,
    production: TopologyProduction,
    entity_state: MonitorEntityState,
    change: TopologyChangeKind,
)
    ensures
        final(records)@ == old(records)@ + probe_records(
            monitors@,
            production,
            entity_state,
            change,
        ),
{
    let ghost before = records@;
    let mut index: usize = 0;
    while index < monitors.len()
        invariant
            index <= monitors@.len(),
            records@ == before + probe_records(
                monitors@.take(index as int),
                production,
                entity_state,
                change,
            ),
        decreases monitors@.len() - index,
    {
        let monitor = &monitors[index];
        records.push(
            TopologyProbeRecord {
                production,
                evidence: monitor.device_evidence.clone(),
                descriptor: monitor.descriptor,
                entity: monitor.entity,
                entity_state,
                change,
            },
        );
        proof {
            let added = probe_record(*monitor, production, entity_state, change);
            assert(probe_records(
                monitors@.take(index + 1),
                production,
                entity_state,
                change,
            ) =~= probe_records(
                monitors@.take(index as int),
                production,
                entity_state,
                change,
            ).push(added));
            assert(records@ =~= before + probe_records(
                monitors@.take(index + 1),
                production,
                entity_state,
                change,
            ));
        }
        index += 1;
    }
    assert(monitors@.take(index as int) =~= monitors@);
}

/// Records of every change: connected monitors, then changed ones, then disconnected ones.
pub fn changed_probe_records(changes: &MonitorChanges, production: TopologyProduction) -> (result:
    Vec<TopologyProbeRecord>)
    ensures
        result@ == probe_records(
            changes.connected@,
            production,
            MonitorEntityState::Current,
            TopologyChangeKind::Connected,
        ) + probe_records(
            changes.evidence_changed@,
            production,
            MonitorEntityState::Current,
            TopologyChangeKind::EvidenceChanged,
        ) + probe_records(
            changes.disconnected@,
            production,
            MonitorEntityState::Former,
            TopologyChangeKind::Disconnected,
        ),
{
    let mut records: Vec<TopologyProbeRecord> = Vec::new();
    append_records(
        &mut records,
        &changes.connected,
        production,
        MonitorEntityState::Current,
        TopologyChangeKind::Connected,
    );
    assert(records@ =~= probe_records(
        changes.connected@,
        production,
        MonitorEntityState::Current,
        TopologyChangeKind::Connected,
    ));
    append_records(
        &mut records,
        &changes.evidence_changed,
        production,
        MonitorEntityState::Current,
        TopologyChangeKind::EvidenceChanged,
    );
    append_records(
        &mut records,
        &changes.disconnected,
        production,
        MonitorEntityState::Former,
        TopologyChangeKind::Disconnected,
    );
    records
}

/// Records of every installed monitor.
pub fn current_probe_records(
    monitors: &Monitors,
    production: TopologyProduction,
    change: TopologyChangeKind,
) -> (result: Vec<TopologyProbeRecord>)
    ensures
        result@ == probe_records(monitors@, production, MonitorEntityState::Current, change),
{
    let mut records: Vec<TopologyProbeRecord> = Vec::new();
    append_records(
        &mut records,
        monitors.installed(),
        production,
        MonitorEntityState::Current,
        change,
    );
    assert(records@ =~= probe_records(
        monitors@,
        production,
        MonitorEntityState::Current,
        change,
    ));
    records
}

/// Every monitor has one record, in order, with its entity, its geometry and its evidence, and with what
/// is said of all of them.
pub proof fn every_monitor_has_its_record(
    monitors: Seq<InstalledMonitor>,
    production: TopologyProduction,
    entity_state: MonitorEntityState,
    change: TopologyChangeKind,
    i: int,
)
    ensures
        probe_records(monitors, production, entity_state, change).len() == monitors.len(),
        0 <= i < monitors.len() ==> {
            let record = probe_records(monitors, production, entity_state, change)[i];
            &&& record.entity == monitors[i].entity
            &&& record.descriptor == monitors[i].descriptor
            &&& record.evidence == monitors[i].device_evidence
            &&& record.production == production
            &&& record.entity_state == entity_state
            &&& record.change == change
        },
{
}

} // verus!
