//! Where displays are enumerated from, and when the display reporter is asked to look again.

use super::topology::MonitorTopologyRevision;
use vstd::prelude::*;

verus! {

/// Witness that production display enumeration selects the live window system.
#[derive(Clone, Copy, Debug)]
pub struct LiveWinitProductionBackendSelection;

/// Display enumeration source selected at startup.
#[derive(Clone, Copy, Debug, PartialEq, Eq, Structural)]
pub enum DisplayEnumerationSource {
    /// The production reporter reads the current display list from the window system.
    LiveWinit,
    /// A caller explicitly installed a scripted platform.
    ExplicitTestAdapter,
    /// Scripted displays exist without an explicitly installed scripted platform.
    InjectedWithoutExplicitAdapter,
    /// A scripted platform exists without its scripted displays.
    ExplicitAdapterWithoutInjectedSource,
}

/// How far a scripted platform is installed.
#[derive(Clone, Copy, Debug, PartialEq, Eq, Structural)]
pub enum DisplayTestAdapterInstallation {
    ExplicitlyInstalled,
    NotInstalled,
    InjectedWithoutExplicitAdapter,
    ExplicitAdapterWithoutInjectedSource,
}

/// The enumeration source that goes with an installation.
pub fn display_enumeration_source_for_test_adapter_installation(
    installation: DisplayTestAdapterInstallation,
) -> (result: DisplayEnumerationSource)
    ensures
        result == match installation {
            DisplayTestAdapterInstallation::ExplicitlyInstalled =>
                DisplayEnumerationSource::ExplicitTestAdapter,
            DisplayTestAdapterInstallation::NotInstalled => DisplayEnumerationSource::LiveWinit,
            DisplayTestAdapterInstallation::InjectedWithoutExplicitAdapter =>
                DisplayEnumerationSource::InjectedWithoutExplicitAdapter,
            DisplayTestAdapterInstallation::ExplicitAdapterWithoutInjectedSource =>
                DisplayEnumerationSource::ExplicitAdapterWithoutInjectedSource,
        },
{
    match installation {
        DisplayTestAdapterInstallation::ExplicitlyInstalled =>
            DisplayEnumerationSource::ExplicitTestAdapter,
        DisplayTestAdapterInstallation::NotInstalled => DisplayEnumerationSource::LiveWinit,
        DisplayTestAdapterInstallation::InjectedWithoutExplicitAdapter =>
            DisplayEnumerationSource::InjectedWithoutExplicitAdapter,
        DisplayTestAdapterInstallation::ExplicitAdapterWithoutInjectedSource =>
            DisplayEnumerationSource::ExplicitAdapterWithoutInjectedSource,
    }
}

/// Latest installed topology revision covered by a monitor discovery request.
///
/// Comparing revisions tells the initial installation from a later change.
#[derive(Clone, Copy, Debug, PartialEq, Eq, Structural)]
pub struct MonitorDiscoveryRequestCoverage(MonitorTopologyRevision);

impl View for MonitorDiscoveryRequestCoverage {
    type V = u64;

    closed spec fn view(&self) -> u64 {
        self.0@
    }
}

impl MonitorDiscoveryRequestCoverage {
    /// The request made at startup covers the first topology.
    pub fn from_initial_topology(revision: MonitorTopologyRevision) -> (result: Self)
        ensures
            result@ == revision@,
    {
        MonitorDiscoveryRequestCoverage(revision)
    }

    /// Whether a request for this revision has been made.
    pub fn covers(&self, revision: MonitorTopologyRevision) -> (result: bool)
        ensures
            result == (self@ == revision@),
    {
        self.0.get() == revision.get()
    }

    /// Remember that a request for this revision has been made.
    pub fn record_dirty_request(&mut self, revision: MonitorTopologyRevision)
        ensures
            final(self)@ == revision@,
    {
        self.0 = revision;
    }

    /// Take the reply to a request for `revision` into account: a refused request will be made
    /// again.
    pub fn settle_dirty_request(&mut self, revision: MonitorTopologyRevision, accepted: bool)
        ensures
            final(self)@ == if accepted {
                revision@
            } else {
                old(self)@
            },
    {
        if accepted {
            self.record_dirty_request(revision);
        }
    }
}

} // verus!
