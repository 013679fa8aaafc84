//! Window placement memory for multi-display desktops.
//!
//! The library remembers where windows were, recognises displays by what identifies them, and
//! decides how a window gets back to its display. It holds no handle of any window system and does
//! no input or output: every function takes plain values and returns plain values.
//!
//! - [`monitors`] identifies displays, builds the topology, and tells what changed in it.
//! - [`reporter`] turns the observed displays into device records.
//! - [`persistence`] reads, projects and writes the records of windows.
//! - [`restore`] computes targets and decides when a restored window has settled.
//! - [`recovery`] follows windows that lost their display.
//! - [`output_proof`] and [`resize_announcement`] decide what is announced about live windows.
//! - [`platform`] answers every question that depends on the platform.

pub mod bytes;
pub mod device;
pub mod geometry;
pub mod inventory;
pub mod monitors;
pub mod output_proof;
pub mod persistence;
pub mod platform;
pub mod recovery;
pub mod reporter;
pub mod resize_announcement;
pub mod restore;
pub mod role_map;
pub mod scale;
pub mod sequences;
pub mod text;
pub mod time;
pub mod window_mode;

pub use monitors::device_association::MonitorDeviceAssociation;
pub use monitors::device_association::MonitorDeviceKeyLookup;
pub use monitors::device_association::MonitorReportedHandleLookup;
pub use monitors::discovery::DisplayEnumerationSource;
pub use monitors::discovery::LiveWinitProductionBackendSelection;
pub use monitors::display_product_name::DisplayProductName;
pub use monitors::identity::DisplayFingerprint;
pub use monitors::identity::DisplayIdentity;
pub use monitors::live_display_endpoint::LiveDisplayContradictionCount;
pub use monitors::live_display_endpoint::LiveDisplayDevices;
pub use monitors::live_display_endpoint::LiveDisplayEndpoint;
pub use monitors::live_display_endpoint::LiveDisplayEndpointLookup;
pub use monitors::live_display_endpoint::LiveDisplayMatchError;
pub use monitors::live_display_endpoint::LiveDisplayMonitor;
pub use monitors::topology::CurrentMonitorIndex;
pub use monitors::topology::LiveMonitor;
pub use monitors::topology::MonitorDescriptor;
pub use monitors::topology::MonitorTopologyRevision;
pub use monitors::topology::Monitors;
pub use persistence::roles::managed_window_role;
pub use persistence::roles::primary_window_role;
pub use platform::Platform;
