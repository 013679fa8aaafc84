//! Displays: what identifies them, where they are, and how they come and go.

pub mod device_association;
pub mod discovery;
pub mod display_product_name;
pub mod edid;
pub mod identity;
pub mod live_display_endpoint;
pub mod monitor_probe;
pub mod native;
pub mod topology;
pub mod topology_change;
pub mod topology_scan;
