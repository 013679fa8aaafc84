//! Remembering where windows were.

pub mod established_window_placement;
pub mod format;
pub mod load;
pub mod placements;
pub mod roles;
pub mod save;
pub mod window_state;
