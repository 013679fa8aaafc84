//! Window placement established by safe readback.

use super::window_state::{
    saved_mode, PersistedPosition, PersistedWindowState, PersistedWindowTargetV5, SavedWindowMode,
};
use crate::device::DeviceKey;
use crate::geometry::{IVec2, UVec2};
use crate::monitors::topology::MonitorDescriptor;
use crate::platform::Platform;
use crate::window_mode::WindowMode;
use vstd::prelude::*;
use vstd::std_specs::convert::FromSpecImpl;

verus! {

/// Meaning of a window position returned by a safe driver readback.
#[derive(Clone, Copy, Debug, PartialEq, Eq, Structural)]
pub enum EstablishedWindowPosition {
    /// Logical-pixel offset from the exact display that supplied the readback.
    Restorable { logical_offset: IVec2 },
    /// The compositor does not expose a coordinate that can safely be reapplied.
    CompositorControlled,
}

/// Live coordinate produced by rebasing an established window configuration.
#[derive(Clone, Copy, Debug, PartialEq, Eq, Structural)]
pub enum RestorableWindowPosition {
    /// Both platform and persisted logical coordinate spaces resolved.
    Restorable { physical_position: IVec2, logical_position: IVec2 },
    /// The compositor remains responsible for placement.
    CompositorControlled,
}

/// Window-driver value retained as the binding's last known good configuration.
#[derive(Clone, Copy, Debug, PartialEq, Eq, Structural)]
pub struct EstablishedWindowPlacement {
    pub position: EstablishedWindowPosition,
    pub logical_size: UVec2,
    pub saved_window_mode: SavedWindowMode,
}

/// How the live monitor's scale converts what a placement is rebased with.
#[derive(Clone, Copy, Debug, PartialEq, Eq, Structural)]
pub struct ScaledMonitorOrigin {
    /// The placement's logical offset in physical pixels at the monitor's scale.
    pub physical_offset: IVec2,
    /// The monitor's top-left corner in logical pixels at its scale.
    pub logical_origin: IVec2,
}

/// The offset from a monitor's corner that a readback has to convert to logical pixels, or `None`
/// where the compositor keeps the position to itself.
pub open spec fn readback_offset(
    monitor: MonitorDescriptor,
    physical_position: Option<IVec2>,
    platform: Platform,
) -> Option<IVec2> {
    match physical_position {
        Some(position) => if platform.has_positions() {
            Some(position.difference(monitor.physical_position))
        } else {
            None
        },
        None => None,
    }
}

/// The offset from a monitor's corner that a readback has to convert to logical pixels.
pub fn readback_physical_offset(
    monitor: &MonitorDescriptor,
    physical_position: Option<IVec2>,
    platform: Platform,
) -> (result: Option<IVec2>)
    requires
        physical_position matches Some(position) ==> position.difference_fits(
            monitor.physical_position,
        ),
    ensures
        result == readback_offset(*monitor, physical_position, platform),
{
    if !platform.position_available() {
        return None;
    }
    match physical_position {
        Some(position) => Some(position.minus(monitor.physical_position)),
        None => None,
    }
}

/// The part of `length` that fits into `limit`.
pub open spec fn capped(length: u32, limit: u32) -> u32 {
    if length < limit {
        length
    } else {
        limit
    }
}

/// The coordinate nearest to `offset` from 0 to `limit`.
pub open spec fn drawn_back(offset: i32, limit: u32) -> i32 {
    if offset < 0 {
        0
    } else if offset > limit {
        limit as i32
    } else {
        offset
    }
}

impl EstablishedWindowPlacement {
    /// The placement that a readback establishes, from the logical offset that the live window has
    /// where the platform reports one.
    pub fn from_readback(
        logical_offset: Option<IVec2>,
        logical_size: UVec2,
        effective_window_mode: &WindowMode,
    ) -> (result: Self)
        ensures
            result == (EstablishedWindowPlacement {
                position: match logical_offset {
                    Some(offset) => EstablishedWindowPosition::Restorable {
                        logical_offset: offset,
                    },
                    None => EstablishedWindowPosition::CompositorControlled,
                },
                logical_size,
                saved_window_mode: saved_mode(*effective_window_mode),
            }),
    {
        let position = match logical_offset {
            Some(offset) => EstablishedWindowPosition::Restorable { logical_offset: offset },
            None => EstablishedWindowPosition::CompositorControlled,
        };
        EstablishedWindowPlacement {
            position,
            logical_size,
            saved_window_mode: SavedWindowMode::from(effective_window_mode),
        }
    }

    /// Whether rebasing stays within the coordinates that a desktop can have.
    pub open spec fn rebases_within_range(
        self,
        live_monitor: MonitorDescriptor,
        scaled: ScaledMonitorOrigin,
    ) -> bool {
        self.position matches EstablishedWindowPosition::Restorable { logical_offset } ==> {
            &&& live_monitor.physical_position.sum_fits(scaled.physical_offset)
            &&& scaled.logical_origin.sum_fits(logical_offset)
        }
    }

    /// Where the window goes on a live monitor.
    pub open spec fn rebased(
        self,
        live_monitor: MonitorDescriptor,
        scaled: ScaledMonitorOrigin,
    ) -> RestorableWindowPosition {
        match self.position {
            EstablishedWindowPosition::Restorable { logical_offset } =>
                RestorableWindowPosition::Restorable {
                physical_position: live_monitor.physical_position.sum(scaled.physical_offset),
                logical_position: scaled.logical_origin.sum(logical_offset),
            },
            EstablishedWindowPosition::CompositorControlled =>
                RestorableWindowPosition::CompositorControlled,
        }
    }

    /// Where the window goes on a live monitor.
    pub fn restorable_position(
        &self,
        live_monitor: &MonitorDescriptor,
        scaled: ScaledMonitorOrigin,
    ) -> (result: RestorableWindowPosition)
        requires
            self.rebases_within_range(*live_monitor, scaled),
        ensures
            result == self.rebased(*live_monitor, scaled),
    {
        match self.position {
            EstablishedWindowPosition::Restorable { logical_offset } =>
                RestorableWindowPosition::Restorable {
                physical_position: live_monitor.physical_from_offset(scaled.physical_offset),
                logical_position: scaled.logical_origin.plus(logical_offset),
            },
            EstablishedWindowPosition::CompositorControlled =>
                RestorableWindowPosition::CompositorControlled,
        }
    }

    /// The same placement drawn back inside a monitor of this logical size.
    pub open spec fn fitted(self, monitor_logical_size: UVec2) -> EstablishedWindowPlacement {
        let logical_size = UVec2 {
            x: capped(self.logical_size.x, monitor_logical_size.x),
            y: capped(self.logical_size.y, monitor_logical_size.y),
        };
        EstablishedWindowPlacement {
            position: match self.position {
                EstablishedWindowPosition::Restorable { logical_offset } =>
                    EstablishedWindowPosition::Restorable {
                    logical_offset: IVec2 {
                        x: drawn_back(
                            logical_offset.x,
                            (monitor_logical_size.x - logical_size.x) as u32,
                        ),
                        y: drawn_back(
                            logical_offset.y,
                            (monitor_logical_size.y - logical_size.y) as u32,
                        ),
                    },
                },
                EstablishedWindowPosition::CompositorControlled =>
                    EstablishedWindowPosition::CompositorControlled,
            },
            logical_size,
            saved_window_mode: self.saved_window_mode,
        }
    }

    /// The same placement drawn back inside a monitor it was not captured on.
    ///
    /// The size is capped to the monitor and the offset is pulled back until the whole window fits.
    /// The result is a placement to apply, never one to persist.
    pub fn fitted_to(&self, monitor_logical_size: UVec2) -> (result: Self)
        ensures
            result == self.fitted(monitor_logical_size),
    {
        let logical_size = UVec2 {
            x: cap(self.logical_size.x, monitor_logical_size.x),
            y: cap(self.logical_size.y, monitor_logical_size.y),
        };
        let position = match self.position {
            EstablishedWindowPosition::Restorable { logical_offset } =>
                EstablishedWindowPosition::Restorable {
                logical_offset: IVec2 {
                    x: draw_back(logical_offset.x, monitor_logical_size.x - logical_size.x),
                    y: draw_back(logical_offset.y, monitor_logical_size.y - logical_size.y),
                },
            },
            EstablishedWindowPosition::CompositorControlled =>
                EstablishedWindowPosition::CompositorControlled,
        };
        EstablishedWindowPlacement {
            position,
            logical_size,
            saved_window_mode: self.saved_window_mode,
        }
    }

    /// The record to persist for this placement on the display with this key.
    pub fn project(&self, device_key: DeviceKey, app_name: &str) -> (result: PersistedWindowState)
        ensures
            result.target == PersistedWindowTargetV5::Classified(device_key),
            result.position == match self.position {
                EstablishedWindowPosition::Restorable { logical_offset } =>
                    PersistedPosition::MonitorOffset(logical_offset),
                EstablishedWindowPosition::CompositorControlled => PersistedPosition::Unpositioned,
            },
            result.logical_width == self.logical_size.x,
            result.logical_height == self.logical_size.y,
            result.saved_window_mode == self.saved_window_mode,
            result.app_name@ == app_name@,
            established_from(result) == *self,
    {
        let position = match self.position {
            EstablishedWindowPosition::Restorable { logical_offset } =>
                PersistedPosition::MonitorOffset(logical_offset),
            EstablishedWindowPosition::CompositorControlled => PersistedPosition::Unpositioned,
        };
        PersistedWindowState {
            target: PersistedWindowTargetV5::Classified(device_key),
            position,
            logical_width: self.logical_size.x,
            logical_height: self.logical_size.y,
            saved_window_mode: self.saved_window_mode,
            app_name: app_name.to_owned(),
        }
    }
}

fn cap(length: u32, limit: u32) -> (result: u32)
    ensures
        result == capped(length, limit),
{
    if length < limit {
        length
    } else {
        limit
    }
}

fn draw_back(offset: i32, limit: u32) -> (result: i32)
    ensures
        result == drawn_back(offset, limit),
{
    if offset < 0 {
        0
    } else if offset as u32 > limit {
        limit as i32
    } else {
        offset
    }
}

/// The configuration that a persisted record stands for. A legacy absolute coordinate becomes
/// compositor-controlled, because its old desktop origin cannot authorize a new position.
pub open spec fn established_from(persisted: PersistedWindowState) -> EstablishedWindowPlacement {
    EstablishedWindowPlacement {
        position: match persisted.position {
            PersistedPosition::MonitorOffset(logical_offset) =>
                EstablishedWindowPosition::Restorable { logical_offset },
            PersistedPosition::Unpositioned | PersistedPosition::Unrebased(_) =>
                EstablishedWindowPosition::CompositorControlled,
        },
        logical_size: UVec2 { x: persisted.logical_width, y: persisted.logical_height },
        saved_window_mode: persisted.saved_window_mode,
    }
}

impl From<&PersistedWindowState> for EstablishedWindowPlacement {
    fn from(persisted: &PersistedWindowState) -> (result: Self) {
        let position = match persisted.position {
            PersistedPosition::MonitorOffset(logical_offset) =>
                EstablishedWindowPosition::Restorable { logical_offset },
            PersistedPosition::Unpositioned | PersistedPosition::Unrebased(_) =>
                EstablishedWindowPosition::CompositorControlled,
        };
        EstablishedWindowPlacement {
            position,
            logical_size: UVec2 { x: persisted.logical_width, y: persisted.logical_height },
            saved_window_mode: persisted.saved_window_mode,
        }
    }
}

impl FromSpecImpl<&PersistedWindowState> for EstablishedWindowPlacement {
    open spec fn obeys_from_spec() -> bool {
        true
    }

    open spec fn from_spec(persisted: &PersistedWindowState) -> Self {
        established_from(*persisted)
    }
}

/// Whether a placement lies inside a monitor of this logical size.
pub open spec fn lies_inside(
    placement: EstablishedWindowPlacement,
    monitor_logical_size: UVec2,
) -> bool {
    &&& placement.logical_size.x <= monitor_logical_size.x
    &&& placement.logical_size.y <= monitor_logical_size.y
    &&& placement.position matches EstablishedWindowPosition::Restorable { logical_offset } ==> {
        &&& 0 <= logical_offset.x
        &&& 0 <= logical_offset.y
        &&& logical_offset.x + placement.logical_size.x <= monitor_logical_size.x
        &&& logical_offset.y + placement.logical_size.y <= monitor_logical_size.y
    }
}

/// A fitted placement lies inside the monitor, and a placement that lies inside is left alone, so
/// fitting twice changes nothing more.
pub proof fn fitting_brings_a_window_inside_once(
    placement: EstablishedWindowPlacement,
    monitor_logical_size: UVec2,
)
    ensures
        lies_inside(placement.fitted(monitor_logical_size), monitor_logical_size),
        lies_inside(placement, monitor_logical_size) ==> placement.fitted(monitor_logical_size)
            == placement,
        placement.fitted(monitor_logical_size).fitted(monitor_logical_size) == placement.fitted(
            monitor_logical_size,
        ),
{
}

/// The same offset restores to the same spot on its monitor: moving the monitor moves the window by
/// as much, and nothing else about the monitor moves it.
pub proof fn rebased_window_follows_its_monitor(
    placement: EstablishedWindowPlacement,
    first: MonitorDescriptor,
    second: MonitorDescriptor,
    scaled: ScaledMonitorOrigin,
)
    requires
        placement.position is Restorable,
        placement.rebases_within_range(first, scaled),
        placement.rebases_within_range(second, scaled),
    ensures
        placement.rebased(first, scaled)->physical_position.x - first.physical_position.x
            == placement.rebased(second, scaled)->physical_position.x - second.physical_position.x,
        placement.rebased(first, scaled)->physical_position.y - first.physical_position.y
            == placement.rebased(second, scaled)->physical_position.y - second.physical_position.y,
{
}

/// Fitting changes no more than it must, in each direction by itself: the size shrinks to the
/// monitor's where it is larger, and the window moves to the nearest edge that it hangs over. The mode
/// stays, and a window that the compositor places stays so.
pub proof fn fitting_changes_no_more_than_it_must(
    placement: EstablishedWindowPlacement,
    monitor_logical_size: UVec2,
    offset: IVec2,
)
    requires
        placement.position == (EstablishedWindowPosition::Restorable { logical_offset: offset }),
    ensures
        ({
            let fitted = placement.fitted(monitor_logical_size);
            let width = fitted.logical_size.x;
            let height = fitted.logical_size.y;
            &&& fitted.saved_window_mode == placement.saved_window_mode
            &&& width == placement.logical_size.x || width == monitor_logical_size.x
                < placement.logical_size.x
            &&& height == placement.logical_size.y || height == monitor_logical_size.y
                < placement.logical_size.y
            &&& fitted.position matches EstablishedWindowPosition::Restorable { logical_offset } && {
                &&& 0 <= offset.x && offset.x + width <= monitor_logical_size.x ==> logical_offset.x
                    == offset.x
                &&& 0 <= offset.y && offset.y + height <= monitor_logical_size.y
                    ==> logical_offset.y == offset.y
                &&& offset.x < 0 ==> logical_offset.x == 0
                &&& offset.y < 0 ==> logical_offset.y == 0
                &&& 0 <= offset.x && offset.x + width > monitor_logical_size.x ==> logical_offset.x
                    + width == monitor_logical_size.x
                &&& 0 <= offset.y && offset.y + height > monitor_logical_size.y
                    ==> logical_offset.y + height == monitor_logical_size.y
            }
        }),
{
}

/// A window that the compositor places is fitted in size alone.
pub proof fn fitting_gives_no_window_a_position(
    placement: EstablishedWindowPlacement,
    monitor_logical_size: UVec2,
)
    ensures
        placement.fitted(monitor_logical_size).position is CompositorControlled
            <==> placement.position is CompositorControlled,
        placement.fitted(monitor_logical_size).logical_size.x <= placement.logical_size.x,
        placement.fitted(monitor_logical_size).logical_size.y <= placement.logical_size.y,
        placement.fitted(monitor_logical_size).saved_window_mode == placement.saved_window_mode,
{
}

/// A rebased window is at the monitor's corner and its offset, in both kinds of pixels.
pub proof fn a_rebased_window_keeps_its_offset(
    placement: EstablishedWindowPlacement,
    monitor: MonitorDescriptor,
    scaled: ScaledMonitorOrigin,
)
    requires
        placement.rebases_within_range(monitor, scaled),
    ensures
        placement.position is CompositorControlled <==> placement.rebased(
            monitor,
            scaled,
        ) is CompositorControlled,
        placement.position matches EstablishedWindowPosition::Restorable { logical_offset } ==> (
        placement.rebased(monitor, scaled) matches RestorableWindowPosition::Restorable {
            physical_position,
            logical_position,
        } && {
            &&& physical_position.x == monitor.physical_position.x + scaled.physical_offset.x
            &&& physical_position.y == monitor.physical_position.y + scaled.physical_offset.y
            &&& logical_position.x == scaled.logical_origin.x + logical_offset.x
            &&& logical_position.y == scaled.logical_origin.y + logical_offset.y
        }),
{
}

/// What is read back of a window is its distance from the monitor that it is on, in both directions,
/// wherever the platform has positions.
pub proof fn a_readback_is_measured_from_its_monitor(
    monitor: MonitorDescriptor,
    position: IVec2,
    platform: Platform,
)
    requires
        position.difference_fits(monitor.physical_position),
    ensures
        readback_offset(monitor, None, platform) is None,
        platform == Platform::Wayland ==> readback_offset(monitor, Some(position), platform) is None,
        platform != Platform::Wayland ==> (readback_offset(
            monitor,
            Some(position),
            platform,
        ) matches Some(offset) && {
            &&& monitor.physical_position.x + offset.x == position.x
            &&& monitor.physical_position.y + offset.y == position.y
        }),
{
}

/// A record stands for the configuration that it was written from: its size and its mode, and its
/// offset where it has one. An old coordinate authorizes no position.
pub proof fn a_record_stands_for_its_configuration(persisted: PersistedWindowState)
    ensures
        established_from(persisted).logical_size.x == persisted.logical_width,
        established_from(persisted).logical_size.y == persisted.logical_height,
        established_from(persisted).saved_window_mode == persisted.saved_window_mode,
        persisted.position matches PersistedPosition::MonitorOffset(offset) ==> established_from(
            persisted,
        ).position == (EstablishedWindowPosition::Restorable { logical_offset: offset }),
        !(persisted.position is MonitorOffset) ==> established_from(
            persisted,
        ).position is CompositorControlled,
{
}

/// What is read back of a window is its placement: its offset where one was read, its size, and its mode.
pub proof fn a_readback_is_the_windows_placement(
    logical_offset: Option<IVec2>,
    logical_size: UVec2,
    mode: WindowMode,
    result: EstablishedWindowPlacement,
)
    requires
        call_ensures(
            EstablishedWindowPlacement::from_readback,
            (logical_offset, logical_size, &mode),
            result,
        ),
    ensures
        result.position is CompositorControlled <==> logical_offset is None,
        result.position matches EstablishedWindowPosition::Restorable { logical_offset: offset }
            ==> logical_offset == Some(offset),
        result.logical_size.x == logical_size.x,
        result.logical_size.y == logical_size.y,
        result.saved_window_mode is Windowed <==> mode is Windowed,
        result.saved_window_mode is BorderlessFullscreen <==> mode is BorderlessFullscreen,
        result.saved_window_mode is Fullscreen <==> mode is Fullscreen,
{
}

} // verus!
