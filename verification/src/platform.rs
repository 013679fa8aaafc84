//! Display platforms and what each of them can do.
//!
//! Every platform-specific branch of the library goes through a method on [`Platform`].

use crate::device::{
    DeviceIdSource, DeviceIdView, DeviceKey, DeviceKeyView, DeviceKind, Digest, SchemeName,
};
use crate::monitors::identity::{DisplayIdentityEvidence, DisplayIdentityEvidenceView};
use crate::monitors::topology::{DisplayDeviceEvidence, DisplayDeviceEvidenceView};
use crate::persistence::established_window_placement::EstablishedWindowPosition;
use crate::persistence::window_state::SavedWindowMode;
use crate::restore::strategy::{FullscreenRestoreState, MonitorScaleStrategy, WindowRestoreState};
use crate::window_mode::WindowMode;
use vstd::prelude::*;

verus! {

/// The operating system that the library runs on.
#[derive(Clone, Copy, Debug, PartialEq, Eq, Structural)]
pub enum OperatingSystem {
    MacOs,
    Windows,
    Linux,
}

/// The display platform, detected once at startup.
///
/// Each method below answers one platform question the window restore path asks.
#[derive(Clone, Copy, Debug, PartialEq, Eq, Structural)]
pub enum Platform {
    /// macOS.
    MacOs,
    /// Windows.
    Windows,
    /// Linux running an X11 session.
    X11,
    /// Linux running a Wayland session.
    Wayland,
}

/// Which workarounds for window-system defects are switched on.
#[derive(Clone, Copy, Debug, PartialEq, Eq, Structural)]
pub struct Workarounds {
    /// Exclusive fullscreen on Windows needs the rendering surface first (winit issue 3124).
    pub fullscreen_surface: bool,
    /// Sizes and positions are converted with the wrong monitor's scale (winit issue 4440).
    pub cross_scale: bool,
    /// X11 positions leave out the title bar (winit issue 4445).
    pub frame_extents: bool,
}

/// Whether an automatic return can reproduce the captured placement.
#[derive(Clone, Copy, Debug, PartialEq, Eq, Structural)]
pub enum ReturnCapability {
    Supported,
    Unsupported,
}

/// How the launch monitor's scale relates to the target monitor's.
#[derive(Clone, Copy, Debug, PartialEq, Eq, Structural)]
pub enum ScaleRelation {
    /// The scales are the same but for rounding.
    Same,
    /// The launch monitor's scale is the lower one.
    LaunchLower,
    /// The launch monitor's scale is not the lower one.
    LaunchHigher,
}

impl Platform {
    /// Whether window position is available from the windowing system.
    pub open spec fn has_positions(self) -> bool {
        self != Platform::Wayland
    }

    /// Whether positions are compensated for the window frame.
    pub open spec fn compensates_frames(self, workarounds: Workarounds) -> bool {
        workarounds.frame_extents && self == Platform::X11
    }

    /// The platform of an operating system. On Linux, a `WAYLAND_DISPLAY` variable that is not
    /// empty tells Wayland from X11.
    pub fn detect(operating_system: OperatingSystem, wayland_display: Option<&str>) -> (result:
        Self)
        ensures
            result == match operating_system {
                OperatingSystem::MacOs => Platform::MacOs,
                OperatingSystem::Windows => Platform::Windows,
                OperatingSystem::Linux => if wayland_display matches Some(value) && value@.len()
                    > 0 {
                    Platform::Wayland
                } else {
                    Platform::X11
                },
            },
    {
        match operating_system {
            OperatingSystem::MacOs => Platform::MacOs,
            OperatingSystem::Windows => Platform::Windows,
            OperatingSystem::Linux => match wayland_display {
                Some(value) => if value.is_empty() {
                    Platform::X11
                } else {
                    Platform::Wayland
                },
                None => Platform::X11,
            },
        }
    }

    /// Whether this is the Linux X11 platform.
    pub fn is_x11(self) -> (result: bool)
        ensures
            result == (self == Platform::X11),
    {
        self == Platform::X11
    }

    /// Whether this is the Linux Wayland platform.
    pub fn is_wayland(self) -> (result: bool)
        ensures
            result == (self == Platform::Wayland),
    {
        self == Platform::Wayland
    }

    /// Whether window position is available from the windowing system.
    ///
    /// Wayland does not expose window position to clients. All other platforms provide it.
    pub fn position_available(self) -> (result: bool)
        ensures
            result == self.has_positions(),
    {
        self != Platform::Wayland
    }

    /// Whether an automatic return can reproduce the captured placement.
    pub fn fallback_return_capability(
        self,
        position: EstablishedWindowPosition,
        saved_window_mode: &SavedWindowMode,
    ) -> (result: ReturnCapability)
        ensures
            result == match *saved_window_mode {
                SavedWindowMode::Fullscreen { .. } => ReturnCapability::Unsupported,
                SavedWindowMode::BorderlessFullscreen => ReturnCapability::Supported,
                SavedWindowMode::Windowed => if position is Restorable {
                    ReturnCapability::Supported
                } else {
                    ReturnCapability::Unsupported
                },
            },
    {
        match saved_window_mode {
            SavedWindowMode::Fullscreen { .. } => ReturnCapability::Unsupported,
            SavedWindowMode::BorderlessFullscreen => ReturnCapability::Supported,
            SavedWindowMode::Windowed => match position {
                EstablishedWindowPosition::Restorable { .. } => ReturnCapability::Supported,
                EstablishedWindowPosition::CompositorControlled => ReturnCapability::Unsupported,
            },
        }
    }

    /// Whether two window modes count as a match: they are equal, or on Wayland exclusive
    /// fullscreen was asked for and borderless fullscreen came out, in place of it.
    pub open spec fn accepts_mode(self, target: WindowMode, actual: WindowMode) -> bool {
        target == actual || (self == Platform::Wayland && target is Fullscreen
            && actual is BorderlessFullscreen)
    }

    /// Whether `target` and `actual` window modes count as a match during settle comparison.
    pub fn modes_match(self, target: WindowMode, actual: WindowMode) -> (result: bool)
        ensures
            result == self.accepts_mode(target, actual),
    {
        if target == actual {
            return true;
        }
        match (target, actual) {
            (WindowMode::Fullscreen(_, _), WindowMode::BorderlessFullscreen(_)) => self
                == Platform::Wayland,
            _ => false,
        }
    }

    /// Whether the primary window should be hidden on startup to prevent a flash at the default
    /// position before restore completes.
    ///
    /// Where X11 frames are compensated, the window must stay visible so that its frame extents can
    /// be queried.
    pub fn should_hide_on_startup(self, workarounds: Workarounds) -> (result: bool)
        ensures
            result == !self.compensates_frames(workarounds),
    {
        !(workarounds.frame_extents && self == Platform::X11)
    }

    /// Whether X11 frame extent compensation is needed.
    pub fn needs_frame_compensation(self, workarounds: Workarounds) -> (result: bool)
        ensures
            result == self.compensates_frames(workarounds),
    {
        workarounds.frame_extents && self == Platform::X11
    }

    /// Whether restore preparation must wait for X11 frame compensation before placement. A
    /// fullscreen restore has no title bar to subtract.
    pub fn awaits_frame_compensation(
        self,
        saved_window_mode: &SavedWindowMode,
        workarounds: Workarounds,
    ) -> (result: bool)
        ensures
            result == (self.compensates_frames(workarounds) && *saved_window_mode is Windowed),
    {
        self.needs_frame_compensation(workarounds) && !saved_window_mode.is_fullscreen()
    }

    /// Whether position readback is reliable for settle comparison. A compensated position and the
    /// position that is read back differ by the title bar.
    pub fn position_reliable_for_settle(self, workarounds: Workarounds) -> (result: bool)
        ensures
            result == !self.compensates_frames(workarounds),
    {
        !self.needs_frame_compensation(workarounds)
    }

    /// Whether saved position should be clamped to monitor bounds. macOS does not allow windows to
    /// span monitors; all other platforms preserve the exact saved position.
    pub fn should_clamp_position(self) -> (result: bool)
        ensures
            result == (self == Platform::MacOs),
    {
        self == Platform::MacOs
    }

    /// Whether exclusive fullscreen should fall back to borderless.
    pub fn exclusive_fullscreen_fallback(self) -> (result: bool)
        ensures
            result == (self == Platform::Wayland),
    {
        self == Platform::Wayland
    }

    /// The first phase of a fullscreen restore.
    pub open spec fn first_fullscreen_phase(self, workarounds: Workarounds) -> FullscreenRestoreState {
        match self {
            Platform::MacOs => FullscreenRestoreState::LeaveFullscreen,
            Platform::X11 => FullscreenRestoreState::MoveToMonitor,
            Platform::Windows => if workarounds.fullscreen_surface {
                FullscreenRestoreState::WaitForSurface
            } else {
                FullscreenRestoreState::ApplyMode
            },
            Platform::Wayland => FullscreenRestoreState::ApplyMode,
        }
    }

    /// The first phase of a fullscreen restore.
    pub fn fullscreen_restore_state(self, workarounds: Workarounds) -> (result:
        FullscreenRestoreState)
        ensures
            result == self.first_fullscreen_phase(workarounds),
    {
        if workarounds.fullscreen_surface && self == Platform::Windows {
            return FullscreenRestoreState::WaitForSurface;
        }
        match self {
            Platform::MacOs => FullscreenRestoreState::LeaveFullscreen,
            Platform::X11 => FullscreenRestoreState::MoveToMonitor,
            Platform::Windows | Platform::Wayland => FullscreenRestoreState::ApplyMode,
        }
    }

    /// The scale strategy of a window restore across scales.
    pub open spec fn strategy_for(
        self,
        relation: ScaleRelation,
        workarounds: Workarounds,
    ) -> MonitorScaleStrategy {
        if !workarounds.cross_scale || self == Platform::Wayland || relation
            == ScaleRelation::Same {
            MonitorScaleStrategy::ApplyUnchanged
        } else if self == Platform::Windows {
            MonitorScaleStrategy::CompensateSizeOnly(WindowRestoreState::NeedInitialMove)
        } else if relation == ScaleRelation::LaunchLower {
            MonitorScaleStrategy::LowerToHigher
        } else {
            MonitorScaleStrategy::HigherToLower(WindowRestoreState::NeedInitialMove)
        }
    }

    /// The scale strategy of a window restore across scales.
    ///
    /// Wayland handles scale itself. On Windows only the size goes through scale conversion; on
    /// macOS and X11 both position and size do.
    pub fn scale_strategy(self, relation: ScaleRelation, workarounds: Workarounds) -> (result:
        MonitorScaleStrategy)
        ensures
            result == self.strategy_for(relation, workarounds),
    {
        if !workarounds.cross_scale {
            return MonitorScaleStrategy::ApplyUnchanged;
        }
        if self == Platform::Wayland {
            return MonitorScaleStrategy::ApplyUnchanged;
        }
        match relation {
            ScaleRelation::Same => MonitorScaleStrategy::ApplyUnchanged,
            ScaleRelation::LaunchLower => if self == Platform::Windows {
                MonitorScaleStrategy::CompensateSizeOnly(WindowRestoreState::NeedInitialMove)
            } else {
                MonitorScaleStrategy::LowerToHigher
            },
            ScaleRelation::LaunchHigher => if self == Platform::Windows {
                MonitorScaleStrategy::CompensateSizeOnly(WindowRestoreState::NeedInitialMove)
            } else {
                MonitorScaleStrategy::HigherToLower(WindowRestoreState::NeedInitialMove)
            },
        }
    }

    /// Whether managed windows need scale strategy recalculation on creation. Wayland is the one
    /// platform where the cross-scale strategies never apply.
    pub fn needs_managed_scale_fixup(self) -> (result: bool)
        ensures
            result == (self != Platform::Wayland),
    {
        match self {
            Platform::Windows | Platform::MacOs | Platform::X11 => true,
            Platform::Wayland => false,
        }
    }
}

/// Classification that either produces the reporter's exact device key or records its absence.
#[derive(Debug)]
pub enum DisplayKeyClassification {
    /// The display supplied durable evidence that can name one kernel device.
    Keyed(DeviceKey),
    /// The platform supplied match evidence only, which cannot address a monitor later.
    MatchEvidenceOnly,
}

/// The durable key that a display's evidence supplies, if any.
pub open spec fn display_key(
    evidence: DisplayDeviceEvidenceView,
    edid_serial_scheme: Seq<char>,
) -> Option<DeviceKeyView> {
    match evidence.identity_evidence {
        DisplayIdentityEvidenceView::ReportedSerial(value) => Some(
            DeviceKeyView {
                kind: DeviceKind::Display,
                id: DeviceIdView::Reported { scheme: edid_serial_scheme, value },
            },
        ),
        DisplayIdentityEvidenceView::Synthesized { display_fingerprint, .. } => Some(
            DeviceKeyView {
                kind: DeviceKind::Display,
                id: DeviceIdView::Synthesized { digest: Digest(display_fingerprint@) },
            },
        ),
        DisplayIdentityEvidenceView::Unavailable { .. } => None,
    }
}

/// Apply the reporter's durable display-key rules to one display's evidence.
pub fn classify_display_key(
    evidence: &DisplayDeviceEvidence,
    edid_serial_scheme: &SchemeName,
) -> (result: DisplayKeyClassification)
    ensures
        match display_key(evidence@, edid_serial_scheme@) {
            Some(key) => result matches DisplayKeyClassification::Keyed(found) && found@ == key,
            None => result is MatchEvidenceOnly,
        },
{
    match &evidence.identity_evidence {
        DisplayIdentityEvidence::ReportedSerial(value) => DisplayKeyClassification::Keyed(
            DeviceKey {
                kind: DeviceKind::Display,
                id: DeviceIdSource::Reported {
                    scheme: edid_serial_scheme.clone(),
                    value: value.clone(),
                },
            },
        ),
        DisplayIdentityEvidence::Synthesized { display_fingerprint, .. } =>
            DisplayKeyClassification::Keyed(
            DeviceKey {
                kind: DeviceKind::Display,
                id: DeviceIdSource::Synthesized { digest: Digest(display_fingerprint.get()) },
            },
        ),
        DisplayIdentityEvidence::Unavailable { .. } => DisplayKeyClassification::MatchEvidenceOnly,
    }
}

/// A display's key follows its identity alone: neither its handle nor its attachment names it.
pub proof fn display_key_ignores_handle_and_attachment(
    a: DisplayDeviceEvidenceView,
    b: DisplayDeviceEvidenceView,
    edid_serial_scheme: Seq<char>,
)
    requires
        a.identity_evidence == b.identity_evidence,
    ensures
        display_key(a, edid_serial_scheme) == display_key(b, edid_serial_scheme),
{
}

/// Only unequal scales are compensated for, and never on Wayland: on Windows the size alone, and
/// elsewhere in one step towards a higher scale and in two towards a lower one.
pub proof fn only_unequal_scales_are_compensated(
    platform: Platform,
    relation: ScaleRelation,
    workarounds: Workarounds,
)
    ensures
        platform.strategy_for(relation, workarounds) is ApplyUnchanged <==> {
            ||| !workarounds.cross_scale
            ||| platform is Wayland
            ||| relation is Same
        },
        platform.strategy_for(relation, workarounds) is CompensateSizeOnly ==> platform is Windows,
        platform.strategy_for(relation, workarounds) is LowerToHigher ==> (platform is MacOs
            || platform is X11) && relation is LaunchLower,
        platform.strategy_for(relation, workarounds) is HigherToLower ==> (platform is MacOs
            || platform is X11) && relation is LaunchHigher,
        match platform.strategy_for(relation, workarounds) {
            MonitorScaleStrategy::CompensateSizeOnly(phase) => phase is NeedInitialMove,
            MonitorScaleStrategy::HigherToLower(phase) => phase is NeedInitialMove,
            _ => true,
        },
{
}

/// A fullscreen restore starts by leaving the fullscreen space on macOS alone, by moving on X11
/// alone, and by waiting for a surface on Windows alone, where that workaround is on; otherwise the
/// mode is applied at once.
pub proof fn a_fullscreen_restore_starts_as_its_platform_needs(
    platform: Platform,
    workarounds: Workarounds,
)
    ensures
        platform.first_fullscreen_phase(workarounds) is LeaveFullscreen <==> platform is MacOs,
        platform.first_fullscreen_phase(workarounds) is MoveToMonitor <==> platform is X11,
        platform.first_fullscreen_phase(workarounds) is WaitForSurface <==> platform is Windows
            && workarounds.fullscreen_surface,
        platform.first_fullscreen_phase(workarounds) is ApplyMode <==> platform is Wayland || (
        platform is Windows && !workarounds.fullscreen_surface),
{
}

/// A mode is accepted in place of another one in one way only: on Wayland, borderless fullscreen
/// stands in for exclusive fullscreen. A window that is to be windowed has to be windowed.
pub proof fn no_other_mode_is_accepted(platform: Platform, target: WindowMode, actual: WindowMode)
    ensures
        platform.accepts_mode(target, target),
        platform.accepts_mode(target, actual) && target != actual ==> platform is Wayland && (
        target is Fullscreen && actual is BorderlessFullscreen),
        platform is Wayland && target is Fullscreen && actual is BorderlessFullscreen
            ==> platform.accepts_mode(target, actual),
        platform.accepts_mode(target, actual) ==> (target is Windowed <==> actual is Windowed),
{
}

/// Positions are withheld by Wayland alone, and frames are compensated on X11 alone.
pub proof fn wayland_hides_positions_and_x11_hides_frames(
    platform: Platform,
    workarounds: Workarounds,
)
    ensures
        !platform.has_positions() <==> platform is Wayland,
        platform.compensates_frames(workarounds) <==> platform is X11 && workarounds.frame_extents,
{
}

/// Displays with different identities have different keys, and every key names a display: a serial is
/// a key under the given scheme, a fingerprint is one by itself, and without evidence there is none.
pub proof fn a_display_key_is_its_identity(
    a: DisplayDeviceEvidenceView,
    b: DisplayDeviceEvidenceView,
    scheme: Seq<char>,
)
    ensures
        display_key(a, scheme) is None <==> a.identity_evidence is Unavailable,
        display_key(a, scheme) matches Some(key) ==> {
            &&& key.kind is Display
            &&& match key.id {
                DeviceIdView::Reported { scheme: found, value } => found == scheme
                    && a.identity_evidence == DisplayIdentityEvidenceView::ReportedSerial(value),
                DeviceIdView::Synthesized { digest } =>
                    a.identity_evidence matches DisplayIdentityEvidenceView::Synthesized {
                        display_fingerprint,
                        ..
                    } && display_fingerprint@ == digest.0,
                DeviceIdView::Authored { .. } => false,
            }
        },
        a.identity_evidence is ReportedSerial && b.identity_evidence is ReportedSerial ==> (
        display_key(a, scheme) == display_key(b, scheme) <==> a.identity_evidence
            == b.identity_evidence),
        a.identity_evidence is ReportedSerial && b.identity_evidence is Synthesized ==> display_key(
            a,
            scheme,
        ) != display_key(b, scheme),
{
}

/// Only macOS clamps positions to the monitor, and only Wayland has no exclusive fullscreen and scales
/// managed windows itself. A window is hidden at startup, and its position relied on, except where X11
/// frames are compensated, and such frames are awaited for windowed windows alone.
pub proof fn every_platform_question_has_its_answer(
    platform: Platform,
    workarounds: Workarounds,
    saved_window_mode: SavedWindowMode,
    answer: bool,
)
    ensures
        call_ensures(Platform::should_clamp_position, (platform,), answer) ==> (answer
            <==> platform is MacOs),
        call_ensures(Platform::exclusive_fullscreen_fallback, (platform,), answer) ==> (answer
            <==> platform is Wayland),
        call_ensures(Platform::needs_managed_scale_fixup, (platform,), answer) ==> (answer <==> !(
        platform is Wayland)),
        call_ensures(Platform::position_available, (platform,), answer) ==> (answer <==> !(
        platform is Wayland)),
        call_ensures(Platform::is_x11, (platform,), answer) ==> (answer <==> platform is X11),
        call_ensures(Platform::is_wayland, (platform,), answer) ==> (answer <==> platform is Wayland),
        call_ensures(Platform::should_hide_on_startup, (platform, workarounds), answer) ==> (answer
            <==> !(platform is X11 && workarounds.frame_extents)),
        call_ensures(Platform::position_reliable_for_settle, (platform, workarounds), answer) ==> (
        answer <==> !(platform is X11 && workarounds.frame_extents)),
        call_ensures(
            Platform::awaits_frame_compensation,
            (platform, &saved_window_mode, workarounds),
            answer,
        ) ==> (answer <==> platform is X11 && workarounds.frame_extents
            && saved_window_mode is Windowed),
{
}

/// A return can be made to borderless fullscreen, and to a windowed placement whose position is known;
/// never to exclusive fullscreen.
pub proof fn a_return_needs_a_placement_that_can_be_made_again(
    platform: Platform,
    position: EstablishedWindowPosition,
    saved_window_mode: SavedWindowMode,
    answer: ReturnCapability,
)
    requires
        call_ensures(
            Platform::fallback_return_capability,
            (platform, position, &saved_window_mode),
            answer,
        ),
    ensures
        saved_window_mode is BorderlessFullscreen ==> answer is Supported,
        saved_window_mode is Fullscreen ==> answer is Unsupported,
        saved_window_mode is Windowed ==> (answer is Supported <==> position is Restorable),
{
}

} // verus!
