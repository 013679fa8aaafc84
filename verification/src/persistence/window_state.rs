//! Saved window state.

use crate::device::{DeviceKey, DeviceKeyView};
use crate::geometry::{IVec2, UVec2};
use crate::monitors::identity::{
    fingerprint_keeps_its_digest, DisplayFingerprint, DisplayIdentity,
};
use crate::monitors::topology::CurrentMonitorIndex;
use crate::scale::{encodes_positive_finite, encodings_equal, ScaleFactor};
use crate::window_mode::{MonitorSelection, VideoMode, VideoModeSelection, WindowMode};
use vstd::prelude::*;
use vstd::std_specs::cmp::PartialEqSpecImpl;
use vstd::std_specs::convert::FromSpecImpl;

verus! {

/// Saved video mode for exclusive fullscreen.
#[derive(Clone, Copy, Debug, PartialEq, Eq, Structural)]
pub struct SavedVideoMode {
    pub physical_size: UVec2,
    pub bit_depth: u16,
    pub refresh_rate_millihertz: u32,
}

impl SavedVideoMode {
    /// The video mode that was saved.
    pub open spec fn video_mode(self) -> VideoMode {
        VideoMode {
            physical_size: self.physical_size,
            bit_depth: self.bit_depth,
            refresh_rate_millihertz: self.refresh_rate_millihertz,
        }
    }

    /// The video mode that was saved.
    pub fn to_video_mode(self) -> (result: VideoMode)
        ensures
            result == self.video_mode(),
    {
        VideoMode {
            physical_size: self.physical_size,
            bit_depth: self.bit_depth,
            refresh_rate_millihertz: self.refresh_rate_millihertz,
        }
    }
}

/// Saved video-mode choice for exclusive fullscreen.
#[derive(Clone, Copy, Debug, PartialEq, Eq, Structural)]
pub enum SavedFullscreenVideoMode {
    /// Re-enter exclusive fullscreen using the target display's current video mode.
    Current,
    /// Re-enter exclusive fullscreen using this exact observed video mode.
    Specific(SavedVideoMode),
}

/// Saved window mode. It does not say which monitor the window was on.
#[derive(Clone, Copy, Debug, PartialEq, Eq, Structural)]
pub enum SavedWindowMode {
    Windowed,
    BorderlessFullscreen,
    /// Exclusive fullscreen.
    Fullscreen { video_mode: SavedFullscreenVideoMode },
}

impl SavedWindowMode {
    /// The mode of a window that is restored to the monitor at `index`.
    pub open spec fn window_mode(self, index: usize) -> WindowMode {
        match self {
            SavedWindowMode::Windowed => WindowMode::Windowed,
            SavedWindowMode::BorderlessFullscreen => WindowMode::BorderlessFullscreen(
                MonitorSelection::Index(index),
            ),
            SavedWindowMode::Fullscreen { video_mode } => WindowMode::Fullscreen(
                MonitorSelection::Index(index),
                match video_mode {
                    SavedFullscreenVideoMode::Current => VideoModeSelection::Current,
                    SavedFullscreenVideoMode::Specific(saved) => VideoModeSelection::Specific(
                        saved.video_mode(),
                    ),
                },
            ),
        }
    }

    /// The mode of a window that is restored to the monitor at `monitor_index`.
    pub fn to_window_mode(self, monitor_index: CurrentMonitorIndex) -> (result: WindowMode)
        ensures
            result == self.window_mode(monitor_index@),
    {
        let selection = monitor_index.selection();
        match self {
            SavedWindowMode::Windowed => WindowMode::Windowed,
            SavedWindowMode::BorderlessFullscreen => WindowMode::BorderlessFullscreen(selection),
            SavedWindowMode::Fullscreen { video_mode } => match video_mode {
                SavedFullscreenVideoMode::Current => WindowMode::Fullscreen(
                    selection,
                    VideoModeSelection::Current,
                ),
                SavedFullscreenVideoMode::Specific(saved) => WindowMode::Fullscreen(
                    selection,
                    VideoModeSelection::Specific(saved.to_video_mode()),
                ),
            },
        }
    }

    /// Whether this is a fullscreen mode, borderless or exclusive.
    pub fn is_fullscreen(self) -> (result: bool)
        ensures
            result == !(self is Windowed),
    {
        match self {
            SavedWindowMode::Windowed => false,
            _ => true,
        }
    }
}

/// What is saved of a window mode.
pub open spec fn saved_mode(mode: WindowMode) -> SavedWindowMode {
    match mode {
        WindowMode::Windowed => SavedWindowMode::Windowed,
        WindowMode::BorderlessFullscreen(_) => SavedWindowMode::BorderlessFullscreen,
        WindowMode::Fullscreen(_, selection) => SavedWindowMode::Fullscreen {
            video_mode: match selection {
                VideoModeSelection::Current => SavedFullscreenVideoMode::Current,
                VideoModeSelection::Specific(mode) => SavedFullscreenVideoMode::Specific(
                    SavedVideoMode {
                        physical_size: mode.physical_size,
                        bit_depth: mode.bit_depth,
                        refresh_rate_millihertz: mode.refresh_rate_millihertz,
                    },
                ),
            },
        },
    }
}

impl From<&WindowMode> for SavedWindowMode {
    fn from(mode: &WindowMode) -> (result: Self) {
        match mode {
            WindowMode::Windowed => SavedWindowMode::Windowed,
            WindowMode::BorderlessFullscreen(_) => SavedWindowMode::BorderlessFullscreen,
            WindowMode::Fullscreen(_, selection) => SavedWindowMode::Fullscreen {
                video_mode: match selection {
                    VideoModeSelection::Current => SavedFullscreenVideoMode::Current,
                    VideoModeSelection::Specific(mode) => SavedFullscreenVideoMode::Specific(
                        SavedVideoMode {
                            physical_size: mode.physical_size,
                            bit_depth: mode.bit_depth,
                            refresh_rate_millihertz: mode.refresh_rate_millihertz,
                        },
                    ),
                },
            },
        }
    }
}

impl FromSpecImpl<&WindowMode> for SavedWindowMode {
    open spec fn obeys_from_spec() -> bool {
        true
    }

    open spec fn from_spec(mode: &WindowMode) -> Self {
        saved_mode(*mode)
    }
}

/// Saving a restored mode gives back what was saved, whichever monitor it was restored to.
pub proof fn restored_mode_saves_as_itself(saved: SavedWindowMode, index: usize)
    ensures
        saved_mode(saved.window_mode(index)) == saved,
{
}

/// A desktop coordinate that was saved before offsets were, paired with the monitor scale that was
/// in force when it was written.
#[derive(Clone, Copy, Debug)]
pub struct UnrebasedDesktopPosition {
    logical: IVec2,
    captured_scale: ScaleFactor,
}

impl UnrebasedDesktopPosition {
    #[verifier::type_invariant]
    spec fn has_usable_scale(&self) -> bool {
        encodes_positive_finite(self.captured_scale@)
    }

    /// The coordinate and its scale.
    pub closed spec fn of(logical: IVec2, captured_scale: ScaleFactor) -> Self {
        UnrebasedDesktopPosition { logical, captured_scale }
    }

    /// The saved coordinate.
    pub closed spec fn saved_logical(self) -> IVec2 {
        self.logical
    }

    /// The scale that was in force.
    pub closed spec fn saved_scale(self) -> ScaleFactor {
        self.captured_scale
    }

    /// The coordinate and its scale, unless the scale is not a finite number greater than zero.
    pub fn from_legacy(logical: IVec2, captured_scale: ScaleFactor) -> (result: Option<Self>)
        ensures
            match result {
                Some(unrebased) => encodes_positive_finite(captured_scale@)
                    && unrebased.saved_logical() == logical && unrebased.saved_scale()
                    == captured_scale && unrebased == Self::of(logical, captured_scale),
                None => !encodes_positive_finite(captured_scale@),
            },
    {
        if captured_scale.is_positive_finite() {
            Some(UnrebasedDesktopPosition { logical, captured_scale })
        } else {
            None
        }
    }

    /// The absolute logical desktop coordinate as written.
    pub fn logical(self) -> (result: IVec2)
        ensures
            result == self.saved_logical(),
    {
        self.logical
    }

    /// The monitor scale in force when the coordinate was written.
    pub fn captured_scale(self) -> (result: ScaleFactor)
        ensures
            result == self.saved_scale(),
            encodes_positive_finite(result@),
    {
        proof {
            use_type_invariant(self);
        }
        self.captured_scale
    }
}

/// An old coordinate is its point and its scale: it keeps both, and nothing else tells two apart.
pub proof fn old_coordinates_keep_their_parts(
    logical: IVec2,
    captured_scale: ScaleFactor,
    unrebased: UnrebasedDesktopPosition,
)
    ensures
        UnrebasedDesktopPosition::of(logical, captured_scale).saved_logical() == logical,
        UnrebasedDesktopPosition::of(logical, captured_scale).saved_scale() == captured_scale,
        UnrebasedDesktopPosition::of(unrebased.saved_logical(), unrebased.saved_scale())
            == unrebased,
{
}

/// Where a persisted window should be placed.
///
/// A monitor's logical origin depends on the scale in force when a coordinate was written. An offset
/// from the monitor's own corner does not.
#[derive(Clone, Copy, Debug)]
pub enum PersistedPosition {
    /// Logical-pixel offset of the window's top-left corner from its monitor's top-left corner.
    MonitorOffset(IVec2),
    /// An absolute desktop coordinate that has not been rebased onto a monitor yet.
    Unrebased(UnrebasedDesktopPosition),
    /// Nothing usable was saved.
    Unpositioned,
}

/// Whether two positions compare equal; captured scales compare as numbers.
pub open spec fn same_position(a: PersistedPosition, b: PersistedPosition) -> bool {
    match (a, b) {
        (
            PersistedPosition::MonitorOffset(offset),
            PersistedPosition::MonitorOffset(other_offset),
        ) => offset == other_offset,
        (PersistedPosition::Unrebased(unrebased), PersistedPosition::Unrebased(other_unrebased)) =>
            unrebased.saved_logical() == other_unrebased.saved_logical() && encodings_equal(
            unrebased.saved_scale()@,
            other_unrebased.saved_scale()@,
        ),
        (PersistedPosition::Unpositioned, PersistedPosition::Unpositioned) => true,
        _ => false,
    }
}

impl PartialEq for UnrebasedDesktopPosition {
    fn eq(&self, other: &Self) -> (same: bool) {
        self.logical == other.logical && self.captured_scale == other.captured_scale
    }
}

impl PartialEqSpecImpl for UnrebasedDesktopPosition {
    open spec fn obeys_eq_spec() -> bool {
        true
    }

    open spec fn eq_spec(&self, other: &Self) -> bool {
        self.saved_logical() == other.saved_logical() && encodings_equal(
            self.saved_scale()@,
            other.saved_scale()@,
        )
    }
}

impl PartialEq for PersistedPosition {
    fn eq(&self, other: &Self) -> (same: bool) {
        match (self, other) {
            (
                PersistedPosition::MonitorOffset(offset),
                PersistedPosition::MonitorOffset(other_offset),
            ) => *offset == *other_offset,
            (
                PersistedPosition::Unrebased(unrebased),
                PersistedPosition::Unrebased(other_unrebased),
            ) => unrebased == other_unrebased,
            (PersistedPosition::Unpositioned, PersistedPosition::Unpositioned) => true,
            _ => false,
        }
    }
}

impl PartialEqSpecImpl for PersistedPosition {
    open spec fn obeys_eq_spec() -> bool {
        true
    }

    open spec fn eq_spec(&self, other: &Self) -> bool {
        same_position(*self, *other)
    }
}

/// Display identity retained only for decoding old files and targets that wait for evidence.
#[derive(Clone, Copy, Debug, PartialEq, Eq, Structural)]
pub enum PersistedDisplayIdentityV4 {
    /// A fingerprint that can be compared with fresh reporter evidence.
    Fingerprinted(PersistedDisplayFingerprintV4),
    /// A record that never carried durable display evidence.
    Anonymous,
}

/// A saved fingerprint.
#[derive(Clone, Copy, Debug, PartialEq, Eq, Structural)]
pub struct PersistedDisplayFingerprintV4(pub u64);

impl Default for PersistedDisplayIdentityV4 {
    fn default() -> (result: Self)
        ensures
            result == PersistedDisplayIdentityV4::Anonymous,
    {
        PersistedDisplayIdentityV4::Anonymous
    }
}

/// The identity that a saved one stands for.
pub open spec fn live_identity(persisted: PersistedDisplayIdentityV4) -> DisplayIdentity {
    match persisted {
        PersistedDisplayIdentityV4::Fingerprinted(fingerprint) => DisplayIdentity::Fingerprinted(
            DisplayFingerprint::of_digest(fingerprint.0),
        ),
        PersistedDisplayIdentityV4::Anonymous => DisplayIdentity::Anonymous,
    }
}

impl From<PersistedDisplayIdentityV4> for DisplayIdentity {
    fn from(persisted: PersistedDisplayIdentityV4) -> (result: Self) {
        match persisted {
            PersistedDisplayIdentityV4::Fingerprinted(fingerprint) =>
                DisplayIdentity::Fingerprinted(DisplayFingerprint::from_digest(fingerprint.0)),
            PersistedDisplayIdentityV4::Anonymous => DisplayIdentity::Anonymous,
        }
    }
}

impl FromSpecImpl<PersistedDisplayIdentityV4> for DisplayIdentity {
    open spec fn obeys_from_spec() -> bool {
        true
    }

    open spec fn from_spec(persisted: PersistedDisplayIdentityV4) -> Self {
        live_identity(persisted)
    }
}

/// Durable target of a saved window.
#[derive(Debug)]
pub enum PersistedWindowTargetV5 {
    /// Fresh reporter evidence already classified the physical display as this exact kernel key.
    Classified(DeviceKey),
    /// A legacy file had no current exact evidence and must wait for a later reporter association.
    AwaitingLegacyEvidence(PersistedDisplayIdentityV4),
}

/// The contents of a [`PersistedWindowTargetV5`].
pub enum PersistedWindowTargetView {
    Classified(DeviceKeyView),
    AwaitingLegacyEvidence(PersistedDisplayIdentityV4),
}

impl View for PersistedWindowTargetV5 {
    type V = PersistedWindowTargetView;

    open spec fn view(&self) -> PersistedWindowTargetView {
        match self {
            PersistedWindowTargetV5::Classified(key) => PersistedWindowTargetView::Classified(key@),
            PersistedWindowTargetV5::AwaitingLegacyEvidence(identity) =>
                PersistedWindowTargetView::AwaitingLegacyEvidence(*identity),
        }
    }
}

impl Clone for PersistedWindowTargetV5 {
    fn clone(&self) -> (copy: Self)
        ensures
            copy == *self,
    {
        match self {
            PersistedWindowTargetV5::Classified(key) => PersistedWindowTargetV5::Classified(
                key.clone(),
            ),
            PersistedWindowTargetV5::AwaitingLegacyEvidence(identity) =>
                PersistedWindowTargetV5::AwaitingLegacyEvidence(*identity),
        }
    }
}

impl PartialEq for PersistedWindowTargetV5 {
    fn eq(&self, other: &Self) -> (same: bool) {
        match (self, other) {
            (
                PersistedWindowTargetV5::Classified(key),
                PersistedWindowTargetV5::Classified(other_key),
            ) => key == other_key,
            (
                PersistedWindowTargetV5::AwaitingLegacyEvidence(identity),
                PersistedWindowTargetV5::AwaitingLegacyEvidence(other_identity),
            ) => *identity == *other_identity,
            _ => false,
        }
    }
}

impl PartialEqSpecImpl for PersistedWindowTargetV5 {
    open spec fn obeys_eq_spec() -> bool {
        true
    }

    open spec fn eq_spec(&self, other: &Self) -> bool {
        self@ == other@
    }
}

impl Eq for PersistedWindowTargetV5 {

}

/// Saved window state. Sizes are in logical pixels, independent of scale factor.
#[derive(Debug)]
pub struct PersistedWindowState {
    /// Exact display authority, or a retained target that needs fresh reporter evidence.
    pub target: PersistedWindowTargetV5,
    /// Placement of the window relative to the target display.
    pub position: PersistedPosition,
    /// Content area width in logical pixels (excludes window decoration).
    pub logical_width: u32,
    /// Content area height in logical pixels (excludes window decoration).
    pub logical_height: u32,
    pub saved_window_mode: SavedWindowMode,
    pub app_name: String,
}

/// The contents of a [`PersistedWindowState`].
pub struct PersistedWindowStateView {
    pub target: PersistedWindowTargetView,
    pub position: PersistedPosition,
    pub logical_width: u32,
    pub logical_height: u32,
    pub saved_window_mode: SavedWindowMode,
    pub app_name: Seq<char>,
}

impl View for PersistedWindowState {
    type V = PersistedWindowStateView;

    open spec fn view(&self) -> PersistedWindowStateView {
        PersistedWindowStateView {
            target: self.target@,
            position: self.position,
            logical_width: self.logical_width,
            logical_height: self.logical_height,
            saved_window_mode: self.saved_window_mode,
            app_name: self.app_name@,
        }
    }
}

/// Whether two saved states compare equal.
pub open spec fn same_state(a: PersistedWindowState, b: PersistedWindowState) -> bool {
    &&& a.target@ == b.target@
    &&& same_position(a.position, b.position)
    &&& a.logical_width == b.logical_width
    &&& a.logical_height == b.logical_height
    &&& a.saved_window_mode == b.saved_window_mode
    &&& a.app_name@ == b.app_name@
}

impl Clone for PersistedWindowState {
    fn clone(&self) -> (copy: Self)
        ensures
            copy == *self,
    {
        PersistedWindowState {
            target: self.target.clone(),
            position: self.position,
            logical_width: self.logical_width,
            logical_height: self.logical_height,
            saved_window_mode: self.saved_window_mode,
            app_name: self.app_name.clone(),
        }
    }
}

impl PartialEq for PersistedWindowState {
    fn eq(&self, other: &Self) -> (same: bool) {
        self.target == other.target && self.position == other.position && self.logical_width
            == other.logical_width && self.logical_height == other.logical_height
            && self.saved_window_mode == other.saved_window_mode && self.app_name == other.app_name
    }
}

impl PartialEqSpecImpl for PersistedWindowState {
    open spec fn obeys_eq_spec() -> bool {
        true
    }

    open spec fn eq_spec(&self, other: &Self) -> bool {
        same_state(*self, *other)
    }
}

/// When a window that lost its display is put back.
#[derive(Clone, Copy, Debug, PartialEq, Eq, Structural)]
pub enum RecoveryPolicy {
    /// Its configuration is forgotten when the display leaves.
    Forget,
    /// It is put back when someone asks for it.
    ReapplyOnRequest,
    /// It is put back when the display returns.
    ReapplyOnReturn,
}

/// The policy that governs a window's kernel binding.
#[derive(Clone, Copy, Debug, PartialEq, Eq, Structural)]
pub struct BindingPolicy {
    pub recovery: RecoveryPolicy,
    /// The kernel's own encoding of the remaining settings, carried unread.
    pub kernel_settings: u64,
}

/// Policy source carried by one loaded window entry.
#[derive(Clone, Copy, Debug, PartialEq, Eq, Structural)]
pub enum LoadedBindingPolicy {
    /// The save format recorded every authored policy field.
    Saved(BindingPolicy),
    /// An older entry relies on the window's existing recovery markers.
    LegacyWindowMarkers,
}

/// One saved window placement together with the policy that governs its kernel binding.
#[derive(Debug)]
pub struct PersistedWindowPlacement {
    pub window_state: PersistedWindowState,
    pub loaded_binding_policy: LoadedBindingPolicy,
}

/// The contents of a [`PersistedWindowPlacement`].
pub struct PersistedWindowPlacementView {
    pub window_state: PersistedWindowStateView,
    pub loaded_binding_policy: LoadedBindingPolicy,
}

impl View for PersistedWindowPlacement {
    type V = PersistedWindowPlacementView;

    open spec fn view(&self) -> PersistedWindowPlacementView {
        PersistedWindowPlacementView {
            window_state: self.window_state@,
            loaded_binding_policy: self.loaded_binding_policy,
        }
    }
}

/// Whether two saved placements compare equal.
pub open spec fn same_placement(a: PersistedWindowPlacement, b: PersistedWindowPlacement) -> bool {
    same_state(a.window_state, b.window_state) && a.loaded_binding_policy
        == b.loaded_binding_policy
}

impl PersistedWindowPlacement {
    /// Pair a window state with its policy source.
    pub fn new(
        window_state: PersistedWindowState,
        loaded_binding_policy: LoadedBindingPolicy,
    ) -> (result: Self)
        ensures
            result == (PersistedWindowPlacement { window_state, loaded_binding_policy }),
    {
        PersistedWindowPlacement { window_state, loaded_binding_policy }
    }
}

impl Clone for PersistedWindowPlacement {
    fn clone(&self) -> (copy: Self)
        ensures
            copy == *self,
    {
        PersistedWindowPlacement {
            window_state: self.window_state.clone(),
            loaded_binding_policy: self.loaded_binding_policy,
        }
    }
}

impl PartialEq for PersistedWindowPlacement {
    fn eq(&self, other: &Self) -> (same: bool) {
        self.window_state == other.window_state && self.loaded_binding_policy
            == other.loaded_binding_policy
    }
}

impl PartialEqSpecImpl for PersistedWindowPlacement {
    open spec fn obeys_eq_spec() -> bool {
        true
    }

    open spec fn eq_spec(&self, other: &Self) -> bool {
        same_placement(*self, *other)
    }
}

impl From<PersistedWindowState> for PersistedWindowPlacement {
    fn from(window_state: PersistedWindowState) -> (result: Self) {
        PersistedWindowPlacement {
            window_state,
            loaded_binding_policy: LoadedBindingPolicy::LegacyWindowMarkers,
        }
    }
}

impl FromSpecImpl<PersistedWindowState> for PersistedWindowPlacement {
    open spec fn obeys_from_spec() -> bool {
        true
    }

    open spec fn from_spec(window_state: PersistedWindowState) -> Self {
        PersistedWindowPlacement {
            window_state,
            loaded_binding_policy: LoadedBindingPolicy::LegacyWindowMarkers,
        }
    }
}

/// Result of reading one role from the saved placements.
#[derive(Debug)]
pub enum PersistedWindowPlacementLookup<'a> {
    /// The save file contains this placement and policy source.
    Saved(&'a PersistedWindowPlacement),
    /// The role has no saved window placement.
    NotSaved,
}

impl<'a> PersistedWindowPlacementLookup<'a> {
    pub fn is_saved(&self) -> (result: bool)
        ensures
            result == self is Saved,
    {
        match self {
            PersistedWindowPlacementLookup::Saved(_) => true,
            PersistedWindowPlacementLookup::NotSaved => false,
        }
    }

    pub fn is_not_saved(&self) -> (result: bool)
        ensures
            result == self is NotSaved,
    {
        match self {
            PersistedWindowPlacementLookup::Saved(_) => false,
            PersistedWindowPlacementLookup::NotSaved => true,
        }
    }
}

/// Two saved states compare equal only if they agree in every part: the target, the position, the
/// width, the height, the mode and the application's name.
pub proof fn equal_states_agree_in_every_part(a: PersistedWindowState, b: PersistedWindowState)
    requires
        same_state(a, b),
    ensures
        a.target@ == b.target@,
        a.logical_width == b.logical_width,
        a.logical_height == b.logical_height,
        a.saved_window_mode == b.saved_window_mode,
        a.app_name@ == b.app_name@,
        positions_agree(a.position, b.position),
{
}

/// Whether two positions are of the same kind and agree in every coordinate and in the scale.
pub open spec fn positions_agree(a: PersistedPosition, b: PersistedPosition) -> bool {
    match (a, b) {
        (PersistedPosition::MonitorOffset(one), PersistedPosition::MonitorOffset(other)) => one.x
            == other.x && one.y == other.y,
        (PersistedPosition::Unrebased(one), PersistedPosition::Unrebased(other)) => {
            &&& one.saved_logical().x == other.saved_logical().x
            &&& one.saved_logical().y == other.saved_logical().y
            &&& encodings_equal(one.saved_scale()@, other.saved_scale()@)
        },
        (PersistedPosition::Unpositioned, PersistedPosition::Unpositioned) => true,
        _ => false,
    }
}

/// Saved states that agree in every part compare equal, so saving the same twice is no change.
pub proof fn states_that_agree_are_equal(a: PersistedWindowState, b: PersistedWindowState)
    requires
        a.target@ == b.target@,
        positions_agree(a.position, b.position),
        a.logical_width == b.logical_width,
        a.logical_height == b.logical_height,
        a.saved_window_mode == b.saved_window_mode,
        a.app_name@ == b.app_name@,
    ensures
        same_state(a, b),
{
}

/// Placements compare as their states do, and by their policies.
pub proof fn equal_placements_have_equal_states_and_policies(
    a: PersistedWindowPlacement,
    b: PersistedWindowPlacement,
)
    ensures
        same_placement(a, b) <==> same_state(a.window_state, b.window_state)
            && a.loaded_binding_policy == b.loaded_binding_policy,
{
}

/// The contents of a state are all of it: states with the same contents agree in every part.
pub proof fn contents_are_the_whole_state(a: PersistedWindowState, b: PersistedWindowState)
    requires
        a@ == b@,
    ensures
        a.target@ == b.target@,
        a.position == b.position,
        a.logical_width == b.logical_width,
        a.logical_height == b.logical_height,
        a.saved_window_mode == b.saved_window_mode,
        a.app_name@ == b.app_name@,
        a@.logical_width == a.logical_width,
        a@.logical_height == a.logical_height,
        a@.position == a.position,
        a@.saved_window_mode == a.saved_window_mode,
        a@.app_name == a.app_name@,
        a@.target == a.target@,
{
}

/// The contents of a placement are all of it.
pub proof fn contents_are_the_whole_placement(
    a: PersistedWindowPlacement,
    b: PersistedWindowPlacement,
)
    requires
        a@ == b@,
    ensures
        a.window_state@ == b.window_state@,
        a.loaded_binding_policy == b.loaded_binding_policy,
        a@.window_state == a.window_state@,
        a@.loaded_binding_policy == a.loaded_binding_policy,
{
}

/// A saved target is either an exact key or an old identity, and keeps the one it is.
pub proof fn contents_are_the_whole_target(target: PersistedWindowTargetV5)
    ensures
        target matches PersistedWindowTargetV5::Classified(key) ==> target@
            == PersistedWindowTargetView::Classified(key@),
        target matches PersistedWindowTargetV5::AwaitingLegacyEvidence(identity) ==> target@
            == PersistedWindowTargetView::AwaitingLegacyEvidence(identity),
{
}

/// A mode is saved as what it is: windowed, borderless, or exclusive with its video mode; which monitor
/// it was on is not part of it.
pub proof fn a_mode_is_saved_as_what_it_is(mode: WindowMode)
    ensures
        saved_mode(mode) is Windowed <==> mode is Windowed,
        saved_mode(mode) is BorderlessFullscreen <==> mode is BorderlessFullscreen,
        saved_mode(mode) is Fullscreen <==> mode is Fullscreen,
        mode matches WindowMode::Fullscreen(_, VideoModeSelection::Current) ==> saved_mode(mode) == (
        SavedWindowMode::Fullscreen { video_mode: SavedFullscreenVideoMode::Current }),
        mode matches WindowMode::Fullscreen(_, VideoModeSelection::Specific(video)) ==> (saved_mode(
            mode,
        ) matches SavedWindowMode::Fullscreen { video_mode: SavedFullscreenVideoMode::Specific(
            saved,
        ) } && saved.physical_size == video.physical_size && saved.bit_depth == video.bit_depth
            && saved.refresh_rate_millihertz == video.refresh_rate_millihertz),
{
}

/// A saved fingerprint stands for the live one with the same digest, and nothing else does.
pub proof fn a_saved_fingerprint_keeps_its_digest(persisted: PersistedDisplayIdentityV4)
    ensures
        persisted is Anonymous <==> live_identity(persisted) is Anonymous,
        persisted matches PersistedDisplayIdentityV4::Fingerprinted(saved) ==> (live_identity(
            persisted,
        ) matches DisplayIdentity::Fingerprinted(live) && live@ == saved.0),
{
    if let PersistedDisplayIdentityV4::Fingerprinted(saved) = persisted {
        fingerprint_keeps_its_digest(saved.0);
    }
}

/// An old coordinate keeps its value and the scale that wrote it.
pub proof fn an_unrebased_coordinate_keeps_its_scale(logical: IVec2, captured_scale: ScaleFactor)
    ensures
        UnrebasedDesktopPosition::of(logical, captured_scale).saved_logical() == logical,
        UnrebasedDesktopPosition::of(logical, captured_scale).saved_scale() == captured_scale,
{
}

} // verus!
