//! On-disk window-state formats and their one-way conversions.
//!
//! Every versioned file has an envelope with its version. The envelope is read before the entries,
//! so a malformed file or envelope rejects the whole file, while one invalid entry of a valid
//! envelope is left out without its siblings. A file from before the envelope holds one bare record.
//!
//! | Format | Description |
//! |--------|-------------|
//! | Legacy single-window | Bare v1-style state before multi-window support |
//! | v1 | Physical field names and an enumeration index |
//! | v2 | Logical dimensions and an absolute coordinate |
//! | v3 | Monitor-relative positions plus the retired enumeration index |
//! | v4 | Private display fingerprints without reporter key strength |
//! | v5 | Reporter-classified display keys or retained v4 evidence awaiting a live match |

use super::roles::{
    persisted_role, roles_and_their_keys_determine_each_other, PersistedWindowRole,
    PersistedWindowRoleView,
};
use super::window_state::{
    an_unrebased_coordinate_keeps_its_scale, PersistedDisplayIdentityV4, PersistedPosition, PersistedWindowPlacement, PersistedWindowState,
    PersistedWindowStateView,
    PersistedWindowTargetV5, PersistedWindowTargetView, SavedFullscreenVideoMode, SavedVideoMode,
    SavedWindowMode, UnrebasedDesktopPosition,
};
use crate::device::{
    DeviceIdSource, DeviceIdView, DeviceKey, DeviceKeyView, DeviceKind, RegisteredSchemes, RoleKey,
    SchemeName,
};
use crate::geometry::IVec2;
use crate::monitors::device_association::{
    LiveMonitorEvidence, MonitorDeviceAssociation, MonitorDeviceKeyLookup,
};
use crate::role_map::RoleMap;
use crate::scale::{encodes_positive_finite, scale_factors_are_their_encodings, ScaleFactor};
use crate::text::text_order_is_total;
use vstd::prelude::*;
use vstd::std_specs::cmp::PartialEqSpecImpl;

verus! {

/// The version that normal saves write.
pub const CURRENT_STATE_VERSION: u8 = 5;

/// Double-precision encoding of the scale factor 1, the scale of records that name none.
pub const DEFAULT_SCALE_FACTOR_BITS: u64 = 0x3FF0_0000_0000_0000;

/// How the envelope of a file is to be read.
#[derive(Clone, Copy, Debug, PartialEq, Eq, Structural)]
pub enum EnvelopeFormat {
    /// There is no version, so the file holds one bare record.
    LegacySingleWindow,
    /// Fields that the format does not know are ignored.
    Frozen,
    /// Fields that the format does not know reject the file.
    Strict,
}

/// How the envelope of a file is to be read, from the version that was found in it.
pub open spec fn envelope_format_of(version: Option<u8>) -> EnvelopeFormat {
    match version {
        None => EnvelopeFormat::LegacySingleWindow,
        Some(found) => if 1 <= found <= 4 {
            EnvelopeFormat::Frozen
        } else {
            EnvelopeFormat::Strict
        },
    }
}

/// How the envelope of a file is to be read, from the version that was found in it.
pub fn envelope_format(version: Option<u8>) -> (result: EnvelopeFormat)
    ensures
        result == envelope_format_of(version),
{
    match version {
        None => EnvelopeFormat::LegacySingleWindow,
        Some(1) | Some(2) | Some(3) | Some(4) => EnvelopeFormat::Frozen,
        Some(_) => EnvelopeFormat::Strict,
    }
}

/// Fullscreen representation whose absent mode meant the current display mode.
#[derive(Clone, Copy, Debug, PartialEq, Eq, Structural)]
pub enum SavedWindowModeV4 {
    Windowed,
    BorderlessFullscreen,
    Fullscreen { video_mode: Option<SavedVideoMode> },
}

/// State of the first formats.
#[derive(Debug)]
pub struct PersistedWindowStateV1 {
    pub logical_position: Option<IVec2>,
    pub logical_width: u32,
    pub logical_height: u32,
    pub monitor_index: usize,
    pub saved_window_mode: SavedWindowModeV4,
    pub app_name: String,
}

/// State with an absolute desktop coordinate and the scale that wrote it.
#[derive(Debug)]
pub struct PersistedWindowStateV2 {
    pub logical_position: Option<IVec2>,
    pub logical_width: u32,
    pub logical_height: u32,
    pub scale: ScaleFactor,
    pub monitor: usize,
    pub saved_window_mode: SavedWindowModeV4,
    pub app_name: String,
}

/// State whose enumeration index is discarded.
#[derive(Debug)]
pub struct PersistedWindowStateV3 {
    pub position: PersistedPosition,
    pub logical_width: u32,
    pub logical_height: u32,
    pub monitor_index: usize,
    pub monitor_panel: PersistedDisplayIdentityV4,
    pub saved_window_mode: SavedWindowModeV4,
    pub app_name: String,
}

/// State with a private display fingerprint.
#[derive(Debug)]
pub struct PersistedWindowStateV4 {
    pub position: PersistedPosition,
    pub logical_width: u32,
    pub logical_height: u32,
    pub monitor_panel: PersistedDisplayIdentityV4,
    pub saved_window_mode: SavedWindowModeV4,
    pub app_name: String,
}

/// One entry of a versioned file.
#[derive(Debug)]
pub struct PersistedEntry<S> {
    pub persisted_role: PersistedWindowRole,
    pub window_state: S,
}

/// The entries of an envelope, each read in its version's format; `None` for one that cannot be.
#[derive(Debug)]
pub enum PersistedEntries {
    V1(Vec<Option<PersistedEntry<PersistedWindowStateV1>>>),
    V2(Vec<Option<PersistedEntry<PersistedWindowStateV2>>>),
    V3(Vec<Option<PersistedEntry<PersistedWindowStateV3>>>),
    V4(Vec<Option<PersistedEntry<PersistedWindowStateV4>>>),
    V5(Vec<Option<PersistedEntry<PersistedWindowState>>>),
    /// No format goes with the envelope's version.
    Unsupported,
}

/// A file, as far as it can be read.
#[derive(Debug)]
pub enum ParsedStateFile {
    /// No version was found. The bare record, if the file is one.
    LegacySingleWindow(Option<PersistedWindowStateV1>),
    /// This version was found. The envelope's own version and its entries, if it can be read.
    Versioned { probed_version: u8, envelope: Option<(u8, PersistedEntries)> },
}

/// Whole-file result.
#[derive(Debug)]
pub enum PersistedWindowStateDecodeOutcome {
    /// The envelope was valid; invalid entries were left out.
    Decoded(RoleMap<PersistedWindowState>),
    /// The file is not readable, so the loader must preserve it.
    WholeFileRejected,
}

/// Why fresh evidence cannot become a classified display target.
#[derive(Debug)]
pub enum PersistedWindowIdentityMigrationFailure {
    /// The key names a device that is not a display.
    NonDisplayKey { found: DeviceKind },
    /// The key's scheme was not registered by the running application.
    UnregisteredScheme { scheme: SchemeName },
}

/// The contents of a [`PersistedWindowIdentityMigrationFailure`].
pub enum MigrationFailureView {
    NonDisplayKey { found: DeviceKind },
    UnregisteredScheme { scheme: Seq<char> },
}

impl View for PersistedWindowIdentityMigrationFailure {
    type V = MigrationFailureView;

    open spec fn view(&self) -> MigrationFailureView {
        match self {
            PersistedWindowIdentityMigrationFailure::NonDisplayKey { found } =>
                MigrationFailureView::NonDisplayKey { found: *found },
            PersistedWindowIdentityMigrationFailure::UnregisteredScheme { scheme } =>
                MigrationFailureView::UnregisteredScheme { scheme: scheme@ },
        }
    }
}

impl PartialEq for PersistedWindowIdentityMigrationFailure {
    fn eq(&self, other: &Self) -> (same: bool) {
        match (self, other) {
            (
                PersistedWindowIdentityMigrationFailure::NonDisplayKey { found },
                PersistedWindowIdentityMigrationFailure::NonDisplayKey { found: other_found },
            ) => *found == *other_found,
            (
                PersistedWindowIdentityMigrationFailure::UnregisteredScheme { scheme },
                PersistedWindowIdentityMigrationFailure::UnregisteredScheme {
                    scheme: other_scheme,
                },
            ) => scheme == other_scheme,
            _ => false,
        }
    }
}

impl PartialEqSpecImpl for PersistedWindowIdentityMigrationFailure {
    open spec fn obeys_eq_spec() -> bool {
        true
    }

    open spec fn eq_spec(&self, other: &Self) -> bool {
        self@ == other@
    }
}

impl Eq for PersistedWindowIdentityMigrationFailure {

}

/// Result of translating an old target into one with a reporter's key.
#[derive(Debug)]
pub enum PersistedWindowIdentityMigrationOutcome {
    /// Fresh reporter evidence identified one exact kernel display key.
    Resolved(DeviceKey),
    /// No unique compatible live report exists yet, so preserve the evidence for a later scan.
    AwaitingLiveEvidence(PersistedDisplayIdentityV4),
    /// Fresh evidence named an invalid key and this entry cannot be retained safely.
    Rejected(PersistedWindowIdentityMigrationFailure),
}

/// Why a key cannot anchor a window position, if it cannot.
pub open spec fn key_failure(key: DeviceKeyView, schemes: Set<Seq<char>>) -> Option<
    MigrationFailureView,
> {
    if key.kind != DeviceKind::Display {
        Some(MigrationFailureView::NonDisplayKey { found: key.kind })
    } else {
        match key.id {
            DeviceIdView::Reported { scheme, .. } => if schemes.contains(scheme) {
                None
            } else {
                Some(MigrationFailureView::UnregisteredScheme { scheme })
            },
            _ => None,
        }
    }
}

/// Check that a key can anchor a window position: it names a display, and a reported identifier is
/// in a registered scheme.
pub fn validate_classified_key(device_key: &DeviceKey, registered_schemes: &RegisteredSchemes) -> (
result: Result<(), PersistedWindowIdentityMigrationFailure>)
    ensures
        match key_failure(device_key@, registered_schemes@) {
            Some(failure) => result matches Err(error) && error@ == failure,
            None => result is Ok,
        },
{
    if device_key.kind != DeviceKind::Display {
        return Err(
            PersistedWindowIdentityMigrationFailure::NonDisplayKey { found: device_key.kind },
        );
    }
    match &device_key.id {
        DeviceIdSource::Reported { scheme, .. } => {
            if registered_schemes.contains(scheme) {
                Ok(())
            } else {
                Err(
                    PersistedWindowIdentityMigrationFailure::UnregisteredScheme {
                        scheme: scheme.clone(),
                    },
                )
            }
        },
        DeviceIdSource::Synthesized { .. } | DeviceIdSource::Authored { .. } => Ok(()),
    }
}

/// Check the target of a current entry. One that still waits for evidence is always valid.
pub fn validate_window_target(
    target: &PersistedWindowTargetV5,
    registered_schemes: &RegisteredSchemes,
) -> (result: Result<(), PersistedWindowIdentityMigrationFailure>)
    ensures
        match target@ {
            PersistedWindowTargetView::Classified(key) => match key_failure(
                key,
                registered_schemes@,
            ) {
                Some(failure) => result matches Err(error) && error@ == failure,
                None => result is Ok,
            },
            PersistedWindowTargetView::AwaitingLegacyEvidence(_) => result is Ok,
        },
{
    match target {
        PersistedWindowTargetV5::Classified(device_key) => validate_classified_key(
            device_key,
            registered_schemes,
        ),
        PersistedWindowTargetV5::AwaitingLegacyEvidence(_) => Ok(()),
    }
}

/// The target that an old identity becomes, given the one live key that answers to it. `None` where
/// that key is invalid.
pub open spec fn migrated_target(
    identity: PersistedDisplayIdentityV4,
    live_key: Option<DeviceKeyView>,
    schemes: Set<Seq<char>>,
) -> Option<PersistedWindowTargetView> {
    match live_key {
        None => Some(PersistedWindowTargetView::AwaitingLegacyEvidence(identity)),
        Some(key) => if key_failure(key, schemes) is None {
            Some(PersistedWindowTargetView::Classified(key))
        } else {
            None
        },
    }
}

/// Translate an old identity, given the one live key that answers to it.
pub fn resolve_legacy_target(
    identity: PersistedDisplayIdentityV4,
    live_key: Option<DeviceKey>,
    registered_schemes: &RegisteredSchemes,
) -> (result: PersistedWindowIdentityMigrationOutcome)
    ensures
        match live_key {
            None => result
                == PersistedWindowIdentityMigrationOutcome::AwaitingLiveEvidence(identity),
            Some(key) => match key_failure(key@, registered_schemes@) {
                Some(failure) =>
                    result matches PersistedWindowIdentityMigrationOutcome::Rejected(error)
                    && error@ == failure,
                None => result == PersistedWindowIdentityMigrationOutcome::Resolved(key),
            },
        },
{
    match live_key {
        None => PersistedWindowIdentityMigrationOutcome::AwaitingLiveEvidence(identity),
        Some(device_key) => match validate_classified_key(&device_key, registered_schemes) {
            Ok(()) => PersistedWindowIdentityMigrationOutcome::Resolved(device_key),
            Err(error) => PersistedWindowIdentityMigrationOutcome::Rejected(error),
        },
    }
}

/// Where an old coordinate leaves a window: nowhere if there is none, or if the scale that wrote it
/// is not a finite number greater than zero.
pub open spec fn position_of_legacy(
    logical_position: Option<IVec2>,
    captured_scale: ScaleFactor,
) -> PersistedPosition {
    match logical_position {
        None => PersistedPosition::Unpositioned,
        Some(logical) => if encodes_positive_finite(captured_scale@) {
            PersistedPosition::Unrebased(UnrebasedDesktopPosition::of(logical, captured_scale))
        } else {
            PersistedPosition::Unpositioned
        },
    }
}

/// Where an old coordinate leaves a window.
pub fn legacy_position(logical_position: Option<IVec2>, captured_scale: ScaleFactor) -> (result:
    PersistedPosition)
    ensures
        result == position_of_legacy(logical_position, captured_scale),
{
    match logical_position {
        None => PersistedPosition::Unpositioned,
        Some(logical) => match UnrebasedDesktopPosition::from_legacy(logical, captured_scale) {
            Some(unrebased) => PersistedPosition::Unrebased(unrebased),
            None => PersistedPosition::Unpositioned,
        },
    }
}

/// The mode that an old mode becomes.
pub open spec fn migrated_mode(mode: SavedWindowModeV4) -> SavedWindowMode {
    match mode {
        SavedWindowModeV4::Windowed => SavedWindowMode::Windowed,
        SavedWindowModeV4::BorderlessFullscreen => SavedWindowMode::BorderlessFullscreen,
        SavedWindowModeV4::Fullscreen { video_mode } => SavedWindowMode::Fullscreen {
            video_mode: match video_mode {
                Some(mode) => SavedFullscreenVideoMode::Specific(mode),
                None => SavedFullscreenVideoMode::Current,
            },
        },
    }
}

/// The mode that an old mode becomes.
pub fn convert_window_mode(mode: SavedWindowModeV4) -> (result: SavedWindowMode)
    ensures
        result == migrated_mode(mode),
{
    match mode {
        SavedWindowModeV4::Windowed => SavedWindowMode::Windowed,
        SavedWindowModeV4::BorderlessFullscreen => SavedWindowMode::BorderlessFullscreen,
        SavedWindowModeV4::Fullscreen { video_mode } => SavedWindowMode::Fullscreen {
            video_mode: match video_mode {
                Some(mode) => SavedFullscreenVideoMode::Specific(mode),
                None => SavedFullscreenVideoMode::Current,
            },
        },
    }
}

/// What the first format's state becomes: the enumeration index identifies nothing and is dropped.
pub open spec fn v4_of_v1(state: PersistedWindowStateV1) -> PersistedWindowStateV4 {
    PersistedWindowStateV4 {
        position: position_of_legacy(
            state.logical_position,
            ScaleFactor::of_bits(DEFAULT_SCALE_FACTOR_BITS),
        ),
        logical_width: state.logical_width,
        logical_height: state.logical_height,
        monitor_panel: PersistedDisplayIdentityV4::Anonymous,
        saved_window_mode: state.saved_window_mode,
        app_name: state.app_name,
    }
}

/// What the second format's state becomes.
pub open spec fn v4_of_v2(state: PersistedWindowStateV2) -> PersistedWindowStateV4 {
    PersistedWindowStateV4 {
        position: position_of_legacy(state.logical_position, state.scale),
        logical_width: state.logical_width,
        logical_height: state.logical_height,
        monitor_panel: PersistedDisplayIdentityV4::Anonymous,
        saved_window_mode: state.saved_window_mode,
        app_name: state.app_name,
    }
}

/// What the third format's state becomes.
pub open spec fn v4_of_v3(state: PersistedWindowStateV3) -> PersistedWindowStateV4 {
    PersistedWindowStateV4 {
        position: state.position,
        logical_width: state.logical_width,
        logical_height: state.logical_height,
        monitor_panel: state.monitor_panel,
        saved_window_mode: state.saved_window_mode,
        app_name: state.app_name,
    }
}

/// What the fourth format's state becomes with this target.
pub open spec fn v5_of_v4(
    state: PersistedWindowStateV4,
    target: PersistedWindowTargetView,
) -> PersistedWindowStateView {
    PersistedWindowStateView {
        target,
        position: state.position,
        logical_width: state.logical_width,
        logical_height: state.logical_height,
        saved_window_mode: migrated_mode(state.saved_window_mode),
        app_name: state.app_name@,
    }
}

pub fn convert_v1_state_to_v4(state: PersistedWindowStateV1) -> (result: PersistedWindowStateV4)
    ensures
        result == v4_of_v1(state),
{
    PersistedWindowStateV4 {
        position: legacy_position(
            state.logical_position,
            ScaleFactor::from_bits(DEFAULT_SCALE_FACTOR_BITS),
        ),
        logical_width: state.logical_width,
        logical_height: state.logical_height,
        monitor_panel: PersistedDisplayIdentityV4::Anonymous,
        saved_window_mode: state.saved_window_mode,
        app_name: state.app_name,
    }
}

pub fn convert_v2_state_to_v4(state: PersistedWindowStateV2) -> (result: PersistedWindowStateV4)
    ensures
        result == v4_of_v2(state),
{
    PersistedWindowStateV4 {
        position: legacy_position(state.logical_position, state.scale),
        logical_width: state.logical_width,
        logical_height: state.logical_height,
        monitor_panel: PersistedDisplayIdentityV4::Anonymous,
        saved_window_mode: state.saved_window_mode,
        app_name: state.app_name,
    }
}

pub fn convert_v3_state_to_v4(state: PersistedWindowStateV3) -> (result: PersistedWindowStateV4)
    ensures
        result == v4_of_v3(state),
{
    PersistedWindowStateV4 {
        position: state.position,
        logical_width: state.logical_width,
        logical_height: state.logical_height,
        monitor_panel: state.monitor_panel,
        saved_window_mode: state.saved_window_mode,
        app_name: state.app_name,
    }
}

/// The state that the fourth format's becomes while these displays are live, if its target is valid.
pub open spec fn migrated_state(
    state: PersistedWindowStateV4,
    association: MonitorDeviceAssociation,
    schemes: Set<Seq<char>>,
) -> Option<PersistedWindowStateView> {
    match migrated_target(
        state.monitor_panel,
        association.only_key(LiveMonitorEvidence::LegacyIdentity(state.monitor_panel)),
        schemes,
    ) {
        Some(target) => Some(v5_of_v4(state, target)),
        None => None,
    }
}

pub fn convert_v4_state_to_v5(
    state: PersistedWindowStateV4,
    association: &MonitorDeviceAssociation,
    registered_schemes: &RegisteredSchemes,
) -> (result: Result<PersistedWindowState, PersistedWindowIdentityMigrationFailure>)
    requires
        association.wf(),
    ensures
        match migrated_state(state, *association, registered_schemes@) {
            Some(view) => result matches Ok(converted) && converted@ == view,
            None => result matches Err(failure) && key_failure(
                association.only_key(LiveMonitorEvidence::LegacyIdentity(state.monitor_panel))->0,
                registered_schemes@,
            ) == Some(failure@),
        },
{
    let live_key = match association.device_for_legacy_panel(state.monitor_panel) {
        MonitorDeviceKeyLookup::Exact(device_key) => Some(device_key),
        MonitorDeviceKeyLookup::Unresolved => None,
    };
    let target = match resolve_legacy_target(state.monitor_panel, live_key, registered_schemes) {
        PersistedWindowIdentityMigrationOutcome::Resolved(device_key) =>
            PersistedWindowTargetV5::Classified(device_key),
        PersistedWindowIdentityMigrationOutcome::AwaitingLiveEvidence(identity) =>
            PersistedWindowTargetV5::AwaitingLegacyEvidence(identity),
        PersistedWindowIdentityMigrationOutcome::Rejected(failure) => {
            return Err(failure);
        },
    };
    Ok(
        PersistedWindowState {
            target,
            position: state.position,
            logical_width: state.logical_width,
            logical_height: state.logical_height,
            saved_window_mode: convert_window_mode(state.saved_window_mode),
            app_name: state.app_name,
        },
    )
}

/// What one readable entry contributes: its role key and its state.
pub type EntryContribution = Option<(Seq<char>, PersistedWindowStateView)>;

/// How often readable entries are for `role`.
pub open spec fn occurrences(entries: Seq<EntryContribution>, role: Seq<char>) -> nat
    decreases entries.len(),
{
    if entries.len() == 0 {
        0
    } else if is_for_role(entries.last(), role) {
        occurrences(entries.drop_last(), role) + 1
    } else {
        occurrences(entries.drop_last(), role)
    }
}

/// Whether an entry is readable and for `role`.
pub open spec fn is_for_role(entry: EntryContribution, role: Seq<char>) -> bool {
    entry matches Some((contributed, _)) && contributed == role
}

/// The state of the last readable entry for `role`.
pub open spec fn contributed_state(entries: Seq<EntryContribution>, role: Seq<char>) -> Option<
    PersistedWindowStateView,
>
    decreases entries.len(),
{
    if entries.len() == 0 {
        None
    } else {
        match entries.last() {
            Some((contributed, state)) if contributed == role => Some(state),
            _ => contributed_state(entries.drop_last(), role),
        }
    }
}

/// The states that entries contribute. A role that occurs again takes back what was contributed for
/// it, so a role has a state exactly where it occurs an odd number of times, and then its last one.
pub open spec fn decoded_entries(entries: Seq<EntryContribution>) -> Map<
    Seq<char>,
    PersistedWindowStateView,
> {
    Map::new(
        |role: Seq<char>| occurrences(entries, role) % 2 == 1,
        |role: Seq<char>| contributed_state(entries, role)->0,
    )
}

/// The contents of decoded states.
pub open spec fn state_views(states: Map<Seq<char>, PersistedWindowState>) -> Map<
    Seq<char>,
    PersistedWindowStateView,
> {
    states.map_values(|state: PersistedWindowState| state@)
}

/// What a decoded entry contributes.
pub open spec fn contribution(
    entry: Option<(PersistedWindowRole, PersistedWindowState)>,
) -> EntryContribution {
    match entry {
        Some((role, state)) => Some((role@.role(), state@)),
        None => None,
    }
}

/// What decoded entries contribute.
pub open spec fn contributions(
    entries: Seq<Option<(PersistedWindowRole, PersistedWindowState)>>,
) -> Seq<EntryContribution> {
    entries.map_values(
        |entry: Option<(PersistedWindowRole, PersistedWindowState)>| contribution(entry),
    )
}

fn decode_entries(entries: Vec<Option<(PersistedWindowRole, PersistedWindowState)>>) -> (result:
    RoleMap<PersistedWindowState>)
    ensures
        result.wf(),
        state_views(result@) == decoded_entries(contributions(entries@)),
{
    let mut states: RoleMap<PersistedWindowState> = RoleMap::new();
    let ghost all = contributions(entries@);
    assert(all.take(0) =~= Seq::empty());
    for entry in iter: entries
        invariant
            iter.seq() == entries@,
            all == contributions(entries@),
            states.wf(),
            forall|role: Seq<char>| #[trigger]
                states@.contains_key(role) <==> occurrences(all.take(iter.index()), role) % 2 == 1,
            forall|role: Seq<char>| #[trigger]
                states@.contains_key(role) ==> contributed_state(
                    all.take(iter.index()),
                    role,
                ) == Some(states@[role]@),
    {
        let ghost index = iter.index();
        assert(all.take(index + 1).drop_last() =~= all.take(index));
        assert(all.take(index + 1).last() == contribution(entry));
        if let Some((persisted_role, state)) = entry {
            if let Ok(role) = persisted_role.role_key() {
                if states.contains_key(&role) {
                    states.remove(&role);
                } else {
                    states.insert(role, state);
                }
            }
        }
    }
    assert(all.take(all.len() as int) =~= all);
    assert(state_views(states@) =~= decoded_entries(all));
    states
}

/// An entry with its state converted.
pub open spec fn v4_entry_of_v1(entry: Option<PersistedEntry<PersistedWindowStateV1>>) -> Option<
    PersistedEntry<PersistedWindowStateV4>,
> {
    match entry {
        Some(readable) => Some(
            PersistedEntry {
                persisted_role: readable.persisted_role,
                window_state: v4_of_v1(readable.window_state),
            },
        ),
        None => None,
    }
}

/// An entry with its state converted.
pub open spec fn v4_entry_of_v2(entry: Option<PersistedEntry<PersistedWindowStateV2>>) -> Option<
    PersistedEntry<PersistedWindowStateV4>,
> {
    match entry {
        Some(readable) => Some(
            PersistedEntry {
                persisted_role: readable.persisted_role,
                window_state: v4_of_v2(readable.window_state),
            },
        ),
        None => None,
    }
}

/// An entry with its state converted.
pub open spec fn v4_entry_of_v3(entry: Option<PersistedEntry<PersistedWindowStateV3>>) -> Option<
    PersistedEntry<PersistedWindowStateV4>,
> {
    match entry {
        Some(readable) => Some(
            PersistedEntry {
                persisted_role: readable.persisted_role,
                window_state: v4_of_v3(readable.window_state),
            },
        ),
        None => None,
    }
}

/// What an entry of the fourth format contributes: nothing if its target is invalid.
pub open spec fn v4_contribution(
    entry: Option<PersistedEntry<PersistedWindowStateV4>>,
    association: MonitorDeviceAssociation,
    schemes: Set<Seq<char>>,
) -> EntryContribution {
    match entry {
        Some(readable) => match migrated_state(readable.window_state, association, schemes) {
            Some(state) => Some((readable.persisted_role@.role(), state)),
            None => None,
        },
        None => None,
    }
}

/// Whether a target is one that a current entry may have.
pub open spec fn is_valid_target(
    target: PersistedWindowTargetView,
    schemes: Set<Seq<char>>,
) -> bool {
    match target {
        PersistedWindowTargetView::Classified(key) => key_failure(key, schemes) is None,
        PersistedWindowTargetView::AwaitingLegacyEvidence(_) => true,
    }
}

/// What an entry of the current format contributes: nothing if its target is invalid.
pub open spec fn v5_contribution(
    entry: Option<PersistedEntry<PersistedWindowState>>,
    schemes: Set<Seq<char>>,
) -> EntryContribution {
    match entry {
        Some(readable) => if is_valid_target(readable.window_state.target@, schemes) {
            Some((readable.persisted_role@.role(), readable.window_state@))
        } else {
            None
        },
        None => None,
    }
}

/// What entries of the fourth format contribute.
pub open spec fn v4_contributions(
    entries: Seq<Option<PersistedEntry<PersistedWindowStateV4>>>,
    association: MonitorDeviceAssociation,
    schemes: Set<Seq<char>>,
) -> Seq<EntryContribution> {
    entries.map_values(
        |entry: Option<PersistedEntry<PersistedWindowStateV4>>|
            v4_contribution(entry, association, schemes),
    )
}

/// What entries of the current format contribute.
pub open spec fn v5_contributions(
    entries: Seq<Option<PersistedEntry<PersistedWindowState>>>,
    schemes: Set<Seq<char>>,
) -> Seq<EntryContribution> {
    entries.map_values(
        |entry: Option<PersistedEntry<PersistedWindowState>>| v5_contribution(entry, schemes),
    )
}

/// The states that entries contribute, in the format that goes with the envelope's version. `None`
/// where no format does.
pub open spec fn decoded_envelope(
    version: u8,
    entries: PersistedEntries,
    association: MonitorDeviceAssociation,
    schemes: Set<Seq<char>>,
) -> Option<Map<Seq<char>, PersistedWindowStateView>> {
    match entries {
        PersistedEntries::V1(entries) => if version == 1 {
            Some(
                decoded_entries(
                    v4_contributions(
                        entries@.map_values(
                            |entry: Option<PersistedEntry<PersistedWindowStateV1>>|
                                v4_entry_of_v1(entry),
                        ),
                        association,
                        schemes,
                    ),
                ),
            )
        } else {
            None
        },
        PersistedEntries::V2(entries) => if version == 2 {
            Some(
                decoded_entries(
                    v4_contributions(
                        entries@.map_values(
                            |entry: Option<PersistedEntry<PersistedWindowStateV2>>|
                                v4_entry_of_v2(entry),
                        ),
                        association,
                        schemes,
                    ),
                ),
            )
        } else {
            None
        },
        PersistedEntries::V3(entries) => if version == 3 {
            Some(
                decoded_entries(
                    v4_contributions(
                        entries@.map_values(
                            |entry: Option<PersistedEntry<PersistedWindowStateV3>>|
                                v4_entry_of_v3(entry),
                        ),
                        association,
                        schemes,
                    ),
                ),
            )
        } else {
            None
        },
        PersistedEntries::V4(entries) => if version == 4 {
            Some(decoded_entries(v4_contributions(entries@, association, schemes)))
        } else {
            None
        },
        PersistedEntries::V5(entries) => if version == CURRENT_STATE_VERSION {
            Some(decoded_entries(v5_contributions(entries@, schemes)))
        } else {
            None
        },
        PersistedEntries::Unsupported => None,
    }
}

/// The states in a file; `None` where the whole file is rejected.
pub open spec fn decoded_file(
    parsed: ParsedStateFile,
    association: MonitorDeviceAssociation,
    schemes: Set<Seq<char>>,
) -> Option<Map<Seq<char>, PersistedWindowStateView>> {
    match parsed {
        ParsedStateFile::LegacySingleWindow(record) => match record {
            Some(state) => Some(
                match migrated_state(v4_of_v1(state), association, schemes) {
                    Some(migrated) => Map::empty().insert(
                        PersistedWindowRoleView::Primary.role(),
                        migrated,
                    ),
                    None => Map::empty(),
                },
            ),
            None => None,
        },
        ParsedStateFile::Versioned { probed_version, envelope } => match envelope {
            Some((version, entries)) => if version == probed_version {
                decoded_envelope(version, entries, association, schemes)
            } else {
                None
            },
            None => None,
        },
    }
}

fn v4_entries_from_v1(entries: Vec<Option<PersistedEntry<PersistedWindowStateV1>>>) -> (result: Vec<
    Option<PersistedEntry<PersistedWindowStateV4>>,
>)
    ensures
        result@ == entries@.map_values(
            |entry: Option<PersistedEntry<PersistedWindowStateV1>>| v4_entry_of_v1(entry),
        ),
{
    let mut result: Vec<Option<PersistedEntry<PersistedWindowStateV4>>> = Vec::new();
    for entry in iter: entries
        invariant
            iter.seq() == entries@,
            result@.len() == iter.index(),
            forall|i: int| 0 <= i < result@.len() ==> #[trigger] result@[i] == v4_entry_of_v1(
                entries@[i],
            ),
    {
        result.push(
            match entry {
                Some(readable) => Some(
                    PersistedEntry {
                        persisted_role: readable.persisted_role,
                        window_state: convert_v1_state_to_v4(readable.window_state),
                    },
                ),
                None => None,
            },
        );
    }
    assert(result@ =~= entries@.map_values(
        |entry: Option<PersistedEntry<PersistedWindowStateV1>>| v4_entry_of_v1(entry),
    ));
    result
}

fn v4_entries_from_v2(entries: Vec<Option<PersistedEntry<PersistedWindowStateV2>>>) -> (result: Vec<
    Option<PersistedEntry<PersistedWindowStateV4>>,
>)
    ensures
        result@ == entries@.map_values(
            |entry: Option<PersistedEntry<PersistedWindowStateV2>>| v4_entry_of_v2(entry),
        ),
{
    let mut result: Vec<Option<PersistedEntry<PersistedWindowStateV4>>> = Vec::new();
    for entry in iter: entries
        invariant
            iter.seq() == entries@,
            result@.len() == iter.index(),
            forall|i: int| 0 <= i < result@.len() ==> #[trigger] result@[i] == v4_entry_of_v2(
                entries@[i],
            ),
    {
        result.push(
            match entry {
                Some(readable) => Some(
                    PersistedEntry {
                        persisted_role: readable.persisted_role,
                        window_state: convert_v2_state_to_v4(readable.window_state),
                    },
                ),
                None => None,
            },
        );
    }
    assert(result@ =~= entries@.map_values(
        |entry: Option<PersistedEntry<PersistedWindowStateV2>>| v4_entry_of_v2(entry),
    ));
    result
}

fn v4_entries_from_v3(entries: Vec<Option<PersistedEntry<PersistedWindowStateV3>>>) -> (result: Vec<
    Option<PersistedEntry<PersistedWindowStateV4>>,
>)
    ensures
        result@ == entries@.map_values(
            |entry: Option<PersistedEntry<PersistedWindowStateV3>>| v4_entry_of_v3(entry),
        ),
{
    let mut result: Vec<Option<PersistedEntry<PersistedWindowStateV4>>> = Vec::new();
    for entry in iter: entries
        invariant
            iter.seq() == entries@,
            result@.len() == iter.index(),
            forall|i: int| 0 <= i < result@.len() ==> #[trigger] result@[i] == v4_entry_of_v3(
                entries@[i],
            ),
    {
        result.push(
            match entry {
                Some(readable) => Some(
                    PersistedEntry {
                        persisted_role: readable.persisted_role,
                        window_state: convert_v3_state_to_v4(readable.window_state),
                    },
                ),
                None => None,
            },
        );
    }
    assert(result@ =~= entries@.map_values(
        |entry: Option<PersistedEntry<PersistedWindowStateV3>>| v4_entry_of_v3(entry),
    ));
    result
}

fn decode_v4(
    entries: Vec<Option<PersistedEntry<PersistedWindowStateV4>>>,
    association: &MonitorDeviceAssociation,
    registered_schemes: &RegisteredSchemes,
) -> (result: RoleMap<PersistedWindowState>)
    requires
        association.wf(),
    ensures
        result.wf(),
        state_views(result@) == decoded_entries(
            v4_contributions(entries@, *association, registered_schemes@),
        ),
{
    let ghost all = v4_contributions(entries@, *association, registered_schemes@);
    let mut decoded: Vec<Option<(PersistedWindowRole, PersistedWindowState)>> = Vec::new();
    for entry in iter: entries
        invariant
            iter.seq() == entries@,
            association.wf(),
            all == v4_contributions(entries@, *association, registered_schemes@),
            decoded@.len() == iter.index(),
            forall|i: int| 0 <= i < decoded@.len() ==> contribution(#[trigger] decoded@[i])
                == all[i],
    {
        assert(all[iter.index()] == v4_contribution(entry, *association, registered_schemes@));
        decoded.push(
            match entry {
                Some(readable) => match convert_v4_state_to_v5(
                    readable.window_state,
                    association,
                    registered_schemes,
                ) {
                    Ok(state) => Some((readable.persisted_role, state)),
                    Err(_) => None,
                },
                None => None,
            },
        );
    }
    assert(contributions(decoded@) =~= all);
    decode_entries(decoded)
}

fn decode_v5(
    entries: Vec<Option<PersistedEntry<PersistedWindowState>>>,
    registered_schemes: &RegisteredSchemes,
) -> (result: RoleMap<PersistedWindowState>)
    ensures
        result.wf(),
        state_views(result@) == decoded_entries(v5_contributions(entries@, registered_schemes@)),
{
    let ghost all = v5_contributions(entries@, registered_schemes@);
    let mut decoded: Vec<Option<(PersistedWindowRole, PersistedWindowState)>> = Vec::new();
    for entry in iter: entries
        invariant
            iter.seq() == entries@,
            all == v5_contributions(entries@, registered_schemes@),
            decoded@.len() == iter.index(),
            forall|i: int| 0 <= i < decoded@.len() ==> contribution(#[trigger] decoded@[i])
                == all[i],
    {
        assert(all[iter.index()] == v5_contribution(entry, registered_schemes@));
        decoded.push(
            match entry {
                Some(readable) => match validate_window_target(
                    &readable.window_state.target,
                    registered_schemes,
                ) {
                    Ok(()) => Some((readable.persisted_role, readable.window_state)),
                    Err(_) => None,
                },
                None => None,
            },
        );
    }
    assert(contributions(decoded@) =~= all);
    decode_entries(decoded)
}

fn decode_legacy_single_window(
    state: PersistedWindowStateV1,
    association: &MonitorDeviceAssociation,
    registered_schemes: &RegisteredSchemes,
) -> (result: RoleMap<PersistedWindowState>)
    requires
        association.wf(),
    ensures
        result.wf(),
        state_views(result@) == match migrated_state(
            v4_of_v1(state),
            *association,
            registered_schemes@,
        ) {
            Some(migrated) => Map::<Seq<char>, PersistedWindowStateView>::empty().insert(
                PersistedWindowRoleView::Primary.role(),
                migrated,
            ),
            None => Map::<Seq<char>, PersistedWindowStateView>::empty(),
        },
{
    let mut states: RoleMap<PersistedWindowState> = RoleMap::new();
    assert(state_views(states@) =~= Map::<Seq<char>, PersistedWindowStateView>::empty());
    if let Ok(window_state) = convert_v4_state_to_v5(
        convert_v1_state_to_v4(state),
        association,
        registered_schemes,
    ) {
        if let Ok(role) = PersistedWindowRole::Primary.role_key() {
            let ghost before = states@;
            let ghost key = role@;
            let ghost value = window_state;
            states.insert(role, window_state);
            assert(state_views(before.insert(key, value)) =~= state_views(before).insert(
                key,
                value@,
            ));
        }
    }
    states
}

/// Decode a file into live state without rewriting it.
pub fn decode(
    parsed: ParsedStateFile,
    association: &MonitorDeviceAssociation,
    registered_schemes: &RegisteredSchemes,
) -> (result: PersistedWindowStateDecodeOutcome)
    requires
        association.wf(),
    ensures
        match decoded_file(parsed, *association, registered_schemes@) {
            Some(views) => result matches PersistedWindowStateDecodeOutcome::Decoded(states)
                && states.wf() && state_views(states@) == views,
            None => result is WholeFileRejected,
        },
{
    match parsed {
        ParsedStateFile::LegacySingleWindow(record) => match record {
            Some(state) => PersistedWindowStateDecodeOutcome::Decoded(
                decode_legacy_single_window(state, association, registered_schemes),
            ),
            None => PersistedWindowStateDecodeOutcome::WholeFileRejected,
        },
        ParsedStateFile::Versioned { probed_version, envelope } => {
            let (version, entries) = match envelope {
                Some(readable) => readable,
                None => {
                    return PersistedWindowStateDecodeOutcome::WholeFileRejected;
                },
            };
            if version != probed_version {
                return PersistedWindowStateDecodeOutcome::WholeFileRejected;
            }
            match (version, entries) {
                (1, PersistedEntries::V1(entries)) => PersistedWindowStateDecodeOutcome::Decoded(
                    decode_v4(v4_entries_from_v1(entries), association, registered_schemes),
                ),
                (2, PersistedEntries::V2(entries)) => PersistedWindowStateDecodeOutcome::Decoded(
                    decode_v4(v4_entries_from_v2(entries), association, registered_schemes),
                ),
                (3, PersistedEntries::V3(entries)) => PersistedWindowStateDecodeOutcome::Decoded(
                    decode_v4(v4_entries_from_v3(entries), association, registered_schemes),
                ),
                (4, PersistedEntries::V4(entries)) => PersistedWindowStateDecodeOutcome::Decoded(
                    decode_v4(entries, association, registered_schemes),
                ),
                (5, PersistedEntries::V5(entries)) => PersistedWindowStateDecodeOutcome::Decoded(
                    decode_v5(entries, registered_schemes),
                ),
                (_, _) => PersistedWindowStateDecodeOutcome::WholeFileRejected,
            }
        },
    }
}

/// Whether entries are those of a normal save: one for each saved role that a file can name, in the
/// order of the roles.
pub open spec fn is_encoding(
    entries: Seq<PersistedEntry<PersistedWindowState>>,
    states: Map<Seq<char>, PersistedWindowPlacement>,
) -> bool {
    &&& is_in_role_order(entries)
    &&& forall|i: int|
        0 <= i < entries.len() ==> {
            let role = (#[trigger] entries[i]).persisted_role@.role();
            states.contains_key(role) && entries[i].window_state == states[role].window_state
        }
    &&& forall|role: Seq<char>|
        states.contains_key(role) && #[trigger] persisted_role(role) is Some ==> has_entry_for(
            entries,
            role,
        )
}

/// Whether every entry's role precedes the roles of the entries behind it.
pub open spec fn is_in_role_order(entries: Seq<PersistedEntry<PersistedWindowState>>) -> bool {
    forall|i: int, j: int|
        0 <= i < j < entries.len() ==> (#[trigger] entries[i]).persisted_role@.precedes(
            (#[trigger] entries[j]).persisted_role@,
        )
}

/// Whether some entry is for `role`.
pub open spec fn has_entry_for(
    entries: Seq<PersistedEntry<PersistedWindowState>>,
    role: Seq<char>,
) -> bool {
    exists|i: int| 0 <= i < entries.len() && (#[trigger] entries[i]).persisted_role@.role() == role
}

proof fn role_order_is_total(
    a: PersistedWindowRoleView,
    b: PersistedWindowRoleView,
    c: PersistedWindowRoleView,
)
    ensures
        !a.precedes(a),
        a.precedes(b) && b.precedes(c) ==> a.precedes(c),
        a.precedes(b) ==> !b.precedes(a),
        a != b ==> a.precedes(b) || b.precedes(a),
{
    let name_a = match a {
        PersistedWindowRoleView::Primary => Seq::empty(),
        PersistedWindowRoleView::Managed(name) => name,
    };
    let name_b = match b {
        PersistedWindowRoleView::Primary => Seq::empty(),
        PersistedWindowRoleView::Managed(name) => name,
    };
    let name_c = match c {
        PersistedWindowRoleView::Primary => Seq::empty(),
        PersistedWindowRoleView::Managed(name) => name,
    };
    text_order_is_total(name_a, name_b, name_c);
}

/// Put an entry where the order of the roles wants it.
fn insert_in_order(
    entries: &mut Vec<PersistedEntry<PersistedWindowState>>,
    entry: PersistedEntry<PersistedWindowState>,
)
    requires
        is_in_role_order(old(entries)@),
        forall|i: int|
            0 <= i < old(entries)@.len() ==> (#[trigger] old(entries)@[i]).persisted_role@
                != entry.persisted_role@,
    ensures
        is_in_role_order(final(entries)@),
        exists|place: int|
            0 <= place <= old(entries)@.len() && final(entries)@ == old(entries)@.insert(
                place,
                entry,
            ),
{
    let ghost before = entries@;
    let ghost added = entry;
    let mut place: usize = 0;
    while place < entries.len() && entries[place].persisted_role.precedes(&entry.persisted_role)
        invariant
            entries@ == before,
            place <= before.len(),
            forall|i: int|
                0 <= i < place ==> (#[trigger] before[i]).persisted_role@.precedes(
                    entry.persisted_role@,
                ),
        decreases before.len() - place,
    {
        place += 1;
    }
    entries.insert(place, entry);
    proof {
        let after = entries@;
        assert forall|i: int, j: int| 0 <= i < j < after.len() implies (
        #[trigger] after[i]).persisted_role@.precedes((#[trigger] after[j]).persisted_role@) by {
            let old_i = if i < place {
                i
            } else {
                i - 1
            };
            let old_j = if j < place {
                j
            } else {
                j - 1
            };
            if i == place {
                let later = before[old_j];
                assert(after[j] == later);
                if old_j > place {
                    assert(before[place as int].persisted_role@.precedes(later.persisted_role@));
                }
                role_order_is_total(
                    added.persisted_role@,
                    before[place as int].persisted_role@,
                    later.persisted_role@,
                );
            } else if j == place {
                assert(after[i] == before[i]);
            } else {
                assert(after[i] == before[old_i] && after[j] == before[old_j]);
            }
        }
        assert(after =~= before.insert(place as int, added));
    }
}

/// The entries that a normal save writes. A role that a file cannot name is left out.
pub fn encode(states: &RoleMap<PersistedWindowPlacement>) -> (result: Vec<
    PersistedEntry<PersistedWindowState>,
>)
    requires
        states.wf(),
    ensures
        is_encoding(result@, states@),
{
    let mut entries: Vec<PersistedEntry<PersistedWindowState>> = Vec::new();
    let count: usize = states.len();
    let ghost roles = states.roles();
    proof {
        states.roles_list_the_domain();
    }
    let mut index: usize = 0;
    while index < count
        invariant
            states.wf(),
            index <= count == roles.len(),
            roles == states.roles(),
            roles.no_duplicates(),
            is_in_role_order(entries@),
            forall|i: int|
                0 <= i < entries@.len() ==> {
                    let role = (#[trigger] entries@[i]).persisted_role@.role();
                    &&& states@.contains_key(role)
                    &&& entries@[i].window_state == states@[role].window_state
                    &&& roles.take(index as int).contains(role)
                },
            forall|place: int|
                0 <= place < index && persisted_role(#[trigger] roles[place]) is Some
                    ==> has_entry_for(entries@, roles[place]),
        decreases count - index,
    {
        let role = states.role_at(index);
        let ghost before = entries@;
        assert(roles.take(index + 1) =~= roles.take(index as int).push(roles[index as int]));
        match PersistedWindowRole::try_from(role) {
            Ok(persisted) => {
                let ghost view = persisted@;
                proof {
                    roles_and_their_keys_determine_each_other(role@, view);
                    assert forall|i: int| 0 <= i < before.len() implies (
                    #[trigger] before[i]).persisted_role@ != view by {
                        if before[i].persisted_role@ == view {
                            assert(roles.take(index as int).contains(role@));
                            let k = choose|k: int|
                                0 <= k < roles.take(index as int).len() && roles.take(
                                    index as int,
                                )[k] == role@;
                            assert(roles[k] == roles[index as int]);
                        }
                    }
                }
                let entry = PersistedEntry {
                    persisted_role: persisted,
                    window_state: states.value_at(index).window_state.clone(),
                };
                let ghost added = entry;
                insert_in_order(&mut entries, entry);
                proof {
                    let place = choose|place: int|
                        0 <= place <= before.len() && entries@ == before.insert(place, added);
                    assert forall|i: int| 0 <= i < entries@.len() implies {
                        let role = (#[trigger] entries@[i]).persisted_role@.role();
                        &&& states@.contains_key(role)
                        &&& entries@[i].window_state == states@[role].window_state
                        &&& roles.take(index + 1).contains(role)
                    } by {
                        if i == place {
                            assert(roles.take(index + 1)[index as int] == role@);
                        } else {
                            let earlier = if i < place {
                                before[i]
                            } else {
                                before[i - 1]
                            };
                            assert(entries@[i] == earlier);
                            let key = earlier.persisted_role@.role();
                            let k = choose|k: int|
                                0 <= k < roles.take(index as int).len() && roles.take(
                                    index as int,
                                )[k] == key;
                            assert(roles.take(index + 1)[k] == key);
                        }
                    }
                    assert forall|k: int|
                        0 <= k < index + 1 && persisted_role(
                            #[trigger] roles[k],
                        ) is Some implies has_entry_for(entries@, roles[k]) by {
                        if k == index {
                            assert(entries@[place].persisted_role@.role() == roles[k]);
                        } else {
                            let i = choose|i: int|
                                0 <= i < before.len() && (
                                #[trigger] before[i]).persisted_role@.role() == roles[k];
                            if i < place {
                                assert(entries@[i] == before[i]);
                            } else {
                                assert(entries@[i + 1] == before[i]);
                            }
                        }
                    }
                }
            },
            Err(_) => {
                assert forall|i: int| 0 <= i < entries@.len() implies {
                    let role = (#[trigger] entries@[i]).persisted_role@.role();
                    &&& states@.contains_key(role)
                    &&& entries@[i].window_state == states@[role].window_state
                    &&& roles.take(index + 1).contains(role)
                } by {
                    let key = entries@[i].persisted_role@.role();
                    let k = choose|k: int|
                        0 <= k < roles.take(index as int).len() && roles.take(index as int)[k]
                            == key;
                    assert(roles.take(index + 1)[k] == key);
                }
            },
        }
        index += 1;
    }
    proof {
        assert forall|role: Seq<char>|
            states@.contains_key(role) && #[trigger] persisted_role(
                role,
            ) is Some implies has_entry_for(entries@, role) by {
            assert(roles.contains(role));
            let k = choose|k: int| 0 <= k < roles.len() && roles[k] == role;
            assert(persisted_role(roles[k]) is Some);
        }
    }
    entries
}

/// The role that a readable entry is for.
pub open spec fn contributed_role(entry: EntryContribution) -> Seq<char> {
    match entry {
        Some((role, _)) => role,
        None => Seq::empty(),
    }
}

/// No two contributions are for the same role.
pub open spec fn roles_occur_once(entries: Seq<EntryContribution>) -> bool {
    forall|i: int, j: int|
        0 <= i < entries.len() && 0 <= j < entries.len() && i != j && entries[i] is Some
            && entries[j] is Some ==> contributed_role(#[trigger] entries[i]) != contributed_role(#[trigger] entries[j])
}

/// Whether the contribution at `index` gives `role` this state.
pub open spec fn contributes(
    entries: Seq<EntryContribution>,
    index: int,
    role: Seq<char>,
    state: PersistedWindowStateView,
) -> bool {
    0 <= index < entries.len() && entries[index] == Some((role, state))
}

/// Where no role occurs twice, every readable entry keeps its state, whatever becomes of the
/// others: an entry that cannot be read costs no sibling its record.
pub proof fn readable_entries_are_kept(entries: Seq<EntryContribution>, role: Seq<char>)
    requires
        roles_occur_once(entries),
    ensures
        decoded_entries(entries).contains_key(role) <==> exists|index: int| #[trigger]
            contributes(entries, index, role, decoded_entries(entries)[role]),
        forall|index: int, state: PersistedWindowStateView| #[trigger]
            contributes(entries, index, role, state) ==> decoded_entries(entries).contains_key(role)
                && decoded_entries(entries)[role] == state,
{
    occurrences_count_places(entries, role);
    assert forall|index: int, state: PersistedWindowStateView| #[trigger]
        contributes(entries, index, role, state) implies decoded_entries(entries).contains_key(role)
        && decoded_entries(entries)[role] == state by {
        assert(occurs_only_at(entries, index, role)) by {
            assert(occurs_at(entries, index, role));
            assert forall|other: int| #[trigger] occurs_at(entries, other, role) implies other
                == index by {
                if other != index {
                    assert(contributed_role(entries[other]) != contributed_role(entries[index]));
                }
            }
        }
    }
    if decoded_entries(entries).contains_key(role) {
        let index = choose|index: int| #[trigger] occurs_at(entries, index, role);
        assert(contributes(entries, index, role, entries[index].unwrap().1));
        assert(contributes(entries, index, role, decoded_entries(entries)[role]));
    }
}

/// Whether the entry at `index` is readable and for `role`.
pub open spec fn occurs_at(
    entries: Seq<EntryContribution>,
    index: int,
    role: Seq<char>,
) -> bool {
    0 <= index < entries.len() && is_for_role(entries[index], role)
}

/// Whether the entry at `index` is the only readable one for `role`.
pub open spec fn occurs_only_at(
    entries: Seq<EntryContribution>,
    index: int,
    role: Seq<char>,
) -> bool {
    &&& occurs_at(entries, index, role)
    &&& forall|other: int| #[trigger] occurs_at(entries, other, role) ==> other == index
}

proof fn occurrences_count_places(entries: Seq<EntryContribution>, role: Seq<char>)
    ensures
        occurrences(entries, role) == 0 <==> forall|index: int| !#[trigger]
            occurs_at(entries, index, role),
        occurrences(entries, role) == 1 <==> exists|index: int| #[trigger]
            occurs_only_at(entries, index, role),
        forall|index: int| #[trigger]
            occurs_only_at(entries, index, role) ==> (contributed_state(
                entries,
                role,
            ) matches Some(state) && entries[index] == Some((role, state))),
    decreases entries.len(),
{
    if entries.len() > 0 {
        let rest = entries.drop_last();
        let last = entries.len() - 1;
        occurrences_count_places(rest, role);
        assert forall|index: int| index < last implies #[trigger] occurs_at(entries, index, role)
            == occurs_at(rest, index, role) by {}
        assert forall|index: int| #[trigger] occurs_at(rest, index, role) implies occurs_at(
            entries,
            index,
            role,
        ) by {}
        if is_for_role(entries[last], role) {
            assert(occurs_at(entries, last, role));
            if occurrences(rest, role) == 0 {
                assert(occurs_only_at(entries, last, role));
            } else {
                let earlier = choose|index: int| #[trigger] occurs_at(rest, index, role);
                assert(occurs_at(entries, earlier, role));
            }
        } else {
            assert forall|index: int| #[trigger] occurs_only_at(
                entries,
                index,
                role,
            ) implies occurs_only_at(rest, index, role) by {
                assert(occurs_at(entries, index, role));
            }
            if occurrences(rest, role) == 1 {
                let only = choose|index: int| #[trigger] occurs_only_at(rest, index, role);
                assert(occurs_only_at(entries, only, role));
            }
        }
    }
}

/// A role that occurs once is kept, with the state of its only entry.
pub proof fn a_role_that_occurs_once_is_kept(
    entries: Seq<EntryContribution>,
    index: int,
    role: Seq<char>,
)
    requires
        occurs_only_at(entries, index, role),
    ensures
        decoded_entries(entries).contains_key(role),
        entries[index] == Some((role, decoded_entries(entries)[role])),
{
    occurrences_count_places(entries, role);
}

/// One more readable entry gives its role its state, or takes back the state that the role had; no
/// other role is concerned.
pub proof fn a_repeated_role_is_taken_back(
    entries: Seq<EntryContribution>,
    role: Seq<char>,
    state: PersistedWindowStateView,
)
    ensures
        decoded_entries(entries.push(Some((role, state)))) == if decoded_entries(
            entries,
        ).contains_key(role) {
            decoded_entries(entries).remove(role)
        } else {
            decoded_entries(entries).insert(role, state)
        },
{
    let more = entries.push(Some((role, state)));
    assert(more.drop_last() =~= entries);
    assert(more.last() == Some((role, state)));
    if decoded_entries(entries).contains_key(role) {
        assert(decoded_entries(more) =~= decoded_entries(entries).remove(role));
    } else {
        assert(decoded_entries(more) =~= decoded_entries(entries).insert(role, state));
    }
}

/// Reading back what a save wrote gives every window its record: for each role that a file can name,
/// the decoded state is the saved one, and no other role is decoded. A record whose display key the
/// application no longer accepts is the one exception.
pub proof fn a_saved_file_reads_back(
    entries: Seq<PersistedEntry<PersistedWindowState>>,
    states: Map<Seq<char>, PersistedWindowPlacement>,
    schemes: Set<Seq<char>>,
    role: Seq<char>,
)
    requires
        is_encoding(entries, states),
    ensures
        ({
            let decoded = decoded_entries(
                v5_contributions(
                    entries.map_values(|entry: PersistedEntry<PersistedWindowState>| Some(entry)),
                    schemes,
                ),
            );
            let saved = states.contains_key(role) && persisted_role(role) is Some
                && is_valid_target(states[role].window_state.target@, schemes);
            &&& decoded.contains_key(role) <==> saved
            &&& saved ==> decoded[role] == states[role].window_state@
        }),
{
    let written = entries.map_values(|entry: PersistedEntry<PersistedWindowState>| Some(entry));
    let all = v5_contributions(written, schemes);
    assert forall|i: int| 0 <= i < all.len() implies #[trigger] all[i] == v5_contribution(
        Some(entries[i]),
        schemes,
    ) by {
        assert(written[i] == Some(entries[i]));
    }
    assert forall|i: int, j: int|
        0 <= i < all.len() && 0 <= j < all.len() && i != j && all[i] is Some
            && all[j] is Some implies contributed_role(#[trigger] all[i]) != contributed_role(#[trigger] all[j]) by {
        let a = entries[i].persisted_role@;
        let b = entries[j].persisted_role@;
        if i < j {
            assert(a.precedes(b));
        } else {
            assert(b.precedes(a));
        }
        role_order_is_total(a, b, a);
        roles_and_their_keys_determine_each_other(a.role(), a);
        roles_and_their_keys_determine_each_other(b.role(), b);
    }
    readable_entries_are_kept(all, role);
    let decoded = decoded_entries(all);
    if states.contains_key(role) && persisted_role(role) is Some && is_valid_target(
        states[role].window_state.target@,
        schemes,
    ) {
        assert(has_entry_for(entries, role));
        let i = choose|i: int|
            0 <= i < entries.len() && (#[trigger] entries[i]).persisted_role@.role() == role;
        assert(contributes(all, i, role, states[role].window_state@));
    }
    if decoded.contains_key(role) {
        let i = choose|i: int| #[trigger] contributes(all, i, role, decoded[role]);
        roles_and_their_keys_determine_each_other(role, entries[i].persisted_role@);
    }
}

/// A key can anchor a window exactly where it names a display and, if it was reported, its scheme is
/// registered; otherwise the first of these that fails is the reason.
pub proof fn a_key_anchors_a_window_if_it_names_a_known_display(
    key: DeviceKeyView,
    schemes: Set<Seq<char>>,
)
    ensures
        key_failure(key, schemes) is None <==> key.kind is Display && (
        key.id matches DeviceIdView::Reported { scheme, .. } ==> schemes.contains(scheme)),
        key_failure(key, schemes) matches Some(MigrationFailureView::NonDisplayKey { found })
            ==> found == key.kind && !(key.kind is Display),
        !(key.kind is Display) ==> key_failure(key, schemes)
            == Some(MigrationFailureView::NonDisplayKey { found: key.kind }),
        key_failure(key, schemes) matches Some(MigrationFailureView::UnregisteredScheme { scheme })
            ==> (key.id matches DeviceIdView::Reported { scheme: named, .. } && named == scheme)
            && !schemes.contains(scheme),
{
}

/// An envelope is frozen for the four retired versions, and strict for every other one.
pub proof fn only_retired_versions_are_frozen(version: u8)
    ensures
        envelope_format_of(None) is LegacySingleWindow,
        envelope_format_of(Some(version)) is Frozen <==> version == 1 || version == 2 || version == 3
            || version == 4,
        envelope_format_of(Some(version)) is Strict <==> version == 0 || version >= 5,
{
}

/// Whether a decoded state has this size and this application's name, and the mode that an old record
/// meant: an absent display mode is the one that the display is in.
pub open spec fn is_window_of(
    state: PersistedWindowStateView,
    logical_width: u32,
    logical_height: u32,
    mode: SavedWindowModeV4,
    app_name: Seq<char>,
) -> bool {
    &&& state.logical_width == logical_width
    &&& state.logical_height == logical_height
    &&& state.app_name == app_name
    &&& match state.saved_window_mode {
        SavedWindowMode::Windowed => mode is Windowed,
        SavedWindowMode::BorderlessFullscreen => mode is BorderlessFullscreen,
        SavedWindowMode::Fullscreen { video_mode: SavedFullscreenVideoMode::Current } => mode
            == (SavedWindowModeV4::Fullscreen { video_mode: None }),
        SavedWindowMode::Fullscreen { video_mode: SavedFullscreenVideoMode::Specific(specific) } =>
            mode == (SavedWindowModeV4::Fullscreen { video_mode: Some(specific) }),
    }
}

/// Whether a decoded state is where an old absolute coordinate leaves it: nowhere without one, and
/// otherwise at the coordinate, with the scale that goes with it.
pub open spec fn is_placed_at(
    state: PersistedWindowStateView,
    logical_position: Option<IVec2>,
    scale_bits: u64,
) -> bool {
    match state.position {
        PersistedPosition::Unrebased(unrebased) => {
            &&& logical_position == Some(unrebased.saved_logical())
            &&& unrebased.saved_scale()@ == scale_bits
            &&& encodes_positive_finite(scale_bits)
        },
        PersistedPosition::Unpositioned => logical_position is None || !encodes_positive_finite(
            scale_bits,
        ),
        PersistedPosition::MonitorOffset(_) => false,
    }
}

/// Whether the entry at `index` can be read, is for `role`, and is the only readable one that is.
pub open spec fn is_only_entry_for<S>(
    entries: Seq<Option<PersistedEntry<S>>>,
    index: int,
    role: PersistedWindowRoleView,
) -> bool {
    &&& 0 <= index < entries.len()
    &&& entries[index] matches Some(entry) && entry.persisted_role@ == role
    &&& forall|other: int|
        0 <= other < entries.len() && other != index ==> !((#[trigger] entries[other]) matches Some(
            entry,
        ) && entry.persisted_role@ == role)
}

proof fn a_lone_contribution_is_kept(
    all: Seq<EntryContribution>,
    index: int,
    role: PersistedWindowRoleView,
    state: PersistedWindowStateView,
)
    requires
        0 <= index < all.len(),
        all[index] == Some((role.role(), state)),
        forall|other: int|
            0 <= other < all.len() && other != index ==> !is_for_role(
                #[trigger] all[other],
                role.role(),
            ),
    ensures
        decoded_entries(all).contains_pair(role.role(), state),
{
    assert(occurs_at(all, index, role.role()));
    assert(occurs_only_at(all, index, role.role()));
    a_role_that_occurs_once_is_kept(all, index, role.role());
}

proof fn roles_with_the_same_key_are_the_same(a: PersistedWindowRoleView, b: PersistedWindowRoleView)
    ensures
        a.role() == b.role() ==> a == b,
{
    roles_and_their_keys_determine_each_other(a.role(), a);
    roles_and_their_keys_determine_each_other(b.role(), b);
}

/// A current file gives every window its own record back: the state is decoded as it was written, in
/// every part, unless its key can anchor no window.
pub proof fn a_current_entry_is_decoded_as_it_is(
    entries: Vec<Option<PersistedEntry<PersistedWindowState>>>,
    index: int,
    role: PersistedWindowRoleView,
    association: MonitorDeviceAssociation,
    schemes: Set<Seq<char>>,
)
    requires
        is_only_entry_for(entries@, index, role),
        entries@[index]->0.window_state.target@ matches PersistedWindowTargetView::Classified(key)
            ==> key.kind is Display && (key.id matches DeviceIdView::Reported { scheme, .. }
            ==> schemes.contains(scheme)),
    ensures
        decoded_file(
            ParsedStateFile::Versioned {
                probed_version: 5,
                envelope: Some((5, PersistedEntries::V5(entries))),
            },
            association,
            schemes,
        ) matches Some(states) && {
            let written = entries@[index]->0.window_state;
            &&& states.contains_key(role.role())
            &&& states[role.role()].target == written.target@
            &&& states[role.role()].position == written.position
            &&& states[role.role()].logical_width == written.logical_width
            &&& states[role.role()].logical_height == written.logical_height
            &&& states[role.role()].saved_window_mode == written.saved_window_mode
            &&& states[role.role()].app_name == written.app_name@
        },
{
    let all = v5_contributions(entries@, schemes);
    assert(all[index] == v5_contribution(entries@[index], schemes));
    assert forall|other: int| 0 <= other < all.len() && other != index implies !is_for_role(
        #[trigger] all[other],
        role.role(),
    ) by {
        assert(all[other] == v5_contribution(entries@[other], schemes));
        if let Some(entry) = entries@[other] {
            roles_with_the_same_key_are_the_same(entry.persisted_role@, role);
        }
    }
    a_lone_contribution_is_kept(all, index, role, entries@[index]->0.window_state@);
}

/// Whether a decoded target is what an old identity stands for: while one live display alone answers
/// to it, that display's key, and otherwise the identity, which waits.
pub open spec fn is_target_of(
    target: PersistedWindowTargetView,
    identity: PersistedDisplayIdentityV4,
    association: MonitorDeviceAssociation,
) -> bool {
    match association.only_key(LiveMonitorEvidence::LegacyIdentity(identity)) {
        Some(key) => target == PersistedWindowTargetView::Classified(key),
        None => target == PersistedWindowTargetView::AwaitingLegacyEvidence(identity),
    }
}

/// Whether a display key can anchor a window.
pub open spec fn anchors_windows(key: DeviceKeyView, schemes: Set<Seq<char>>) -> bool {
    key.kind is Display && (key.id matches DeviceIdView::Reported { scheme, .. }
        ==> schemes.contains(scheme))
}

/// An entry of the fourth format keeps its position, its size, its mode and its application's name, and
/// its identity becomes the key of the one live display that answers to it. Where that key can anchor
/// no window, the entry is left out.
pub proof fn a_version_four_entry_keeps_its_window(
    entries: Vec<Option<PersistedEntry<PersistedWindowStateV4>>>,
    index: int,
    role: PersistedWindowRoleView,
    association: MonitorDeviceAssociation,
    schemes: Set<Seq<char>>,
)
    requires
        is_only_entry_for(entries@, index, role),
    ensures
        decoded_file(
            ParsedStateFile::Versioned {
                probed_version: 4,
                envelope: Some((4, PersistedEntries::V4(entries))),
            },
            association,
            schemes,
        ) matches Some(states) && {
            let record = entries@[index]->0.window_state;
            let live_key = association.only_key(
                LiveMonitorEvidence::LegacyIdentity(record.monitor_panel),
            );
            let state = states[role.role()];
            if live_key is Some && !anchors_windows(live_key->0, schemes) {
                !states.contains_key(role.role())
            } else {
                &&& states.contains_key(role.role())
                &&& is_window_of(
                    state,
                    record.logical_width,
                    record.logical_height,
                    record.saved_window_mode,
                    record.app_name@,
                )
                &&& state.position == record.position
                &&& is_target_of(state.target, record.monitor_panel, association)
            }
        },
{
    a_lone_old_entry_is_decoded(entries@, index, role, association, schemes);
}

proof fn a_lone_old_entry_is_decoded(
    entries: Seq<Option<PersistedEntry<PersistedWindowStateV4>>>,
    index: int,
    role: PersistedWindowRoleView,
    association: MonitorDeviceAssociation,
    schemes: Set<Seq<char>>,
)
    requires
        is_only_entry_for(entries, index, role),
    ensures
        ({
            let record = entries[index]->0.window_state;
            let states = decoded_entries(v4_contributions(entries, association, schemes));
            match migrated_state(record, association, schemes) {
                Some(state) => states.contains_pair(role.role(), state),
                None => !states.contains_key(role.role()),
            }
        }),
{
    let record = entries[index]->0.window_state;
    let all = v4_contributions(entries, association, schemes);
    assert(all[index] == v4_contribution(entries[index], association, schemes));
    assert forall|other: int| 0 <= other < all.len() && other != index implies !is_for_role(
        #[trigger] all[other],
        role.role(),
    ) by {
        assert(all[other] == v4_contribution(entries[other], association, schemes));
        if let Some(entry) = entries[other] {
            roles_with_the_same_key_are_the_same(entry.persisted_role@, role);
        }
    }
    match migrated_state(record, association, schemes) {
        Some(state) => {
            a_lone_contribution_is_kept(all, index, role, state);
        },
        None => {
            assert forall|other: int| !#[trigger] occurs_at(all, other, role.role()) by {
                if 0 <= other < all.len() && other != index {
                    assert(!is_for_role(all[other], role.role()));
                }
            }
            occurrences_count_places(all, role.role());
        },
    }
}

/// An entry of the third format keeps its position, its size, its mode, its application's name and its
/// identity; its enumeration index counts for nothing.
pub proof fn a_version_three_entry_keeps_its_window(
    entries: Vec<Option<PersistedEntry<PersistedWindowStateV3>>>,
    index: int,
    role: PersistedWindowRoleView,
    association: MonitorDeviceAssociation,
    schemes: Set<Seq<char>>,
)
    requires
        is_only_entry_for(entries@, index, role),
    ensures
        decoded_file(
            ParsedStateFile::Versioned {
                probed_version: 3,
                envelope: Some((3, PersistedEntries::V3(entries))),
            },
            association,
            schemes,
        ) matches Some(states) && {
            let record = entries@[index]->0.window_state;
            let live_key = association.only_key(
                LiveMonitorEvidence::LegacyIdentity(record.monitor_panel),
            );
            let state = states[role.role()];
            if live_key is Some && !anchors_windows(live_key->0, schemes) {
                !states.contains_key(role.role())
            } else {
                &&& states.contains_key(role.role())
                &&& is_window_of(
                    state,
                    record.logical_width,
                    record.logical_height,
                    record.saved_window_mode,
                    record.app_name@,
                )
                &&& state.position == record.position
                &&& is_target_of(state.target, record.monitor_panel, association)
            }
        },
{
    let converted = entries@.map_values(
        |entry: Option<PersistedEntry<PersistedWindowStateV3>>| v4_entry_of_v3(entry),
    );
    assert forall|i: int| 0 <= i < converted.len() implies #[trigger] converted[i]
        == v4_entry_of_v3(entries@[i]) by {}
    assert(is_only_entry_for(converted, index, role));
    a_lone_old_entry_is_decoded(converted, index, role, association, schemes);
}

/// An entry of the second format keeps its size, its mode and its application's name, and its absolute
/// coordinate with the scale that wrote it; it waits for a display, because it names none.
pub proof fn a_version_two_entry_keeps_its_window(
    entries: Vec<Option<PersistedEntry<PersistedWindowStateV2>>>,
    index: int,
    role: PersistedWindowRoleView,
    association: MonitorDeviceAssociation,
    schemes: Set<Seq<char>>,
)
    requires
        is_only_entry_for(entries@, index, role),
    ensures
        decoded_file(
            ParsedStateFile::Versioned {
                probed_version: 2,
                envelope: Some((2, PersistedEntries::V2(entries))),
            },
            association,
            schemes,
        ) matches Some(states) && {
            let record = entries@[index]->0.window_state;
            let state = states[role.role()];
            &&& states.contains_key(role.role())
            &&& is_window_of(
                state,
                record.logical_width,
                record.logical_height,
                record.saved_window_mode,
                record.app_name@,
            )
            &&& is_placed_at(state, record.logical_position, record.scale@)
            &&& state.target == PersistedWindowTargetView::AwaitingLegacyEvidence(
                PersistedDisplayIdentityV4::Anonymous,
            )
        },
{
    let converted = entries@.map_values(
        |entry: Option<PersistedEntry<PersistedWindowStateV2>>| v4_entry_of_v2(entry),
    );
    let record = entries@[index]->0.window_state;
    assert forall|i: int| 0 <= i < converted.len() implies #[trigger] converted[i]
        == v4_entry_of_v2(entries@[i]) by {}
    assert(is_only_entry_for(converted, index, role));
    a_lone_old_entry_is_decoded(converted, index, role, association, schemes);
    association.anonymous_target_selects_no_monitor();
    if let Some(logical) = record.logical_position {
        an_unrebased_coordinate_keeps_its_scale(logical, record.scale);
    }
}

/// An entry of the first format keeps its size, its mode and its application's name, and its absolute
/// coordinate, which counts as written at scale 1; it waits for a display, because it names none.
pub proof fn a_version_one_entry_keeps_its_window(
    entries: Vec<Option<PersistedEntry<PersistedWindowStateV1>>>,
    index: int,
    role: PersistedWindowRoleView,
    association: MonitorDeviceAssociation,
    schemes: Set<Seq<char>>,
)
    requires
        is_only_entry_for(entries@, index, role),
    ensures
        decoded_file(
            ParsedStateFile::Versioned {
                probed_version: 1,
                envelope: Some((1, PersistedEntries::V1(entries))),
            },
            association,
            schemes,
        ) matches Some(states) && {
            let record = entries@[index]->0.window_state;
            let state = states[role.role()];
            &&& states.contains_key(role.role())
            &&& is_window_of(
                state,
                record.logical_width,
                record.logical_height,
                record.saved_window_mode,
                record.app_name@,
            )
            &&& is_placed_at(state, record.logical_position, 0x3FF0_0000_0000_0000)
            &&& state.target == PersistedWindowTargetView::AwaitingLegacyEvidence(
                PersistedDisplayIdentityV4::Anonymous,
            )
        },
{
    let converted = entries@.map_values(
        |entry: Option<PersistedEntry<PersistedWindowStateV1>>| v4_entry_of_v1(entry),
    );
    let record = entries@[index]->0.window_state;
    assert forall|i: int| 0 <= i < converted.len() implies #[trigger] converted[i]
        == v4_entry_of_v1(entries@[i]) by {}
    assert(is_only_entry_for(converted, index, role));
    a_lone_old_entry_is_decoded(converted, index, role, association, schemes);
    a_first_format_state_keeps_its_window(record, association, schemes);
}

proof fn a_first_format_state_keeps_its_window(
    record: PersistedWindowStateV1,
    association: MonitorDeviceAssociation,
    schemes: Set<Seq<char>>,
)
    ensures
        migrated_state(v4_of_v1(record), association, schemes) matches Some(state) && {
            &&& is_window_of(
                state,
                record.logical_width,
                record.logical_height,
                record.saved_window_mode,
                record.app_name@,
            )
            &&& is_placed_at(state, record.logical_position, 0x3FF0_0000_0000_0000)
            &&& state.target == PersistedWindowTargetView::AwaitingLegacyEvidence(
                PersistedDisplayIdentityV4::Anonymous,
            )
        },
{
    association.anonymous_target_selects_no_monitor();
    scale_factors_are_their_encodings(
        DEFAULT_SCALE_FACTOR_BITS,
        ScaleFactor::of_bits(DEFAULT_SCALE_FACTOR_BITS),
        ScaleFactor::of_bits(DEFAULT_SCALE_FACTOR_BITS),
    );
    if let Some(logical) = record.logical_position {
        an_unrebased_coordinate_keeps_its_scale(
            logical,
            ScaleFactor::of_bits(DEFAULT_SCALE_FACTOR_BITS),
        );
    }
}

/// A bare record is the primary window's: its size, its mode, its application's name and its coordinate
/// are kept, the coordinate as one written at scale 1, and no other window is decoded.
pub proof fn a_bare_record_is_the_primary_windows(
    record: PersistedWindowStateV1,
    association: MonitorDeviceAssociation,
    schemes: Set<Seq<char>>,
)
    ensures
        decoded_file(
            ParsedStateFile::LegacySingleWindow(Some(record)),
            association,
            schemes,
        ) matches Some(states) && {
            let state = states["window:primary"@];
            &&& states.dom() == set!["window:primary"@]
            &&& is_window_of(
                state,
                record.logical_width,
                record.logical_height,
                record.saved_window_mode,
                record.app_name@,
            )
            &&& is_placed_at(state, record.logical_position, 0x3FF0_0000_0000_0000)
            &&& state.target == PersistedWindowTargetView::AwaitingLegacyEvidence(
                PersistedDisplayIdentityV4::Anonymous,
            )
        },
{
    a_first_format_state_keeps_its_window(record, association, schemes);
    let states = decoded_file(
        ParsedStateFile::LegacySingleWindow(Some(record)),
        association,
        schemes,
    )->0;
    assert(states.dom() =~= set!["window:primary"@]);
}

/// A file is read exactly where it holds a bare record, or an envelope whose version was found, is one
/// of the five that are known, and has its entries in its own format.
pub proof fn a_file_is_read_in_its_own_format(
    parsed: ParsedStateFile,
    association: MonitorDeviceAssociation,
    schemes: Set<Seq<char>>,
)
    ensures
        decoded_file(parsed, association, schemes) is Some <==> match parsed {
            ParsedStateFile::LegacySingleWindow(record) => record is Some,
            ParsedStateFile::Versioned { envelope: None, .. } => false,
            ParsedStateFile::Versioned {
                probed_version,
                envelope: Some((version, entries)),
            } => version == probed_version && match entries {
                PersistedEntries::V1(_) => version == 1,
                PersistedEntries::V2(_) => version == 2,
                PersistedEntries::V3(_) => version == 3,
                PersistedEntries::V4(_) => version == 4,
                PersistedEntries::V5(_) => version == 5,
                PersistedEntries::Unsupported => false,
            },
        },
{
}

/// Decoding makes no window up: a decoded role is that of some readable entry, with a state that a
/// readable entry has.
pub proof fn decoding_makes_no_window_up(entries: Seq<EntryContribution>, role: Seq<char>)
    requires
        decoded_entries(entries).contains_key(role),
    ensures
        exists|index: int| #[trigger]
            contributes(entries, index, role, decoded_entries(entries)[role]),
    decreases entries.len(),
{
    let state = decoded_entries(entries)[role];
    let last = entries.len() - 1;
    assert(entries.last() == entries[last]);
    if is_for_role(entries.last(), role) {
        assert(contributes(entries, last, role, state));
    } else {
        let rest = entries.drop_last();
        decoding_makes_no_window_up(rest, role);
        let index = choose|index: int| #[trigger]
            contributes(rest, index, role, decoded_entries(rest)[role]);
        assert(contributes(entries, index, role, state));
    }
}

} // verus!
