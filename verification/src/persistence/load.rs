//! Where the state file is, and what becomes of it at startup.

use super::format::{state_views, PersistedWindowStateDecodeOutcome};
use super::placements::{
    placements_of_states, PendingWrite, PersistedWindowPlacements, StartupLoadStatus,
};
use super::window_state::{LoadedBindingPolicy, PersistedWindowPlacement, PersistedWindowState};
use crate::role_map::RoleMap;
use crate::text;
use crate::text::{a_decimal_spelling_reads_back, decimal_spelling, number_spelled_by};
use vstd::prelude::*;

verus! {

/// How many names are tried for a backup.
pub const BACKUP_MAX_ATTEMPTS: u64 = 100;

/// Where a state file is, below the user's configuration directory.
#[derive(Debug)]
pub struct StateLocation {
    pub directory: String,
    pub file: String,
}

/// Where an executable keeps its state. Examples of a package are grouped together; any other
/// executable has a directory of its own.
pub fn default_state_location(
    executable_name: &str,
    parent_directory: Option<&str>,
    package_name: &str,
) -> (result: StateLocation)
    ensures
        parent_directory matches Some(parent) && parent@ == "examples"@ ==> result.directory@
            == package_name@ && result.file@ == executable_name@ + ".ron"@,
        !(parent_directory matches Some(parent) && parent@ == "examples"@) ==> result.directory@
            == executable_name@ && result.file@ == "windows.ron"@,
{
    let is_example = match parent_directory {
        Some(parent) => parent.to_owned() == "examples".to_owned(),
        None => false,
    };
    if is_example {
        StateLocation {
            directory: package_name.to_owned(),
            file: text::joined(executable_name, ".ron"),
        }
    } else {
        state_location_for_app(executable_name)
    }
}

/// Where an application of this name keeps its state.
pub fn state_location_for_app(app_name: &str) -> (result: StateLocation)
    ensures
        result.directory@ == app_name@,
        result.file@ == "windows.ron"@,
{
    StateLocation { directory: app_name.to_owned(), file: "windows.ron".to_owned() }
}

/// What the backup of a file is labelled with: the version that could not be read, or that no
/// version could be found.
pub open spec fn label_of(version: Option<u8>) -> Seq<char> {
    match version {
        Some(found) => "v"@ + decimal_spelling(found as nat),
        None => "corrupt"@,
    }
}

/// What the backup of a file is labelled with.
pub fn backup_label(version: Option<u8>) -> (result: String)
    ensures
        result@ == label_of(version),
{
    match version {
        Some(found) => text::joined("v", text::decimal(found as u64).as_str()),
        None => "corrupt".to_owned(),
    }
}

/// The name that is tried for a backup after `attempt` others.
pub open spec fn backup_name(file_name: Seq<char>, label: Seq<char>, attempt: nat) -> Seq<char> {
    let base = file_name + ".bak."@ + label;
    if attempt == 0 {
        base
    } else {
        base + "."@ + decimal_spelling(attempt)
    }
}

/// The contents of some names.
pub open spec fn name_views(names: Seq<String>) -> Seq<Seq<char>> {
    names.map_values(|name: String| name@)
}

fn is_taken(name: &String, existing: &Vec<String>) -> (result: bool)
    ensures
        result == name_views(existing@).contains(name@),
{
    let ghost names = name_views(existing@);
    let mut index: usize = 0;
    while index < existing.len()
        invariant
            index <= existing@.len(),
            names == name_views(existing@),
            forall|i: int| 0 <= i < index ==> #[trigger] names[i] != name@,
        decreases existing@.len() - index,
    {
        if existing[index] == *name {
            assert(names[index as int] == name@);
            return true;
        }
        assert(names[index as int] == existing@[index as int]@);
        index += 1;
    }
    assert(!names.contains(name@));
    false
}

/// The first backup name that is not taken, so that an earlier backup of the same version is never
/// overwritten by a later failure.
pub fn unused_backup_path(file_name: &str, version_label: &str, existing: &Vec<String>) -> (result:
    Option<String>)
    ensures
        match result {
            Some(name) => exists|attempt: nat|
                {
                    &&& attempt < BACKUP_MAX_ATTEMPTS
                    &&& name@ == #[trigger] backup_name(file_name@, version_label@, attempt)
                    &&& !name_views(existing@).contains(name@)
                    &&& forall|earlier: nat|
                        earlier < attempt ==> name_views(existing@).contains(
                            #[trigger] backup_name(file_name@, version_label@, earlier),
                        )
                },
            None => forall|attempt: nat|
                attempt < BACKUP_MAX_ATTEMPTS ==> name_views(existing@).contains(
                    #[trigger] backup_name(file_name@, version_label@, attempt),
                ),
        },
{
    let start = text::joined(file_name, ".bak.");
    let base = text::joined(start.as_str(), version_label);
    let mut attempt: u64 = 0;
    while attempt < BACKUP_MAX_ATTEMPTS
        invariant
            attempt <= BACKUP_MAX_ATTEMPTS,
            base@ == file_name@ + ".bak."@ + version_label@,
            forall|earlier: nat|
                earlier < attempt ==> name_views(existing@).contains(
                    #[trigger] backup_name(file_name@, version_label@, earlier),
                ),
        decreases BACKUP_MAX_ATTEMPTS - attempt,
    {
        let name = if attempt == 0 {
            base.clone()
        } else {
            let numbered = text::joined(base.as_str(), ".");
            text::joined(numbered.as_str(), text::decimal(attempt).as_str())
        };
        assert(name@ == backup_name(file_name@, version_label@, attempt as nat));
        if !is_taken(&name, existing) {
            return Some(name);
        }
        attempt += 1;
    }
    None
}

/// Whether a file must be copied aside before it is written over: it exists but cannot be read.
pub fn must_be_backed_up(decoded: &Option<PersistedWindowStateDecodeOutcome>) -> (result: bool)
    ensures
        result == (*decoded matches Some(outcome) && outcome is WholeFileRejected),
{
    match decoded {
        Some(PersistedWindowStateDecodeOutcome::WholeFileRejected) => true,
        Some(PersistedWindowStateDecodeOutcome::Decoded(_)) => false,
        None => false,
    }
}

/// Take over what the file holds, once. A file that is missing or cannot be read holds nothing.
pub fn load_persisted_window_placements(
    persisted: &mut PersistedWindowPlacements,
    decoded: &Option<PersistedWindowStateDecodeOutcome>,
)
    requires
        old(persisted).wf(),
        *decoded matches Some(PersistedWindowStateDecodeOutcome::Decoded(states)) ==> states.wf(),
    ensures
        final(persisted).wf(),
        final(persisted).load_status() == StartupLoadStatus::Read,
        old(persisted).load_status() == StartupLoadStatus::Read ==> *final(persisted) == *old(
            persisted,
        ),
        old(persisted).load_status() == StartupLoadStatus::Pending ==> {
            &&& final(persisted).ever_saved() == final(persisted).saved().dom()
            &&& final(persisted).write_status() == PendingWrite::Settled
        },
        old(persisted).load_status() == StartupLoadStatus::Pending ==> final(persisted).saved()
            == match *decoded {
            Some(PersistedWindowStateDecodeOutcome::Decoded(states)) => states@.map_values(
                |state: PersistedWindowState|
                    PersistedWindowPlacement {
                        window_state: state,
                        loaded_binding_policy: LoadedBindingPolicy::LegacyWindowMarkers,
                    },
            ),
            _ => Map::empty(),
        },
{
    if persisted.startup_load_status() == StartupLoadStatus::Read {
        return;
    }
    let states = match decoded {
        Some(PersistedWindowStateDecodeOutcome::Decoded(states)) => placements_of_states(states),
        Some(PersistedWindowStateDecodeOutcome::WholeFileRejected) => RoleMap::new(),
        None => RoleMap::new(),
    };
    persisted.seed(states);
}

/// Backups of one file under one label never share a name, whatever the attempts, and each name starts
/// with the file's own.
pub proof fn every_attempt_has_a_name_of_its_own(
    file_name: Seq<char>,
    label: Seq<char>,
    attempt: nat,
    other: nat,
)
    ensures
        (file_name + ".bak."@ + label).is_prefix_of(backup_name(file_name, label, attempt)),
        attempt == 0 ==> backup_name(file_name, label, attempt) == file_name + ".bak."@ + label,
        attempt > 0 ==> backup_name(file_name, label, attempt).skip(
            (file_name + ".bak."@ + label).len() as int,
        ) == "."@ + decimal_spelling(attempt),
        attempt != other ==> backup_name(file_name, label, attempt) != backup_name(
            file_name,
            label,
            other,
        ),
{
    let base = file_name + ".bak."@ + label;
    reveal_strlit(".");
    a_decimal_spelling_reads_back(attempt);
    a_decimal_spelling_reads_back(other);
    let mine = "."@ + decimal_spelling(attempt);
    let others = "."@ + decimal_spelling(other);
    assert(base + "."@ + decimal_spelling(attempt) =~= base + mine);
    assert(base + "."@ + decimal_spelling(other) =~= base + others);
    assert((base + mine).skip(base.len() as int) =~= mine);
    assert((base + others).skip(base.len() as int) =~= others);
    assert(mine.skip(1) =~= decimal_spelling(attempt));
    assert(others.skip(1) =~= decimal_spelling(other));
    assert((base + mine).take(base.len() as int) =~= base);
    assert(base.take(base.len() as int) =~= base);
    assert(mine.len() > 0 && others.len() > 0);
    assert(base.skip(base.len() as int) =~= Seq::empty());
}

/// A backup is labelled with the version that was found, behind a `v`, or as corrupt where none was
/// found; different versions have different labels.
pub proof fn a_label_names_the_version(version: u8, other: Option<u8>)
    ensures
        label_of(None) == "corrupt"@,
        label_of(Some(version)).len() > 0 && label_of(Some(version))[0] == 'v',
        number_spelled_by(label_of(Some(version)).skip(1)) == version,
        other != Some(version) ==> label_of(other) != label_of(Some(version)),
{
    reveal_strlit("v");
    reveal_strlit("corrupt");
    a_decimal_spelling_reads_back(version as nat);
    assert(("v"@ + decimal_spelling(version as nat)).skip(1) =~= decimal_spelling(version as nat));
    if let Some(found) = other {
        a_decimal_spelling_reads_back(found as nat);
        assert(("v"@ + decimal_spelling(found as nat)).skip(1) =~= decimal_spelling(found as nat));
    }
}

/// Examples share the directory of their package and have a file each; any other executable has a
/// directory of its own. A file is backed up exactly where it exists and cannot be read.
pub proof fn examples_share_a_directory(
    executable_name: &str,
    parent_directory: Option<&str>,
    package_name: &str,
    result: StateLocation,
)
    requires
        call_ensures(
            default_state_location,
            (executable_name, parent_directory, package_name),
            result,
        ),
    ensures
        (parent_directory matches Some(parent) && parent@ == "examples"@) ==> result.directory@
            == package_name@ && result.file@ == executable_name@ + ".ron"@,
        !(parent_directory matches Some(parent) && parent@ == "examples"@) ==> result.directory@
            == executable_name@ && result.file@ == "windows.ron"@,
{
}

/// A backup never takes a name that is taken, and its name starts with the file's own.
pub proof fn a_backup_overwrites_nothing(
    file_name: &str,
    label: &str,
    existing: Vec<String>,
    result: Option<String>,
    place: int,
)
    requires
        call_ensures(unused_backup_path, (file_name, label, &existing), result),
    ensures
        result matches Some(name) ==> {
            &&& 0 <= place < existing@.len() ==> existing@[place]@ != name@
            &&& (file_name@ + ".bak."@ + label@).is_prefix_of(name@)
        },
{
    if let Some(name) = result {
        let found = choose|found: nat|
            {
                &&& found < BACKUP_MAX_ATTEMPTS
                &&& name@ == #[trigger] backup_name(file_name@, label@, found)
                &&& !name_views(existing@).contains(name@)
            };
        every_attempt_has_a_name_of_its_own(file_name@, label@, found, 0);
        if 0 <= place < existing@.len() {
            assert(name_views(existing@)[place] == existing@[place]@);
        }
    }
}

} // verus!
