# hana_clerestory

Window placement memory for multi-display desktops: it remembers where windows were, recognises
displays by what identifies them, and gets windows back to their displays.

- `src/` is the library. It is written in Verus: every function states what it returns, and the
  proofs are checked with the code. It takes plain values and returns plain values.
- `tests/` runs the library on concrete values.
- `app/` connects the library to Bevy, winit, X11, macOS and the file system. Everything that reads
  or writes something outside the process is there, and so is all arithmetic with scale factors,
  which are floating-point numbers: the library carries and compares their encodings, and takes what
  they make of a coordinate as whole pixels.

The device kernel that binds roles to devices, `hana_rigging`, belongs to the same workspace and is not
a dependency of this library. What the library reads of it (identifiers, device keys, registered
schemes, the inventory) stands as plain values in `src/device.rs` and `src/inventory.rs`, where an
identifier is any text that is not empty. `app/` leaves binding roles and starting attempts to the
program that adds its plugins.

## Where to look

| Module | What it decides |
|--------|-----------------|
| `monitors::edid` | whether display identification data is valid, and which serial it publishes |
| `monitors::native`, `monitors::identity` | which evidence identifies a display, and its fingerprint |
| `monitors::topology`, `topology_scan`, `topology_change` | the installed monitors, their order, and what changed |
| `monitors::device_association`, `live_display_endpoint` | which live monitor a display key names |
| `reporter` | what a scan reports of each display |
| `persistence` | what a state file means, what a save writes, and what becomes of unreadable files |
| `restore` | where a window goes, and when it has settled there |
| `recovery` | whether a window that lost its display has been moved by the user |
| `platform` | everything that differs between platforms |

The facts that hold across several functions are public proof functions next to the definitions they
speak of, for instance `a_saved_file_reads_back`, `a_motionless_window_settles_as_a_match`,
`one_changed_byte_is_rejected` or `enumeration_is_unique`.

Three facts about the standard library are taken without proof, all in `src/text.rs`: what
`String::push` appends, when `str::from_utf8` succeeds, and what text it returns.
