//! Operating-system display product names.

use crate::platform::{OperatingSystem, Platform};
use vstd::prelude::*;
use vstd::std_specs::cmp::PartialEqSpecImpl;

verus! {

/// The product name the operating system shows the user for a display.
///
/// This presentation metadata is not device identity evidence and must not be used to derive a
/// durable display key.
#[derive(Debug)]
pub enum DisplayProductName {
    /// The operating system supplied a product name for this display.
    Reported(String),
    /// This platform supports product names but supplied none for this display.
    NotReported,
    /// This platform has no operating-system concept of a display product name.
    PlatformHasNoConcept,
}

/// The contents of a [`DisplayProductName`].
pub enum DisplayProductNameView {
    Reported(Seq<char>),
    NotReported,
    PlatformHasNoConcept,
}

impl View for DisplayProductName {
    type V = DisplayProductNameView;

    open spec fn view(&self) -> DisplayProductNameView {
        match self {
            DisplayProductName::Reported(name) => DisplayProductNameView::Reported(name@),
            DisplayProductName::NotReported => DisplayProductNameView::NotReported,
            DisplayProductName::PlatformHasNoConcept =>
                DisplayProductNameView::PlatformHasNoConcept,
        }
    }
}

impl DisplayProductName {
    /// The operating-system product name when it was reported.
    pub fn as_reported(&self) -> (result: Option<&str>)
        ensures
            match self@ {
                DisplayProductNameView::Reported(name) => result matches Some(reported)
                    && reported@ == name,
                _ => result is None,
            },
    {
        match self {
            DisplayProductName::Reported(name) => Some(name.as_str()),
            DisplayProductName::NotReported | DisplayProductName::PlatformHasNoConcept => None,
        }
    }
}

impl Clone for DisplayProductName {
    fn clone(&self) -> (copy: Self)
        ensures
            copy == *self,
    {
        match self {
            DisplayProductName::Reported(name) => DisplayProductName::Reported(name.clone()),
            DisplayProductName::NotReported => DisplayProductName::NotReported,
            DisplayProductName::PlatformHasNoConcept => DisplayProductName::PlatformHasNoConcept,
        }
    }
}

impl PartialEq for DisplayProductName {
    fn eq(&self, other: &Self) -> (same: bool) {
        match (self, other) {
            (DisplayProductName::Reported(name), DisplayProductName::Reported(other_name)) => *name
                == *other_name,
            (DisplayProductName::NotReported, DisplayProductName::NotReported) => true,
            (DisplayProductName::PlatformHasNoConcept, DisplayProductName::PlatformHasNoConcept) =>
                true,
            _ => false,
        }
    }
}

impl PartialEqSpecImpl for DisplayProductName {
    open spec fn obeys_eq_spec() -> bool {
        true
    }

    open spec fn eq_spec(&self, other: &Self) -> bool {
        self@ == other@
    }
}

impl Eq for DisplayProductName {

}

/// A screen as the macOS user interface lists it.
#[derive(Debug)]
pub struct AppKitScreen {
    /// The display behind the screen, where the screen names one.
    pub screen_number: Option<u32>,
    /// The name shown to the user.
    pub localized_name: String,
}

/// The name of the first screen from `index` on that stands for the display.
pub open spec fn screen_name(screens: Seq<AppKitScreen>, display_id: u32, index: int) -> Option<
    Seq<char>,
>
    decreases screens.len() - index,
{
    if index < 0 || index >= screens.len() {
        None
    } else if screens[index].screen_number == Some(display_id) {
        Some(screens[index].localized_name@)
    } else {
        screen_name(screens, display_id, index + 1)
    }
}

/// The product name of a display on macOS.
pub open spec fn macos_name(
    display_id: Option<u32>,
    screens: Option<Seq<AppKitScreen>>,
) -> DisplayProductNameView {
    match (display_id, screens) {
        (Some(id), Some(listed)) => match screen_name(listed, id, 0) {
            Some(name) => DisplayProductNameView::Reported(name),
            None => DisplayProductNameView::NotReported,
        },
        _ => DisplayProductNameView::NotReported,
    }
}

/// The contents of an optional list of screens.
pub open spec fn screens_view(screens: Option<&Vec<AppKitScreen>>) -> Option<Seq<AppKitScreen>> {
    match screens {
        Some(listed) => Some(listed@),
        None => None,
    }
}

/// The product name of a display, from the screen that stands for it. `screens` is `None` off the
/// main thread, where they cannot be listed.
pub fn macos_product_name(display_id: Option<u32>, screens: Option<&Vec<AppKitScreen>>) -> (result:
    DisplayProductName)
    ensures
        result@ == macos_name(display_id, screens_view(screens)),
{
    let id: u32 = match display_id {
        Some(id) => id,
        None => {
            return DisplayProductName::NotReported;
        },
    };
    let listed = match screens {
        Some(listed) => listed,
        None => {
            return DisplayProductName::NotReported;
        },
    };
    let mut index: usize = 0;
    while index < listed.len()
        invariant
            index <= listed@.len(),
            display_id == Some(id),
            screens == Some(listed),
            screen_name(listed@, id, 0) == screen_name(listed@, id, index as int),
        decreases listed@.len() - index,
    {
        let stands_for_display = match listed[index].screen_number {
            Some(number) => number == id,
            None => false,
        };
        if stands_for_display {
            return DisplayProductName::Reported(listed[index].localized_name.clone());
        }
        index += 1;
    }
    DisplayProductName::NotReported
}

/// The product name of a display: on macOS from its screen, on Windows and X11 the window system's
/// name for the monitor, and nowhere else.
pub open spec fn product_name(
    operating_system: OperatingSystem,
    display_id: Option<u32>,
    screens: Option<Seq<AppKitScreen>>,
    window_system_name: Option<Seq<char>>,
    platform: Platform,
) -> DisplayProductNameView {
    if operating_system == OperatingSystem::MacOs {
        macos_name(display_id, screens)
    } else if platform == Platform::Windows || platform == Platform::X11 {
        match window_system_name {
            Some(name) => DisplayProductNameView::Reported(name),
            None => DisplayProductNameView::NotReported,
        }
    } else {
        DisplayProductNameView::PlatformHasNoConcept
    }
}

/// The contents of an optional window-system name.
pub open spec fn optional_text(name: Option<String>) -> Option<Seq<char>> {
    match name {
        Some(text) => Some(text@),
        None => None,
    }
}

/// The product name of a display, as the platform supplies it.
pub fn from_platform(
    operating_system: OperatingSystem,
    display_id: Option<u32>,
    screens: Option<&Vec<AppKitScreen>>,
    window_system_name: &Option<String>,
    platform: Platform,
) -> (result: DisplayProductName)
    ensures
        result@ == product_name(
            operating_system,
            display_id,
            screens_view(screens),
            optional_text(*window_system_name),
            platform,
        ),
{
    if operating_system == OperatingSystem::MacOs {
        return macos_product_name(display_id, screens);
    }
    match platform {
        Platform::Windows | Platform::X11 => match window_system_name {
            Some(name) => DisplayProductName::Reported(name.clone()),
            None => DisplayProductName::NotReported,
        },
        Platform::MacOs | Platform::Wayland => DisplayProductName::PlatformHasNoConcept,
    }
}

/// Whether the screen at `index` is the first one that stands for the display.
pub open spec fn is_first_screen_of(
    screens: Seq<AppKitScreen>,
    index: int,
    display_id: u32,
) -> bool {
    &&& 0 <= index < screens.len()
    &&& screens[index].screen_number == Some(display_id)
    &&& forall|earlier: int|
        0 <= earlier < index ==> (#[trigger] screens[earlier]).screen_number != Some(display_id)
}

proof fn the_first_screen_is_found(
    screens: Seq<AppKitScreen>,
    display_id: u32,
    from: int,
    index: int,
)
    requires
        0 <= from,
    ensures
        is_first_screen_of(screens, index, display_id) && from <= index ==> screen_name(
            screens,
            display_id,
            from,
        ) == Some(screens[index].localized_name@),
        (forall|place: int|
            from <= place < screens.len() ==> (#[trigger] screens[place]).screen_number != Some(
                display_id,
            )) ==> screen_name(screens, display_id, from) is None,
    decreases screens.len() - from,
{
    if from < screens.len() {
        the_first_screen_is_found(screens, display_id, from + 1, index);
        if is_first_screen_of(screens, index, display_id) && from < index {
            assert(screens[from].screen_number != Some(display_id));
        }
        if forall|place: int|
            from <= place < screens.len() ==> (#[trigger] screens[place]).screen_number != Some(
                display_id,
            ) {
            assert(screens[from].screen_number != Some(display_id));
        }
    }
}

/// On macOS a display is called what the first screen that stands for it is called; a display without
/// such a screen, or whose screens or number are not known, has no name.
pub proof fn a_macos_display_is_called_what_its_screen_is(
    screens: Seq<AppKitScreen>,
    index: int,
    display_id: u32,
    window_system_name: Option<Seq<char>>,
    platform: Platform,
)
    ensures
        is_first_screen_of(screens, index, display_id) ==> product_name(
            OperatingSystem::MacOs,
            Some(display_id),
            Some(screens),
            window_system_name,
            platform,
        ) == DisplayProductNameView::Reported(screens[index].localized_name@),
        (forall|place: int|
            0 <= place < screens.len() ==> (#[trigger] screens[place]).screen_number != Some(
                display_id,
            )) ==> product_name(
            OperatingSystem::MacOs,
            Some(display_id),
            Some(screens),
            window_system_name,
            platform,
        ) is NotReported,
        product_name(OperatingSystem::MacOs, None, Some(screens), window_system_name, platform)
            is NotReported,
        product_name(OperatingSystem::MacOs, Some(display_id), None, window_system_name, platform)
            is NotReported,
{
    the_first_screen_is_found(screens, display_id, 0, index);
}

/// Away from macOS a display is called what the window system calls it, except on Wayland, which has no
/// such names.
pub proof fn another_display_is_called_what_the_window_system_calls_it(
    operating_system: OperatingSystem,
    display_id: Option<u32>,
    screens: Option<Seq<AppKitScreen>>,
    window_system_name: Option<Seq<char>>,
    platform: Platform,
)
    requires
        operating_system is Windows || operating_system is Linux,
    ensures
        platform is X11 || platform is Windows ==> match window_system_name {
            Some(name) => product_name(
                operating_system,
                display_id,
                screens,
                window_system_name,
                platform,
            ) == DisplayProductNameView::Reported(name),
            None => product_name(
                operating_system,
                display_id,
                screens,
                window_system_name,
                platform,
            ) is NotReported,
        },
        platform is Wayland ==> product_name(
            operating_system,
            display_id,
            screens,
            window_system_name,
            platform,
        ) is PlatformHasNoConcept,
{
}

} // verus!
