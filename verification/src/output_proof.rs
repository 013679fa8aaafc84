//! Operating-system confirmation for output windows.
//!
//! The operating system is the hardware for a window: whether it reports that the native window is
//! on a screen and visible is the last observation available before the projector. That report
//! neither identifies the screen nor proves that pixels were drawn.

use crate::time::{saturating_sum, TimeSpan, MAX_NANOSECONDS};
use std::collections::HashMap;
use vstd::prelude::*;

verus! {

broadcast use vstd::std_specs::hash::group_hash_axioms;

/// How often a shown window must be confirmed, in nanoseconds.
pub const CADENCE_NANOSECONDS: u128 = 1_000_000_000;

/// What the operating system reported about one native window.
#[derive(Clone, Copy, Debug, PartialEq, Eq, Structural)]
pub enum WindowOnScreenReading {
    /// Some part of the window's bounds is visible.
    ReportedVisible,
    /// No part of the window's bounds is visible.
    ReportedOccluded,
    /// The window is not currently associated with any screen.
    OnNoScreen,
}

/// One complete attempt to observe whether an output window is on screen.
#[derive(Clone, Copy, Debug, PartialEq, Eq, Structural)]
pub enum WindowOnScreenObservation {
    /// The operating system, or the script standing in for it, produced this reading.
    Reading(WindowOnScreenReading),
    /// The native window has not been created yet.
    NoNativeWindowYet,
    /// The script has no reading for this window.
    NoScriptedReading,
}

impl WindowOnScreenObservation {
    /// Whether the observation confirms that the window is shown.
    pub fn confirms(self) -> (result: bool)
        ensures
            result == (self == WindowOnScreenObservation::Reading(
                WindowOnScreenReading::ReportedVisible,
            )),
    {
        match self {
            WindowOnScreenObservation::Reading(WindowOnScreenReading::ReportedVisible) => true,
            _ => false,
        }
    }
}

/// The reading of a native window.
pub fn native_reading(has_screen: bool, reported_visible: bool) -> (result: WindowOnScreenReading)
    ensures
        result == if !has_screen {
            WindowOnScreenReading::OnNoScreen
        } else if reported_visible {
            WindowOnScreenReading::ReportedVisible
        } else {
            WindowOnScreenReading::ReportedOccluded
        },
{
    if !has_screen {
        WindowOnScreenReading::OnNoScreen
    } else if reported_visible {
        WindowOnScreenReading::ReportedVisible
    } else {
        WindowOnScreenReading::ReportedOccluded
    }
}

/// How often a shown window must be confirmed.
pub fn cadence() -> (result: TimeSpan)
    ensures
        result@ == CADENCE_NANOSECONDS,
{
    TimeSpan::from_nanoseconds(CADENCE_NANOSECONDS)
}

/// The earliest time at which the next observation may be taken.
///
/// Starting at zero makes a newly installed poll read immediately. Every poll moves the time by half
/// the cadence, so that a report that stops is noticed within one cadence.
#[derive(Clone, Copy, Debug, PartialEq, Eq, Structural)]
pub struct NextWindowOnScreenReadingAt(TimeSpan);

impl View for NextWindowOnScreenReadingAt {
    type V = int;

    closed spec fn view(&self) -> int {
        self.0@
    }
}

impl NextWindowOnScreenReadingAt {
    /// The next observation may be taken at once.
    pub fn new() -> (result: Self)
        ensures
            result@ == 0,
    {
        NextWindowOnScreenReadingAt(TimeSpan::from_nanoseconds(0))
    }

    /// Whether an observation may be taken.
    pub fn is_due(&self, now: TimeSpan) -> (result: bool)
        ensures
            result == (now@ >= self@),
    {
        now.reaches(self.0)
    }

    /// Take no observation before `interval` has passed.
    pub fn postpone_from(&mut self, now: TimeSpan, interval: TimeSpan)
        ensures
            final(self)@ == saturating_sum(now@, interval@),
    {
        self.0 = now.saturating_add(interval);
    }

    /// Whether a poll takes place now; if so, the next one is half a cadence away.
    pub fn begin_poll(&mut self, now: TimeSpan) -> (result: bool)
        ensures
            result == (now@ >= old(self)@),
            final(self)@ == if result {
                saturating_sum(now@, CADENCE_NANOSECONDS as int / 2)
            } else {
                old(self)@
            },
    {
        if !self.is_due(now) {
            return false;
        }
        self.postpone_from(now, cadence().half());
        true
    }
}

/// A count after some more readings, at most the largest count.
pub open spec fn counted(taken: usize, more: nat) -> int {
    if taken + more > usize::MAX {
        usize::MAX as int
    } else {
        taken + more
    }
}

/// Readings that a script supplies in place of the operating system.
#[derive(Debug)]
pub struct ScriptedWindowOnScreenReadings {
    readings: HashMap<u64, WindowOnScreenReading>,
    readings_taken: usize,
}

impl ScriptedWindowOnScreenReadings {
    /// The scripted readings.
    pub closed spec fn scripted(&self) -> Map<u64, WindowOnScreenReading> {
        self.readings@
    }

    /// How many readings have been asked for.
    pub closed spec fn taken(&self) -> usize {
        self.readings_taken
    }

    /// What observing a window gives.
    pub open spec fn observation(&self, window: u64) -> WindowOnScreenObservation {
        if self.scripted().contains_key(window) {
            WindowOnScreenObservation::Reading(self.scripted()[window])
        } else {
            WindowOnScreenObservation::NoScriptedReading
        }
    }

    /// Nothing scripted.
    pub fn new() -> (result: Self)
        ensures
            result.scripted() == Map::<u64, WindowOnScreenReading>::empty(),
            result.taken() == 0,
    {
        ScriptedWindowOnScreenReadings { readings: HashMap::new(), readings_taken: 0 }
    }

    /// Supply or replace the reading for `window`.
    pub fn script(&mut self, window: u64, reading: WindowOnScreenReading)
        ensures
            final(self).scripted() == old(self).scripted().insert(window, reading),
            final(self).taken() == old(self).taken(),
    {
        self.readings.insert(window, reading);
    }

    /// How many readings have been asked for.
    pub fn readings_taken(&self) -> (result: usize)
        ensures
            result == self.taken(),
    {
        self.readings_taken
    }

    /// Observe a window.
    pub fn observe(&mut self, window: u64) -> (result: WindowOnScreenObservation)
        ensures
            final(self).scripted() == old(self).scripted(),
            final(self).taken() == counted(old(self).taken(), 1),
            result == old(self).observation(window),
    {
        self.readings_taken = self.readings_taken.saturating_add(1);
        match self.readings.get(&window) {
            Some(reading) => WindowOnScreenObservation::Reading(*reading),
            None => WindowOnScreenObservation::NoScriptedReading,
        }
    }
}

/// Poll scripted windows: if a poll is due, observe each window once and return those that are
/// confirmed.
pub fn poll_windows_on_screen(
    next_reading_at: &mut NextWindowOnScreenReadingAt,
    now: TimeSpan,
    windows: &Vec<u64>,
    readings: &mut ScriptedWindowOnScreenReadings,
) -> (result: Vec<u64>)
    ensures
        final(readings).scripted() == old(readings).scripted(),
        now@ < old(next_reading_at)@ ==> {
            &&& result@ == Seq::<u64>::empty()
            &&& final(readings).taken() == old(readings).taken()
            &&& final(next_reading_at)@ == old(next_reading_at)@
        },
        now@ >= old(next_reading_at)@ ==> {
            &&& result@ == windows@.filter(
                |window: u64|
                    old(readings).observation(window) == WindowOnScreenObservation::Reading(
                        WindowOnScreenReading::ReportedVisible,
                    ),
            )
            &&& final(readings).taken() == counted(old(readings).taken(), windows@.len())
            &&& final(next_reading_at)@ == saturating_sum(now@, CADENCE_NANOSECONDS as int / 2)
        },
{
    let mut confirmed: Vec<u64> = Vec::new();
    if !next_reading_at.begin_poll(now) {
        return confirmed;
    }
    let ghost script = *readings;
    let ghost is_confirmed = |window: u64|
        script.observation(window) == WindowOnScreenObservation::Reading(
            WindowOnScreenReading::ReportedVisible,
        );
    let mut index: usize = 0;
    proof {
        reveal(Seq::filter);
        assert(windows@.take(0) =~= Seq::empty());
    }
    while index < windows.len()
        invariant
            index <= windows@.len(),
            readings.scripted() == script.scripted(),
            readings.taken() == counted(script.taken(), index as nat),
            is_confirmed == (|window: u64|
                script.observation(window) == WindowOnScreenObservation::Reading(
                    WindowOnScreenReading::ReportedVisible,
                )),
            confirmed@ == windows@.take(index as int).filter(is_confirmed),
        decreases windows@.len() - index,
    {
        let window: u64 = windows[index];
        proof {
            crate::sequences::filter_of_longer_prefix(windows@, index as int, is_confirmed);
        }
        if readings.observe(window).confirms() {
            confirmed.push(window);
        }
        index += 1;
    }
    assert(windows@.take(index as int) =~= windows@);
    confirmed
}

/// Windows are read at most once in each half cadence: after a poll, none is due until half a
/// cadence has passed, and one is due from then on.
pub proof fn polls_are_half_a_cadence_apart(polled_at: int, later: int)
    requires
        0 <= polled_at <= later,
        later < MAX_NANOSECONDS,
    ensures
        later >= saturating_sum(polled_at, CADENCE_NANOSECONDS as int / 2) <==> later - polled_at
            >= CADENCE_NANOSECONDS as int / 2,
{
}

/// A shown window is confirmed once a second, so after a poll none is due for half a second, and one is
/// due from then on.
pub proof fn polls_are_half_a_second_apart(polled_at: int, later: int)
    requires
        0 <= polled_at <= later,
        later < MAX_NANOSECONDS,
    ensures
        later >= saturating_sum(polled_at, CADENCE_NANOSECONDS as int / 2) <==> later - polled_at
            >= 500_000_000,
{
}

/// Readings are counted one by one, up to the largest count.
pub proof fn readings_add_up(taken: usize, first: nat, second: nat)
    requires
        taken + first <= usize::MAX,
    ensures
        counted(taken, first) == taken + first,
        counted(counted(taken, first) as usize, second) == counted(taken, first + second),
        taken <= counted(taken, second) <= usize::MAX,
        taken + second >= usize::MAX ==> counted(taken, second) == usize::MAX,
{
}

/// A scripted window is observed as scripted, and a window without a script is not observed at all.
pub proof fn a_window_is_observed_as_scripted(
    readings: ScriptedWindowOnScreenReadings,
    window: u64,
)
    ensures
        match readings.observation(window) {
            WindowOnScreenObservation::Reading(reading) => readings.scripted().contains_pair(
                window,
                reading,
            ),
            WindowOnScreenObservation::NoScriptedReading => !readings.scripted().contains_key(
                window,
            ),
            WindowOnScreenObservation::NoNativeWindowYet => false,
        },
{
}

/// A window is confirmed exactly where the operating system has it on a screen and reports it visible.
pub proof fn only_a_visible_window_is_confirmed(
    has_screen: bool,
    reported_visible: bool,
    reading: WindowOnScreenReading,
    observation: WindowOnScreenObservation,
    confirmed: bool,
)
    requires
        call_ensures(native_reading, (has_screen, reported_visible), reading),
        call_ensures(WindowOnScreenObservation::confirms, (observation,), confirmed),
    ensures
        reading is OnNoScreen <==> !has_screen,
        reading is ReportedVisible <==> has_screen && reported_visible,
        reading is ReportedOccluded <==> has_screen && !reported_visible,
        observation == WindowOnScreenObservation::Reading(reading) ==> (confirmed <==> has_screen
            && reported_visible),
        !(observation is Reading) ==> !confirmed,
{
}

} // verus!
