//! Keeps resize messages in agreement with the sizes that windows have.
//!
//! A restore writes a window's size directly, and the window system echoes the resize back a frame
//! later. Announcing the resize at once keeps everything that draws into the window in step.

use crate::geometry::UVec2;
use std::collections::HashMap;
use vstd::prelude::*;

verus! {

broadcast use vstd::std_specs::hash::group_hash_axioms;

/// The physical size last announced for each window.
///
/// The first observation of a window is recorded without an announcement, because its initial size
/// is known from its creation.
#[derive(Debug)]
pub struct AnnouncedPhysicalSizes {
    sizes: HashMap<u64, UVec2>,
}

impl View for AnnouncedPhysicalSizes {
    type V = Map<u64, UVec2>;

    closed spec fn view(&self) -> Map<u64, UVec2> {
        self.sizes@
    }
}

/// Whether a window of this size has to be announced.
pub open spec fn is_unpublished(announced: Map<u64, UVec2>, window: u64, size: UVec2) -> bool {
    announced.contains_key(window) && announced[window] != size
}

/// What has been announced after some windows were observed, in order.
pub open spec fn announced_after(announced: Map<u64, UVec2>, windows: Seq<(u64, UVec2)>) -> Map<
    u64,
    UVec2,
>
    decreases windows.len(),
{
    if windows.len() == 0 {
        announced
    } else {
        announced_after(announced, windows.drop_last()).insert(windows.last().0, windows.last().1)
    }
}

/// The windows that are announced when some windows are observed, in order.
pub open spec fn announcements(announced: Map<u64, UVec2>, windows: Seq<(u64, UVec2)>) -> Seq<
    (u64, UVec2),
>
    decreases windows.len(),
{
    if windows.len() == 0 {
        Seq::empty()
    } else {
        let earlier = announcements(announced, windows.drop_last());
        let (window, size) = windows.last();
        if is_unpublished(announced_after(announced, windows.drop_last()), window, size) {
            earlier.push((window, size))
        } else {
            earlier
        }
    }
}

impl AnnouncedPhysicalSizes {
    /// No window has been observed.
    pub fn new() -> (result: Self)
        ensures
            result@ == Map::<u64, UVec2>::empty(),
    {
        AnnouncedPhysicalSizes { sizes: HashMap::new() }
    }

    /// Observe a window and say whether its size has to be announced.
    pub fn observe(&mut self, window: u64, physical_size: UVec2) -> (result: bool)
        ensures
            result == is_unpublished(old(self)@, window, physical_size),
            final(self)@ == old(self)@.insert(window, physical_size),
    {
        let changed = match self.sizes.get(&window) {
            Some(announced) => *announced != physical_size,
            None => false,
        };
        self.sizes.insert(window, physical_size);
        changed
    }

    /// The windows whose size changed without an announcement.
    pub fn announce_unpublished_resizes(&mut self, windows: &Vec<(u64, UVec2)>) -> (result: Vec<
        (u64, UVec2),
    >)
        ensures
            result@ == announcements(old(self)@, windows@),
            final(self)@ == announced_after(old(self)@, windows@),
    {
        let ghost before = self@;
        let mut result: Vec<(u64, UVec2)> = Vec::new();
        let mut index: usize = 0;
        assert(windows@.take(0) =~= Seq::empty());
        while index < windows.len()
            invariant
                index <= windows@.len(),
                result@ == announcements(before, windows@.take(index as int)),
                self@ == announced_after(before, windows@.take(index as int)),
            decreases windows@.len() - index,
        {
            assert(windows@.take(index + 1).drop_last() =~= windows@.take(index as int));
            let (window, size) = windows[index];
            if self.observe(window, size) {
                result.push((window, size));
            }
            index += 1;
        }
        assert(windows@.take(index as int) =~= windows@);
        result
    }
}

/// Each change is announced once: after any observation, observing the same size again announces
/// nothing, and a window's first observation announces nothing.
pub proof fn each_change_is_announced_once(announced: Map<u64, UVec2>, window: u64, size: UVec2)
    ensures
        !is_unpublished(announced.insert(window, size), window, size),
        !announced.contains_key(window) ==> !is_unpublished(announced, window, size),
        forall|other: UVec2|
            other != size ==> is_unpublished(announced.insert(window, size), window, other),
{
}

/// A window has to be announced exactly where it was observed before and is now wider, narrower,
/// higher or lower.
pub proof fn either_dimension_counts(announced: Map<u64, UVec2>, window: u64, size: UVec2)
    ensures
        is_unpublished(announced, window, size) <==> announced.contains_key(window) && (
        announced[window].x != size.x || announced[window].y != size.y),
{
}

/// Observing windows in two steps announces what observing them in one does.
pub proof fn observations_add_up(
    announced: Map<u64, UVec2>,
    first: Seq<(u64, UVec2)>,
    second: Seq<(u64, UVec2)>,
)
    ensures
        announced_after(announced, first + second) == announced_after(
            announced_after(announced, first),
            second,
        ),
        announcements(announced, first + second) == announcements(announced, first) + announcements(
            announced_after(announced, first),
            second,
        ),
    decreases second.len(),
{
    if second.len() == 0 {
        assert(first + second =~= first);
        assert(announcements(announced, first) + Seq::<(u64, UVec2)>::empty() =~= announcements(
            announced,
            first,
        ));
    } else {
        assert((first + second).drop_last() =~= first + second.drop_last());
        observations_add_up(announced, first, second.drop_last());
        assert(announcements(announced, first + second) =~= announcements(announced, first)
            + announcements(announced_after(announced, first), second));
    }
}

/// Observing one window records its size, and announces it exactly where another size was recorded.
pub proof fn one_observation_records_one_size(
    announced: Map<u64, UVec2>,
    window: u64,
    size: UVec2,
    other: u64,
)
    ensures
        announced_after(announced, seq![(window, size)]).contains_pair(window, size),
        other != window ==> {
            &&& announced_after(announced, seq![(window, size)]).contains_key(other)
                <==> announced.contains_key(other)
            &&& announced_after(announced, seq![(window, size)])[other] == announced[other]
        },
        announcements(announced, seq![(window, size)]) == if announced.contains_key(window) && (
        announced[window].x != size.x || announced[window].y != size.y) {
            seq![(window, size)]
        } else {
            Seq::empty()
        },
{
    let one = seq![(window, size)];
    assert(one.drop_last() =~= Seq::empty());
    assert(announced_after(announced, one.drop_last()) == announced);
    assert(announcements(announced, one.drop_last()) =~= Seq::empty());
    assert(announcements(announced, one) =~= if is_unpublished(announced, window, size) {
        one
    } else {
        Seq::empty()
    });
}

/// Once a window is observed, its last observed size is the recorded one, whatever was observed of the
/// others.
pub proof fn the_last_size_is_remembered(
    announced: Map<u64, UVec2>,
    windows: Seq<(u64, UVec2)>,
    place: int,
)
    requires
        0 <= place < windows.len(),
        forall|later: int|
            place < later < windows.len() ==> (#[trigger] windows[later]).0 != windows[place].0,
    ensures
        announced_after(announced, windows).contains_pair(windows[place].0, windows[place].1),
    decreases windows.len(),
{
    let last = windows.len() - 1;
    if place < last {
        let rest = windows.drop_last();
        assert(windows[last].0 != windows[place].0);
        assert forall|later: int| place < later < rest.len() implies (#[trigger] rest[later]).0
            != rest[place].0 by {
            assert(rest[later] == windows[later]);
        }
        the_last_size_is_remembered(announced, rest, place);
    }
}

} // verus!
