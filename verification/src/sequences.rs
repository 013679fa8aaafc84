//! Facts about sequences.

use vstd::prelude::*;

verus! {

/// What filtering a sequence up to and including one place adds to filtering it up to that place.
pub proof fn filter_of_longer_prefix<T>(items: Seq<T>, length: int, keep: spec_fn(T) -> bool)
    requires
        0 <= length < items.len(),
    ensures
        items.take(length + 1).filter(keep) == if keep(items[length]) {
            items.take(length).filter(keep).push(items[length])
        } else {
            items.take(length).filter(keep)
        },
{
    reveal(Seq::filter);
    assert(items.take(length + 1).drop_last() =~= items.take(length));
}

/// An item is in the filtered sequence exactly when it is in the sequence and is kept.
pub proof fn filter_contains<T>(items: Seq<T>, keep: spec_fn(T) -> bool, item: T)
    ensures
        items.filter(keep).contains(item) <==> items.contains(item) && keep(item),
    decreases items.len(),
{
    reveal(Seq::filter);
    if items.len() > 0 {
        let rest = items.drop_last();
        let last = items.last();
        filter_contains(rest, keep, item);
        assert(items =~= rest.push(last));
        let kept = rest.filter(keep);
        if keep(last) {
            assert(items.filter(keep) == kept.push(last));
            if kept.contains(item) {
                let i = choose|i: int| 0 <= i < kept.len() && kept[i] == item;
                assert(kept.push(last)[i] == item);
            }
            if item == last {
                assert(kept.push(last)[kept.len() as int] == item);
            }
        }
        if rest.contains(item) {
            let i = choose|i: int| 0 <= i < rest.len() && rest[i] == item;
            assert(items[i] == item);
        }
        if item == last {
            assert(items[items.len() - 1] == item);
        }
    }
}

} // verus!
