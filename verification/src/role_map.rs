//! A map from role keys to values.

use crate::device::RoleKey;
use vstd::prelude::*;

verus! {

/// At most one value for each role.
#[derive(Debug)]
pub struct RoleMap<V> {
    entries: Vec<(RoleKey, V)>,
}

/// Whether the entry at `index` belongs to `key`.
spec fn entry_is_for<V>(entries: Seq<(RoleKey, V)>, index: int, key: Seq<char>) -> bool {
    0 <= index < entries.len() && entries[index].0@ == key
}

/// No role occurs twice.
spec fn roles_are_distinct<V>(entries: Seq<(RoleKey, V)>) -> bool {
    forall|i: int, j: int|
        0 <= i < entries.len() && 0 <= j < entries.len() && i != j
            ==> #[trigger] entries[i].0@ != #[trigger] entries[j].0@
}

/// The map that a list of entries with distinct roles stands for.
spec fn map_of_entries<V>(entries: Seq<(RoleKey, V)>) -> Map<Seq<char>, V> {
    Map::new(
        |key: Seq<char>| exists|i: int| entry_is_for(entries, i, key),
        |key: Seq<char>| entries[choose|i: int| entry_is_for(entries, i, key)].1,
    )
}

proof fn map_holds_entry<V>(entries: Seq<(RoleKey, V)>, index: int)
    requires
        roles_are_distinct(entries),
        0 <= index < entries.len(),
    ensures
        map_of_entries(entries).contains_key(entries[index].0@),
        map_of_entries(entries)[entries[index].0@] == entries[index].1,
{
    let key = entries[index].0@;
    assert(entry_is_for(entries, index, key));
    let chosen = choose|i: int| entry_is_for(entries, i, key);
    assert(entries[chosen].0@ == entries[index].0@);
}

/// A role that is in the map has an entry.
proof fn map_key_has_entry<V>(entries: Seq<(RoleKey, V)>, key: Seq<char>) -> (index: int)
    requires
        roles_are_distinct(entries),
        map_of_entries(entries).contains_key(key),
    ensures
        entry_is_for(entries, index, key),
        map_of_entries(entries)[key] == entries[index].1,
{
    choose|i: int| entry_is_for(entries, i, key)
}

/// The roles of a list of entries.
spec fn roles_of_entries<V>(entries: Seq<(RoleKey, V)>) -> Seq<Seq<char>> {
    entries.map_values(|entry: (RoleKey, V)| entry.0@)
}

/// `roles` lists every key of `map` exactly once, and nothing else.
pub open spec fn lists_domain<V>(roles: Seq<Seq<char>>, map: Map<Seq<char>, V>) -> bool {
    &&& roles.no_duplicates()
    &&& forall|key: Seq<char>| #[trigger] map.contains_key(key) <==> roles.contains(key)
    &&& map.dom().finite()
    &&& map.dom().len() == roles.len()
}

proof fn roles_list_the_domain<V>(entries: Seq<(RoleKey, V)>)
    requires
        roles_are_distinct(entries),
    ensures
        lists_domain(roles_of_entries(entries), map_of_entries(entries)),
{
    let roles = roles_of_entries(entries);
    let map = map_of_entries(entries);
    assert forall|key: Seq<char>| #[trigger] map.contains_key(key) implies roles.contains(key) by {
        let index = map_key_has_entry(entries, key);
        assert(roles[index] == key);
    }
    assert forall|key: Seq<char>| roles.contains(key) implies #[trigger] map.contains_key(key) by {
        let index = choose|i: int| 0 <= i < roles.len() && roles[i] == key;
        map_holds_entry(entries, index);
    }
    assert forall|i: int, j: int|
        0 <= i < roles.len() && 0 <= j < roles.len() && i != j implies roles[i] != roles[j] by {
        assert(entries[i].0@ != entries[j].0@);
    }
    assert(map.dom() =~= roles.to_set());
    roles.unique_seq_to_set();
    vstd::seq_lib::seq_to_set_is_finite(roles);
}

impl<V> View for RoleMap<V> {
    type V = Map<Seq<char>, V>;

    closed spec fn view(&self) -> Map<Seq<char>, V> {
        map_of_entries(self.entries@)
    }
}

impl<V> RoleMap<V> {
    /// No role occurs twice.
    pub closed spec fn wf(&self) -> bool {
        roles_are_distinct(self.entries@)
    }

    /// The roles in the order in which the map lists them.
    pub closed spec fn roles(&self) -> Seq<Seq<char>> {
        roles_of_entries(self.entries@)
    }

    /// Every role of the map is listed exactly once, and nothing else is listed.
    pub proof fn roles_list_the_domain(&self)
        requires
            self.wf(),
        ensures
            lists_domain(self.roles(), self@),
    {
        roles_list_the_domain(self.entries@);
    }

    /// The empty map.
    pub fn new() -> (result: Self)
        ensures
            result.wf(),
            result@ == Map::<Seq<char>, V>::empty(),
            result.roles() == Seq::<Seq<char>>::empty(),
    {
        let result = RoleMap { entries: Vec::new() };
        assert(result@ =~= Map::<Seq<char>, V>::empty());
        assert(result.roles() =~= Seq::<Seq<char>>::empty());
        result
    }

    /// Number of roles.
    pub fn len(&self) -> (result: usize)
        requires
            self.wf(),
        ensures
            result == self.roles().len(),
            result == self@.dom().len(),
    {
        proof {
            roles_list_the_domain(self.entries@);
        }
        self.entries.len()
    }

    /// Whether no role has a value.
    pub fn is_empty(&self) -> (result: bool)
        requires
            self.wf(),
        ensures
            result == (self@ == Map::<Seq<char>, V>::empty()),
    {
        let result = self.entries.len() == 0;
        proof {
            if result {
                assert(self@ =~= Map::<Seq<char>, V>::empty());
            } else {
                map_holds_entry(self.entries@, 0);
            }
        }
        result
    }

    /// The role listed at `index`.
    pub fn role_at(&self, index: usize) -> (role: &RoleKey)
        requires
            self.wf(),
            index < self.roles().len(),
        ensures
            role@ == self.roles()[index as int],
            self@.contains_key(role@),
    {
        proof {
            map_holds_entry(self.entries@, index as int);
        }
        &self.entries[index].0
    }

    /// The value of the role listed at `index`.
    pub fn value_at(&self, index: usize) -> (value: &V)
        requires
            self.wf(),
            index < self.roles().len(),
        ensures
            self@.contains_key(self.roles()[index as int]),
            *value == self@[self.roles()[index as int]],
    {
        proof {
            map_holds_entry(self.entries@, index as int);
        }
        &self.entries[index].1
    }

    /// Where the entry of `role` stands.
    fn position(&self, role: &RoleKey) -> (result: Option<usize>)
        ensures
            match result {
                Some(index) => entry_is_for(self.entries@, index as int, role@),
                None => !self@.contains_key(role@),
            },
    {
        let mut index: usize = 0;
        while index < self.entries.len()
            invariant
                index <= self.entries.len(),
                forall|i: int| 0 <= i < index ==> !#[trigger] entry_is_for(self.entries@, i, role@),
            decreases self.entries.len() - index,
        {
            if self.entries[index].0 == *role {
                return Some(index);
            }
            index += 1;
        }
        None
    }

    /// The value of `role`.
    pub fn get(&self, role: &RoleKey) -> (result: Option<&V>)
        requires
            self.wf(),
        ensures
            match result {
                Some(value) => self@.contains_key(role@) && *value == self@[role@],
                None => !self@.contains_key(role@),
            },
    {
        match self.position(role) {
            Some(index) => {
                proof {
                    map_holds_entry(self.entries@, index as int);
                }
                Some(&self.entries[index].1)
            },
            None => None,
        }
    }

    /// Whether `role` has a value.
    pub fn contains_key(&self, role: &RoleKey) -> (result: bool)
        requires
            self.wf(),
        ensures
            result == self@.contains_key(role@),
    {
        self.get(role).is_some()
    }

    /// Give `role` the value `value`, replacing any earlier one.
    pub fn insert(&mut self, role: RoleKey, value: V)
        requires
            old(self).wf(),
        ensures
            final(self).wf(),
            final(self)@ == old(self)@.insert(role@, value),
    {
        let ghost key = role@;
        let ghost before = self.entries@;
        let ghost mut written = before.len() as int;
        match self.position(&role) {
            Some(index) => {
                proof {
                    written = index as int;
                }
                self.entries.set(index, (role, value));
            },
            None => {
                proof {
                    assert forall|i: int| 0 <= i < before.len() implies #[trigger] before[i].0@
                        != key by {
                        if before[i].0@ == key {
                            assert(entry_is_for(before, i, key));
                        }
                    }
                }
                self.entries.push((role, value));
            },
        }
        proof {
            let after = self.entries@;
            assert forall|other: Seq<char>| map_of_entries(before).insert(key, value).contains_key(
                other,
            ) == map_of_entries(after).contains_key(other) by {
                if map_of_entries(after).contains_key(other) {
                    let i = map_key_has_entry(after, other);
                    if other != key {
                        assert(entry_is_for(before, i, other));
                    }
                }
                if other == key {
                    map_holds_entry(after, written);
                } else if map_of_entries(before).contains_key(other) {
                    let i = map_key_has_entry(before, other);
                    assert(after[i] == before[i]);
                    map_holds_entry(after, i);
                }
            }
            assert forall|other: Seq<char>| map_of_entries(after).contains_key(other) implies
                map_of_entries(before).insert(key, value)[other] == map_of_entries(
                after,
            )[other] by {
                let i = map_key_has_entry(after, other);
                if other != key {
                    assert(after[i] == before[i]);
                    map_holds_entry(before, i);
                }
            }
            assert(map_of_entries(after) =~= map_of_entries(before).insert(key, value));
        }
    }

    /// Take the value of `role` away, if it has one.
    pub fn remove(&mut self, role: &RoleKey)
        requires
            old(self).wf(),
        ensures
            final(self).wf(),
            final(self)@ == old(self)@.remove(role@),
    {
        let ghost before = self.entries@;
        match self.position(role) {
            Some(index) => {
                proof {
                    let after = before.remove(index as int);
                    assert forall|i: int, j: int|
                        0 <= i < after.len() && 0 <= j < after.len() && i
                            != j implies #[trigger] after[i].0@ != #[trigger] after[j].0@ by {
                        let before_i = if i < index {
                            i
                        } else {
                            i + 1
                        };
                        let before_j = if j < index {
                            j
                        } else {
                            j + 1
                        };
                        assert(after[i] == before[before_i]);
                        assert(after[j] == before[before_j]);
                    }
                }
                self.entries.remove(index);
                proof {
                    let after = self.entries@;
                    let key = role@;
                    assert forall|other: Seq<char>| #[trigger]
                        map_of_entries(after).contains_key(other) implies map_of_entries(
                        before,
                    ).remove(key).contains_key(other) && map_of_entries(before)[other]
                        == map_of_entries(after)[other] by {
                        let i = map_key_has_entry(after, other);
                        let before_i = if i < index {
                            i
                        } else {
                            i + 1
                        };
                        assert(after[i] == before[before_i]);
                        map_holds_entry(before, before_i);
                        assert(before[before_i].0@ != before[index as int].0@);
                    }
                    assert forall|other: Seq<char>| #[trigger]
                        map_of_entries(before).remove(key).contains_key(
                            other,
                        ) implies map_of_entries(after).contains_key(other) by {
                        let i = map_key_has_entry(before, other);
                        let after_i = if i < index {
                            i
                        } else {
                            i - 1
                        };
                        assert(after[after_i] == before[i]);
                        map_holds_entry(after, after_i);
                    }
                    assert(map_of_entries(after) =~= map_of_entries(before).remove(key));
                }
            },
            None => {
                assert(self@.remove(role@) =~= self@);
            },
        }
    }
}

} // verus!
