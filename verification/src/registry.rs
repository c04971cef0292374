//! The registry: the table from owner to actions, fixed once it is built.

use vstd::prelude::*;
use vstd::std_specs::cmp::PartialEqSpec;
use std::collections::HashMap;
use crate::entry::{ButlerRegistryEntryFactory, OwnerKey};
use crate::system::{run_actions, ButlerSystem};
use crate::table;

verus! {

/// The table a hash map of action lists stands for.
spec fn table_view<A>(map: Map<u64, Vec<A>>) -> Map<OwnerKey, Seq<A>> {
    Map::new(|owner: OwnerKey| map.contains_key(owner.0), |owner: OwnerKey| map[owner.0]@)
}

/// The table has as many owners as the hash map has keys.
proof fn lemma_table_view_size<A>(map: Map<u64, Vec<A>>)
    requires
        map.dom().finite(),
    ensures
        table_view(map).dom().finite(),
        table_view(map).dom().len() == map.dom().len(),
{
    let wrap = |key: u64| OwnerKey(key);
    assert(vstd::relations::injective_on(wrap, map.dom()));
    assert(map.dom().map(wrap) =~= table_view(map).dom()) by {
        assert forall|owner: OwnerKey| map.dom().map(wrap).contains(owner) <==> table_view(
            map,
        ).dom().contains(owner) by {
            if table_view(map).dom().contains(owner) {
                assert(map.dom().contains(owner.0) && owner == wrap(owner.0));
            }
        }
    }
    vstd::set_lib::lemma_map_size(map.dom(), table_view(map).dom(), wrap);
}

/// A registration that repeats an earlier one: the same action registered to
/// the same owner a second time.
#[derive(Clone, Copy, PartialEq, Eq, Structural, Debug)]
pub struct DuplicateRegistration {
    /// The owner the action was registered to twice.
    pub owner: OwnerKey,
    /// The position, among the collected entries, of the repeated registration.
    pub index: usize,
}

/// Whether `list` holds an action equal to `action`.
fn holds_equal<A: PartialEq>(list: &[A], action: &A) -> (found: bool)
    ensures
        A::obeys_eq_spec() ==> (found <==> exists|m: int|
            0 <= m < list@.len() && (#[trigger] list@[m]).eq_spec(action)),
{
    let mut m: usize = 0;
    while m < list.len()
        invariant
            m <= list@.len(),
            A::obeys_eq_spec() ==> forall|k: int| 0 <= k < m ==> !(#[trigger] list@[k]).eq_spec(action),
        decreases list@.len() - m,
    {
        if list[m].eq(action) {
            return true;
        }
        m = m + 1;
    }
    false
}

/// Maps every owner to the actions registered to it, in collection order.
///
/// A registry is made by one pass over the collected entries and offers no
/// way to change it afterwards.
#[verifier::reject_recursive_types(A)]
pub struct ButlerRegistry<A> {
    table: HashMap<u64, Vec<A>>,
}

impl<A> View for ButlerRegistry<A> {
    type V = Map<OwnerKey, Seq<A>>;

    closed spec fn view(&self) -> Map<OwnerKey, Seq<A>> {
        table_view(self.table@)
    }
}

impl<A> ButlerRegistry<A> {
    /// The actions registered to `owner`: none where the owner is unknown.
    pub open spec fn actions_of(&self, owner: OwnerKey) -> Seq<A> {
        table::actions_in(self@, owner)
    }

    /// Groups `entries` by owner. Every entry is read once; within one owner
    /// the actions keep the order in which their entries occur.
    pub fn build(entries: &[ButlerRegistryEntryFactory<A>]) -> (registry: Self) where A: Copy
        ensures
            registry@ == table::table_of(entries@),
    {
        broadcast use vstd::std_specs::hash::group_hash_axioms;

        let mut map: HashMap<u64, Vec<A>> = HashMap::new();
        proof {
            table::lemma_table_of_nothing::<A>();
            assert(entries@.take(0) =~= Seq::empty());
            assert(table_view(map@) =~= Map::empty());
        }
        let mut i: usize = 0;
        while i < entries.len()
            invariant
                i <= entries@.len(),
                table_view(map@) == table::table_of(entries@.take(i as int)),
            decreases entries@.len() - i,
        {
            let owner = entries[i].owner();
            let action = *entries[i].action();
            let ghost before = map@;
            let list = map.entry(owner.0).or_insert(Vec::new());
            list.push(action);
            proof {
                let seen = entries@.take(i as int);
                assert(entries@.take(i as int + 1) =~= seen.push(entries@[i as int]));
                table::lemma_table_push(seen, entries@[i as int]);
                assert(table_view(map@) =~= table_view(before).insert(
                    owner,
                    table::actions_in(table_view(before), owner).push(action),
                ));
            }
            i = i + 1;
        }
        proof {
            assert(entries@.take(i as int) =~= entries@);
        }
        ButlerRegistry { table: map }
    }

    /// Groups `entries` by owner as [`ButlerRegistry::build`] does, but accepts
    /// no (owner, action) pair twice. The first entry that repeats an earlier
    /// registration stops the build; it is neither dropped nor kept.
    ///
    /// Actions are compared with their type's `==`. What is promised about
    /// duplicates holds for action types whose `==` follows its specification.
    pub fn build_unique(entries: &[ButlerRegistryEntryFactory<A>]) -> (result: Result<
        Self,
        DuplicateRegistration,
    >) where A: Copy + PartialEq
        ensures
            A::obeys_eq_spec() ==> (result is Err <==> table::has_duplicate(entries@)),
            match result {
                Ok(registry) => registry@ == table::table_of(entries@),
                Err(duplicate) => {
                    &&& duplicate.index < entries@.len()
                    &&& duplicate.owner == entries@[duplicate.index as int].owner_key()
                    &&& A::obeys_eq_spec() ==> table::first_duplicate(
                        entries@,
                        duplicate.index as int,
                    )
                },
            },
    {
        broadcast use vstd::std_specs::hash::group_hash_axioms;

        let mut map: HashMap<u64, Vec<A>> = HashMap::new();
        proof {
            table::lemma_table_of_nothing::<A>();
            assert(entries@.take(0) =~= Seq::empty());
            assert(table_view(map@) =~= Map::empty());
        }
        let mut i: usize = 0;
        while i < entries.len()
            invariant
                i <= entries@.len(),
                table_view(map@) == table::table_of(entries@.take(i as int)),
                A::obeys_eq_spec() ==> forall|k: int|
                    0 <= k < i ==> !table::repeats_earlier(entries@, k),
            decreases entries@.len() - i,
        {
            let owner = entries[i].owner();
            let action = *entries[i].action();
            let ghost seen = entries@.take(i as int);
            proof {
                table::lemma_repeat_is_held(entries@, i as int);
                table::lemma_owner_has_actions(seen, owner);
            }
            let repeated = match map.get(&owner.0) {
                Some(list) => holds_equal(list.as_slice(), &action),
                None => false,
            };
            proof {
                let held = table::actions_for(seen, owner);
                assert(held == table::actions_in(table_view(map@), owner));
                assert(A::obeys_eq_spec() ==> (repeated <==> exists|m: int|
                    0 <= m < held.len() && (#[trigger] held[m]).eq_spec(&action)));
            }
            if repeated {
                return Err(DuplicateRegistration { owner, index: i });
            }
            let ghost before = map@;
            let list = map.entry(owner.0).or_insert(Vec::new());
            list.push(action);
            proof {
                assert(entries@.take(i as int + 1) =~= seen.push(entries@[i as int]));
                table::lemma_table_push(seen, entries@[i as int]);
                assert(table_view(map@) =~= table_view(before).insert(
                    owner,
                    table::actions_in(table_view(before), owner).push(action),
                ));
            }
            i = i + 1;
        }
        proof {
            assert(entries@.take(i as int) =~= entries@);
            assert(A::obeys_eq_spec() ==> !table::has_duplicate(entries@));
        }
        Ok(ButlerRegistry { table: map })
    }

    /// The actions registered to `marker`, in collection order. An owner
    /// without registrations has the empty list.
    pub fn get_system_factories(&self, marker: OwnerKey) -> (actions: &[A])
        ensures
            actions@ == self.actions_of(marker),
    {
        broadcast use vstd::std_specs::hash::group_hash_axioms;

        match self.table.get(&marker.0) {
            Some(list) => list.as_slice(),
            None => &[],
        }
    }

    /// The number of owners that have at least one registration.
    pub fn len(&self) -> (count: usize)
        ensures
            self@.dom().finite(),
            count == self@.dom().len(),
    {
        broadcast use vstd::std_specs::hash::group_hash_axioms;

        proof {
            lemma_table_view_size(self.table@);
        }
        self.table.len()
    }

    /// Whether no owner has any registration.
    pub fn is_empty(&self) -> (empty: bool)
        ensures
            empty == (self@ == Map::<OwnerKey, Seq<A>>::empty()),
    {
        broadcast use vstd::std_specs::hash::group_hash_axioms;

        proof {
            if self.table@.dom().is_empty() {
                assert(self@ =~= Map::<OwnerKey, Seq<A>>::empty());
            } else {
                let key = choose|key: u64| self.table@.dom().contains(key);
                assert(self@.contains_key(OwnerKey(key)));
            }
        }
        self.table.is_empty()
    }

    /// Runs the actions registered to `owner` against `ctx`, in collection
    /// order, and returns how many ran. Each action sees what the ones before
    /// it did to `ctx`. An owner without registrations runs nothing.
    pub fn dispatch<C>(&self, owner: OwnerKey, ctx: &mut C) -> (count: usize) where
        A: ButlerSystem<C>,

        ensures
            count == self.actions_of(owner).len(),
            crate::system::runs_to(self.actions_of(owner), *old(ctx), *final(ctx)),
    {
        run_actions(self.get_system_factories(owner), ctx)
    }
}

} // verus!
