//! The table that a sequence of registration entries stands for.
//!
//! Everything here is specification: what the registry holds is defined as a
//! function of the collected entries alone.

use vstd::prelude::*;
use vstd::std_specs::cmp::PartialEqSpec;
use crate::entry::{ButlerRegistryEntryFactory, OwnerKey};

verus! {

/// The predicate "this entry is registered to `owner`".
pub open spec fn owned_by<A>(owner: OwnerKey) -> spec_fn(ButlerRegistryEntryFactory<A>) -> bool {
    |e: ButlerRegistryEntryFactory<A>| e.owner_key() == owner
}

/// The projection from an entry to its action.
pub open spec fn action_in<A>() -> spec_fn(ButlerRegistryEntryFactory<A>) -> A {
    |e: ButlerRegistryEntryFactory<A>| e.action_value()
}

/// The actions registered to `owner`, in the order in which their entries
/// occur in `entries`.
pub open spec fn actions_for<A>(
    entries: Seq<ButlerRegistryEntryFactory<A>>,
    owner: OwnerKey,
) -> Seq<A> {
    entries.filter(owned_by(owner)).map_values(action_in())
}

/// The owners that at least one entry is registered to.
pub open spec fn owners_of<A>(entries: Seq<ButlerRegistryEntryFactory<A>>) -> Set<OwnerKey> {
    Set::new(
        |owner: OwnerKey|
            exists|i: int| 0 <= i < entries.len() && (#[trigger] entries[i]).owner_key() == owner,
    )
}

/// The table built from `entries`: every owner with at least one entry,
/// mapped to its actions in collection order.
pub open spec fn table_of<A>(entries: Seq<ButlerRegistryEntryFactory<A>>) -> Map<
    OwnerKey,
    Seq<A>,
> {
    Map::new(
        |owner: OwnerKey| owners_of(entries).contains(owner),
        |owner: OwnerKey| actions_for(entries, owner),
    )
}

/// The actions a table holds for `owner`: none where the owner is unknown.
pub open spec fn actions_in<A>(table: Map<OwnerKey, Seq<A>>, owner: OwnerKey) -> Seq<A> {
    if table.contains_key(owner) {
        table[owner]
    } else {
        Seq::empty()
    }
}

/// Adding one entry at the end appends its action to its owner's actions and
/// leaves every other owner's actions alone.
pub proof fn lemma_actions_for_push<A>(
    entries: Seq<ButlerRegistryEntryFactory<A>>,
    entry: ButlerRegistryEntryFactory<A>,
    owner: OwnerKey,
)
    ensures
        actions_for(entries.push(entry), owner) == if entry.owner_key() == owner {
            actions_for(entries, owner).push(entry.action_value())
        } else {
            actions_for(entries, owner)
        },
{
    let pred = owned_by::<A>(owner);
    Seq::lemma_filter_push(entries, entry, pred);
    if entry.owner_key() == owner {
        assert(pred(entry));
        assert(entries.push(entry).filter(pred) == entries.filter(pred).push(entry));
        assert(entries.filter(pred).push(entry).map_values(action_in::<A>())
            =~= entries.filter(pred).map_values(action_in::<A>()).push(entry.action_value()));
    } else {
        assert(!pred(entry));
    }
}

/// An owner is in the table exactly when it has at least one action.
pub proof fn lemma_owner_has_actions<A>(
    entries: Seq<ButlerRegistryEntryFactory<A>>,
    owner: OwnerKey,
)
    ensures
        owners_of(entries).contains(owner) <==> actions_for(entries, owner).len() > 0,
    decreases entries.len(),
{
    if entries.len() > 0 {
        let front = entries.drop_last();
        let last = entries.last();
        assert(entries =~= front.push(last));
        lemma_owner_has_actions(front, owner);
        lemma_actions_for_push(front, last, owner);
        if owners_of(entries).contains(owner) {
            let i = choose|i: int| 0 <= i < entries.len() && (#[trigger] entries[i]).owner_key() == owner;
            if i < front.len() {
                assert(front[i].owner_key() == owner);
            }
        }
        if actions_for(entries, owner).len() > 0 {
            if last.owner_key() == owner {
                assert(entries[entries.len() - 1].owner_key() == owner);
            } else {
                let i = choose|i: int| 0 <= i < front.len() && (#[trigger] front[i]).owner_key() == owner;
                assert(entries[i].owner_key() == owner);
            }
        }
    } else {
        assert(entries.filter(owned_by::<A>(owner)) =~= Seq::empty()) by {
            reveal_with_fuel(Seq::filter, 1);
        }
    }
}

/// Adding one entry at the end changes the table at that entry's owner only.
pub proof fn lemma_table_push<A>(
    entries: Seq<ButlerRegistryEntryFactory<A>>,
    entry: ButlerRegistryEntryFactory<A>,
)
    ensures
        table_of(entries.push(entry)) == table_of(entries).insert(
            entry.owner_key(),
            actions_in(table_of(entries), entry.owner_key()).push(entry.action_value()),
        ),
{
    let grown = entries.push(entry);
    let left = table_of(grown);
    let right = table_of(entries).insert(
        entry.owner_key(),
        actions_in(table_of(entries), entry.owner_key()).push(entry.action_value()),
    );
    assert forall|owner: OwnerKey| left.contains_key(owner) <==> right.contains_key(owner) by {
        lemma_owner_has_actions(grown, owner);
        lemma_owner_has_actions(entries, owner);
        lemma_actions_for_push(entries, entry, owner);
    }
    assert forall|owner: OwnerKey| left.contains_key(owner) implies left[owner] == right[owner] by {
        lemma_owner_has_actions(entries, owner);
        lemma_actions_for_push(entries, entry, owner);
    }
    assert(left =~= right);
}

/// Every action held for an owner comes from an entry of that owner: for the
/// action at position `m`, the result is the position of such an entry.
pub proof fn lemma_action_source<A>(
    entries: Seq<ButlerRegistryEntryFactory<A>>,
    owner: OwnerKey,
    m: int,
) -> (i: int)
    requires
        0 <= m < actions_for(entries, owner).len(),
    ensures
        0 <= i < entries.len(),
        entries[i].owner_key() == owner,
        entries[i].action_value() == actions_for(entries, owner)[m],
    decreases entries.len(),
{
    if entries.len() == 0 {
        assert(entries.filter(owned_by::<A>(owner)) =~= Seq::empty()) by {
            reveal_with_fuel(Seq::filter, 1);
        }
        0
    } else {
        let front = entries.drop_last();
        let last = entries.last();
        assert(entries =~= front.push(last));
        lemma_actions_for_push(front, last, owner);
        if m < actions_for(front, owner).len() {
            lemma_action_source(front, owner, m)
        } else {
            entries.len() - 1
        }
    }
}

/// Every entry of an owner has its action among the owner's actions: for the
/// entry at position `i`, the result is the position of its action there.
pub proof fn lemma_action_held<A>(
    entries: Seq<ButlerRegistryEntryFactory<A>>,
    owner: OwnerKey,
    i: int,
) -> (m: int)
    requires
        0 <= i < entries.len(),
        entries[i].owner_key() == owner,
    ensures
        0 <= m < actions_for(entries, owner).len(),
        actions_for(entries, owner)[m] == entries[i].action_value(),
    decreases entries.len(),
{
    let front = entries.drop_last();
    let last = entries.last();
    assert(entries =~= front.push(last));
    lemma_actions_for_push(front, last, owner);
    if i < front.len() {
        lemma_action_held(front, owner, i)
    } else {
        actions_for(entries, owner).len() - 1
    }
}

/// Whether the entries at positions `i` and `j`, `i` before `j`, register
/// equal actions to one owner. Actions are compared as their type's `==`
/// compares them.
pub open spec fn collides<A: PartialEq>(
    entries: Seq<ButlerRegistryEntryFactory<A>>,
    i: int,
    j: int,
) -> bool {
    &&& 0 <= i < j < entries.len()
    &&& entries[i].owner_key() == entries[j].owner_key()
    &&& entries[i].action_value().eq_spec(&entries[j].action_value())
}

/// Whether the entry at position `j` repeats a registration made before it.
pub open spec fn repeats_earlier<A: PartialEq>(
    entries: Seq<ButlerRegistryEntryFactory<A>>,
    j: int,
) -> bool {
    exists|i: int| collides(entries, i, j)
}

/// Whether some (owner, action) pair is registered more than once.
pub open spec fn has_duplicate<A: PartialEq>(entries: Seq<ButlerRegistryEntryFactory<A>>) -> bool {
    exists|j: int| repeats_earlier(entries, j)
}

/// Whether `j` is the position of the first entry that repeats an earlier one.
pub open spec fn first_duplicate<A: PartialEq>(
    entries: Seq<ButlerRegistryEntryFactory<A>>,
    j: int,
) -> bool {
    &&& repeats_earlier(entries, j)
    &&& forall|k: int| 0 <= k < j ==> !repeats_earlier(entries, k)
}

/// There is at most one first duplicate.
pub proof fn lemma_first_duplicate_is_one<A: PartialEq>(
    entries: Seq<ButlerRegistryEntryFactory<A>>,
    j: int,
)
    requires
        first_duplicate(entries, j),
    ensures
        0 < j < entries.len(),
        has_duplicate(entries),
        forall|k: int| first_duplicate(entries, k) ==> k == j,
{
    let i = choose|i: int| collides(entries, i, j);
    assert forall|k: int| first_duplicate(entries, k) implies k == j by {
        let h = choose|h: int| collides(entries, h, k);
        if k < j {
            assert(!repeats_earlier(entries, k));
        }
        if j < k {
            assert(!repeats_earlier(entries, j));
        }
    }
}

/// An entry repeats an earlier registration exactly when its owner's actions
/// so far hold one equal to its own.
pub proof fn lemma_repeat_is_held<A: PartialEq>(
    entries: Seq<ButlerRegistryEntryFactory<A>>,
    j: int,
)
    requires
        0 <= j < entries.len(),
    ensures
        repeats_earlier(entries, j) <==> exists|m: int|
            0 <= m < actions_for(entries.take(j), entries[j].owner_key()).len() && (
            #[trigger] actions_for(entries.take(j), entries[j].owner_key())[m]).eq_spec(
                &entries[j].action_value(),
            ),
{
    let seen = entries.take(j);
    let owner = entries[j].owner_key();
    let held = actions_for(seen, owner);
    let action = entries[j].action_value();
    if repeats_earlier(entries, j) {
        let i = choose|i: int| collides(entries, i, j);
        assert(seen[i] == entries[i]);
        let m = lemma_action_held(seen, owner, i);
        assert(held[m].eq_spec(&action));
    }
    if exists|m: int| 0 <= m < held.len() && (#[trigger] held[m]).eq_spec(&action) {
        let m = choose|m: int| 0 <= m < held.len() && (#[trigger] held[m]).eq_spec(&action);
        let i = lemma_action_source(seen, owner, m);
        assert(seen[i] == entries[i]);
        assert(collides(entries, i, j));
    }
}

/// No entries, no table.
pub proof fn lemma_table_of_nothing<A>()
    ensures
        table_of(Seq::<ButlerRegistryEntryFactory<A>>::empty()) == Map::<OwnerKey, Seq<A>>::empty(),
{
    assert(table_of(Seq::<ButlerRegistryEntryFactory<A>>::empty()) =~= Map::<
        OwnerKey,
        Seq<A>,
    >::empty());
}

} // verus!
