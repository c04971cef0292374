//! Laws of the runtime: what holds of every collection of entries, every
//! owner and every context.

use vstd::prelude::*;
use vstd::std_specs::cmp::PartialEqSpec;
use crate::collector::Collector;
use crate::entry::{ButlerRegistryEntryFactory, OwnerKey};
use crate::system::ButlerSystem;

verus! {

/// An owner whose registrations are all there is holds every collected
/// action, in the order of collection: with `k` entries it holds `k` actions,
/// and the action at each position is that of the entry at the same position.
pub proof fn lemma_sole_owner_holds_all<A>(
    entries: Seq<ButlerRegistryEntryFactory<A>>,
    owner: OwnerKey,
)
    requires
        forall|i: int| 0 <= i < entries.len() ==> (#[trigger] entries[i]).owner_key() == owner,
    ensures
        crate::table::actions_for(entries, owner).len() == entries.len(),
        forall|i: int|
            0 <= i < entries.len() ==> crate::table::actions_for(entries, owner)[i]
                == (#[trigger] entries[i]).action_value(),
        crate::table::actions_in(crate::table::table_of(entries), owner)
            == crate::table::actions_for(entries, owner),
    decreases entries.len(),
{
    crate::table::lemma_owner_has_actions(entries, owner);
    if entries.len() == 0 {
        assert(entries.filter(crate::table::owned_by::<A>(owner)) =~= Seq::empty()) by {
            reveal_with_fuel(Seq::filter, 1);
        }
    } else {
        let front = entries.drop_last();
        assert(entries =~= front.push(entries.last()));
        assert forall|i: int| 0 <= i < front.len() implies (#[trigger] front[i]).owner_key()
            == owner by {
            assert(front[i] == entries[i]);
        }
        lemma_sole_owner_holds_all(front, owner);
        crate::table::lemma_actions_for_push(front, entries.last(), owner);
        assert forall|i: int| 0 <= i < entries.len() implies crate::table::actions_for(
            entries,
            owner,
        )[i] == (#[trigger] entries[i]).action_value() by {
            if i < front.len() {
                assert(front[i] == entries[i]);
            }
        }
    }
}

/// What an owner holds depends on its own entries only: leaving out the
/// entries of all other owners changes nothing for it.
pub proof fn lemma_other_owners_do_not_matter<A>(
    entries: Seq<ButlerRegistryEntryFactory<A>>,
    owner: OwnerKey,
)
    ensures
        crate::table::actions_for(entries, owner) == crate::table::actions_for(
            entries.filter(crate::table::owned_by(owner)),
            owner,
        ),
    decreases entries.len(),
{
    let pred = crate::table::owned_by::<A>(owner);
    if entries.len() == 0 {
        assert(entries.filter(pred) =~= Seq::empty()) by {
            reveal_with_fuel(Seq::filter, 1);
        }
    } else {
        let front = entries.drop_last();
        let last = entries.last();
        assert(entries =~= front.push(last));
        lemma_other_owners_do_not_matter(front, owner);
        crate::table::lemma_actions_for_push(front, last, owner);
        Seq::lemma_filter_push(front, last, pred);
        if last.owner_key() == owner {
            assert(pred(last));
            crate::table::lemma_actions_for_push(front.filter(pred), last, owner);
        } else {
            assert(!pred(last));
        }
    }
}

/// An owner without registrations holds nothing, and running nothing leaves
/// the context exactly as it was.
pub proof fn lemma_unregistered_owner_runs_nothing<C, A: ButlerSystem<C>>(
    entries: Seq<ButlerRegistryEntryFactory<A>>,
    owner: OwnerKey,
    before: C,
    after: C,
)
    requires
        forall|i: int| 0 <= i < entries.len() ==> (#[trigger] entries[i]).owner_key() != owner,
    ensures
        crate::table::actions_in(crate::table::table_of(entries), owner) == Seq::<A>::empty(),
        crate::system::runs_to(
            crate::table::actions_in(crate::table::table_of(entries), owner),
            before,
            after,
        ) <==> after == before,
{
    assert(!crate::table::owners_of(entries).contains(owner));
}

/// Running one sequence of actions and then another is running the two in a
/// row.
pub proof fn lemma_runs_in_a_row<C, A: ButlerSystem<C>>(
    first: Seq<A>,
    second: Seq<A>,
    before: C,
    between: C,
    after: C,
)
    requires
        crate::system::runs_to(first, before, between),
        crate::system::runs_to(second, between, after),
    ensures
        crate::system::runs_to(first + second, before, after),
    decreases second.len(),
{
    if second.len() == 0 {
        assert(first + second =~= first);
    } else {
        let mid = choose|mid: C|
            crate::system::runs_to(second.drop_last(), between, mid) && #[trigger] second.last().effect(
                mid,
                after,
            );
        lemma_runs_in_a_row(first, second.drop_last(), before, between, mid);
        assert((first + second).drop_last() =~= first + second.drop_last());
        assert((first + second).last() == second.last());
    }
}

/// A run of two sequences in a row passes through a context at which the
/// first has ended and the second begins.
pub proof fn lemma_run_passes_between<C, A: ButlerSystem<C>>(
    first: Seq<A>,
    second: Seq<A>,
    before: C,
    after: C,
) -> (between: C)
    requires
        crate::system::runs_to(first + second, before, after),
    ensures
        crate::system::runs_to(first, before, between),
        crate::system::runs_to(second, between, after),
    decreases second.len(),
{
    if second.len() == 0 {
        assert(first + second =~= first);
        after
    } else {
        let whole = first + second;
        assert(whole.drop_last() =~= first + second.drop_last());
        assert(whole.last() == second.last());
        let mid = choose|mid: C|
            crate::system::runs_to(whole.drop_last(), before, mid) && #[trigger] whole.last().effect(
                mid,
                after,
            );
        let between = lemma_run_passes_between(first, second.drop_last(), before, mid);
        assert(second.last().effect(mid, after));
        between
    }
}

/// Dispatching twice runs the owner's actions twice: the second pass starts
/// from what the first left behind, and nothing of it is skipped.
pub proof fn lemma_dispatch_twice_runs_twice<C, A: ButlerSystem<C>>(
    actions: Seq<A>,
    before: C,
    between: C,
    after: C,
)
    requires
        crate::system::runs_to(actions, before, between),
        crate::system::runs_to(actions, between, after),
    ensures
        crate::system::runs_to(actions + actions, before, after),
{
    lemma_runs_in_a_row(actions, actions, before, between, after);
}

/// Two registrations of equal actions to one owner make a duplicate.
pub proof fn lemma_registered_twice_is_duplicate<A: PartialEq>(
    entries: Seq<ButlerRegistryEntryFactory<A>>,
    i: int,
    j: int,
)
    requires
        0 <= i < j < entries.len(),
        entries[i].owner_key() == entries[j].owner_key(),
        entries[i].action_value().eq_spec(&entries[j].action_value()),
    ensures
        crate::table::has_duplicate(entries),
{
    assert(crate::table::collides(entries, i, j));
    assert(crate::table::repeats_earlier(entries, j));
}

/// Where there is a duplicate, there is a first one: the result is its
/// position.
pub proof fn lemma_duplicate_has_first<A: PartialEq>(
    entries: Seq<ButlerRegistryEntryFactory<A>>,
) -> (first: int)
    requires
        crate::table::has_duplicate(entries),
    ensures
        crate::table::first_duplicate(entries, first),
{
    let j = choose|j: int| crate::table::repeats_earlier(entries, j);
    let i = choose|i: int| crate::table::collides(entries, i, j);
    lemma_first_repeat_up_to(entries, j)
}

/// The first repeated registration at or before position `j`, which repeats
/// one itself.
proof fn lemma_first_repeat_up_to<A: PartialEq>(
    entries: Seq<ButlerRegistryEntryFactory<A>>,
    j: int,
) -> (first: int)
    requires
        0 <= j,
        crate::table::repeats_earlier(entries, j),
    ensures
        crate::table::first_duplicate(entries, first),
        first <= j,
    decreases j,
{
    if exists|k: int| 0 <= k < j && crate::table::repeats_earlier(entries, k) {
        let k = choose|k: int| 0 <= k < j && crate::table::repeats_earlier(entries, k);
        lemma_first_repeat_up_to(entries, k)
    } else {
        j
    }
}

/// The table depends on the order of entries within each owner only: two
/// collections that give every owner the same actions in the same order
/// stand for the same table, however the owners' entries are interleaved.
pub proof fn lemma_order_within_owner_decides<A>(
    left: Seq<ButlerRegistryEntryFactory<A>>,
    right: Seq<ButlerRegistryEntryFactory<A>>,
)
    requires
        forall|owner: OwnerKey| #[trigger]
            crate::table::actions_for(left, owner) == crate::table::actions_for(right, owner),
    ensures
        crate::table::table_of(left) == crate::table::table_of(right),
{
    assert forall|owner: OwnerKey|
        crate::table::owners_of(left).contains(owner) <==> crate::table::owners_of(right).contains(
            owner,
        ) by {
        crate::table::lemma_owner_has_actions(left, owner);
        crate::table::lemma_owner_has_actions(right, owner);
        assert(crate::table::actions_for(left, owner) == crate::table::actions_for(right, owner));
    }
    assert(crate::table::table_of(left) =~= crate::table::table_of(right));
}

/// The table does not depend on the backend: collectors that gathered the
/// same entries stand for the same table, whichever way they gathered them.
pub proof fn lemma_backend_does_not_matter<A>(left: Collector<A>, right: Collector<A>)
    requires
        left@ == right@,
    ensures
        crate::table::table_of(left@) == crate::table::table_of(right@),
{
}

} // verus!
