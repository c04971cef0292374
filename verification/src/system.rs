//! Actions and what it means to run a sequence of them.

use vstd::prelude::*;

verus! {

/// An action that can be run against an execution context of type `C`.
///
/// Running an action yields no value; all it does is change the context.
pub trait ButlerSystem<C> {
    /// Relates the context before a run of this action to the context after
    /// it. An action that says nothing about itself may leave any context
    /// behind.
    open spec fn effect(&self, before: C, after: C) -> bool {
        true
    }

    /// Runs the action against `app`.
    fn run(&self, app: &mut C)
        ensures
            self.effect(*old(app), *final(app)),
    ;
}

/// Whether running `actions` one after another, first to last, can take the
/// context from `before` to `after`: each action starts from the context the
/// one before it left behind.
pub open spec fn runs_to<C, A: ButlerSystem<C>>(actions: Seq<A>, before: C, after: C) -> bool
    decreases actions.len(),
{
    if actions.len() == 0 {
        before == after
    } else {
        exists|mid: C|
            runs_to(actions.drop_last(), before, mid) && #[trigger] actions.last().effect(
                mid,
                after,
            )
    }
}

/// Runs every action of `actions` against `ctx`, first to last, and returns
/// how many ran.
pub fn run_actions<C, A: ButlerSystem<C>>(actions: &[A], ctx: &mut C) -> (count: usize)
    ensures
        count == actions@.len(),
        runs_to(actions@, *old(ctx), *final(ctx)),
{
    let mut i: usize = 0;
    while i < actions.len()
        invariant
            i <= actions@.len(),
            runs_to(actions@.take(i as int), *old(ctx), *ctx),
        decreases actions@.len() - i,
    {
        let ghost mid = *ctx;
        actions[i].run(ctx);
        proof {
            let done = actions@.take(i as int + 1);
            assert(done.drop_last() =~= actions@.take(i as int));
            assert(done.last() == actions@[i as int]);
            assert(runs_to(done.drop_last(), *old(ctx), mid));
            assert(done.last().effect(mid, *ctx));
            assert(runs_to(done, *old(ctx), *ctx));
        }
        i = i + 1;
    }
    proof {
        assert(actions@.take(i as int) =~= actions@);
    }
    i
}

} // verus!
