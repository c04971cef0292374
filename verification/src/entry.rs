//! Owner keys and registration entries.

use vstd::prelude::*;
use crate::system::ButlerSystem;

verus! {

/// Identifies the owner that actions are registered to.
///
/// Two keys are equal exactly when they denote the same owner, so a key made
/// where an action is registered matches the key made where the owner asks
/// for its actions.
#[derive(Clone, Copy, PartialEq, Eq, Structural, Debug, Hash)]
pub struct OwnerKey(pub u64);

/// One registration: an action together with the owner it is registered to.
///
/// An entry is fixed once it is made; it can only be read.
#[derive(Debug)]
pub struct ButlerRegistryEntryFactory<A> {
    owner: OwnerKey,
    action: A,
}

impl<A> ButlerRegistryEntryFactory<A> {
    /// The owner this entry is registered to.
    pub closed spec fn owner_key(&self) -> OwnerKey {
        self.owner
    }

    /// The action this entry registers.
    pub closed spec fn action_value(&self) -> A {
        self.action
    }

    /// Pairs `action` with the owner it is to run for.
    pub fn new(owner: OwnerKey, action: A) -> (entry: Self)
        ensures
            entry.owner_key() == owner,
            entry.action_value() == action,
    {
        ButlerRegistryEntryFactory { owner, action }
    }

    /// The owner this entry is registered to.
    pub fn owner(&self) -> (owner: OwnerKey)
        ensures
            owner == self.owner_key(),
    {
        self.owner
    }

    /// The action this entry registers.
    pub fn action(&self) -> (action: &A)
        ensures
            *action == self.action_value(),
    {
        &self.action
    }
}

/// An entry runs as the action it registers.
impl<C, A: ButlerSystem<C>> ButlerSystem<C> for ButlerRegistryEntryFactory<A> {
    open spec fn effect(&self, before: C, after: C) -> bool {
        self.action_value().effect(before, after)
    }

    fn run(&self, app: &mut C) {
        self.action.run(app)
    }
}

} // verus!
