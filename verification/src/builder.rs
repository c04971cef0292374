//! The registry builder: builds the registry on first use, once, and hands
//! out the same registry ever after.

use vstd::prelude::*;
use vstd::std_specs::cmp::PartialEqSpec;
use crate::collector::{Backend, Collector};
use crate::entry::{ButlerRegistryEntryFactory, OwnerKey};
use crate::registry::{ButlerRegistry, DuplicateRegistration};
use crate::system::ButlerSystem;
use crate::table;

verus! {

/// What the build does with an (owner, action) pair that is registered twice.
#[derive(Clone, Copy, PartialEq, Eq, Structural, Debug)]
pub enum DuplicatePolicy {
    /// Every registration counts: the action is held, and later run, twice.
    Keep,
    /// A repeated registration is a fault that stops the build.
    Reject,
}

/// Why no registry could be built.
#[derive(Clone, Copy, PartialEq, Eq, Structural, Debug)]
pub enum BuildError {
    /// The load-time registrations were never run, so the collected entries
    /// cannot be taken for complete.
    BootstrapRequired,
    /// An (owner, action) pair was registered twice, under the policy that
    /// rejects this.
    Duplicate(DuplicateRegistration),
}

/// The two states of a builder.
#[verifier::reject_recursive_types(A)]
enum Phase<A> {
    Unbuilt(Collector<A>),
    Built(ButlerRegistry<A>),
}

/// Holds the collector until the registry is first asked for, then the
/// registry. The step from unbuilt to built is taken at most once and never
/// back.
#[verifier::reject_recursive_types(A)]
pub struct RegistryBuilder<A> {
    policy: DuplicatePolicy,
    phase: Phase<A>,
}

impl<A> RegistryBuilder<A> {
    /// Whether the registry has been built.
    pub closed spec fn is_built(&self) -> bool {
        self.phase is Built
    }

    /// How many times a build has run to its end: 0 before the registry
    /// exists, 1 ever after.
    pub open spec fn builds_run(&self) -> nat {
        if self.is_built() {
            1
        } else {
            0
        }
    }

    /// The policy on repeated registrations.
    pub closed spec fn duplicate_policy(&self) -> DuplicatePolicy {
        self.policy
    }

    /// The entries that wait to be built from. There are none once the
    /// registry is built.
    pub closed spec fn collected(&self) -> Seq<ButlerRegistryEntryFactory<A>> {
        match self.phase {
            Phase::Unbuilt(collector) => collector@,
            Phase::Built(_) => Seq::empty(),
        }
    }

    /// The backend of the collector that waits to be built from. There is
    /// none once the registry is built.
    pub closed spec fn backend(&self) -> Option<Backend> {
        match self.phase {
            Phase::Unbuilt(collector) => Some(collector.kind()),
            Phase::Built(_) => None,
        }
    }

    /// Whether a registration handed to the builder is taken: the registry
    /// is not built yet, and the entries are gathered at run time.
    pub open spec fn takes_entries(&self) -> bool {
        self.backend() == Some(Backend::RuntimeCollected)
    }

    /// A builder has a backend exactly as long as it has not built.
    pub proof fn lemma_backend_until_built(self)
        ensures
            self.backend() is None <==> self.is_built(),
    {
    }

    /// Whether the waiting entries can be taken for complete.
    pub closed spec fn ready(&self) -> bool {
        match self.phase {
            Phase::Unbuilt(collector) => collector.ready(),
            Phase::Built(_) => false,
        }
    }

    /// The table of the registry. It is empty until the registry is built.
    pub closed spec fn table(&self) -> Map<OwnerKey, Seq<A>> {
        match self.phase {
            Phase::Unbuilt(_) => Map::empty(),
            Phase::Built(registry) => registry@,
        }
    }

    /// A builder that will build from what `collector` has gathered by the
    /// time the registry is first asked for.
    pub fn new(collector: Collector<A>, policy: DuplicatePolicy) -> (builder: Self)
        ensures
            !builder.is_built(),
            builder.duplicate_policy() == policy,
            builder.backend() == Some(collector.kind()),
            builder.collected() == collector@,
            builder.ready() == collector.ready(),
            builder.table() == Map::<OwnerKey, Seq<A>>::empty(),
    {
        RegistryBuilder { policy, phase: Phase::Unbuilt(collector) }
    }

    /// Whether the registry has been built.
    pub fn built(&self) -> (built: bool)
        ensures
            built == self.is_built(),
    {
        match &self.phase {
            Phase::Unbuilt(_) => false,
            Phase::Built(_) => true,
        }
    }

    /// How many times a build has run to its end.
    pub fn build_count(&self) -> (count: usize)
        ensures
            count == self.builds_run(),
    {
        match &self.phase {
            Phase::Unbuilt(_) => 0,
            Phase::Built(_) => 1,
        }
    }

    /// Hands `entry` to the collector, which takes it if it is a runtime
    /// collector. Once the registry is built nothing is taken any more. The
    /// result says whether the entry was taken.
    pub fn register(&mut self, entry: ButlerRegistryEntryFactory<A>) -> (accepted: bool)
        ensures
            accepted == old(self).takes_entries(),
            final(self).backend() == old(self).backend(),
            final(self).is_built() == old(self).is_built(),
            final(self).duplicate_policy() == old(self).duplicate_policy(),
            final(self).table() == old(self).table(),
            final(self).ready() == old(self).ready(),
            final(self).collected() == if accepted {
                old(self).collected().push(entry)
            } else {
                old(self).collected()
            },
    {
        match &mut self.phase {
            Phase::Unbuilt(collector) => collector.register(entry),
            Phase::Built(_) => false,
        }
    }

    /// What a first access to a builder in state `before` must answer: the
    /// fault that keeps the registry from being built, if there is one.
    pub open spec fn fault(before: Self) -> Option<BuildError> where A: PartialEq {
        if before.is_built() {
            None
        } else if !before.ready() {
            Some(BuildError::BootstrapRequired)
        } else if before.duplicate_policy() == DuplicatePolicy::Reject && exists|j: int|
            table::first_duplicate(before.collected(), j) {
            let j = choose|j: int| table::first_duplicate(before.collected(), j);
            Some(
                BuildError::Duplicate(
                    DuplicateRegistration { owner: before.collected()[j].owner_key(), index: j as usize },
                ),
            )
        } else {
            None
        }
    }

    /// Builds the registry if it has not been built, and does nothing if it
    /// has: the registry that exists is never computed again.
    ///
    /// The build reads every collected entry once and groups the actions by
    /// owner, in collection order. It fails, and leaves the builder as it was,
    /// where the collector is not ready or, under the rejecting policy, an
    /// (owner, action) pair is registered twice. What is promised about
    /// duplicates holds for action types whose `==` follows its specification.
    pub fn ensure_built(&mut self) -> (result: Result<(), BuildError>) where A: Copy + PartialEq
        ensures
            old(self).is_built() ==> result is Ok && *final(self) == *old(self),
            A::obeys_eq_spec() ==> (result == match Self::fault(*old(self)) {
                Some(fault) => Err::<(), BuildError>(fault),
                None => Ok(()),
            }),
            result is Err ==> *final(self) == *old(self),
            result matches Err(BuildError::BootstrapRequired) <==> !old(self).is_built() && !old(
                self,
            ).ready(),
            result matches Err(BuildError::Duplicate(_)) ==> old(self).duplicate_policy()
                == DuplicatePolicy::Reject,
            result is Ok ==> {
                &&& final(self).is_built()
                &&& final(self).duplicate_policy() == old(self).duplicate_policy()
                &&& final(self).table() == if old(self).is_built() {
                    old(self).table()
                } else {
                    table::table_of(old(self).collected())
                }
            },
    {
        let built = match &self.phase {
            Phase::Built(_) => { return Ok(()); },
            Phase::Unbuilt(collector) => {
                let entries = match collector.entries() {
                    Ok(entries) => entries,
                    Err(_) => { return Err(BuildError::BootstrapRequired); },
                };
                match self.policy {
                    DuplicatePolicy::Keep => ButlerRegistry::build(entries),
                    DuplicatePolicy::Reject => {
                        match ButlerRegistry::build_unique(entries) {
                            Ok(registry) => registry,
                            Err(duplicate) => {
                                proof {
                                    if A::obeys_eq_spec() {
                                        table::lemma_first_duplicate_is_one(
                                            entries@,
                                            duplicate.index as int,
                                        );
                                    }
                                }
                                return Err(BuildError::Duplicate(duplicate));
                            },
                        }
                    },
                }
            },
        };
        proof {
            if A::obeys_eq_spec() && self.policy == DuplicatePolicy::Reject {
                assert(!table::has_duplicate(self.collected()));
                assert forall|j: int| !table::first_duplicate(self.collected(), j) by {
                    if table::first_duplicate(self.collected(), j) {
                        assert(table::repeats_earlier(self.collected(), j));
                    }
                }
            }
        }
        self.phase = Phase::Built(built);
        Ok(())
    }

    /// The registry, once it is built.
    pub fn registry(&self) -> (registry: Option<&ButlerRegistry<A>>)
        ensures
            registry is Some <==> self.is_built(),
            registry matches Some(built) ==> built@ == self.table(),
    {
        match &self.phase {
            Phase::Unbuilt(_) => None,
            Phase::Built(registry) => Some(registry),
        }
    }

    /// The registry: built now if this is the first access, the one built
    /// then on every later access. See [`RegistryBuilder::ensure_built`].
    pub fn build_or_get(&mut self) -> (result: Result<&ButlerRegistry<A>, BuildError>) where
        A: Copy + PartialEq,

        ensures
            old(self).is_built() ==> result is Ok && *final(self) == *old(self),
            A::obeys_eq_spec() ==> (match Self::fault(*old(self)) {
                Some(fault) => result == Err::<&ButlerRegistry<A>, BuildError>(fault),
                None => result is Ok,
            }),
            result is Err ==> *final(self) == *old(self),
            result matches Err(BuildError::BootstrapRequired) <==> !old(self).is_built() && !old(
                self,
            ).ready(),
            result matches Err(BuildError::Duplicate(_)) ==> old(self).duplicate_policy()
                == DuplicatePolicy::Reject,
            result matches Ok(registry) ==> {
                &&& final(self).is_built()
                &&& final(self).duplicate_policy() == old(self).duplicate_policy()
                &&& final(self).table() == registry@
                &&& registry@ == if old(self).is_built() {
                    old(self).table()
                } else {
                    table::table_of(old(self).collected())
                }
            },
    {
        match self.ensure_built() {
            Ok(()) => {},
            Err(fault) => { return Err(fault); },
        }
        match &self.phase {
            Phase::Built(registry) => Ok(registry),
            Phase::Unbuilt(_) => vstd::pervasive::unreached(),
        }
    }

    /// Runs the actions registered to `owner` against `ctx`, in collection
    /// order, and returns how many ran. The first dispatch by any owner builds
    /// the registry; where that fails nothing is run and `ctx` stays as it is.
    pub fn dispatch<C>(&mut self, owner: OwnerKey, ctx: &mut C) -> (result: Result<
        usize,
        BuildError,
    >) where A: Copy + PartialEq + ButlerSystem<C>
        ensures
            old(self).is_built() ==> result is Ok && *final(self) == *old(self),
            A::obeys_eq_spec() ==> (match Self::fault(*old(self)) {
                Some(fault) => result == Err::<usize, BuildError>(fault),
                None => result is Ok,
            }),
            result is Err ==> *final(self) == *old(self) && *final(ctx) == *old(ctx),
            result matches Ok(count) ==> {
                &&& final(self).is_built()
                &&& final(self).duplicate_policy() == old(self).duplicate_policy()
                &&& final(self).table() == if old(self).is_built() {
                    old(self).table()
                } else {
                    table::table_of(old(self).collected())
                }
                &&& count == table::actions_in(final(self).table(), owner).len()
                &&& crate::system::runs_to(
                    table::actions_in(final(self).table(), owner),
                    *old(ctx),
                    *final(ctx),
                )
            },
    {
        match self.build_or_get() {
            Ok(registry) => Ok(registry.dispatch(owner, ctx)),
            Err(fault) => Err(fault),
        }
    }

    /// Records that the load-time registrations have been run. Only a builder
    /// that has not built yet takes note.
    pub fn constructors_ran(&mut self)
        ensures
            final(self).is_built() == old(self).is_built(),
            final(self).duplicate_policy() == old(self).duplicate_policy(),
            final(self).table() == old(self).table(),
            final(self).collected() == old(self).collected(),
            final(self).backend() == old(self).backend(),
            final(self).ready() == !old(self).is_built(),
    {
        match &mut self.phase {
            Phase::Unbuilt(collector) => collector.constructors_ran(),
            Phase::Built(_) => {},
        }
    }
}

} // verus!
