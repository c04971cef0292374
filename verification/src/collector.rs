//! Collector backends: the two ways in which the registration entries of a
//! program are gathered before the registry is built.

use vstd::prelude::*;
use crate::entry::ButlerRegistryEntryFactory;

verus! {

/// How the entries of a program are gathered.
#[derive(Clone, Copy, PartialEq, Eq, Structural, Debug)]
pub enum Backend {
    /// The entries lie in one sequence of fixed size that was put together
    /// when the program was linked. Nothing is registered at run time.
    LinkAggregated,
    /// Every entry appends itself to a growing collection, by code that runs
    /// before the program's entry point.
    RuntimeCollected,
}

/// The collection was asked for its entries before the load-time
/// registrations were run, on a platform that does not run them by itself.
#[derive(Clone, Copy, PartialEq, Eq, Structural, Debug)]
pub struct BootstrapRequired;

/// Gathers the registration entries of a program and hands them on, complete
/// and in the order in which they arrived.
pub struct Collector<A> {
    backend: Backend,
    entries: Vec<ButlerRegistryEntryFactory<A>>,
    populated: bool,
}

impl<A> View for Collector<A> {
    type V = Seq<ButlerRegistryEntryFactory<A>>;

    /// The entries gathered so far, in arrival order.
    closed spec fn view(&self) -> Seq<ButlerRegistryEntryFactory<A>> {
        self.entries@
    }
}

impl<A> Collector<A> {
    /// The backend this collector was made for.
    pub closed spec fn kind(&self) -> Backend {
        self.backend
    }

    /// Whether the load-time registrations have been run, so that the
    /// collection can be relied on to be complete.
    pub closed spec fn ready(&self) -> bool {
        self.populated
    }

    /// A link-aggregated collector over `entries`. Its sequence is complete
    /// from the start.
    pub fn link_aggregated(entries: Vec<ButlerRegistryEntryFactory<A>>) -> (collector: Self)
        ensures
            collector.kind() == Backend::LinkAggregated,
            collector@ == entries@,
            collector.ready(),
    {
        Collector { backend: Backend::LinkAggregated, entries, populated: true }
    }

    /// An empty runtime collector. `automatic` says whether the platform runs
    /// load-time registrations by itself; where it does not, the collector is
    /// not ready until [`Collector::constructors_ran`] is called.
    pub fn runtime_collected(automatic: bool) -> (collector: Self)
        ensures
            collector.kind() == Backend::RuntimeCollected,
            collector@ == Seq::<ButlerRegistryEntryFactory<A>>::empty(),
            collector.ready() == automatic,
    {
        Collector { backend: Backend::RuntimeCollected, entries: Vec::new(), populated: automatic }
    }

    /// The backend this collector was made for.
    pub fn backend(&self) -> (backend: Backend)
        ensures
            backend == self.kind(),
    {
        self.backend
    }

    /// Appends `entry` to a runtime collector and returns `true`. A
    /// link-aggregated collector has a fixed sequence: it refuses the entry,
    /// stays as it is and returns `false`.
    pub fn register(&mut self, entry: ButlerRegistryEntryFactory<A>) -> (accepted: bool)
        ensures
            accepted == (old(self).kind() == Backend::RuntimeCollected),
            final(self).kind() == old(self).kind(),
            final(self).ready() == old(self).ready(),
            final(self)@ == if accepted {
                old(self)@.push(entry)
            } else {
                old(self)@
            },
    {
        match self.backend {
            Backend::RuntimeCollected => {
                self.entries.push(entry);
                true
            },
            Backend::LinkAggregated => false,
        }
    }

    /// Whether the load-time registrations still have to be triggered before
    /// the entries can be read.
    pub fn needs_bootstrap(&self) -> (needed: bool)
        ensures
            needed == !self.ready(),
    {
        !self.populated
    }

    /// Records that the load-time registrations have been run. The entries
    /// themselves are not touched.
    pub fn constructors_ran(&mut self)
        ensures
            final(self).ready(),
            final(self).kind() == old(self).kind(),
            final(self)@ == old(self)@,
    {
        self.populated = true;
    }

    /// How many entries have been gathered so far.
    pub fn len(&self) -> (count: usize)
        ensures
            count == self@.len(),
    {
        self.entries.len()
    }

    /// The full sequence of entries, in arrival order. A collector whose
    /// load-time registrations were never run has no sequence to rely on and
    /// says so instead of handing out a partial one.
    pub fn entries(&self) -> (result: Result<&[ButlerRegistryEntryFactory<A>], BootstrapRequired>)
        ensures
            result is Ok <==> self.ready(),
            result matches Ok(entries) ==> entries@ == self@,
    {
        if self.populated {
            Ok(self.entries.as_slice())
        } else {
            Err(BootstrapRequired)
        }
    }
}

} // verus!
