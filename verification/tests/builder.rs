use butler_registry::builder::{BuildError, DuplicatePolicy, RegistryBuilder};
use butler_registry::collector::{Backend, BootstrapRequired, Collector};
use butler_registry::entry::{ButlerRegistryEntryFactory, OwnerKey};
use butler_registry::registry::{ButlerRegistry, DuplicateRegistration};
use butler_registry::system::ButlerSystem;

#[derive(Clone, Copy, PartialEq, Eq, Debug)]
struct Note(u32);

impl ButlerSystem<Vec<u32>> for Note {
    fn run(&self, app: &mut Vec<u32>) {
        app.push(self.0);
    }
}

fn note(owner: u64, n: u32) -> ButlerRegistryEntryFactory<Note> {
    ButlerRegistryEntryFactory::new(OwnerKey(owner), Note(n))
}

fn sample() -> Vec<ButlerRegistryEntryFactory<Note>> {
    vec![note(1, 10), note(2, 20), note(1, 11), note(3, 30), note(2, 21)]
}

#[test]
fn link_aggregated_collector_is_fixed_and_ready() {
    let mut collector = Collector::link_aggregated(sample());
    assert_eq!(collector.backend(), Backend::LinkAggregated);
    assert!(!collector.needs_bootstrap());
    assert_eq!(collector.len(), 5);
    assert!(!collector.register(note(9, 90)));
    assert_eq!(collector.len(), 5);
    let entries = collector.entries().unwrap();
    assert_eq!(entries.len(), 5);
    assert_eq!(entries[2].owner(), OwnerKey(1));
    assert_eq!(*entries[2].action(), Note(11));
}

#[test]
fn runtime_collector_appends_in_arrival_order() {
    let mut collector = Collector::runtime_collected(true);
    assert_eq!(collector.backend(), Backend::RuntimeCollected);
    assert_eq!(collector.len(), 0);
    for e in sample() {
        assert!(collector.register(e));
    }
    assert_eq!(collector.len(), 5);
    let entries = collector.entries().unwrap();
    let seen: Vec<(OwnerKey, Note)> = entries.iter().map(|e| (e.owner(), *e.action())).collect();
    assert_eq!(
        seen,
        vec![
            (OwnerKey(1), Note(10)),
            (OwnerKey(2), Note(20)),
            (OwnerKey(1), Note(11)),
            (OwnerKey(3), Note(30)),
            (OwnerKey(2), Note(21)),
        ]
    );
}

#[test]
fn collector_without_bootstrap_hands_out_nothing() {
    let mut collector = Collector::runtime_collected(false);
    assert!(collector.needs_bootstrap());
    assert!(collector.register(note(1, 1)));
    assert_eq!(collector.entries().err(), Some(BootstrapRequired));
    collector.constructors_ran();
    assert!(!collector.needs_bootstrap());
    assert_eq!(collector.entries().unwrap().len(), 1);
}

#[test]
fn both_backends_give_the_same_registry() {
    let linked = Collector::link_aggregated(sample());
    let mut runtime = Collector::runtime_collected(true);
    for e in sample() {
        runtime.register(e);
    }
    let left = ButlerRegistry::build(linked.entries().unwrap());
    let right = ButlerRegistry::build(runtime.entries().unwrap());
    assert_eq!(left.len(), right.len());
    assert_eq!(left.len(), 3);
    for owner in 0..6u64 {
        assert_eq!(
            left.get_system_factories(OwnerKey(owner)),
            right.get_system_factories(OwnerKey(owner))
        );
    }
    assert_eq!(left.get_system_factories(OwnerKey(1)), &[Note(10), Note(11)]);
}

#[test]
fn interleaving_of_owners_does_not_change_the_registry() {
    let left = ButlerRegistry::build(&sample());
    let regrouped = vec![note(3, 30), note(2, 20), note(2, 21), note(1, 10), note(1, 11)];
    let right = ButlerRegistry::build(&regrouped);
    for owner in 0..6u64 {
        assert_eq!(
            left.get_system_factories(OwnerKey(owner)),
            right.get_system_factories(OwnerKey(owner))
        );
    }
}

#[test]
fn registry_is_built_once() {
    let mut builder =
        RegistryBuilder::new(Collector::link_aggregated(sample()), DuplicatePolicy::Keep);
    assert!(!builder.built());
    assert_eq!(builder.build_count(), 0);
    assert!(builder.registry().is_none());
    for _ in 0..10 {
        let registry = builder.build_or_get().unwrap();
        assert_eq!(registry.len(), 3);
        assert_eq!(registry.get_system_factories(OwnerKey(2)), &[Note(20), Note(21)]);
        assert!(builder.built());
        assert_eq!(builder.build_count(), 1);
    }
    assert_eq!(builder.ensure_built(), Ok(()));
    assert_eq!(builder.build_count(), 1);
    assert_eq!(builder.registry().unwrap().len(), 3);
}

#[test]
fn first_dispatch_builds_the_registry() {
    let mut collector = Collector::runtime_collected(true);
    for e in sample() {
        collector.register(e);
    }
    let mut builder = RegistryBuilder::new(collector, DuplicatePolicy::Reject);
    assert!(builder.register(note(1, 12)));
    assert_eq!(builder.build_count(), 0);
    let mut ctx: Vec<u32> = Vec::new();
    assert_eq!(builder.dispatch(OwnerKey(1), &mut ctx), Ok(3));
    assert_eq!(ctx, vec![10, 11, 12]);
    assert_eq!(builder.build_count(), 1);
    assert_eq!(builder.dispatch(OwnerKey(7), &mut ctx), Ok(0));
    assert_eq!(ctx, vec![10, 11, 12]);
    assert_eq!(builder.dispatch(OwnerKey(2), &mut ctx), Ok(2));
    assert_eq!(ctx, vec![10, 11, 12, 20, 21]);
    assert_eq!(builder.build_count(), 1);
}

#[test]
fn nothing_is_registered_after_the_build() {
    let mut builder =
        RegistryBuilder::new(Collector::<Note>::runtime_collected(true), DuplicatePolicy::Keep);
    assert!(builder.register(note(1, 1)));
    builder.ensure_built().unwrap();
    assert!(!builder.register(note(1, 2)));
    let mut ctx: Vec<u32> = Vec::new();
    assert_eq!(builder.dispatch(OwnerKey(1), &mut ctx), Ok(1));
    assert_eq!(ctx, vec![1]);
}

#[test]
fn link_aggregated_builder_takes_no_registration() {
    let mut builder =
        RegistryBuilder::new(Collector::link_aggregated(sample()), DuplicatePolicy::Keep);
    assert!(!builder.register(note(1, 12)));
    assert_eq!(builder.build_or_get().unwrap().get_system_factories(OwnerKey(1)).len(), 2);
}

#[test]
fn missing_bootstrap_is_reported_not_masked() {
    let mut builder =
        RegistryBuilder::new(Collector::<Note>::runtime_collected(false), DuplicatePolicy::Keep);
    builder.register(note(1, 1));
    let mut ctx = vec![3];
    assert_eq!(builder.dispatch(OwnerKey(1), &mut ctx), Err(BuildError::BootstrapRequired));
    assert_eq!(ctx, vec![3]);
    assert_eq!(builder.ensure_built(), Err(BuildError::BootstrapRequired));
    assert!(builder.build_or_get().is_err());
    assert!(!builder.built());
    assert_eq!(builder.build_count(), 0);
    builder.constructors_ran();
    assert_eq!(builder.dispatch(OwnerKey(1), &mut ctx), Ok(1));
    assert_eq!(ctx, vec![3, 1]);
    assert_eq!(builder.build_count(), 1);
}

#[test]
fn rejecting_policy_stops_on_a_repeat() {
    let mut collector = Collector::runtime_collected(true);
    collector.register(note(1, 1));
    collector.register(note(2, 1));
    collector.register(note(1, 1));
    let mut builder = RegistryBuilder::new(collector, DuplicatePolicy::Reject);
    let expected =
        BuildError::Duplicate(DuplicateRegistration { owner: OwnerKey(1), index: 2 });
    let mut ctx: Vec<u32> = Vec::new();
    assert_eq!(builder.dispatch(OwnerKey(1), &mut ctx), Err(expected));
    assert!(ctx.is_empty());
    assert_eq!(builder.ensure_built(), Err(expected));
    assert!(!builder.built());
    assert_eq!(builder.build_count(), 0);
}

#[test]
fn keeping_policy_runs_a_repeat_twice() {
    let mut collector = Collector::runtime_collected(true);
    collector.register(note(1, 1));
    collector.register(note(1, 1));
    let mut builder = RegistryBuilder::new(collector, DuplicatePolicy::Keep);
    let mut ctx: Vec<u32> = Vec::new();
    assert_eq!(builder.dispatch(OwnerKey(1), &mut ctx), Ok(2));
    assert_eq!(ctx, vec![1, 1]);
}
