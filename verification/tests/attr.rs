use butler_registry::attr::{AttrError, MetaKind, SystemAttr};

type Attr = SystemAttr<&'static str, &'static str, &'static str>;

fn attr(
    plugin: Option<&'static str>,
    schedule: Option<&'static str>,
    generics: Option<&'static str>,
    transforms: &[&'static str],
) -> Attr {
    SystemAttr { plugin, schedule, generics, transforms: transforms.to_vec() }
}

fn parts(a: &Attr) -> (Option<&str>, Option<&str>, Option<&str>, Vec<&str>) {
    (a.plugin, a.schedule, a.generics, a.transforms.clone())
}

#[test]
fn new_attr_gives_nothing() {
    let a = Attr::new();
    assert_eq!(parts(&a), (None, None, None, vec![]));
    assert_eq!(a.require_plugin(), Err(AttrError::MissingPlugin));
    assert_eq!(a.require_schedule(), Err(AttrError::MissingSchedule));
}

#[test]
fn required_arguments_are_handed_out() {
    let a = attr(Some("MyPlugin"), Some("Startup"), None, &[]);
    assert_eq!(a.require_plugin(), Ok(&"MyPlugin"));
    assert_eq!(a.require_schedule(), Ok(&"Startup"));
}

#[test]
fn overlay_replaces_and_appends() {
    let mut a = attr(Some("P"), Some("S"), None, &["chain()"]);
    a.overlay(attr(None, Some("Update"), Some("<u8>"), &["run_if(x)", "after(y)"]));
    assert_eq!(
        parts(&a),
        (Some("P"), Some("Update"), Some("<u8>"), vec!["chain()", "run_if(x)", "after(y)"])
    );
}

#[test]
fn overlay_of_nothing_changes_nothing() {
    let mut a = attr(Some("P"), None, Some("<u8>"), &["chain()"]);
    a.overlay(Attr::new());
    assert_eq!(parts(&a), (Some("P"), None, Some("<u8>"), vec!["chain()"]));
}

#[test]
fn defaults_fill_gaps_and_come_first() {
    let mut a = attr(None, Some("Update"), None, &["run_if(x)"]);
    a.with_defaults(attr(Some("P"), Some("Startup"), Some("<u8>"), &["chain()", "after(y)"]));
    assert_eq!(
        parts(&a),
        (Some("P"), Some("Update"), Some("<u8>"), vec!["chain()", "after(y)", "run_if(x)"])
    );
}

#[test]
fn defaults_under_are_overlay_upon() {
    let mut under = attr(None, Some("Update"), None, &["a()"]);
    under.with_defaults(attr(Some("P"), Some("Startup"), None, &["b()"]));
    let mut upon = attr(Some("P"), Some("Startup"), None, &["b()"]);
    upon.overlay(attr(None, Some("Update"), None, &["a()"]));
    assert_eq!(parts(&under), parts(&upon));
}

#[test]
fn argument_names_have_their_kinds() {
    assert_eq!(MetaKind::of("plugin"), MetaKind::Plugin);
    assert_eq!(MetaKind::of("schedule"), MetaKind::Schedule);
    assert_eq!(MetaKind::of("generics"), MetaKind::Generics);
    for name in ["run_if", "chain", "", "Plugin", "plugins", "schedul", "generic"] {
        assert_eq!(MetaKind::of(name), MetaKind::Transform);
    }
}

#[test]
fn single_arguments_are_taken_once() {
    let mut a = Attr::new();
    assert_eq!(a.admits(MetaKind::Plugin), Ok(()));
    assert_eq!(a.insert_plugin("P"), Ok(()));
    assert_eq!(a.admits(MetaKind::Plugin), Err(AttrError::DuplicatePlugin));
    assert_eq!(a.insert_plugin("Q"), Err(AttrError::DuplicatePlugin));
    assert_eq!(a.plugin, Some("P"));

    assert_eq!(a.admits(MetaKind::Schedule), Ok(()));
    assert_eq!(a.insert_schedule("S"), Ok(()));
    assert_eq!(a.admits(MetaKind::Schedule), Err(AttrError::DuplicateSchedule));
    assert_eq!(a.insert_schedule("T"), Err(AttrError::DuplicateSchedule));
    assert_eq!(a.schedule, Some("S"));

    assert_eq!(a.admits(MetaKind::Generics), Ok(()));
    assert_eq!(a.insert_generics("<u8>"), Ok(()));
    assert_eq!(a.admits(MetaKind::Generics), Err(AttrError::DuplicateGenerics));
    assert_eq!(a.insert_generics("<u16>"), Err(AttrError::DuplicateGenerics));
    assert_eq!(a.generics, Some("<u8>"));
}

#[test]
fn transforms_are_taken_any_number_of_times() {
    let mut a = Attr::new();
    for t in ["a()", "b()", "a()"] {
        assert_eq!(a.admits(MetaKind::Transform), Ok(()));
        a.push_transform(t);
    }
    assert_eq!(parts(&a), (None, None, None, vec!["a()", "b()", "a()"]));
}

#[test]
fn faults_have_their_texts() {
    assert_eq!(
        AttrError::MissingPlugin.message(),
        "#[system] requires a defined or inherited `plugin` argument"
    );
    assert_eq!(
        AttrError::MissingSchedule.message(),
        "#[system] requires a defined or inherited `schedule` argument"
    );
    assert_eq!(AttrError::DuplicatePlugin.message(), "Multiple declarations of \"plugin\"");
    assert_eq!(AttrError::DuplicateSchedule.message(), "Multiple declarations of \"schedule\"");
    assert_eq!(AttrError::DuplicateGenerics.message(), "Multiple declarations of \"generics\"");
    assert_eq!(
        AttrError::GenericsOnSet.message(),
        "`generics` is not applicable for `system_set!` arguments"
    );
    assert_eq!(
        AttrError::PluginInSet.message(),
        "`plugin` can not be overridden within a `system_set!` block"
    );
    assert_eq!(
        AttrError::ScheduleInSet.message(),
        "`schedule` can not be overridden within a `system_set!` block"
    );
}

#[test]
fn set_needs_plugin_and_schedule_and_no_generics() {
    assert_eq!(attr(Some("P"), Some("S"), None, &["chain()"]).check_set(), Ok(()));
    assert_eq!(attr(None, None, Some("<u8>"), &[]).check_set(), Err(AttrError::MissingPlugin));
    assert_eq!(attr(None, Some("S"), None, &[]).check_set(), Err(AttrError::MissingPlugin));
    assert_eq!(attr(Some("P"), None, Some("<u8>"), &[]).check_set(), Err(AttrError::MissingSchedule));
    assert_eq!(attr(Some("P"), Some("S"), Some("<u8>"), &[]).check_set(), Err(AttrError::GenericsOnSet));
}

#[test]
fn set_member_names_no_plugin_and_no_schedule() {
    assert_eq!(attr(None, None, Some("<u8>"), &["chain()"]).check_set_member(), Ok(()));
    assert_eq!(Attr::new().check_set_member(), Ok(()));
    assert_eq!(attr(Some("P"), Some("S"), None, &[]).check_set_member(), Err(AttrError::PluginInSet));
    assert_eq!(attr(Some("P"), None, None, &[]).check_set_member(), Err(AttrError::PluginInSet));
    assert_eq!(attr(None, Some("S"), None, &[]).check_set_member(), Err(AttrError::ScheduleInSet));
}
