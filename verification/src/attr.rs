//! The arguments of a registration attribute, and how two sets of them are
//! merged.
//!
//! The arguments are held as the caller parsed them: the types of a path
//! (`P`), of a list of generic arguments (`G`) and of a transform (`T`) are
//! the caller's.

use vstd::prelude::*;

verus! {

/// The kinds of argument that a registration attribute takes.
#[derive(Clone, Copy, PartialEq, Eq, Structural, Debug)]
pub enum MetaKind {
    Plugin,
    Schedule,
    Generics,
    /// Every argument under another name: a transform of the system.
    Transform,
}

/// What is wrong with the arguments of a registration attribute.
#[derive(Clone, Copy, PartialEq, Eq, Structural, Debug)]
pub enum AttrError {
    /// No `plugin` is given, here or by inheritance.
    MissingPlugin,
    /// No `schedule` is given, here or by inheritance.
    MissingSchedule,
    /// `plugin` is given more than once.
    DuplicatePlugin,
    /// `schedule` is given more than once.
    DuplicateSchedule,
    /// `generics` is given more than once.
    DuplicateGenerics,
    /// `generics` is given for a whole set of systems, where it has no meaning.
    GenericsOnSet,
    /// A system inside a set names a `plugin` of its own.
    PluginInSet,
    /// A system inside a set names a `schedule` of its own.
    ScheduleInSet,
}

/// The arguments of one registration attribute.
#[derive(Debug)]
pub struct SystemAttr<P, G, T> {
    pub plugin: Option<P>,
    pub schedule: Option<P>,
    pub generics: Option<G>,
    pub transforms: Vec<T>,
}

/// `over` where it is given, `base` where it is not.
pub open spec fn preferred<X>(base: Option<X>, over: Option<X>) -> Option<X> {
    if over is Some {
        over
    } else {
        base
    }
}

impl MetaKind {
    /// The kind of the argument called `name`.
    pub open spec fn named(name: Seq<char>) -> MetaKind {
        if name == "plugin"@ {
            MetaKind::Plugin
        } else if name == "schedule"@ {
            MetaKind::Schedule
        } else if name == "generics"@ {
            MetaKind::Generics
        } else {
            MetaKind::Transform
        }
    }

    /// The kind of the argument called `name`.
    pub fn of(name: &str) -> (kind: MetaKind)
        ensures
            kind == MetaKind::named(name@),
    {
        proof {
            reveal_strlit("plugin");
            reveal_strlit("schedule");
            reveal_strlit("generics");
        }
        if crate::text::reads(name, "plugin") {
            MetaKind::Plugin
        } else if crate::text::reads(name, "schedule") {
            MetaKind::Schedule
        } else if crate::text::reads(name, "generics") {
            MetaKind::Generics
        } else {
            MetaKind::Transform
        }
    }
}

impl AttrError {
    /// The text of the fault.
    pub open spec fn text(self) -> Seq<char> {
        match self {
            AttrError::MissingPlugin => "#[system] requires a defined or inherited `plugin` argument"@,
            AttrError::MissingSchedule => "#[system] requires a defined or inherited `schedule` argument"@,
            AttrError::DuplicatePlugin => "Multiple declarations of \"plugin\""@,
            AttrError::DuplicateSchedule => "Multiple declarations of \"schedule\""@,
            AttrError::DuplicateGenerics => "Multiple declarations of \"generics\""@,
            AttrError::GenericsOnSet => "`generics` is not applicable for `system_set!` arguments"@,
            AttrError::PluginInSet => "`plugin` can not be overridden within a `system_set!` block"@,
            AttrError::ScheduleInSet => "`schedule` can not be overridden within a `system_set!` block"@,
        }
    }

    /// The text of the fault.
    pub fn message(&self) -> (message: &'static str)
        ensures
            message@ == self.text(),
    {
        match self {
            AttrError::MissingPlugin => "#[system] requires a defined or inherited `plugin` argument",
            AttrError::MissingSchedule => "#[system] requires a defined or inherited `schedule` argument",
            AttrError::DuplicatePlugin => "Multiple declarations of \"plugin\"",
            AttrError::DuplicateSchedule => "Multiple declarations of \"schedule\"",
            AttrError::DuplicateGenerics => "Multiple declarations of \"generics\"",
            AttrError::GenericsOnSet => "`generics` is not applicable for `system_set!` arguments",
            AttrError::PluginInSet => "`plugin` can not be overridden within a `system_set!` block",
            AttrError::ScheduleInSet => "`schedule` can not be overridden within a `system_set!` block",
        }
    }
}

impl<P, G, T> SystemAttr<P, G, T> {
    /// Whether `result` is `over` laid upon `base`: each single argument is
    /// that of `over` where `over` gives it and that of `base` where it does
    /// not; the transforms of `base` come first, those of `over` after them.
    pub open spec fn is_merge_of(result: Self, base: Self, over: Self) -> bool {
        &&& result.plugin == preferred(base.plugin, over.plugin)
        &&& result.schedule == preferred(base.schedule, over.schedule)
        &&& result.generics == preferred(base.generics, over.generics)
        &&& result.transforms@ == base.transforms@ + over.transforms@
    }

    /// No argument given.
    pub fn new() -> (attr: Self)
        ensures
            attr.plugin is None,
            attr.schedule is None,
            attr.generics is None,
            attr.transforms@ == Seq::<T>::empty(),
    {
        SystemAttr { plugin: None, schedule: None, generics: None, transforms: Vec::new() }
    }

    /// The plugin, which has to be given.
    pub fn require_plugin(&self) -> (result: Result<&P, AttrError>)
        ensures
            match result {
                Ok(plugin) => self.plugin == Some(*plugin),
                Err(fault) => self.plugin is None && fault == AttrError::MissingPlugin,
            },
    {
        match &self.plugin {
            Some(plugin) => Ok(plugin),
            None => Err(AttrError::MissingPlugin),
        }
    }

    /// The schedule, which has to be given.
    pub fn require_schedule(&self) -> (result: Result<&P, AttrError>)
        ensures
            match result {
                Ok(schedule) => self.schedule == Some(*schedule),
                Err(fault) => self.schedule is None && fault == AttrError::MissingSchedule,
            },
    {
        match &self.schedule {
            Some(schedule) => Ok(schedule),
            None => Err(AttrError::MissingSchedule),
        }
    }

    /// Lays `overlay` upon these arguments: what `overlay` gives replaces what
    /// is here, and its transforms are added at the end.
    pub fn overlay(&mut self, overlay: Self)
        ensures
            Self::is_merge_of(*final(self), *old(self), overlay),
    {
        let SystemAttr { plugin, schedule, generics, transforms } = overlay;
        let mut transforms = transforms;
        if generics.is_some() {
            self.generics = generics;
        }
        if schedule.is_some() {
            self.schedule = schedule;
        }
        if plugin.is_some() {
            self.plugin = plugin;
        }
        self.transforms.append(&mut transforms);
    }

    /// Puts `defaults` under these arguments: what is given here stays, what
    /// is not is taken from `defaults`, and the transforms of `defaults` come
    /// before those given here.
    pub fn with_defaults(&mut self, defaults: Self)
        ensures
            Self::is_merge_of(*final(self), defaults, *old(self)),
    {
        let SystemAttr { plugin, schedule, generics, transforms } = defaults;
        let mut transforms = transforms;
        if self.generics.is_none() {
            self.generics = generics;
        }
        if self.schedule.is_none() {
            self.schedule = schedule;
        }
        if self.plugin.is_none() {
            self.plugin = plugin;
        }
        transforms.append(&mut self.transforms);
        self.transforms = transforms;
    }

    /// The fault of giving an argument of kind `kind` now, if it is one: a
    /// single argument can be given once only, a transform any number of times.
    pub open spec fn refusal(&self, kind: MetaKind) -> Option<AttrError> {
        match kind {
            MetaKind::Plugin => if self.plugin is Some {
                Some(AttrError::DuplicatePlugin)
            } else {
                None
            },
            MetaKind::Schedule => if self.schedule is Some {
                Some(AttrError::DuplicateSchedule)
            } else {
                None
            },
            MetaKind::Generics => if self.generics is Some {
                Some(AttrError::DuplicateGenerics)
            } else {
                None
            },
            MetaKind::Transform => None,
        }
    }

    /// Whether an argument of kind `kind` can still be given.
    pub fn admits(&self, kind: MetaKind) -> (result: Result<(), AttrError>)
        ensures
            result == match self.refusal(kind) {
                Some(fault) => Err::<(), AttrError>(fault),
                None => Ok(()),
            },
    {
        let taken = match kind {
            MetaKind::Plugin => self.plugin.is_some(),
            MetaKind::Schedule => self.schedule.is_some(),
            MetaKind::Generics => self.generics.is_some(),
            MetaKind::Transform => false,
        };
        if !taken {
            return Ok(());
        }
        match kind {
            MetaKind::Plugin => Err(AttrError::DuplicatePlugin),
            MetaKind::Schedule => Err(AttrError::DuplicateSchedule),
            MetaKind::Generics => Err(AttrError::DuplicateGenerics),
            MetaKind::Transform => Ok(()),
        }
    }

    /// Gives the plugin. A second plugin is refused and changes nothing.
    pub fn insert_plugin(&mut self, plugin: P) -> (result: Result<(), AttrError>)
        ensures
            match result {
                Ok(()) => old(self).plugin is None && *final(self) == (SystemAttr {
                    plugin: Some(plugin),
                    ..*old(self)
                }),
                Err(fault) => old(self).plugin is Some && fault == AttrError::DuplicatePlugin
                    && *final(self) == *old(self),
            },
    {
        if self.plugin.is_some() {
            return Err(AttrError::DuplicatePlugin);
        }
        self.plugin = Some(plugin);
        Ok(())
    }

    /// Gives the schedule. A second schedule is refused and changes nothing.
    pub fn insert_schedule(&mut self, schedule: P) -> (result: Result<(), AttrError>)
        ensures
            match result {
                Ok(()) => old(self).schedule is None && *final(self) == (SystemAttr {
                    schedule: Some(schedule),
                    ..*old(self)
                }),
                Err(fault) => old(self).schedule is Some && fault == AttrError::DuplicateSchedule
                    && *final(self) == *old(self),
            },
    {
        if self.schedule.is_some() {
            return Err(AttrError::DuplicateSchedule);
        }
        self.schedule = Some(schedule);
        Ok(())
    }

    /// Gives the generic arguments. A second list is refused and changes
    /// nothing.
    pub fn insert_generics(&mut self, generics: G) -> (result: Result<(), AttrError>)
        ensures
            match result {
                Ok(()) => old(self).generics is None && *final(self) == (SystemAttr {
                    generics: Some(generics),
                    ..*old(self)
                }),
                Err(fault) => old(self).generics is Some && fault == AttrError::DuplicateGenerics
                    && *final(self) == *old(self),
            },
    {
        if self.generics.is_some() {
            return Err(AttrError::DuplicateGenerics);
        }
        self.generics = Some(generics);
        Ok(())
    }

    /// The fault of these arguments as the arguments of a whole set of
    /// systems, if they have one: a set needs a plugin and a schedule, in
    /// that order of complaint, and takes no generic arguments.
    pub open spec fn set_fault(&self) -> Option<AttrError> {
        if self.plugin is None {
            Some(AttrError::MissingPlugin)
        } else if self.schedule is None {
            Some(AttrError::MissingSchedule)
        } else if self.generics is Some {
            Some(AttrError::GenericsOnSet)
        } else {
            None
        }
    }

    /// Checks these arguments as the arguments of a whole set of systems.
    pub fn check_set(&self) -> (result: Result<(), AttrError>)
        ensures
            result == match self.set_fault() {
                Some(fault) => Err::<(), AttrError>(fault),
                None => Ok(()),
            },
    {
        if self.plugin.is_none() {
            Err(AttrError::MissingPlugin)
        } else if self.schedule.is_none() {
            Err(AttrError::MissingSchedule)
        } else if self.generics.is_some() {
            Err(AttrError::GenericsOnSet)
        } else {
            Ok(())
        }
    }

    /// The fault of these arguments as the arguments of one system inside a
    /// set, if they have one: plugin and schedule are those of the set.
    pub open spec fn member_fault(&self) -> Option<AttrError> {
        if self.plugin is Some {
            Some(AttrError::PluginInSet)
        } else if self.schedule is Some {
            Some(AttrError::ScheduleInSet)
        } else {
            None
        }
    }

    /// Checks these arguments as the arguments of one system inside a set.
    pub fn check_set_member(&self) -> (result: Result<(), AttrError>)
        ensures
            result == match self.member_fault() {
                Some(fault) => Err::<(), AttrError>(fault),
                None => Ok(()),
            },
    {
        if self.plugin.is_some() {
            Err(AttrError::PluginInSet)
        } else if self.schedule.is_some() {
            Err(AttrError::ScheduleInSet)
        } else {
            Ok(())
        }
    }

    /// Adds a transform after those already given.
    pub fn push_transform(&mut self, transform: T)
        ensures
            final(self).plugin == old(self).plugin,
            final(self).schedule == old(self).schedule,
            final(self).generics == old(self).generics,
            final(self).transforms@ == old(self).transforms@.push(transform),
    {
        self.transforms.push(transform);
    }
}

} // verus!
