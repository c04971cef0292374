//! The stages of a plugin's life at which registered code can be asked to run.

use vstd::prelude::*;
use vstd::std_specs::convert::{FromSpecImpl, TryFromSpecImpl};

verus! {

/// A stage of a plugin's life.
#[derive(Clone, Copy, PartialEq, Eq, Structural, Debug)]
pub enum PluginStage {
    Build,
    Finish,
    Cleanup,
}

/// The answer to a name that is the name of no plugin stage.
#[derive(Clone, Copy, PartialEq, Eq, Structural, Debug)]
pub struct UnknownPluginStage;

impl PluginStage {
    /// The name of the stage.
    pub open spec fn name(self) -> Seq<char> {
        match self {
            PluginStage::Build => "build"@,
            PluginStage::Finish => "finish"@,
            PluginStage::Cleanup => "cleanup"@,
        }
    }

    /// The stage that `name` is the name of, if it is the name of one.
    pub open spec fn named(name: Seq<char>) -> Option<PluginStage> {
        if name == "build"@ {
            Some(PluginStage::Build)
        } else if name == "finish"@ {
            Some(PluginStage::Finish)
        } else if name == "cleanup"@ {
            Some(PluginStage::Cleanup)
        } else {
            None
        }
    }

    /// The position of the stage in a table with one slot for each stage.
    pub open spec fn slot(self) -> usize {
        match self {
            PluginStage::Build => 0,
            PluginStage::Cleanup => 1,
            PluginStage::Finish => 2,
        }
    }

    /// The name of the stage.
    pub fn as_str(&self) -> (name: &'static str)
        ensures
            name@ == self.name(),
    {
        match self {
            PluginStage::Build => "build",
            PluginStage::Finish => "finish",
            PluginStage::Cleanup => "cleanup",
        }
    }
}

impl From<PluginStage> for usize {
    fn from(value: PluginStage) -> (slot: usize) {
        match value {
            PluginStage::Build => 0,
            PluginStage::Cleanup => 1,
            PluginStage::Finish => 2,
        }
    }
}

impl From<PluginStage> for &'static str {
    fn from(value: PluginStage) -> (name: &'static str)
        ensures
            name@ == value.name(),
    {
        value.as_str()
    }
}

/// A specification cannot write a text down, so what `from` returns is
/// stated where `from` is defined.
impl FromSpecImpl<PluginStage> for &'static str {
    open spec fn obeys_from_spec() -> bool {
        false
    }

    open spec fn from_spec(value: PluginStage) -> &'static str {
        arbitrary()
    }
}

impl FromSpecImpl<PluginStage> for usize {
    open spec fn obeys_from_spec() -> bool {
        true
    }

    open spec fn from_spec(value: PluginStage) -> usize {
        value.slot()
    }
}

impl<'a> TryFrom<&'a str> for PluginStage {
    type Error = UnknownPluginStage;

    fn try_from(value: &'a str) -> (result: Result<PluginStage, UnknownPluginStage>) {
        proof {
            reveal_strlit("build");
            reveal_strlit("finish");
            reveal_strlit("cleanup");
        }
        if crate::text::reads(value, "build") {
            Ok(PluginStage::Build)
        } else if crate::text::reads(value, "finish") {
            Ok(PluginStage::Finish)
        } else if crate::text::reads(value, "cleanup") {
            Ok(PluginStage::Cleanup)
        } else {
            Err(UnknownPluginStage)
        }
    }
}

impl<'a> TryFromSpecImpl<&'a str> for PluginStage {
    open spec fn obeys_try_from_spec() -> bool {
        true
    }

    open spec fn try_from_spec(value: &'a str) -> Result<PluginStage, UnknownPluginStage> {
        match PluginStage::named(value@) {
            Some(stage) => Ok(stage),
            None => Err(UnknownPluginStage),
        }
    }
}

/// Every stage is found again by its name, and no two stages share a name
/// or a slot.
pub proof fn lemma_stage_found_by_name(stage: PluginStage, other: PluginStage)
    ensures
        PluginStage::named(stage.name()) == Some(stage),
        stage.name() == other.name() ==> stage == other,
        stage.slot() == other.slot() ==> stage == other,
        stage.slot() < 3,
{
    reveal_strlit("build");
    reveal_strlit("finish");
    reveal_strlit("cleanup");
    assert("build"@.len() == 5 && "finish"@.len() == 6 && "cleanup"@.len() == 7);
}

} // verus!
