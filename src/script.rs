//! Ordering and outcomes of the scripted timelines that drive cosmetic
//! animation.
use vstd::prelude::*;

verus! {

/// Sets of the script systems, in the order they run.
#[derive(Clone, Copy, Debug, PartialEq, Eq, Structural, Hash)]
pub enum ScriptSet {
    /// Scripts get their runtime.
    Init,
    InitFlush,
    /// Scripts run.
    Run,
    RunFlush,
}

/// Script runtime ordering.
#[derive(Clone, Copy, Debug, PartialEq, Eq, Structural)]
pub struct ScriptPlugin;

impl ScriptPlugin {
    /// The script sets of one tick, each after the one before it.
    pub fn set_order(&self) -> (r: Vec<ScriptSet>)
        ensures
            r@ == seq![ScriptSet::Init, ScriptSet::InitFlush, ScriptSet::Run, ScriptSet::RunFlush],
    {
        vec![ScriptSet::Init, ScriptSet::InitFlush, ScriptSet::Run, ScriptSet::RunFlush]
    }
}

/// When the current level was entered.
#[derive(Clone, Copy, Debug)]
pub struct LevelLoadTime {
    /// The time since start-up at which the level was spawned.
    pub time: std::time::Duration,
    /// The game tick at which it was spawned.
    pub tick: u64,
}

/// What a script update reports.
#[derive(Clone, Copy, Debug, PartialEq, Eq, Structural)]
pub enum ScriptUpdateResult {
    /// Nothing unusual.
    NormalRun,
    /// No action can ever run again.
    Finished,
    /// The script asks to be finished whatever remains.
    Terminated,
}

impl ScriptUpdateResult {
    /// Whether the script's entity is despawned after this update.
    pub fn ends_script(&self) -> (r: bool)
        ensures
            r == (*self != ScriptUpdateResult::NormalRun),
    {
        match self {
            ScriptUpdateResult::NormalRun => false,
            ScriptUpdateResult::Finished | ScriptUpdateResult::Terminated => true,
        }
    }
}

} // verus!
