//! Behaviour and movement engine for the enemies of a fixed-tick 2D
//! platformer: proximity classification, a tag-based state machine driven
//! through deferred transition queues, slot-based spawning, and the
//! per-tick bookkeeping of death and decay.
use vstd::prelude::*;

pub mod agent;
pub mod queue;
pub mod range;
pub mod behavior;
mod rng;
pub mod spawner;
pub mod lifecycle;
pub mod world;
pub mod plugin;
pub mod script;
pub mod animation;

verus! {

} // verus!
