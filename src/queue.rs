//! Deferred mutation: handlers only queue the changes they want, and one
//! pass per tick applies them all, in order, and empties the queues.
use vstd::prelude::*;
use crate::agent::{tag_of_mode, tag_of_sub, Mode, StateTag, StateTags, SubState};

verus! {

/// The value a transition puts in place.
#[derive(Clone, Copy, Debug, PartialEq, Eq, Structural)]
pub enum NextState {
    Mode(Mode),
    Sub(SubState),
}

/// Replace the tag `from` (where present) by `to`.
#[derive(Clone, Copy, Debug, PartialEq, Eq, Structural)]
pub struct Transition {
    pub from: StateTag,
    pub to: NextState,
}

impl Transition {
    pub fn new(from: StateTag, to: NextState) -> (r: Transition)
        ensures
            r == (Transition { from, to }),
    {
        Transition { from, to }
    }
}

/// Components to insert without removing any.
#[derive(Clone, Copy, Debug, PartialEq, Eq, Structural)]
pub enum Addition {
    Idle,
}

/// Per-enemy buffer of transitions queued during one tick.
#[derive(Clone, Debug)]
pub struct TransitionQueue {
    pub items: Vec<Transition>,
}

/// Per-enemy buffer of additions queued during one tick.
#[derive(Clone, Debug)]
pub struct AddQueue {
    pub items: Vec<Addition>,
}

impl TransitionQueue {
    pub fn new() -> (r: TransitionQueue)
        ensures
            r.items@ == Seq::<Transition>::empty(),
    {
        TransitionQueue { items: Vec::new() }
    }

    pub fn push(&mut self, t: Transition)
        ensures
            final(self).items@ == old(self).items@.push(t),
    {
        self.items.push(t);
    }
}

impl AddQueue {
    pub fn new() -> (r: AddQueue)
        ensures
            r.items@ == Seq::<Addition>::empty(),
    {
        AddQueue { items: Vec::new() }
    }

    pub fn add(&mut self, a: Addition)
        ensures
            final(self).items@ == old(self).items@.push(a),
    {
        self.items.push(a);
    }
}

/// One transition: drop the tag `from` if it is there, put `to` in its
/// slot (replacing what was there) and clear the idle marker.
pub open spec fn apply_transition(s: StateTags, t: Transition) -> StateTags {
    let mode = match s.mode {
        Some(m) => if tag_of_mode(m) == t.from { None } else { s.mode },
        None => None,
    };
    let sub = match s.sub {
        Some(x) => if tag_of_sub(x) == t.from { None } else { s.sub },
        None => None,
    };
    match t.to {
        NextState::Mode(m) => StateTags { mode: Some(m), sub, idle: false },
        NextState::Sub(x) => StateTags { mode, sub: Some(x), idle: false },
    }
}

/// Every transition of `q` applied once, first to last.
pub open spec fn apply_all(s: StateTags, q: Seq<Transition>) -> StateTags
    decreases q.len(),
{
    if q.len() == 0 {
        s
    } else {
        apply_transition(apply_all(s, q.drop_last()), q.last())
    }
}

/// Additions only ever set the idle marker.
pub open spec fn apply_additions_spec(s: StateTags, q: Seq<Addition>) -> StateTags {
    StateTags { idle: s.idle || q.len() > 0, ..s }
}

pub fn apply_one(s: StateTags, t: Transition) -> (r: StateTags)
    ensures
        r == apply_transition(s, t),
{
    let mode = match s.mode {
        Some(m) => {
            let hit = match (m, t.from) {
                (Mode::Patrolling, StateTag::Patrolling) => true,
                (Mode::Aggroed, StateTag::Aggroed) => true,
                _ => false,
            };
            if hit { None } else { s.mode }
        },
        None => None,
    };
    let sub = match s.sub {
        Some(x) => {
            let hit = match (x, t.from) {
                (SubState::Waiting(_), StateTag::Waiting) => true,
                (SubState::Walking(_), StateTag::Walking) => true,
                (SubState::Chasing, StateTag::Chasing) => true,
                (SubState::MeleeAttack(_), StateTag::MeleeAttack) => true,
                (SubState::RangedAttack(_), StateTag::RangedAttack) => true,
                (SubState::Defense(_), StateTag::Defense) => true,
                _ => false,
            };
            if hit { None } else { s.sub }
        },
        None => None,
    };
    match t.to {
        NextState::Mode(m) => StateTags { mode: Some(m), sub, idle: false },
        NextState::Sub(x) => StateTags { mode, sub: Some(x), idle: false },
    }
}

/// Applies every queued transition once, in queue order, then every queued
/// addition, and leaves both queues empty.
pub fn apply_queues(tags: &mut StateTags, transitions: &mut TransitionQueue, additions: &mut AddQueue)
    ensures
        *final(tags) == apply_additions_spec(
            apply_all(*old(tags), old(transitions).items@),
            old(additions).items@,
        ),
        final(transitions).items@.len() == 0,
        final(additions).items@.len() == 0,
{
    let ghost s0 = *tags;
    let ghost q = transitions.items@;
    let n = transitions.items.len();
    let mut i: usize = 0;
    while i < n
        invariant
            n == q.len(),
            transitions.items@ == q,
            0 <= i <= n,
            *tags == apply_all(s0, q.take(i as int)),
        decreases n - i,
    {
        let t = transitions.items[i];
        assert(q.take(i as int + 1).drop_last() =~= q.take(i as int));
        *tags = apply_one(*tags, t);
        i = i + 1;
    }
    assert(q.take(n as int) =~= q);
    transitions.items.clear();
    if additions.items.len() > 0 {
        tags.idle = true;
    }
    additions.items.clear();
}

/// Applying a queue is applying its transitions one by one: the part
/// queued first, then the rest, each exactly once.
pub proof fn lemma_apply_split(s: StateTags, q1: Seq<Transition>, q2: Seq<Transition>)
    ensures
        apply_all(s, q1 + q2) == apply_all(apply_all(s, q1), q2),
    decreases q2.len(),
{
    if q2.len() == 0 {
        assert(q1 + q2 =~= q1);
    } else {
        assert((q1 + q2).drop_last() =~= q1 + q2.drop_last());
        assert((q1 + q2).last() == q2.last());
        lemma_apply_split(s, q1, q2.drop_last());
    }
}

} // verus!
