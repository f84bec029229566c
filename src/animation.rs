//! Which clip an enemy's sprite plays when it enters a state, and the
//! direction flags of its sprite.
use vstd::prelude::*;
use crate::agent::{Facing, Role};

verus! {

/// States whose entry starts a clip.
#[derive(Clone, Copy, Debug, PartialEq, Eq, Structural)]
pub enum Clip {
    Idle,
    Walk,
    Chase,
    RangedAttack,
    MeleeAttack,
    Defense,
    Death,
    Decay,
}

/// The clip key for a state entry: small spiders are the melee role,
/// large ones the ranged role; chase and melee attack exist only for the
/// small one, ranged attack and defense only for the large one.
pub fn clip_key(clip: Clip, role: Role) -> (r: &'static str)
    ensures
        clip == Clip::Idle && role == Role::Melee ==> r@ == "anim.smallspider.Idle"@,
        clip == Clip::Idle && role == Role::Ranged ==> r@ == "anim.spider.Idle"@,
        clip == Clip::Walk && role == Role::Melee ==> r@ == "anim.smallspider.Walk"@,
        clip == Clip::Walk && role == Role::Ranged ==> r@ == "anim.spider.Walk"@,
        clip == Clip::Chase ==> r@ == "anim.smallspider.Chase"@,
        clip == Clip::RangedAttack ==> r@ == "anim.spider.RangedAttack"@,
        clip == Clip::MeleeAttack ==> r@ == "anim.smallspider.MeleeAttack"@,
        clip == Clip::Defense ==> r@ == "anim.spider.Defense"@,
        clip == Clip::Death && role == Role::Melee ==> r@ == "anim.smallspider.Death"@,
        clip == Clip::Death && role == Role::Ranged ==> r@ == "anim.spider.Death"@,
        clip == Clip::Decay && role == Role::Melee ==> r@ == "anim.smallspider.Decay"@,
        clip == Clip::Decay && role == Role::Ranged ==> r@ == "anim.spider.Decay"@,
{
    match (clip, role) {
        (Clip::Idle, Role::Melee) => "anim.smallspider.Idle",
        (Clip::Idle, Role::Ranged) => "anim.spider.Idle",
        (Clip::Walk, Role::Melee) => "anim.smallspider.Walk",
        (Clip::Walk, Role::Ranged) => "anim.spider.Walk",
        (Clip::Chase, _) => "anim.smallspider.Chase",
        (Clip::RangedAttack, _) => "anim.spider.RangedAttack",
        (Clip::MeleeAttack, _) => "anim.smallspider.MeleeAttack",
        (Clip::Defense, _) => "anim.spider.Defense",
        (Clip::Death, Role::Melee) => "anim.smallspider.Death",
        (Clip::Death, Role::Ranged) => "anim.spider.Death",
        (Clip::Decay, Role::Melee) => "anim.smallspider.Decay",
        (Clip::Decay, Role::Ranged) => "anim.spider.Decay",
    }
}

/// Values of the sprite's `DirectionRight` and `DirectionLeft` flags.
pub fn direction_flags(f: Facing) -> (r: (bool, bool))
    ensures
        r == (if f == Facing::Right { (true, false) } else { (false, true) }),
{
    match f {
        Facing::Right => (true, false),
        Facing::Left => (false, true),
    }
}

/// The decay clip plays faster while its sprite is off screen.
pub fn decay_rate_flag(visible: bool) -> (r: bool)
    ensures
        r == !visible,
{
    !visible
}

} // verus!
