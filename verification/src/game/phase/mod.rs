//! The phases of a round and the decisions taken at each step of them.
pub mod enemy;
pub mod helm;
pub mod player;
pub mod reactor;
pub mod setup;

use vstd::prelude::*;

use crate::assets::SoundKey;

verus! {

/// The phases of a round. The round starts at the helm.
#[derive(PartialEq, Eq, Structural, Clone, Copy, Debug)]
pub enum Phase {
    Helm,
    Reactor,
    Player,
    Enemy,
    Setup,
}

impl Default for Phase {
    fn default() -> (p: Self)
        ensures
            p == Phase::Helm,
    {
        Phase::Helm
    }
}

/// The number of the round within the level, from 0.
pub struct Round(pub usize);

/// The number of steps taken within the current phase.
pub struct Step(pub usize);

/// Rounds are counted on the transition from the enemy's phase to setup.
pub fn is_new_round(from: Phase, to: Phase) -> (r: bool)
    ensures
        r == (from == Phase::Enemy && to == Phase::Setup),
{
    matches!(from, Phase::Enemy) && matches!(to, Phase::Setup)
}

pub fn increment_round(round: &mut Round)
    requires
        old(round).0 < usize::MAX,
    ensures
        final(round).0 == old(round).0 + 1,
{
    round.0 = round.0 + 1;
}

pub fn reset_round(round: &mut Round)
    ensures
        final(round).0 == 0,
{
    round.0 = 0;
}

pub fn reset_step(step: &mut Step)
    ensures
        final(step).0 == 0,
{
    step.0 = 0;
}

/// Counts the step timer's completions since the last frame.
pub fn increment_step(step: &mut Step, times_finished: u32)
    requires
        old(step).0 + times_finished <= usize::MAX,
    ensures
        final(step).0 == old(step).0 + times_finished,
{
    step.0 = step.0 + times_finished as usize;
}

/// How long to wait before the next step of a phase.
#[derive(PartialEq, Eq, Structural, Clone, Copy, Debug)]
pub enum Cooldown {
    /// The phase's first cooldown.
    First,
    /// The phase's base cooldown multiplied by its decay to the given power.
    Decayed(u64),
    /// The phase's cooldown after its last step.
    Last,
    /// No wait at all.
    Zero,
}

/// What a phase step leads to.
#[derive(PartialEq, Eq, Structural, Clone, Copy, Debug)]
pub enum PhaseStep {
    /// Leave for the given phase.
    Enter(Phase),
    /// Stay and wait before the next step.
    Wait(Cooldown),
}

/// Every phase change plays the phase-change sound, except the change into the
/// first phase when a level starts.
pub fn phase_change_sfx(level_just_started: bool) -> (sfx: Option<SoundKey>)
    ensures
        sfx == (if level_just_started {
            None
        } else {
            Some(SoundKey::PhaseChange)
        }),
{
    if level_just_started {
        None
    } else {
        Some(SoundKey::PhaseChange)
    }
}

} // verus!
