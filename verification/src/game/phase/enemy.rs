//! The enemy's phase: the enemy performs its actions, or dies.
use vstd::prelude::*;

use crate::game::deck::EnemyDeck;
use crate::game::module::ModuleAction;
use crate::game::phase::Cooldown;
use crate::game::phase::Phase;
use crate::game::phase::PhaseStep;
use crate::game::phase::Round;
use crate::game::phase::Step;

verus! {

/// The level whose enemy explodes instead of fleeing when it dies.
pub const FINAL_LEVEL: usize = 9;

/// The oscillation a dead enemy is in on the final level.
#[derive(PartialEq, Eq, Structural, Clone, Copy, Debug)]
pub enum DeathOscillation {
    /// Not yet dying.
    Calm,
    /// The first, slow wobble.
    First,
    /// The second, violent shaking.
    Second,
}

/// What the enemy does in one step of its phase.
#[derive(PartialEq, Eq, Structural, Clone, Copy, Debug)]
pub enum EnemyPhaseStep {
    /// Dead on an ordinary level: the ship is pushed away.
    Flee,
    /// Dead on the final level: start the first wobble and wait a second.
    StartFirstOscillation,
    /// Dead on the final level: start the shaking and wait a second and a half.
    StartSecondOscillation,
    /// The final enemy explodes and the victory menu opens.
    Explode,
    /// The enemy fires the action at the player and waits.
    Act(ModuleAction, Cooldown),
    /// The round's actions are done.
    Enter(Phase),
}

/// A dead enemy or an enemy with nothing to do ends the phase at once.
pub fn reset_step_timer_for_enemy(round: &Round, enemy_deck: &EnemyDeck, enemy_is_dead: bool) -> (c:
    Cooldown)
    ensures
        c == (if enemy_is_dead || enemy_deck@.is_done(round.0) {
            Cooldown::Zero
        } else {
            Cooldown::First
        }),
{
    if enemy_is_dead || enemy_deck.is_done(round.0) {
        Cooldown::Zero
    } else {
        Cooldown::First
    }
}

/// One step of the enemy's phase.
pub fn step_enemy_phase(
    level: usize,
    round: &Round,
    step: &Step,
    enemy_is_dead: bool,
    oscillation: DeathOscillation,
    enemy_deck: &mut EnemyDeck,
) -> (r: EnemyPhaseStep)
    ensures
        enemy_is_dead ==> final(enemy_deck)@ == old(enemy_deck)@ && r == (if level != FINAL_LEVEL {
            EnemyPhaseStep::Flee
        } else {
            match oscillation {
                DeathOscillation::Calm => EnemyPhaseStep::StartFirstOscillation,
                DeathOscillation::First => EnemyPhaseStep::StartSecondOscillation,
                DeathOscillation::Second => EnemyPhaseStep::Explode,
            }
        }),
        !enemy_is_dead ==> {
            let (after, action) = old(enemy_deck)@.step(round.0);
            &&& final(enemy_deck)@ == after
            &&& r == match action {
                None => EnemyPhaseStep::Enter(Phase::Setup),
                Some(a) => EnemyPhaseStep::Act(
                    a,
                    if after.is_done(round.0) {
                        Cooldown::Last
                    } else {
                        Cooldown::Decayed(step.0 as u64)
                    },
                ),
            }
        },
{
    if enemy_is_dead {
        if level != FINAL_LEVEL {
            return EnemyPhaseStep::Flee;
        }
        return match oscillation {
            DeathOscillation::Calm => EnemyPhaseStep::StartFirstOscillation,
            DeathOscillation::First => EnemyPhaseStep::StartSecondOscillation,
            DeathOscillation::Second => EnemyPhaseStep::Explode,
        };
    }
    match enemy_deck.step(round.0) {
        None => EnemyPhaseStep::Enter(Phase::Setup),
        Some(a) => {
            let cooldown = if enemy_deck.is_done(round.0) {
                Cooldown::Last
            } else {
                Cooldown::Decayed(step.0 as u64)
            };
            EnemyPhaseStep::Act(a, cooldown)
        },
    }
}

} // verus!
