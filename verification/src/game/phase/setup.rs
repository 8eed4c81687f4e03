//! The setup phase: modules are drawn from storage until the hand is full.
use rand::rngs::ThreadRng;
use vstd::prelude::*;

use crate::game::deck::PlayerDeck;
use crate::game::phase::Cooldown;
use crate::game::phase::Phase;
use crate::game::phase::PhaseStep;
use crate::game::phase::Step;

verus! {

/// The setup phase starts with its first cooldown.
pub fn reset_step_timer_for_setup() -> (c: Cooldown)
    ensures
        c == Cooldown::First,
{
    Cooldown::First
}

/// One step of the setup phase: a random module is drawn; when setup is already
/// complete the player's phase follows.
pub fn step_setup_phase(player_deck: &mut PlayerDeck, rng: &mut ThreadRng, step: &Step) -> (r:
    PhaseStep)
    ensures
        old(player_deck)@.is_setup_done() ==> r == PhaseStep::Enter(Phase::Player)
            && final(player_deck)@ == old(player_deck)@,
        !old(player_deck)@.is_setup_done() ==> {
            &&& exists|i: int|
                0 <= i < old(player_deck).storage@.len() && final(player_deck)@
                    == #[trigger] old(player_deck)@.draw_from_idx(i)
            &&& r == PhaseStep::Wait(
                if final(player_deck)@.is_setup_done() {
                    Cooldown::Last
                } else {
                    Cooldown::Decayed(step.0 as u64)
                },
            )
        },
{
    if !player_deck.step_setup(rng) {
        return PhaseStep::Enter(Phase::Player);
    }
    if player_deck.is_setup_done() {
        PhaseStep::Wait(Cooldown::Last)
    } else {
        PhaseStep::Wait(Cooldown::Decayed(step.0 as u64))
    }
}

} // verus!
