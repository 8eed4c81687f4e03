//! The player's phase: the actions of the powered-up modules are fired in order.
use vstd::prelude::*;

use crate::game::deck::PlayerDeck;
use crate::game::module::ModuleAction;
use crate::game::phase::Cooldown;
use crate::game::phase::Phase;
use crate::game::phase::PhaseStep;
use crate::game::phase::Step;

verus! {

/// With nothing queued the phase ends at once; otherwise it waits its first cooldown.
pub fn reset_step_timer_for_player(player_deck: &PlayerDeck) -> (c: Cooldown)
    ensures
        c == (if player_deck@.is_player_done() {
            Cooldown::Zero
        } else {
            Cooldown::First
        }),
{
    if player_deck.is_player_done() {
        Cooldown::Zero
    } else {
        Cooldown::First
    }
}

/// One step of the player's phase: the next queued action is fired from the player's
/// ship at the enemy. When the queue is empty the enemy's phase follows.
pub fn step_player_phase(player_deck: &mut PlayerDeck, step: &Step) -> (r: (
    PhaseStep,
    Option<ModuleAction>,
))
    requires
        old(player_deck)@.front_in_reactor(),
    ensures
        (final(player_deck)@, r.1) == old(player_deck)@.step_player(),
        old(player_deck)@.wf() ==> final(player_deck)@.wf(),
        r.0 == (match r.1 {
            None => PhaseStep::Enter(Phase::Enemy),
            Some(_) => PhaseStep::Wait(
                if final(player_deck)@.is_player_done() {
                    Cooldown::Last
                } else {
                    Cooldown::Decayed(step.0 as u64)
                },
            ),
        }),
{
    let action = player_deck.step_player();
    match action {
        None => (PhaseStep::Enter(Phase::Enemy), None),
        Some(a) => {
            let cooldown = if player_deck.is_player_done() {
                Cooldown::Last
            } else {
                Cooldown::Decayed(step.0 as u64)
            };
            (PhaseStep::Wait(cooldown), Some(a))
        },
    }
}

} // verus!
