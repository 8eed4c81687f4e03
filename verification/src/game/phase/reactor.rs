//! The reactor phase: the reactor powers up one module at a time.
use vstd::prelude::*;

use crate::game::deck::PlayerDeck;
use crate::game::phase::Cooldown;
use crate::game::phase::Phase;
use crate::game::phase::PhaseStep;
use crate::game::stats::Stats;

verus! {

/// The reactor phase starts with its first cooldown.
pub fn reset_step_timer_for_reactor() -> (c: Cooldown)
    ensures
        c == Cooldown::First,
{
    Cooldown::First
}

/// One step of the reactor phase. When nothing more powers up the player's phase
/// follows; otherwise the flux is recorded and the next wait decays with the chain.
pub fn step_reactor_phase(player_deck: &mut PlayerDeck, stats: &mut Stats) -> (r: PhaseStep)
    ensures
        (final(player_deck)@, r != PhaseStep::Enter(Phase::Player))
            == old(player_deck)@.step_reactor(),
        old(player_deck)@.wf() ==> final(player_deck)@.wf(),
        r == PhaseStep::Enter(Phase::Player) ==> *final(stats) == *old(stats),
        r != PhaseStep::Enter(Phase::Player) ==> {
            &&& final(stats).highest_flux == (if old(stats).highest_flux < final(player_deck).flux {
                final(player_deck).flux
            } else {
                old(stats).highest_flux
            })
            &&& r == PhaseStep::Wait(
                if final(player_deck)@.is_reactor_done() {
                    Cooldown::Last
                } else {
                    Cooldown::Decayed((final(player_deck).chain - 1) as u64)
                },
            )
        },
{
    if !player_deck.step_reactor() {
        return PhaseStep::Enter(Phase::Player);
    }
    stats.record_flux(player_deck.flux);
    if player_deck.is_reactor_done() {
        PhaseStep::Wait(Cooldown::Last)
    } else {
        PhaseStep::Wait(Cooldown::Decayed(player_deck.chain - 1))
    }
}

} // verus!
