//! The helm phase: the player picks a module to play or discard.
use rand::rngs::ThreadRng;
use vstd::prelude::*;

use crate::game::deck::PlayerDeck;
use crate::game::phase::Phase;
use crate::input::InputButton;

verus! {

/// The player's inputs during the helm phase.
#[derive(PartialEq, Eq, Structural, Clone, Copy, Debug)]
pub enum HelmActions {
    SelectLeft,
    SelectRight,
    PlayModule,
    DiscardModule,
    EndTurn,
}

/// The inputs bound to each helm action.
pub fn helm_bindings() -> (b: Vec<(HelmActions, InputButton)>)
    ensures
        b@ == seq![
            (HelmActions::SelectLeft, InputButton::DPadLeft),
            (HelmActions::SelectLeft, InputButton::LeftTrigger),
            (HelmActions::SelectLeft, InputButton::KeyA),
            (HelmActions::SelectLeft, InputButton::ArrowLeft),
            (HelmActions::SelectRight, InputButton::DPadRight),
            (HelmActions::SelectRight, InputButton::RightTrigger),
            (HelmActions::SelectRight, InputButton::KeyD),
            (HelmActions::SelectRight, InputButton::ArrowRight),
            (HelmActions::PlayModule, InputButton::Space),
            (HelmActions::PlayModule, InputButton::Enter),
            (HelmActions::PlayModule, InputButton::NumpadEnter),
            (HelmActions::DiscardModule, InputButton::Delete),
            (HelmActions::DiscardModule, InputButton::Backspace),
            (HelmActions::DiscardModule, InputButton::NumpadBackspace),
            (HelmActions::EndTurn, InputButton::KeyE),
        ],
{
    let mut b = Vec::new();
    b.push((HelmActions::SelectLeft, InputButton::DPadLeft));
    b.push((HelmActions::SelectLeft, InputButton::LeftTrigger));
    b.push((HelmActions::SelectLeft, InputButton::KeyA));
    b.push((HelmActions::SelectLeft, InputButton::ArrowLeft));
    b.push((HelmActions::SelectRight, InputButton::DPadRight));
    b.push((HelmActions::SelectRight, InputButton::RightTrigger));
    b.push((HelmActions::SelectRight, InputButton::KeyD));
    b.push((HelmActions::SelectRight, InputButton::ArrowRight));
    b.push((HelmActions::PlayModule, InputButton::Space));
    b.push((HelmActions::PlayModule, InputButton::Enter));
    b.push((HelmActions::PlayModule, InputButton::NumpadEnter));
    b.push((HelmActions::DiscardModule, InputButton::Delete));
    b.push((HelmActions::DiscardModule, InputButton::Backspace));
    b.push((HelmActions::DiscardModule, InputButton::NumpadBackspace));
    b.push((HelmActions::EndTurn, InputButton::KeyE));
    b
}

/// The actions only available during the helm phase; disabled outside it.
pub fn helm_phase_actions() -> (a: Vec<HelmActions>)
    ensures
        a@ == seq![HelmActions::PlayModule, HelmActions::DiscardModule, HelmActions::EndTurn],
{
    let mut a = Vec::new();
    a.push(HelmActions::PlayModule);
    a.push(HelmActions::DiscardModule);
    a.push(HelmActions::EndTurn);
    a
}

/// Whether a helm action is enabled. Selecting is always possible; playing,
/// discarding and ending the turn are disabled at startup, enabled on entering
/// the helm phase and disabled on leaving it (`phase` is the phase the game is
/// in, if any); pausing disables every action until the pause ends.
pub fn helm_action_enabled(action: HelmActions, phase: Option<Phase>, paused: bool) -> (e: bool)
    ensures
        e == (!paused && (action == HelmActions::SelectLeft || action == HelmActions::SelectRight
            || phase == Some(Phase::Helm))),
{
    if paused {
        return false;
    }
    match action {
        HelmActions::SelectLeft | HelmActions::SelectRight => true,
        _ => matches!(phase, Some(Phase::Helm)),
    }
}

/// The helm phase is skipped when there is nothing to play or draw.
pub fn helm_is_empty(player_deck: &PlayerDeck) -> (r: bool)
    ensures
        r == (player_deck.hand@.len() == 0 && player_deck.storage@.len() == 0),
{
    player_deck.hand.len() == 0 && player_deck.storage.len() == 0
}

/// The phase entered when the helm phase is skipped.
pub fn skip_helm_phase() -> (p: Phase)
    ensures
        p == Phase::Reactor,
{
    Phase::Reactor
}

pub fn helm_select_left(player_deck: &mut PlayerDeck)
    ensures
        final(player_deck)@ == old(player_deck)@.advance_selected(-1isize),
{
    player_deck.advance_selected(-1);
}

pub fn helm_select_right(player_deck: &mut PlayerDeck)
    ensures
        final(player_deck)@ == old(player_deck)@.advance_selected(1isize),
{
    player_deck.advance_selected(1);
}

/// Plays the selected module; when it was played the reactor phase follows.
pub fn helm_play_module(player_deck: &mut PlayerDeck) -> (next: Option<Phase>)
    requires
        old(player_deck)@.selection_playable(),
    ensures
        final(player_deck)@ == old(player_deck)@.play_selected().0,
        next == (if old(player_deck)@.play_selected().1 {
            Some(Phase::Reactor)
        } else {
            None
        }),
        old(player_deck)@.wf() ==> final(player_deck)@.wf(),
{
    if player_deck.play_selected() {
        Some(Phase::Reactor)
    } else {
        None
    }
}

/// Discards the selected module. Returns whether a module was discarded, and the
/// reactor phase when that emptied the hand.
pub fn helm_discard_module(player_deck: &mut PlayerDeck, rng: &mut ThreadRng) -> (r: (
    bool,
    Option<Phase>,
))
    requires
        old(player_deck)@.selection_in_hand(),
    ensures
        r.0 == (old(player_deck).hand@.len() > 0),
        !r.0 ==> final(player_deck)@ == old(player_deck)@ && r.1 is None,
        r.0 ==> exists|k: int|
            0 <= k <= old(player_deck).storage@.len() / 2 && (final(player_deck)@, true)
                == #[trigger] old(player_deck)@.discard_selected_at(k),
        r.1 == (if r.0 && final(player_deck).hand@.len() == 0 {
            Some(Phase::Reactor)
        } else {
            None
        }),
        old(player_deck)@.wf() ==> final(player_deck)@.wf(),
{
    if !player_deck.discard_selected(rng) {
        return (false, None);
    }
    if player_deck.hand.len() == 0 {
        (true, Some(Phase::Reactor))
    } else {
        (true, None)
    }
}

/// Ending the turn enters the reactor phase.
pub fn helm_end_turn() -> (p: Phase)
    ensures
        p == Phase::Reactor,
{
    Phase::Reactor
}

} // verus!
