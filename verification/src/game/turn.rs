//! Turns: the player plays a module, the reactor powers up, the enemy strikes back.
use vstd::prelude::*;

use crate::ecs::EntityId;
use crate::game::deck::PlayerDeck;
use crate::game::module::ModuleAction;
use crate::game::module::OnModuleAction;
use crate::input::InputButton;

verus! {

/// Whose turn it is. A level starts with the player's turn.
#[derive(PartialEq, Eq, Structural, Clone, Copy, Debug)]
pub enum Turn {
    Player,
    Reactor,
    Enemy,
}

impl Default for Turn {
    fn default() -> (t: Self)
        ensures
            t == Turn::Player,
    {
        Turn::Player
    }
}

/// The turn entered on the next update: the reactor's turn passes to the enemy
/// and the enemy's to the player; the player's turn lasts until a module is played.
pub fn update_turn(turn: Turn) -> (next: Option<Turn>)
    ensures
        next == match turn {
            Turn::Player => None,
            Turn::Reactor => Some(Turn::Enemy),
            Turn::Enemy => Some(Turn::Player),
        },
{
    match turn {
        Turn::Player => None,
        Turn::Reactor => Some(Turn::Enemy),
        Turn::Enemy => Some(Turn::Player),
    }
}

/// Entering the enemy's turn makes the enemy ship fire a missile at the player.
pub fn fire_enemy_missile(enemy_ship: EntityId, player_ship: EntityId) -> (event: OnModuleAction)
    ensures
        event == (OnModuleAction {
            action: ModuleAction::Missile,
            source: enemy_ship,
            target: player_ship,
        }),
{
    OnModuleAction { action: ModuleAction::Missile, source: enemy_ship, target: player_ship }
}

/// The player's inputs during their turn.
#[derive(PartialEq, Eq, Structural, Clone, Copy, Debug)]
pub enum PlayerActions {
    SelectLeft,
    SelectRight,
    PlayModule,
}

/// The inputs bound to each of the player's actions.
pub fn player_bindings() -> (b: Vec<(PlayerActions, InputButton)>)
    ensures
        b@ == seq![
            (PlayerActions::SelectLeft, InputButton::DPadLeft),
            (PlayerActions::SelectLeft, InputButton::LeftTrigger),
            (PlayerActions::SelectLeft, InputButton::KeyA),
            (PlayerActions::SelectLeft, InputButton::ArrowLeft),
            (PlayerActions::SelectRight, InputButton::DPadRight),
            (PlayerActions::SelectRight, InputButton::RightTrigger),
            (PlayerActions::SelectRight, InputButton::KeyD),
            (PlayerActions::SelectRight, InputButton::ArrowRight),
            (PlayerActions::PlayModule, InputButton::East),
            (PlayerActions::PlayModule, InputButton::Space),
            (PlayerActions::PlayModule, InputButton::Enter),
            (PlayerActions::PlayModule, InputButton::NumpadEnter),
        ],
{
    let mut b = Vec::new();
    b.push((PlayerActions::SelectLeft, InputButton::DPadLeft));
    b.push((PlayerActions::SelectLeft, InputButton::LeftTrigger));
    b.push((PlayerActions::SelectLeft, InputButton::KeyA));
    b.push((PlayerActions::SelectLeft, InputButton::ArrowLeft));
    b.push((PlayerActions::SelectRight, InputButton::DPadRight));
    b.push((PlayerActions::SelectRight, InputButton::RightTrigger));
    b.push((PlayerActions::SelectRight, InputButton::KeyD));
    b.push((PlayerActions::SelectRight, InputButton::ArrowRight));
    b.push((PlayerActions::PlayModule, InputButton::East));
    b.push((PlayerActions::PlayModule, InputButton::Space));
    b.push((PlayerActions::PlayModule, InputButton::Enter));
    b.push((PlayerActions::PlayModule, InputButton::NumpadEnter));
    b
}

/// What switches the player's actions on or off: entering or leaving the
/// player's turn, and the game pausing or resuming.
#[derive(PartialEq, Eq, Structural, Clone, Copy, Debug)]
pub enum PlayerActionsEdge {
    EnterPlayerTurn,
    LeavePlayerTurn,
    Pause,
    Resume,
}

/// Whether the player's actions are enabled after an edge, from whether they
/// were before it. Selecting and playing share one switch. Entering the
/// player's turn enables them and leaving it disables them; pausing disables
/// them and resuming enables them, but only while the turn is the player's
/// (`in_player_turn`): at other times a pause or a resume leaves them as they were.
pub fn player_actions_after(enabled: bool, edge: PlayerActionsEdge, in_player_turn: bool) -> (e: bool)
    ensures
        e == match edge {
            PlayerActionsEdge::EnterPlayerTurn => true,
            PlayerActionsEdge::LeavePlayerTurn => false,
            PlayerActionsEdge::Pause => !in_player_turn && enabled,
            PlayerActionsEdge::Resume => in_player_turn || enabled,
        },
{
    match edge {
        PlayerActionsEdge::EnterPlayerTurn => true,
        PlayerActionsEdge::LeavePlayerTurn => false,
        PlayerActionsEdge::Pause => {
            if in_player_turn {
                false
            } else {
                enabled
            }
        },
        PlayerActionsEdge::Resume => {
            if in_player_turn {
                true
            } else {
                enabled
            }
        },
    }
}

pub fn player_select_left(player_deck: &mut PlayerDeck)
    ensures
        final(player_deck)@ == old(player_deck)@.advance_selected(-1isize),
{
    player_deck.advance_selected(-1);
}

pub fn player_select_right(player_deck: &mut PlayerDeck)
    ensures
        final(player_deck)@ == old(player_deck)@.advance_selected(1isize),
{
    player_deck.advance_selected(1);
}

/// The player plays the selected module and the reactor's turn begins.
pub fn player_play_module(player_deck: &mut PlayerDeck) -> (next: Turn)
    requires
        old(player_deck)@.selection_playable(),
    ensures
        final(player_deck)@ == old(player_deck)@.play_selected().0,
        next == Turn::Reactor,
{
    player_deck.play_selected();
    Turn::Reactor
}

} // verus!
