//! The phase display: shows the phase, and ends the turn when clicked at the helm.
use vstd::prelude::*;

use crate::game::deck::PlayerDeck;
use crate::game::module::ModuleStatus;
use crate::game::phase::Phase;
use crate::ui::Anchor;
use crate::ui::Blueprint;
use crate::ui::ClickAction;
use crate::ui::Marker;
use crate::ui::NodePreset;
use crate::ui::Part;
use crate::ui::Style;
use crate::ui::Val;
use crate::ui::shaped;

verus! {

/// Marks the phase display, which follows the phase and glows when the turn
/// should end.
#[derive(PartialEq, Eq, Structural, Clone, Copy, Debug)]
pub struct PhaseDisplay;

pub open spec fn phase_display_blueprint(b: Blueprint) -> bool {
    shaped(
        b,
        seq![
            Part::Name("PhaseDisplay"),
            Part::Marker(Marker::PhaseDisplay(PhaseDisplay)),
            Part::EmptyImage,
            Part::Style(Style::Preset(NodePreset::Default)),
            Part::Style(Style::Width(Val::Vw(916_660_000i64))),
            Part::Style(Style::AspectRatio(1, 1)),
            Part::InteractionSfx,
            Part::InteractionDisabled(false),
            Part::BoxShadow,
            Part::Tooltip(Anchor::TopCenter, ""),
            Part::OnClick(ClickAction::EndTurn),
        ],
        0,
    )
}

pub fn phase_display() -> (b: Blueprint)
    ensures
        phase_display_blueprint(b),
{
    Blueprint {
        parts: vec![
            Part::Name("PhaseDisplay"),
            Part::Marker(Marker::PhaseDisplay(PhaseDisplay)),
            Part::EmptyImage,
            Part::Style(Style::Preset(NodePreset::Default)),
            Part::Style(Style::Width(Val::Vw(916_660_000i64))),
            Part::Style(Style::AspectRatio(1, 1)),
            Part::InteractionSfx,
            Part::InteractionDisabled(false),
            Part::BoxShadow,
            Part::Tooltip(Anchor::TopCenter, ""),
            Part::OnClick(ClickAction::EndTurn),
        ],
        children: vec![],
    }
}

pub open spec fn phase_display_text(phase: Phase) -> Seq<char> {
    match phase {
        Phase::Setup => "[b]Storage phase[r]\n\nPulling modules from storage."@,
        Phase::Helm => "[b]Player phase[r]\n\nClick here to end your turn."@,
        Phase::Reactor | Phase::Player => "[b]Reactor phase[r]\n\nDirecting power to the reactor."@,
        Phase::Enemy => "[b]Enemy phase[r]\n\nSustaining the enemy's barrage!"@,
    }
}

/// The tooltip of the phase display in each phase.
pub fn phase_display_tooltip(phase: Phase) -> (text: &'static str)
    ensures
        text@ == phase_display_text(phase),
{
    match phase {
        Phase::Setup => "[b]Storage phase[r]\n\nPulling modules from storage.",
        Phase::Helm => "[b]Player phase[r]\n\nClick here to end your turn.",
        Phase::Reactor | Phase::Player => "[b]Reactor phase[r]\n\nDirecting power to the reactor.",
        Phase::Enemy => "[b]Enemy phase[r]\n\nSustaining the enemy's barrage!",
    }
}

/// The phase display can only be clicked at the helm.
pub fn phase_display_disabled(phase: Phase) -> (disabled: bool)
    ensures
        disabled == (phase != Phase::Helm),
{
    !matches!(phase, Phase::Helm)
}

/// Every reactor slot is inactive.
pub open spec fn all_inactive(reactor: Seq<crate::game::module::Module>) -> bool {
    forall|i: int| 0 <= i < reactor.len() ==> #[trigger] reactor[i].status == ModuleStatus::SlotInactive
}

/// At the helm, the phase display glows once there is nothing left to play:
/// the hand is empty or no reactor slot can be powered.
pub fn phase_display_glows(phase: Phase, player_deck: &PlayerDeck) -> (glows: bool)
    ensures
        glows == (phase == Phase::Helm && (player_deck.hand@.len() == 0 || all_inactive(
            player_deck.reactor@,
        ))),
{
    if !matches!(phase, Phase::Helm) {
        return false;
    }
    if player_deck.hand.len() == 0 {
        return true;
    }
    let mut i: usize = 0;
    while i < player_deck.reactor.len()
        invariant
            phase == Phase::Helm,
            player_deck.hand@.len() != 0,
            i <= player_deck.reactor@.len(),
            forall|j: int| 0 <= j < i ==> #[trigger] player_deck.reactor@[j].status
                == ModuleStatus::SlotInactive,
        decreases player_deck.reactor@.len() - i,
    {
        if !matches!(player_deck.reactor[i].status, ModuleStatus::SlotInactive) {
            assert(!all_inactive(player_deck.reactor@)) by {
                assert(player_deck.reactor@[i as int].status != ModuleStatus::SlotInactive);
            }
            return false;
        }
        i += 1;
    }
    true
}

} // verus!
