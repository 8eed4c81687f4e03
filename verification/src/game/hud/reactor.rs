//! The reactor panel: the flux display and the grid of reactor slots.
use vstd::prelude::*;

use crate::assets::ImageKey;
use crate::game::deck::DeckView;
use crate::game::deck::PlayerDeck;
use crate::game::hud::module::module;
use crate::game::hud::module::module_children;
use crate::game::hud::module::module_parts;
use crate::game::module::description_text;
use crate::ui::Anchor;
use crate::game::hud::flux::flux_display;
use crate::game::hud::flux::flux_display_blueprint;
use crate::game::module::ModuleStatus;
use crate::game::phase::Phase;
use crate::hud::reactor::ReactorGrid;
use crate::input::PointerButton;
use crate::ui::Blueprint;
use crate::ui::Marker;
use crate::ui::NodePreset;
use crate::ui::Part;
use crate::ui::Style;
use crate::ui::Val;
use crate::ui::shaped;

verus! {

/// The index of a slot shown in the reactor grid.
#[derive(PartialEq, Eq, Structural, Clone, Copy, Debug)]
pub struct ReactorIndex(pub usize);

pub open spec fn reactor_blueprint(b: Blueprint) -> bool {
    &&& shaped(
        b,
        seq![
            Part::Name("Reactor"),
            Part::Image(ImageKey::Reactor),
            Part::Style(Style::Preset(NodePreset::ColumnMid)),
            Part::Style(Style::FullHeight),
            Part::Style(Style::AspectRatio(124, 270)),
            Part::Style(Style::PaddingAll(Val::Vw(169_000_000i64))),
            Part::Style(Style::RowGap(Val::Vw(169_000_000i64))),
        ],
        2,
    )
    &&& flux_display_blueprint(b.children@[0])
    &&& reactor_grid_blueprint(b.children@[1])
}

pub open spec fn reactor_grid_blueprint(b: Blueprint) -> bool {
    shaped(
        b,
        seq![
            Part::Name("ReactorGrid"),
            Part::Style(Style::Preset(NodePreset::Default)),
            Part::Style(Style::FullWidth),
            Part::Style(Style::GridColumns(3)),
            Part::Style(Style::RowGap(Val::Vw(125_000_000i64))),
            Part::Style(Style::ColumnGap(Val::Vw(125_000_000i64))),
            Part::Marker(Marker::ReactorGrid(ReactorGrid)),
        ],
        0,
    )
}

pub fn reactor() -> (b: Blueprint)
    ensures
        reactor_blueprint(b),
{
    Blueprint {
        parts: vec![
            Part::Name("Reactor"),
            Part::Image(ImageKey::Reactor),
            Part::Style(Style::Preset(NodePreset::ColumnMid)),
            Part::Style(Style::FullHeight),
            Part::Style(Style::AspectRatio(124, 270)),
            Part::Style(Style::PaddingAll(Val::Vw(169_000_000i64))),
            Part::Style(Style::RowGap(Val::Vw(169_000_000i64))),
        ],
        children: vec![flux_display(), reactor_grid()],
    }
}

pub fn reactor_grid() -> (b: Blueprint)
    ensures
        reactor_grid_blueprint(b),
{
    Blueprint {
        parts: vec![
            Part::Name("ReactorGrid"),
            Part::Style(Style::Preset(NodePreset::Default)),
            Part::Style(Style::FullWidth),
            Part::Style(Style::GridColumns(3)),
            Part::Style(Style::RowGap(Val::Vw(125_000_000i64))),
            Part::Style(Style::ColumnGap(Val::Vw(125_000_000i64))),
            Part::Marker(Marker::ReactorGrid(ReactorGrid)),
        ],
        children: vec![],
    }
}

/// The slot the deck touched last shakes when the grid is redrawn.
pub fn slot_shakes(player_deck: &PlayerDeck, index: usize) -> (r: bool)
    ensures
        r == (player_deck.last_touched_idx == Some(index)),
{
    match player_deck.last_touched_idx {
        Some(i) => i == index,
        None => false,
    }
}

/// Hovering a slot plays a sound, unless the slot is empty or was just drawn.
pub fn play_hover_sfx_on_hover(player_deck: &PlayerDeck, index: usize, just_added: bool) -> (r: bool)
    requires
        index < player_deck.reactor@.len(),
    ensures
        r == (player_deck.reactor@[index as int].status != ModuleStatus::SlotEmpty && !just_added),
{
    !matches!(player_deck.reactor[index].status, ModuleStatus::SlotEmpty) && !just_added
}

/// Right-clicking a filled slot during the helm phase returns its module to storage.
/// Returns whether it did.
pub fn discard_module_on_right_click(
    button: PointerButton,
    phase: Phase,
    player_deck: &mut PlayerDeck,
    index: usize,
) -> (r: bool)
    requires
        index < old(player_deck).reactor@.len(),
    ensures
        r == (button == PointerButton::Secondary && phase == Phase::Helm
            && old(player_deck).reactor@[index as int].status != ModuleStatus::SlotEmpty),
        r ==> final(player_deck)@ == old(player_deck)@.discard_module(index as int),
        !r ==> final(player_deck)@ == old(player_deck)@,
{
    if !matches!(button, PointerButton::Secondary) || !matches!(phase, Phase::Helm) {
        return false;
    }
    if matches!(player_deck.reactor[index].status, ModuleStatus::SlotEmpty) {
        return false;
    }
    player_deck.discard_module(index);
    true
}

/// The shake of a slot when the grid is redrawn: the slot the deck touched last
/// shakes harder the higher the flux.
pub open spec fn slot_shake(deck: DeckView, i: int) -> Part {
    if deck.last_touched_idx == Some(i as usize) {
        Part::FluxShake(deck.flux)
    } else {
        Part::NodeShake
    }
}

/// Slot `i` of the reactor grid: the module's picture, its shake, its index, its
/// description as a tooltip and its hover sound.
pub open spec fn reactor_slot_blueprint(b: Blueprint, deck: DeckView, i: int) -> bool {
    let m = deck.reactor[i];
    &&& b.parts@.len() == 9
    &&& b.parts@.subrange(0, 5) == module_parts(m)
    &&& b.parts@[5] == slot_shake(deck, i)
    &&& b.parts@[6] == Part::ReactorIndex(ReactorIndex(i as usize))
    &&& b.parts@[7] matches Part::DynamicRichTooltip(a, s) && a == Anchor::CenterRight
        && s@ == description_text(m, deck.heat_capacity)
    &&& b.parts@[8] == Part::PlaysHoverSfx
    &&& module_children(b, m, deck.heat_capacity)
}

/// The slots the reactor grid shows after the deck changed, one per reactor slot.
pub fn sync_reactor_grid(player_deck: &PlayerDeck) -> (slots: Vec<Blueprint>)
    ensures
        slots@.len() == player_deck.reactor@.len(),
        forall|i: int|
            0 <= i < slots@.len() ==> #[trigger] reactor_slot_blueprint(slots@[i], player_deck@, i),
{
    let mut slots: Vec<Blueprint> = Vec::new();
    let mut i: usize = 0;
    while i < player_deck.reactor.len()
        invariant
            i <= player_deck.reactor@.len(),
            slots@.len() == i,
            forall|j: int|
                0 <= j < i ==> #[trigger] reactor_slot_blueprint(slots@[j], player_deck@, j),
        decreases player_deck.reactor@.len() - i,
    {
        let m = &player_deck.reactor[i];
        let mut b = module(m, player_deck.heat_capacity);
        let shake = if slot_shakes(player_deck, i) {
            Part::FluxShake(player_deck.flux)
        } else {
            Part::NodeShake
        };
        b.parts.push(shake);
        b.parts.push(Part::ReactorIndex(ReactorIndex(i)));
        b.parts.push(Part::DynamicRichTooltip(Anchor::CenterRight, m.description(player_deck.heat_capacity)));
        b.parts.push(Part::PlaysHoverSfx);
        proof {
            assert(b.parts@.subrange(0, 5) =~= module_parts(*m));
        }
        slots.push(b);
        i += 1;
    }
    slots
}

} // verus!
