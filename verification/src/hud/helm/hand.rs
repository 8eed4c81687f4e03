//! The hand of modules on the helm.
use vstd::prelude::*;

use crate::game::deck::PlayerDeck;
use crate::game::hud::helm::hand_region_blueprint;
use crate::game::hud::helm::hand_regions;
use crate::ui::Blueprint;
use crate::ui::Marker;
use crate::ui::NodePreset;
use crate::ui::Part;
use crate::ui::Style;
use crate::ui::Val;
use crate::ui::shaped;

pub use crate::game::hud::helm::HandIndex;

verus! {

/// The container of the hand, refilled whenever the deck changes.
pub open spec fn hand_display_blueprint(b: Blueprint) -> bool {
    shaped(
        b,
        seq![
            Part::Name("HandDisplay"),
            Part::Marker(Marker::HandDisplay),
            Part::Style(Style::Preset(NodePreset::Row)),
            Part::Style(Style::Center),
            Part::Style(Style::Grow),
            Part::Style(Style::ColumnGap(Val::Px(-100_000_000i64))),
        ],
        0,
    )
}

pub fn hand_display() -> (b: Blueprint)
    ensures
        hand_display_blueprint(b),
{
    Blueprint {
        parts: vec![
            Part::Name("HandDisplay"),
            Part::Marker(Marker::HandDisplay),
            Part::Style(Style::Preset(NodePreset::Row)),
            Part::Style(Style::Center),
            Part::Style(Style::Grow),
            Part::Style(Style::ColumnGap(Val::Px(-100_000_000i64))),
        ],
        children: vec![],
    }
}

/// The layout of a region of the hand display.
pub open spec fn hand_display_layout() -> Seq<Style> {
    seq![
        Style::Preset(NodePreset::Column),
        Style::Center,
        Style::FullHeight,
        Style::PaddingAll(Val::Vw(41_670_000i64)),
    ]
}

/// The regions the hand display shows after the deck changed.
pub fn sync_hand_display(player_deck: &PlayerDeck) -> (regions: Vec<Blueprint>)
    ensures
        regions@.len() == player_deck.hand@.len(),
        forall|i: int|
            0 <= i < regions@.len() ==> #[trigger] hand_region_blueprint(
                regions@[i],
                hand_display_layout(),
                player_deck@,
                i,
            ),
{
    let layout = vec![
        Style::Preset(NodePreset::Column),
        Style::Center,
        Style::FullHeight,
        Style::PaddingAll(Val::Vw(41_670_000i64)),
    ];
    proof {
        assert(layout@ =~= hand_display_layout());
    }
    hand_regions(player_deck, &layout)
}

} // verus!
