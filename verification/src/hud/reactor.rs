//! The reactor panel: the flux display over the grid of reactor slots.
use vstd::prelude::*;

use crate::assets::ImageKey;
use crate::game::hud::flux::flux_display;
use crate::game::hud::flux::flux_display_blueprint;
use crate::game::hud::reactor::reactor_grid;
use crate::game::hud::reactor::reactor_grid_blueprint;
use crate::ui::Blueprint;
use crate::ui::NodePreset;
use crate::ui::Part;
use crate::ui::Style;
use crate::ui::Val;
use crate::ui::shaped;

pub use crate::game::hud::reactor::ReactorIndex;

verus! {

/// Marks the grid of reactor slots, which is redrawn whenever the deck changes.
#[derive(PartialEq, Eq, Structural, Clone, Copy, Debug)]
pub struct ReactorGrid;

pub open spec fn reactor_blueprint(b: Blueprint) -> bool {
    &&& shaped(
        b,
        seq![
            Part::Name("Reactor"),
            Part::Image(ImageKey::Reactor),
            Part::Style(Style::Preset(NodePreset::Column)),
            Part::Style(Style::TopCenter),
            Part::Style(Style::FullHeight),
            Part::Style(Style::AspectRatio(124, 270)),
            Part::Style(Style::PaddingAll(Val::Vw(169_000_000i64))),
            Part::Style(Style::RowGap(Val::Vw(169_000_000i64))),
        ],
        2,
    )
    &&& flux_display_blueprint(b.children@[0])
    &&& reactor_grid_blueprint(b.children@[1])
}

pub fn reactor() -> (b: Blueprint)
    ensures
        reactor_blueprint(b),
{
    Blueprint {
        parts: vec![
            Part::Name("Reactor"),
            Part::Image(ImageKey::Reactor),
            Part::Style(Style::Preset(NodePreset::Column)),
            Part::Style(Style::TopCenter),
            Part::Style(Style::FullHeight),
            Part::Style(Style::AspectRatio(124, 270)),
            Part::Style(Style::PaddingAll(Val::Vw(169_000_000i64))),
            Part::Style(Style::RowGap(Val::Vw(169_000_000i64))),
        ],
        children: vec![flux_display(), reactor_grid()],
    }
}

} // verus!
