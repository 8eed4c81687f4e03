pub mod flux;
pub mod helm;
pub mod module;
pub mod reactor;
pub mod stage;

use vstd::prelude::*;

use crate::game::hud::helm::helm;
use crate::game::hud::helm::helm_blueprint;
use crate::game::hud::reactor::reactor;
use crate::game::hud::reactor::reactor_blueprint;
use crate::ui::Blueprint;
use crate::ui::NodePreset;
use crate::ui::Part;
use crate::ui::Style;
use crate::ui::shaped;

verus! {

/// The HUD: the reactor panel beside a column holding the helm at its bottom.
pub open spec fn hud_blueprint(b: Blueprint) -> bool {
    &&& shaped(
        b,
        seq![
            Part::Name("Hud"),
            Part::Style(Style::Preset(NodePreset::Row)),
            Part::Style(Style::FullSize),
            Part::Style(Style::Abs),
        ],
        2,
    )
    &&& reactor_blueprint(b.children@[0])
    &&& shaped(
        b.children@[1],
        seq![
            Part::Name("Column"),
            Part::Style(Style::Preset(NodePreset::Column)),
            Part::Style(Style::Reverse),
            Part::Style(Style::Grow),
        ],
        1,
    )
    &&& helm_blueprint(b.children@[1].children@[0])
}

pub fn hud() -> (b: Blueprint)
    ensures
        hud_blueprint(b),
{
    Blueprint {
        parts: vec![
            Part::Name("Hud"),
            Part::Style(Style::Preset(NodePreset::Row)),
            Part::Style(Style::FullSize),
            Part::Style(Style::Abs),
        ],
        children: vec![
            reactor(),
            Blueprint {
                parts: vec![
                    Part::Name("Column"),
                    Part::Style(Style::Preset(NodePreset::Column)),
                    Part::Style(Style::Reverse),
                    Part::Style(Style::Grow),
                ],
                children: vec![helm()],
            },
        ],
    }
}

} // verus!
