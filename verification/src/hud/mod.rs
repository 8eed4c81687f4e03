//! The HUD as laid out on the gameplay screen: the reactor panel beside a column
//! with the helm at its bottom.
pub mod helm;
pub mod reactor;

use vstd::prelude::*;

use crate::hud::helm::helm;
use crate::hud::helm::helm_blueprint;
use crate::hud::reactor::reactor;
use crate::hud::reactor::reactor_blueprint;
use crate::ui::Blueprint;
use crate::ui::ConfiguredShake;
use crate::ui::Marker;
use crate::ui::NodePreset;
use crate::ui::Part;
use crate::ui::Style;
use crate::ui::shaped;

verus! {

/// Marks the HUD's root; the configured shake is applied to it.
#[derive(PartialEq, Eq, Structural, Clone, Copy, Debug)]
pub struct Hud;

pub open spec fn hud_blueprint(b: Blueprint) -> bool {
    &&& shaped(
        b,
        seq![
            Part::Name("Hud"),
            Part::Marker(Marker::Hud(Hud)),
            Part::Style(Style::Preset(NodePreset::Row)),
            Part::Style(Style::FullSize),
            Part::Style(Style::Abs),
            Part::Configured(ConfiguredShake::HudShake),
            Part::Configured(ConfiguredShake::HudShakeRotation),
        ],
        2,
    )
    &&& reactor_blueprint(b.children@[0])
    &&& shaped(
        b.children@[1],
        seq![
            Part::Name("Column"),
            Part::Style(Style::Preset(NodePreset::Column)),
            Part::Style(Style::Reverse),
            Part::Style(Style::Grow),
        ],
        1,
    )
    &&& helm_blueprint(b.children@[1].children@[0])
}

pub fn hud() -> (b: Blueprint)
    ensures
        hud_blueprint(b),
{
    Blueprint {
        parts: vec![
            Part::Name("Hud"),
            Part::Marker(Marker::Hud(Hud)),
            Part::Style(Style::Preset(NodePreset::Row)),
            Part::Style(Style::FullSize),
            Part::Style(Style::Abs),
            Part::Configured(ConfiguredShake::HudShake),
            Part::Configured(ConfiguredShake::HudShakeRotation),
        ],
        children: vec![
            reactor(),
            Blueprint {
                parts: vec![
                    Part::Name("Column"),
                    Part::Style(Style::Preset(NodePreset::Column)),
                    Part::Style(Style::Reverse),
                    Part::Style(Style::Grow),
                ],
                children: vec![helm()],
            },
        ],
    }
}

} // verus!
