//! The stage panel, drawn from its own assets.
use vstd::prelude::*;

use crate::assets::ImageKey;
use crate::game::hud::stage::draw_pile;
use crate::game::hud::stage::draw_pile_blueprint;
use crate::game::hud::stage::hand;
use crate::game::hud::stage::stage_hand_blueprint;
use crate::ui::Blueprint;
use crate::ui::NodePreset;
use crate::ui::Part;
use crate::ui::Style;
use crate::ui::Val;
use crate::ui::shaped;

verus! {

pub open spec fn stage_blueprint(b: Blueprint) -> bool {
    &&& shaped(
        b,
        seq![
            Part::Name("Stage"),
            Part::Image(ImageKey::Stage),
            Part::Style(Style::Preset(NodePreset::Row)),
            Part::Style(Style::FullWidth),
            Part::Style(Style::AspectRatio(356, 58)),
        ],
        2,
    )
    &&& stage_hand_blueprint(b.children@[0])
    &&& shaped(
        b.children@[1],
        seq![
            Part::Name("Row"),
            Part::Style(Style::Preset(NodePreset::RowMid)),
            Part::Style(Style::Reverse),
            Part::Style(Style::FullWidth),
            Part::Style(Style::PaddingAll(Val::Vw(169_000_000i64))),
        ],
        1,
    )
    &&& draw_pile_blueprint(b.children@[1].children@[0])
}

pub fn stage() -> (b: Blueprint)
    ensures
        stage_blueprint(b),
{
    Blueprint {
        parts: vec![
            Part::Name("Stage"),
            Part::Image(ImageKey::Stage),
            Part::Style(Style::Preset(NodePreset::Row)),
            Part::Style(Style::FullWidth),
            Part::Style(Style::AspectRatio(356, 58)),
        ],
        children: vec![
            hand(),
            Blueprint {
                parts: vec![
                    Part::Name("Row"),
                    Part::Style(Style::Preset(NodePreset::RowMid)),
                    Part::Style(Style::Reverse),
                    Part::Style(Style::FullWidth),
                    Part::Style(Style::PaddingAll(Val::Vw(169_000_000i64))),
                ],
                children: vec![draw_pile()],
            },
        ],
    }
}

} // verus!
