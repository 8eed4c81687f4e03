//! The stage: a row of face-up modules and the draw pile.
use vstd::prelude::*;

use crate::assets::ImageKey;
use crate::game::hud::module::module;
use crate::game::hud::module::module_blueprint;
use crate::game::module::Module;
use crate::game::module::ModuleAction;
use crate::game::module::ModuleStatus;
use crate::ui::Anchor;
use crate::ui::Blueprint;
use crate::ui::LabelKind;
use crate::ui::NodePreset;
use crate::ui::Part;
use crate::ui::Style;
use crate::ui::ThemeColor;
use crate::ui::Val;
use crate::ui::shaped;

verus! {

pub open spec fn face_up_module() -> Module {
    Module {
        condition: ModuleAction::Nothing,
        effect: ModuleAction::Nothing,
        status: ModuleStatus::FaceUp,
        heat: 0,
    }
}

pub open spec fn stage_blueprint(b: Blueprint) -> bool {
    &&& shaped(
        b,
        seq![
            Part::Name("Stage"),
            Part::Image(ImageKey::Stage),
            Part::Style(Style::Preset(NodePreset::Row)),
            Part::Style(Style::FullWidth),
            Part::Style(Style::AspectRatio(356, 58)),
        ],
        2,
    )
    &&& stage_hand_blueprint(b.children@[0])
    &&& shaped(
        b.children@[1],
        seq![
            Part::Name("Row"),
            Part::Style(Style::Preset(NodePreset::RowMid)),
            Part::Style(Style::Reverse),
            Part::Style(Style::FullWidth),
            Part::Style(Style::PaddingAll(Val::Vw(169_000_000i64))),
        ],
        1,
    )
    &&& draw_pile_blueprint(b.children@[1].children@[0])
}

pub open spec fn stage_hand_blueprint(b: Blueprint) -> bool {
    &&& shaped(
        b,
        seq![
            Part::Name("Hand"),
            Part::Style(Style::Preset(NodePreset::RowCenter)),
            Part::Style(Style::FullSize),
            Part::Style(Style::Abs),
            Part::Style(Style::ColumnGap(Val::Vw(122_000_000i64))),
        ],
        5,
    )
    &&& forall|i: int| 0 <= i < 5 ==> module_blueprint(#[trigger] b.children@[i], face_up_module(), 0)
}

pub open spec fn draw_pile_blueprint(b: Blueprint) -> bool {
    &&& shaped(
        b,
        seq![
            Part::Name("DrawPile"),
            Part::Image(ImageKey::ModuleFaceDown),
            Part::Style(Style::Preset(NodePreset::RowCenter)),
            Part::Style(Style::Width(Val::Vw(666_000_000i64))),
            Part::Style(Style::AspectRatio(1, 1)),
            Part::RichTooltip(Anchor::TopCenter, "[b]Draw pile"),
        ],
        1,
    )
    &&& shaped(
        b.children@[0],
        seq![Part::Label(LabelKind::SmallColoredLabel(ThemeColor::IconText), "15")],
        0,
    )
}

pub fn stage() -> (b: Blueprint)
    ensures
        stage_blueprint(b),
{
    Blueprint {
        parts: vec![
            Part::Name("Stage"),
            Part::Image(ImageKey::Stage),
            Part::Style(Style::Preset(NodePreset::Row)),
            Part::Style(Style::FullWidth),
            Part::Style(Style::AspectRatio(356, 58)),
        ],
        children: vec![
            hand(),
            Blueprint {
                parts: vec![
                    Part::Name("Row"),
                    Part::Style(Style::Preset(NodePreset::RowMid)),
                    Part::Style(Style::Reverse),
                    Part::Style(Style::FullWidth),
                    Part::Style(Style::PaddingAll(Val::Vw(169_000_000i64))),
                ],
                children: vec![draw_pile()],
            },
        ],
    }
}

pub(crate) fn hand() -> (b: Blueprint)
    ensures
        stage_hand_blueprint(b),
{
    let face_up = Module {
        condition: ModuleAction::Nothing,
        effect: ModuleAction::Nothing,
        status: ModuleStatus::FaceUp,
        heat: 0,
    };
    let b = Blueprint {
        parts: vec![
            Part::Name("Hand"),
            Part::Style(Style::Preset(NodePreset::RowCenter)),
            Part::Style(Style::FullSize),
            Part::Style(Style::Abs),
            Part::Style(Style::ColumnGap(Val::Vw(122_000_000i64))),
        ],
        children: vec![
            module(&face_up, 0),
            module(&face_up, 0),
            module(&face_up, 0),
            module(&face_up, 0),
            module(&face_up, 0),
        ],
    };
    assert forall|i: int| 0 <= i < 5 implies module_blueprint(#[trigger] b.children@[i], face_up_module(), 0) by {
    }
    b
}

pub(crate) fn draw_pile() -> (b: Blueprint)
    ensures
        draw_pile_blueprint(b),
{
    let label = Blueprint {
        parts: vec![Part::Label(LabelKind::SmallColoredLabel(ThemeColor::IconText), "15")],
        children: vec![],
    };
    assert(label.parts@ == seq![Part::Label(LabelKind::SmallColoredLabel(ThemeColor::IconText), "15")]);
    let parts = vec![
        Part::Name("DrawPile"),
        Part::Image(ImageKey::ModuleFaceDown),
        Part::Style(Style::Preset(NodePreset::RowCenter)),
        Part::Style(Style::Width(Val::Vw(666_000_000i64))),
        Part::Style(Style::AspectRatio(1, 1)),
        Part::RichTooltip(Anchor::TopCenter, "[b]Draw pile"),
    ];
    let b = Blueprint { parts, children: vec![label] };
    assert(b.children@[0] == label);
    b
}

} // verus!
