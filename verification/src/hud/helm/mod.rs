//! The helm: the phase display, the hand, the mini buttons and the storage pile.
pub mod hand;
pub mod phase_display;
pub mod storage;

use vstd::prelude::*;

use crate::assets::ImageKey;
use crate::hud::helm::hand::hand_display;
use crate::hud::helm::hand::hand_display_blueprint;
use crate::hud::helm::phase_display::phase_display;
use crate::hud::helm::phase_display::phase_display_blueprint;
use crate::hud::helm::storage::storage_display;
use crate::hud::helm::storage::storage_display_blueprint;
use crate::ui::Anchor;
use crate::ui::Blueprint;
use crate::ui::ClickAction;
use crate::ui::NodePreset;
use crate::ui::Part;
use crate::ui::Style;
use crate::ui::Val;
use crate::ui::shaped;

pub use crate::hud::helm::hand::HandIndex;

verus! {

pub open spec fn helm_blueprint(b: Blueprint) -> bool {
    &&& shaped(
        b,
        seq![
            Part::Name("Helm"),
            Part::Image(ImageKey::Helm),
            Part::Style(Style::Preset(NodePreset::Row)),
            Part::Style(Style::FullWidth),
            Part::Style(Style::AspectRatio(356, 58)),
        ],
        3,
    )
    &&& left_helm_blueprint(b.children@[0])
    &&& hand_display_blueprint(b.children@[1])
    &&& right_helm_blueprint(b.children@[2])
}

pub open spec fn left_helm_blueprint(b: Blueprint) -> bool {
    &&& shaped(
        b,
        seq![
            Part::Name("LeftHelm"),
            Part::Style(Style::Preset(NodePreset::Row)),
            Part::Style(Style::Center),
            Part::Style(Style::FullHeight),
            Part::Style(Style::Left(Val::Vw(-20_830_000i64))),
            Part::Style(Style::Width(Val::Vw(1_208_330_000i64))),
        ],
        1,
    )
    &&& phase_display_blueprint(b.children@[0])
}

pub open spec fn right_helm_blueprint(b: Blueprint) -> bool {
    &&& shaped(
        b,
        seq![
            Part::Name("RightHelm"),
            Part::Style(Style::Preset(NodePreset::Column)),
            Part::Style(Style::Center),
            Part::Style(Style::FullHeight),
            Part::Style(Style::Width(Val::Vw(1_208_330_000i64))),
            Part::Style(Style::PaddingBottom(Val::Vw(125_000_000i64))),
            Part::Style(Style::PaddingTop(Val::Vw(88_541_700i64))),
            Part::Style(Style::RowGap(Val::Vw(5_208_300i64))),
        ],
        2,
    )
    &&& mini_buttons_blueprint(b.children@[0])
    &&& storage_display_blueprint(b.children@[1])
}

pub open spec fn mini_buttons_blueprint(b: Blueprint) -> bool {
    &&& shaped(
        b,
        seq![
            Part::Name("MiniButtons"),
            Part::Style(Style::Preset(NodePreset::Row)),
            Part::Style(Style::ColumnGap(Val::Vw(-10_416_660i64))),
        ],
        3,
    )
    &&& mini_button_blueprint(
        b.children@[0],
        ImageKey::InfoButton,
        "[b]Instruction Manual (I)",
        ClickAction::OpenHelpMenu,
    )
    &&& mini_button_blueprint(
        b.children@[1],
        ImageKey::SkipButton,
        "[b]Reactor Overlay (O)",
        ClickAction::ToggleReactorOverlay,
    )
    &&& mini_button_blueprint(
        b.children@[2],
        ImageKey::PauseButton,
        "[b]Pause (P)",
        ClickAction::OpenPauseMenu,
    )
}

/// A mini button: an interaction region with a tooltip and a click action, around
/// a square image that moves when the region is hovered or pressed.
pub open spec fn mini_button_blueprint(
    b: Blueprint,
    image: ImageKey,
    description: &'static str,
    action: ClickAction,
) -> bool {
    &&& shaped(
        b,
        seq![
            Part::Name("MiniButtonInteractionRegion"),
            Part::Button,
            Part::Style(Style::Preset(NodePreset::Default)),
            Part::Style(Style::PaddingAll(Val::Vw(36_458_333i64))),
            Part::InteractionGlassSfx,
            Part::PreviousInteraction,
            Part::RichTooltip(Anchor::TopCenter, description),
            Part::OnClick(action),
        ],
        1,
    )
    &&& shaped(
        b.children@[0],
        seq![
            Part::Name("MiniButton"),
            Part::Image(image),
            Part::Style(Style::Preset(NodePreset::Default)),
            Part::Style(Style::Width(Val::Vw(250_000_000i64))),
            Part::Style(Style::AspectRatio(1, 1)),
            Part::NodeOffset,
            Part::ParentInteractionOffsets(Val::Vw(-20_830_000i64), Val::Vw(20_830_000i64)),
            Part::Unpickable,
        ],
        0,
    )
}

pub fn helm() -> (b: Blueprint)
    ensures
        helm_blueprint(b),
{
    Blueprint {
        parts: vec![
            Part::Name("Helm"),
            Part::Image(ImageKey::Helm),
            Part::Style(Style::Preset(NodePreset::Row)),
            Part::Style(Style::FullWidth),
            Part::Style(Style::AspectRatio(356, 58)),
        ],
        children: vec![left_helm(), hand_display(), right_helm()],
    }
}

fn left_helm() -> (b: Blueprint)
    ensures
        left_helm_blueprint(b),
{
    Blueprint {
        parts: vec![
            Part::Name("LeftHelm"),
            Part::Style(Style::Preset(NodePreset::Row)),
            Part::Style(Style::Center),
            Part::Style(Style::FullHeight),
            Part::Style(Style::Left(Val::Vw(-20_830_000i64))),
            Part::Style(Style::Width(Val::Vw(1_208_330_000i64))),
        ],
        children: vec![phase_display()],
    }
}

fn right_helm() -> (b: Blueprint)
    ensures
        right_helm_blueprint(b),
{
    Blueprint {
        parts: vec![
            Part::Name("RightHelm"),
            Part::Style(Style::Preset(NodePreset::Column)),
            Part::Style(Style::Center),
            Part::Style(Style::FullHeight),
            Part::Style(Style::Width(Val::Vw(1_208_330_000i64))),
            Part::Style(Style::PaddingBottom(Val::Vw(125_000_000i64))),
            Part::Style(Style::PaddingTop(Val::Vw(88_541_700i64))),
            Part::Style(Style::RowGap(Val::Vw(5_208_300i64))),
        ],
        children: vec![mini_buttons(), storage_display()],
    }
}

fn mini_buttons() -> (b: Blueprint)
    ensures
        mini_buttons_blueprint(b),
{
    Blueprint {
        parts: vec![
            Part::Name("MiniButtons"),
            Part::Style(Style::Preset(NodePreset::Row)),
            Part::Style(Style::ColumnGap(Val::Vw(-10_416_660i64))),
        ],
        children: vec![
            mini_button_base(
                ImageKey::InfoButton,
                "[b]Instruction Manual (I)",
                ClickAction::OpenHelpMenu,
            ),
            mini_button_base(
                ImageKey::SkipButton,
                "[b]Reactor Overlay (O)",
                ClickAction::ToggleReactorOverlay,
            ),
            mini_button_base(ImageKey::PauseButton, "[b]Pause (P)", ClickAction::OpenPauseMenu),
        ],
    }
}

fn mini_button_base(image: ImageKey, description: &'static str, action: ClickAction) -> (b:
    Blueprint)
    ensures
        mini_button_blueprint(b, image, description, action),
{
    Blueprint {
        parts: vec![
            Part::Name("MiniButtonInteractionRegion"),
            Part::Button,
            Part::Style(Style::Preset(NodePreset::Default)),
            Part::Style(Style::PaddingAll(Val::Vw(36_458_333i64))),
            Part::InteractionGlassSfx,
            Part::PreviousInteraction,
            Part::RichTooltip(Anchor::TopCenter, description),
            Part::OnClick(action),
        ],
        children: vec![
            Blueprint {
                parts: vec![
                    Part::Name("MiniButton"),
                    Part::Image(image),
                    Part::Style(Style::Preset(NodePreset::Default)),
                    Part::Style(Style::Width(Val::Vw(250_000_000i64))),
                    Part::Style(Style::AspectRatio(1, 1)),
                    Part::NodeOffset,
                    Part::ParentInteractionOffsets(Val::Vw(-20_830_000i64), Val::Vw(20_830_000i64)),
                    Part::Unpickable,
                ],
                children: vec![],
            },
        ],
    }
}

} // verus!
