//! The reactor panel with a fixed grid of ten empty slots.
use vstd::prelude::*;

use crate::assets::ImageKey;
use crate::game::hud::module::module;
use crate::game::hud::module::module_blueprint;
use crate::game::module::Module;
use crate::game::module::ModuleAction;
use crate::game::module::ModuleStatus;
use crate::ui::Blueprint;
use crate::ui::LabelKind;
use crate::ui::Marker;
use crate::ui::NodePreset;
use crate::ui::Part;
use crate::ui::Style;
use crate::ui::Val;
use crate::ui::shaped;

verus! {

pub open spec fn empty_slot() -> Module {
    Module {
        condition: ModuleAction::Nothing,
        effect: ModuleAction::Nothing,
        status: ModuleStatus::SlotEmpty,
        heat: 0,
    }
}

pub open spec fn reactor_blueprint(b: Blueprint) -> bool {
    &&& shaped(
        b,
        seq![
            Part::Name("Reactor"),
            Part::Image(ImageKey::Reactor),
            Part::Style(Style::Preset(NodePreset::ColumnMid)),
            Part::Style(Style::FullHeight),
            Part::Style(Style::AspectRatio(124, 270)),
            Part::Style(Style::PaddingAll(Val::Vw(169_000_000i64))),
            Part::Style(Style::RowGap(Val::Vw(169_000_000i64))),
        ],
        2,
    )
    &&& flux_display_blueprint(b.children@[0])
    &&& module_grid_blueprint(b.children@[1])
}

pub open spec fn flux_display_blueprint(b: Blueprint) -> bool {
    &&& shaped(
        b,
        seq![
            Part::Name("FluxDisplay"),
            Part::Style(Style::Preset(NodePreset::RowMid)),
            Part::Style(Style::Height(Val::Vw(500_000_000i64))),
        ],
        1,
    )
    &&& shaped(
        b.children@[0],
        seq![Part::Label(LabelKind::Label, "flux 2x"), Part::Marker(Marker::IsFluxLabel)],
        0,
    )
}

pub open spec fn module_grid_blueprint(b: Blueprint) -> bool {
    &&& shaped(
        b,
        seq![
            Part::Name("ModuleGrid"),
            Part::Style(Style::Preset(NodePreset::Default)),
            Part::Style(Style::FullWidth),
            Part::Style(Style::GridColumns(3)),
            Part::Style(Style::RowGap(Val::Vw(125_000_000i64))),
            Part::Style(Style::ColumnGap(Val::Vw(125_000_000i64))),
            Part::Marker(Marker::IsModuleGrid),
        ],
        10,
    )
    &&& forall|i: int| 0 <= i < 10 ==> module_blueprint(#[trigger] b.children@[i], empty_slot(), 0)
}

pub fn reactor() -> (b: Blueprint)
    ensures
        reactor_blueprint(b),
{
    Blueprint {
        parts: vec![
            Part::Name("Reactor"),
            Part::Image(ImageKey::Reactor),
            Part::Style(Style::Preset(NodePreset::ColumnMid)),
            Part::Style(Style::FullHeight),
            Part::Style(Style::AspectRatio(124, 270)),
            Part::Style(Style::PaddingAll(Val::Vw(169_000_000i64))),
            Part::Style(Style::RowGap(Val::Vw(169_000_000i64))),
        ],
        children: vec![flux_display(), module_grid()],
    }
}

fn flux_display() -> (b: Blueprint)
    ensures
        flux_display_blueprint(b),
{
    let label = Blueprint {
        parts: vec![Part::Label(LabelKind::Label, "flux 2x"), Part::Marker(Marker::IsFluxLabel)],
        children: vec![],
    };
    let b = Blueprint {
        parts: vec![
            Part::Name("FluxDisplay"),
            Part::Style(Style::Preset(NodePreset::RowMid)),
            Part::Style(Style::Height(Val::Vw(500_000_000i64))),
        ],
        children: vec![label],
    };
    assert(b.children@[0] == label);
    b
}

fn module_grid() -> (b: Blueprint)
    ensures
        module_grid_blueprint(b),
{
    let empty = Module::empty();
    let mut children: Vec<Blueprint> = Vec::new();
    let mut i: usize = 0;
    while i < 10
        invariant
            i <= 10,
            empty == empty_slot(),
            children@.len() == i,
            forall|j: int| 0 <= j < i ==> module_blueprint(#[trigger] children@[j], empty_slot(), 0),
        decreases 10 - i,
    {
        children.push(module(&empty, 0));
        i = i + 1;
    }
    Blueprint {
        parts: vec![
            Part::Name("ModuleGrid"),
            Part::Style(Style::Preset(NodePreset::Default)),
            Part::Style(Style::FullWidth),
            Part::Style(Style::GridColumns(3)),
            Part::Style(Style::RowGap(Val::Vw(125_000_000i64))),
            Part::Style(Style::ColumnGap(Val::Vw(125_000_000i64))),
            Part::Marker(Marker::IsModuleGrid),
        ],
        children,
    }
}

/// The label of this reactor panel always reads a flux of two.
pub fn flux_label() -> (text: &'static str)
    ensures
        text@ == "flux 2x"@,
{
    "flux 2x"
}

} // verus!
