//! The picture of a reactor module: background, trigger and effect icons, and heat glow.
use vstd::prelude::*;

use crate::assets::ImageKey;
use crate::game::module::Module;
use crate::game::module::ModuleAction;
use crate::game::module::ModuleStatus;
use crate::ui::Blueprint;
use crate::ui::Marker;
use crate::ui::NodePreset;
use crate::ui::Part;
use crate::ui::Style;
use crate::ui::Val;
use crate::ui::shaped;

verus! {

pub open spec fn background_image(status: ModuleStatus) -> ImageKey {
    match status {
        ModuleStatus::FaceUp => ImageKey::ModuleFaceUp,
        ModuleStatus::FaceDown => ImageKey::ModuleFaceDown,
        ModuleStatus::SlotEmpty => ImageKey::ModuleSlotEmpty,
        ModuleStatus::SlotInactive => ImageKey::ModuleSlotInactive,
        ModuleStatus::SlotActive => ImageKey::ModuleSlotActive,
        ModuleStatus::SlotOverheated => ImageKey::ModuleSlotOverheated,
    }
}

/// Face-down modules and empty slots show no icons; otherwise the action's icon.
pub open spec fn condition_icon(status: ModuleStatus, a: ModuleAction) -> ImageKey {
    if status == ModuleStatus::FaceDown || status == ModuleStatus::SlotEmpty {
        ImageKey::NothingConditionIcon
    } else {
        match a {
            ModuleAction::Nothing => ImageKey::NothingConditionIcon,
            ModuleAction::Missile => ImageKey::MissileConditionIcon,
            ModuleAction::Laser => ImageKey::LaserConditionIcon,
            ModuleAction::Fireball => ImageKey::FireballConditionIcon,
            ModuleAction::Repair => ImageKey::RepairConditionIcon,
        }
    }
}

pub open spec fn effect_icon(status: ModuleStatus, a: ModuleAction) -> ImageKey {
    if status == ModuleStatus::FaceDown || status == ModuleStatus::SlotEmpty {
        ImageKey::NothingEffectIcon
    } else {
        match a {
            ModuleAction::Nothing => ImageKey::NothingEffectIcon,
            ModuleAction::Missile => ImageKey::MissileEffectIcon,
            ModuleAction::Laser => ImageKey::LaserEffectIcon,
            ModuleAction::Fireball => ImageKey::FireballEffectIcon,
            ModuleAction::Repair => ImageKey::RepairEffectIcon,
        }
    }
}

/// How strongly a module glows, as a fraction: fully when overheated, by its share of
/// the heat capacity (at least one) when inactive in a slot, and not at all otherwise.
pub open spec fn glow_fraction(m: Module, heat_capacity: u64) -> (u64, u64) {
    let capacity: u64 = if heat_capacity < 1 {
        1
    } else {
        heat_capacity
    };
    match m.status {
        ModuleStatus::SlotOverheated => (1, 1),
        ModuleStatus::SlotInactive => (
            if m.heat < capacity {
                m.heat
            } else {
                capacity
            },
            capacity,
        ),
        _ => (0, 1),
    }
}

pub open spec fn glow_image(status: ModuleStatus) -> ImageKey {
    if status == ModuleStatus::SlotOverheated {
        ImageKey::ModuleSlotFullGlow
    } else {
        ImageKey::ModuleSlotGlow
    }
}

pub open spec fn icon_blueprint(b: Blueprint, name: &'static str, image: ImageKey) -> bool {
    shaped(
        b,
        seq![
            Part::Name(name),
            Part::Image(image),
            Part::Style(Style::Preset(NodePreset::Default)),
            Part::Style(Style::FullSize),
            Part::Style(Style::Abs),
            Part::Unpickable,
        ],
        0,
    )
}

/// The parts of a module's picture.
pub open spec fn module_parts(m: Module) -> Seq<Part> {
    seq![
        Part::Name("Module"),
        Part::Image(background_image(m.status)),
        Part::Style(Style::Preset(NodePreset::RowCenter)),
        Part::Style(Style::Width(Val::Vw(666_660_000i64))),
        Part::Style(Style::AspectRatio(1, 1)),
    ]
}

/// The children of a module's picture: its two icons and its glow.
pub open spec fn module_children(b: Blueprint, m: Module, heat_capacity: u64) -> bool {
    let (num, den) = glow_fraction(m, heat_capacity);
    &&& b.children@.len() == 3
    &&& icon_blueprint(b.children@[0], "Condition", condition_icon(m.status, m.condition))
    &&& icon_blueprint(b.children@[1], "Effect", effect_icon(m.status, m.effect))
    &&& shaped(
        b.children@[2],
        seq![
            Part::Name("Glow"),
            Part::Marker(Marker::ModuleSlotGlow),
            Part::Glow(glow_image(m.status), num, den),
            Part::Style(Style::Preset(NodePreset::Default)),
            Part::Style(Style::FullSize),
            Part::Style(Style::Abs),
            Part::ZIndex(1),
            Part::Unpickable,
        ],
        0,
    )
}

pub open spec fn module_blueprint(b: Blueprint, m: Module, heat_capacity: u64) -> bool {
    &&& b.parts@ == module_parts(m)
    &&& module_children(b, m, heat_capacity)
}

fn icon(name: &'static str, image: ImageKey) -> (b: Blueprint)
    ensures
        icon_blueprint(b, name, image),
{
    Blueprint {
        parts: vec![
            Part::Name(name),
            Part::Image(image),
            Part::Style(Style::Preset(NodePreset::Default)),
            Part::Style(Style::FullSize),
            Part::Style(Style::Abs),
            Part::Unpickable,
        ],
        children: vec![],
    }
}

fn action_condition_icon(status: ModuleStatus, a: ModuleAction) -> (i: ImageKey)
    ensures
        i == condition_icon(status, a),
{
    if matches!(status, ModuleStatus::FaceDown) || matches!(status, ModuleStatus::SlotEmpty) {
        return ImageKey::NothingConditionIcon;
    }
    match a {
        ModuleAction::Nothing => ImageKey::NothingConditionIcon,
        ModuleAction::Missile => ImageKey::MissileConditionIcon,
        ModuleAction::Laser => ImageKey::LaserConditionIcon,
        ModuleAction::Fireball => ImageKey::FireballConditionIcon,
        ModuleAction::Repair => ImageKey::RepairConditionIcon,
    }
}

fn action_effect_icon(status: ModuleStatus, a: ModuleAction) -> (i: ImageKey)
    ensures
        i == effect_icon(status, a),
{
    if matches!(status, ModuleStatus::FaceDown) || matches!(status, ModuleStatus::SlotEmpty) {
        return ImageKey::NothingEffectIcon;
    }
    match a {
        ModuleAction::Nothing => ImageKey::NothingEffectIcon,
        ModuleAction::Missile => ImageKey::MissileEffectIcon,
        ModuleAction::Laser => ImageKey::LaserEffectIcon,
        ModuleAction::Fireball => ImageKey::FireballEffectIcon,
        ModuleAction::Repair => ImageKey::RepairEffectIcon,
    }
}

/// The glow of a module as a fraction of full opacity.
pub fn module_glow(m: &Module, heat_capacity: u64) -> (r: (u64, u64))
    ensures
        r == glow_fraction(*m, heat_capacity),
{
    let capacity: u64 = if heat_capacity < 1 {
        1
    } else {
        heat_capacity
    };
    match m.status {
        ModuleStatus::SlotOverheated => (1, 1),
        ModuleStatus::SlotInactive => (
            if m.heat < capacity {
                m.heat
            } else {
                capacity
            },
            capacity,
        ),
        _ => (0, 1),
    }
}

/// The blueprint of a module's picture.
pub fn module(m: &Module, heat_capacity: u64) -> (b: Blueprint)
    ensures
        module_blueprint(b, *m, heat_capacity),
{
    let background = match m.status {
        ModuleStatus::FaceUp => ImageKey::ModuleFaceUp,
        ModuleStatus::FaceDown => ImageKey::ModuleFaceDown,
        ModuleStatus::SlotEmpty => ImageKey::ModuleSlotEmpty,
        ModuleStatus::SlotInactive => ImageKey::ModuleSlotInactive,
        ModuleStatus::SlotActive => ImageKey::ModuleSlotActive,
        ModuleStatus::SlotOverheated => ImageKey::ModuleSlotOverheated,
    };
    let glow = if matches!(m.status, ModuleStatus::SlotOverheated) {
        ImageKey::ModuleSlotFullGlow
    } else {
        ImageKey::ModuleSlotGlow
    };
    let (num, den) = module_glow(m, heat_capacity);
    Blueprint {
        parts: vec![
            Part::Name("Module"),
            Part::Image(background),
            Part::Style(Style::Preset(NodePreset::RowCenter)),
            Part::Style(Style::Width(Val::Vw(666_660_000i64))),
            Part::Style(Style::AspectRatio(1, 1)),
        ],
        children: vec![
            icon("Condition", action_condition_icon(m.status, m.condition)),
            icon("Effect", action_effect_icon(m.status, m.effect)),
            Blueprint {
                parts: vec![
                    Part::Name("Glow"),
                    Part::Marker(Marker::ModuleSlotGlow),
                    Part::Glow(glow, num, den),
                    Part::Style(Style::Preset(NodePreset::Default)),
                    Part::Style(Style::FullSize),
                    Part::Style(Style::Abs),
                    Part::ZIndex(1),
                    Part::Unpickable,
                ],
                children: vec![],
            },
        ],
    }
}

} // verus!
