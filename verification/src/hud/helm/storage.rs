//! The storage pile on the helm, labelled with the number of modules left.
use vstd::prelude::*;

use crate::assets::ImageKey;
use crate::game::hud::helm::are;
use crate::game::hud::helm::are_word;
use crate::game::hud::helm::count_modules_using;
use crate::game::hud::helm::count_using;
use crate::game::hud::helm::plural;
use crate::game::hud::helm::plural_suffix;
use crate::game::module::Module;
use crate::game::module::ModuleAction;
use crate::text::decimal;
use crate::text::push_decimal;
use crate::ui::Anchor;
use crate::ui::Blueprint;
use crate::ui::LabelKind;
use crate::ui::Marker;
use crate::ui::NodePreset;
use crate::ui::Part;
use crate::ui::Style;
use crate::ui::ThemeColor;
use crate::ui::Val;
use crate::ui::shaped;

verus! {

pub open spec fn storage_display_blueprint(b: Blueprint) -> bool {
    &&& shaped(
        b,
        seq![
            Part::Name("StorageDisplay"),
            Part::Marker(Marker::StorageDisplay),
            Part::Image(ImageKey::ModuleFaceDown),
            Part::Style(Style::Preset(NodePreset::Row)),
            Part::Style(Style::Center),
            Part::Style(Style::Width(Val::Vw(666_660_000i64))),
            Part::Style(Style::AspectRatio(1, 1)),
            Part::Style(Style::PaddingBottom(Val::Vw(20_830_000i64))),
            Part::Style(Style::PaddingLeft(Val::Vw(20_830_000i64))),
            Part::Tooltip(Anchor::BottomLeft, ""),
            Part::NodeShake,
        ],
        1,
    )
    &&& shaped(
        b.children@[0],
        seq![
            Part::Label(LabelKind::SmallColoredLabel(ThemeColor::IconText), ""),
            Part::Marker(Marker::StorageLabel),
        ],
        0,
    )
}

pub fn storage_display() -> (b: Blueprint)
    ensures
        storage_display_blueprint(b),
{
    Blueprint {
        parts: vec![
            Part::Name("StorageDisplay"),
            Part::Marker(Marker::StorageDisplay),
            Part::Image(ImageKey::ModuleFaceDown),
            Part::Style(Style::Preset(NodePreset::Row)),
            Part::Style(Style::Center),
            Part::Style(Style::Width(Val::Vw(666_660_000i64))),
            Part::Style(Style::AspectRatio(1, 1)),
            Part::Style(Style::PaddingBottom(Val::Vw(20_830_000i64))),
            Part::Style(Style::PaddingLeft(Val::Vw(20_830_000i64))),
            Part::Tooltip(Anchor::BottomLeft, ""),
            Part::NodeShake,
        ],
        children: vec![
            Blueprint {
                parts: vec![
                    Part::Label(LabelKind::SmallColoredLabel(ThemeColor::IconText), ""),
                    Part::Marker(Marker::StorageLabel),
                ],
                children: vec![],
            },
        ],
    }
}

/// The name an action goes by in the storage summary.
pub open spec fn summary_label(a: ModuleAction) -> Seq<char> {
    match a {
        ModuleAction::Nothing => "starter"@,
        ModuleAction::Missile => "missile"@,
        ModuleAction::Laser => "laser"@,
        ModuleAction::Fireball => "fireball"@,
        ModuleAction::Repair => "repair"@,
    }
}

fn summary_label_str(a: ModuleAction) -> (s: &'static str)
    ensures
        s@ == summary_label(a),
{
    match a {
        ModuleAction::Nothing => "starter",
        ModuleAction::Missile => "missile",
        ModuleAction::Laser => "laser",
        ModuleAction::Fireball => "fireball",
        ModuleAction::Repair => "repair",
    }
}

/// One line of the summary: how many modules in storage use the action.
pub open spec fn summary_entry(s: Seq<Module>, a: ModuleAction) -> Seq<char> {
    let n = count_using(s, a);
    "- "@ + decimal(n) + " [b]"@ + summary_label(a) + plural_suffix(n) + "[r]"@
}

/// The summary lines of the actions, one per line.
pub open spec fn summary_entries(s: Seq<Module>, actions: Seq<ModuleAction>) -> Seq<char>
    decreases actions.len(),
{
    if actions.len() == 0 {
        Seq::empty()
    } else if actions.len() == 1 {
        summary_entry(s, actions[0])
    } else {
        summary_entries(s, actions.drop_last()) + "\n"@ + summary_entry(s, actions.last())
    }
}

/// The storage tooltip: how many modules remain, then a summary line for each
/// of the configured actions.
pub open spec fn storage_display_text(s: Seq<Module>, actions: Seq<ModuleAction>) -> Seq<char> {
    "[b]Storage[r]\n\nThere "@ + are_word(s.len()) + " "@ + decimal(s.len()) + " reactor module"@
        + plural_suffix(s.len()) + " remaining to draw:\n\n"@ + summary_entries(s, actions)
}

/// The tooltip of the storage display.
pub fn sync_storage_display_tooltip(storage: &Vec<Module>, actions: &Vec<ModuleAction>) -> (text:
    String)
    ensures
        text@ == storage_display_text(storage@, actions@),
{
    let total = storage.len();
    let mut text = String::from_str("[b]Storage[r]\n\nThere ");
    text.append(are(total));
    text.append(" ");
    push_decimal(&mut text, total as u64);
    text.append(" reactor module");
    text.append(plural(total));
    text.append(" remaining to draw:\n\n");
    let ghost header = text@;
    proof {
        reveal_strlit("[b]Storage[r]\n\nThere ");
        reveal_strlit(" ");
        reveal_strlit(" reactor module");
        reveal_strlit(" remaining to draw:\n\n");
        assert(header =~= "[b]Storage[r]\n\nThere "@ + are_word(storage@.len()) + " "@ + decimal(
            storage@.len(),
        ) + " reactor module"@ + plural_suffix(storage@.len()) + " remaining to draw:\n\n"@);
        assert(actions@.take(0) =~= Seq::<ModuleAction>::empty());
    }
    let mut i: usize = 0;
    while i < actions.len()
        invariant
            i <= actions@.len(),
            text@ == header + summary_entries(storage@, actions@.take(i as int)),
        decreases actions@.len() - i,
    {
        let a = actions[i];
        if i > 0 {
            text.append("\n");
        }
        let n = count_modules_using(storage, a);
        text.append("- ");
        push_decimal(&mut text, n as u64);
        text.append(" [b]");
        text.append(summary_label_str(a));
        text.append(plural(n));
        text.append("[r]");
        proof {
            reveal_strlit("\n");
            reveal_strlit("- ");
            reveal_strlit(" [b]");
            reveal_strlit("[r]");
            let taken = actions@.take(i as int + 1);
            assert(taken.drop_last() =~= actions@.take(i as int));
            assert(taken.last() == a);
            if i == 0 {
                assert(taken =~= seq![a]);
            }
            assert(text@ =~= header + summary_entries(storage@, taken));
        }
        i += 1;
    }
    proof {
        assert(actions@.take(i as int) =~= actions@);
    }
    text
}

} // verus!
