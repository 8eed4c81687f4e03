//! The helm: the phase display, the hand, the buttons and the storage pile.
use vstd::prelude::*;

use crate::assets::ImageKey;
use crate::game::deck::DeckView;
use crate::game::deck::PlayerDeck;
use crate::game::hud::module::module;
use crate::game::hud::module::module_children;
use crate::game::hud::module::module_parts;
use crate::game::module::condition_label;
use crate::game::module::effect_label;
use crate::game::module::Module;
use crate::game::module::ModuleAction;
use crate::game::phase::Phase;
use crate::game::phase::helm::HelmActions;
use crate::input::PointerButton;
use crate::text::decimal;
use crate::text::push_decimal;
use crate::ui::Anchor;
use crate::ui::Blueprint;
use crate::ui::ClickAction;
use crate::ui::LabelKind;
use crate::ui::Marker;
use crate::ui::NodePreset;
use crate::ui::Part;
use crate::ui::Style;
use crate::ui::ThemeColor;
use crate::ui::Val;
use crate::ui::shaped;

verus! {

/// The index of a module shown in the hand.
#[derive(PartialEq, Eq, Structural, Clone, Copy, Debug)]
pub struct HandIndex(pub usize);

pub open spec fn helm_blueprint(b: Blueprint) -> bool {
    &&& shaped(
        b,
        seq![
            Part::Name("Helm"),
            Part::Image(ImageKey::Helm),
            Part::Style(Style::Preset(NodePreset::Row)),
            Part::Style(Style::FullWidth),
            Part::Style(Style::AspectRatio(356, 58)),
        ],
        3,
    )
    &&& left_helm_blueprint(b.children@[0])
    &&& hand_blueprint(b.children@[1])
    &&& right_helm_blueprint(b.children@[2])
}

pub open spec fn left_helm_blueprint(b: Blueprint) -> bool {
    &&& shaped(
        b,
        seq![
            Part::Name("LeftHelm"),
            Part::Style(Style::Preset(NodePreset::RowCenter)),
            Part::Style(Style::FullHeight),
            Part::Style(Style::Left(Val::Vw(-20_830_000i64))),
            Part::Style(Style::Width(Val::Vw(1_208_330_000i64))),
        ],
        1,
    )
    &&& phase_display_blueprint(b.children@[0])
}

pub open spec fn phase_display_blueprint(b: Blueprint) -> bool {
    shaped(
        b,
        seq![
            Part::Name("PhaseDisplay"),
            Part::Marker(Marker::IsPhaseDisplay),
            Part::EmptyImage,
            Part::Style(Style::Preset(NodePreset::Default)),
            Part::Style(Style::Width(Val::Vw(916_660_000i64))),
            Part::Style(Style::AspectRatio(1, 1)),
            Part::Tooltip(Anchor::TopCenter, ""),
        ],
        0,
    )
}

pub open spec fn hand_blueprint(b: Blueprint) -> bool {
    shaped(
        b,
        seq![
            Part::Name("Hand"),
            Part::Marker(Marker::IsHand),
            Part::Style(Style::Preset(NodePreset::RowCenter)),
            Part::Style(Style::Grow),
        ],
        0,
    )
}

pub open spec fn right_helm_blueprint(b: Blueprint) -> bool {
    &&& shaped(
        b,
        seq![
            Part::Name("RightHelm"),
            Part::Style(Style::Preset(NodePreset::ColumnCenter)),
            Part::Style(Style::FullHeight),
            Part::Style(Style::Width(Val::Vw(1_208_330_000i64))),
            Part::Style(Style::PaddingVertical(Val::Vw(125_000_000i64))),
            Part::Style(Style::RowGap(Val::Vw(41_666_000i64))),
        ],
        2,
    )
    &&& mini_buttons_blueprint(b.children@[0])
    &&& storage_blueprint(b.children@[1])
}

pub open spec fn storage_blueprint(b: Blueprint) -> bool {
    &&& shaped(
        b,
        seq![
            Part::Name("Storage"),
            Part::Marker(Marker::IsStorage),
            Part::Image(ImageKey::ModuleFaceDown),
            Part::Style(Style::Preset(NodePreset::RowCenter)),
            Part::Style(Style::Width(Val::Vw(666_660_000i64))),
            Part::Style(Style::AspectRatio(1, 1)),
            Part::Style(Style::PaddingBottom(Val::Vw(20_830_000i64))),
            Part::Style(Style::PaddingLeft(Val::Vw(20_830_000i64))),
            Part::Tooltip(Anchor::TopCenter, ""),
            Part::NodeShake,
        ],
        1,
    )
    &&& shaped(
        b.children@[0],
        seq![
            Part::Label(LabelKind::SmallColoredLabel(ThemeColor::IconText), ""),
            Part::Marker(Marker::IsStorageLabel),
        ],
        0,
    )
}

pub open spec fn mini_buttons_blueprint(b: Blueprint) -> bool {
    &&& shaped(
        b,
        seq![
            Part::Name("MiniButtons"),
            Part::Style(Style::Preset(NodePreset::Row)),
            Part::Style(Style::ColumnGap(Val::Vw(62_500_000i64))),
        ],
        3,
    )
    &&& mini_button_blueprint(
        b.children@[0],
        "InfoButton",
        ImageKey::InfoButton,
        "[b]Instruction Manual (I)",
        ClickAction::OpenHelpMenu,
    )
    &&& mini_button_blueprint(
        b.children@[1],
        "PauseButton",
        ImageKey::PauseButton,
        "[b]Pause (P)",
        ClickAction::OpenPauseMenu,
    )
    &&& mini_button_blueprint(
        b.children@[2],
        "SkipButton",
        ImageKey::SkipButton,
        "[b]End turn (E)",
        ClickAction::EndTurn,
    )
}

pub open spec fn mini_button_blueprint(
    b: Blueprint,
    name: &'static str,
    image: ImageKey,
    description: &'static str,
    action: ClickAction,
) -> bool {
    shaped(
        b,
        seq![
            Part::Name(name),
            Part::Button,
            Part::Image(image),
            Part::Style(Style::Preset(NodePreset::Default)),
            Part::Style(Style::Width(Val::Vw(250_000_000i64))),
            Part::Style(Style::AspectRatio(1, 1)),
            Part::NodeOffset,
            Part::InteractionOffsets(Val::Vw(-20_830_000i64), Val::Vw(20_830_000i64)),
            Part::RichTooltip(Anchor::TopCenter, description),
            Part::OnClick(action),
        ],
        0,
    )
}

pub fn helm() -> (b: Blueprint)
    ensures
        helm_blueprint(b),
{
    Blueprint {
        parts: vec![
            Part::Name("Helm"),
            Part::Image(ImageKey::Helm),
            Part::Style(Style::Preset(NodePreset::Row)),
            Part::Style(Style::FullWidth),
            Part::Style(Style::AspectRatio(356, 58)),
        ],
        children: vec![left_helm(), hand(), right_helm()],
    }
}

fn left_helm() -> (b: Blueprint)
    ensures
        left_helm_blueprint(b),
{
    Blueprint {
        parts: vec![
            Part::Name("LeftHelm"),
            Part::Style(Style::Preset(NodePreset::RowCenter)),
            Part::Style(Style::FullHeight),
            Part::Style(Style::Left(Val::Vw(-20_830_000i64))),
            Part::Style(Style::Width(Val::Vw(1_208_330_000i64))),
        ],
        children: vec![phase_display()],
    }
}

fn phase_display() -> (b: Blueprint)
    ensures
        phase_display_blueprint(b),
{
    Blueprint {
        parts: vec![
            Part::Name("PhaseDisplay"),
            Part::Marker(Marker::IsPhaseDisplay),
            Part::EmptyImage,
            Part::Style(Style::Preset(NodePreset::Default)),
            Part::Style(Style::Width(Val::Vw(916_660_000i64))),
            Part::Style(Style::AspectRatio(1, 1)),
            Part::Tooltip(Anchor::TopCenter, ""),
        ],
        children: vec![],
    }
}

fn hand() -> (b: Blueprint)
    ensures
        hand_blueprint(b),
{
    Blueprint {
        parts: vec![
            Part::Name("Hand"),
            Part::Marker(Marker::IsHand),
            Part::Style(Style::Preset(NodePreset::RowCenter)),
            Part::Style(Style::Grow),
        ],
        children: vec![],
    }
}

fn right_helm() -> (b: Blueprint)
    ensures
        right_helm_blueprint(b),
{
    Blueprint {
        parts: vec![
            Part::Name("RightHelm"),
            Part::Style(Style::Preset(NodePreset::ColumnCenter)),
            Part::Style(Style::FullHeight),
            Part::Style(Style::Width(Val::Vw(1_208_330_000i64))),
            Part::Style(Style::PaddingVertical(Val::Vw(125_000_000i64))),
            Part::Style(Style::RowGap(Val::Vw(41_666_000i64))),
        ],
        children: vec![mini_buttons(), storage()],
    }
}

fn storage() -> (b: Blueprint)
    ensures
        storage_blueprint(b),
{
    Blueprint {
        parts: vec![
            Part::Name("Storage"),
            Part::Marker(Marker::IsStorage),
            Part::Image(ImageKey::ModuleFaceDown),
            Part::Style(Style::Preset(NodePreset::RowCenter)),
            Part::Style(Style::Width(Val::Vw(666_660_000i64))),
            Part::Style(Style::AspectRatio(1, 1)),
            Part::Style(Style::PaddingBottom(Val::Vw(20_830_000i64))),
            Part::Style(Style::PaddingLeft(Val::Vw(20_830_000i64))),
            Part::Tooltip(Anchor::TopCenter, ""),
            Part::NodeShake,
        ],
        children: vec![
            Blueprint {
                parts: vec![
                    Part::Label(LabelKind::SmallColoredLabel(ThemeColor::IconText), ""),
                    Part::Marker(Marker::IsStorageLabel),
                ],
                children: vec![],
            },
        ],
    }
}

fn mini_buttons() -> (b: Blueprint)
    ensures
        mini_buttons_blueprint(b),
{
    Blueprint {
        parts: vec![
            Part::Name("MiniButtons"),
            Part::Style(Style::Preset(NodePreset::Row)),
            Part::Style(Style::ColumnGap(Val::Vw(62_500_000i64))),
        ],
        children: vec![info_button(), pause_button(), skip_button()],
    }
}

fn info_button() -> (b: Blueprint)
    ensures
        mini_button_blueprint(
            b,
            "InfoButton",
            ImageKey::InfoButton,
            "[b]Instruction Manual (I)",
            ClickAction::OpenHelpMenu,
        ),
{
    mini_button_base(
        "InfoButton",
        ImageKey::InfoButton,
        "[b]Instruction Manual (I)",
        ClickAction::OpenHelpMenu,
    )
}

fn pause_button() -> (b: Blueprint)
    ensures
        mini_button_blueprint(
            b,
            "PauseButton",
            ImageKey::PauseButton,
            "[b]Pause (P)",
            ClickAction::OpenPauseMenu,
        ),
{
    mini_button_base("PauseButton", ImageKey::PauseButton, "[b]Pause (P)", ClickAction::OpenPauseMenu)
}

fn skip_button() -> (b: Blueprint)
    ensures
        mini_button_blueprint(
            b,
            "SkipButton",
            ImageKey::SkipButton,
            "[b]End turn (E)",
            ClickAction::EndTurn,
        ),
{
    mini_button_base("SkipButton", ImageKey::SkipButton, "[b]End turn (E)", ClickAction::EndTurn)
}

fn mini_button_base(
    name: &'static str,
    image: ImageKey,
    description: &'static str,
    action: ClickAction,
) -> (b: Blueprint)
    ensures
        mini_button_blueprint(b, name, image, description, action),
{
    Blueprint {
        parts: vec![
            Part::Name(name),
            Part::Button,
            Part::Image(image),
            Part::Style(Style::Preset(NodePreset::Default)),
            Part::Style(Style::Width(Val::Vw(250_000_000i64))),
            Part::Style(Style::AspectRatio(1, 1)),
            Part::NodeOffset,
            Part::InteractionOffsets(Val::Vw(-20_830_000i64), Val::Vw(20_830_000i64)),
            Part::RichTooltip(Anchor::TopCenter, description),
            Part::OnClick(action),
        ],
        children: vec![],
    }
}

/// A click of the primary button triggers a mini button.
pub fn is_primary_click(button: PointerButton) -> (r: bool)
    ensures
        r == (button == PointerButton::Primary),
{
    matches!(button, PointerButton::Primary)
}

pub open spec fn phase_image(phase: Phase) -> ImageKey {
    match phase {
        Phase::Setup => ImageKey::PhaseSetup,
        Phase::Helm => ImageKey::PhasePlayer,
        Phase::Reactor | Phase::Player => ImageKey::PhaseReactor,
        Phase::Enemy => ImageKey::PhaseEnemy,
    }
}

/// The image the phase display shows in each phase.
pub fn phase_display_image(phase: Phase) -> (image: ImageKey)
    ensures
        image == phase_image(phase),
{
    match phase {
        Phase::Setup => ImageKey::PhaseSetup,
        Phase::Helm => ImageKey::PhasePlayer,
        Phase::Reactor | Phase::Player => ImageKey::PhaseReactor,
        Phase::Enemy => ImageKey::PhaseEnemy,
    }
}

pub open spec fn phase_tooltip(phase: Phase) -> Seq<char> {
    match phase {
        Phase::Setup => "[b]Storage phase[r]\n\nPulling reactor modules from storage."@,
        Phase::Helm => "[b]Player phase[r]\n\nLeft click a module to play it, right click to discard."@,
        Phase::Reactor | Phase::Player => "[b]Reactor phase[r]\n\nDirecting power to the reactor."@,
        Phase::Enemy => "[b]Enemy phase[r]\n\nSustaining the enemy's barrage."@,
    }
}

/// The tooltip of the phase display in each phase.
pub fn phase_display_tooltip(phase: Phase) -> (text: &'static str)
    ensures
        text@ == phase_tooltip(phase),
{
    match phase {
        Phase::Setup => "[b]Storage phase[r]\n\nPulling reactor modules from storage.",
        Phase::Helm => "[b]Player phase[r]\n\nLeft click a module to play it, right click to discard.",
        Phase::Reactor | Phase::Player => "[b]Reactor phase[r]\n\nDirecting power to the reactor.",
        Phase::Enemy => "[b]Enemy phase[r]\n\nSustaining the enemy's barrage.",
    }
}

/// The module of the hand at the selected index is raised.
pub fn selected_offset(index: usize, selected: usize) -> (v: Val)
    ensures
        v == (if index == selected {
            Val::Vw(-200_000_000i64)
        } else {
            Val::Zero
        }),
{
    if index == selected {
        Val::Vw(-200_000_000i64)
    } else {
        Val::Zero
    }
}

/// Hovering a module of the hand selects it; returns whether the selection changed.
pub fn select_module_on_hover(player_deck: &mut PlayerDeck, index: usize) -> (changed: bool)
    ensures
        changed == (index != old(player_deck).hand_idx),
        final(player_deck)@ == (crate::game::deck::DeckView { hand_idx: index, ..old(player_deck)@ }),
{
    if index == player_deck.hand_idx {
        return false;
    }
    player_deck.hand_idx = index;
    true
}

/// Clicking a module plays it with the primary button and discards it with the secondary.
pub fn play_or_discard_module_on_click(button: PointerButton) -> (action: Option<HelmActions>)
    ensures
        action == match button {
            PointerButton::Primary => Some(HelmActions::PlayModule),
            PointerButton::Secondary => Some(HelmActions::DiscardModule),
            PointerButton::Middle => None,
        },
{
    match button {
        PointerButton::Primary => Some(HelmActions::PlayModule),
        PointerButton::Secondary => Some(HelmActions::DiscardModule),
        PointerButton::Middle => None,
    }
}

/// The storage shakes after the deck used it; the deck's flag is cleared.
pub fn take_storage_shake(player_deck: &mut PlayerDeck) -> (shake: bool)
    ensures
        shake == old(player_deck).just_used_storage,
        final(player_deck)@ == (crate::game::deck::DeckView {
            just_used_storage: false,
            ..old(player_deck)@
        }),
{
    let shake = player_deck.just_used_storage;
    player_deck.just_used_storage = false;
    shake
}

/// The module uses the action, as its trigger or as its effect.
pub open spec fn uses(m: Module, a: ModuleAction) -> bool {
    m.condition == a || m.effect == a
}

/// The number of modules that use the action.
pub open spec fn count_using(s: Seq<Module>, a: ModuleAction) -> nat
    decreases s.len(),
{
    if s.len() == 0 {
        0
    } else {
        count_using(s.drop_last(), a) + if uses(s.last(), a) {
            1nat
        } else {
            0nat
        }
    }
}

pub fn count_modules_using(s: &Vec<Module>, a: ModuleAction) -> (n: usize)
    ensures
        n == count_using(s@, a),
{
    let mut n: usize = 0;
    let mut i: usize = 0;
    while i < s.len()
        invariant
            i <= s.len(),
            n == count_using(s@.take(i as int), a),
            n <= i,
        decreases s.len() - i,
    {
        assert(s@.take(i as int + 1).drop_last() =~= s@.take(i as int));
        if s[i].condition == a || s[i].effect == a {
            n = n + 1;
        }
        i = i + 1;
    }
    assert(s@.take(i as int) =~= s@);
    n
}

pub open spec fn plural_suffix(n: nat) -> Seq<char> {
    if n == 1 {
        ""@
    } else {
        "s"@
    }
}

pub open spec fn are_word(n: nat) -> Seq<char> {
    if n == 1 {
        "is"@
    } else {
        "are"@
    }
}

pub fn plural(num: usize) -> (s: &'static str)
    ensures
        s@ == plural_suffix(num as nat),
{
    if num == 1 {
        ""
    } else {
        "s"
    }
}

pub fn are(num: usize) -> (s: &'static str)
    ensures
        s@ == are_word(num as nat),
{
    if num == 1 {
        "is"
    } else {
        "are"
    }
}

/// One line of the storage summary: how many modules use an action.
pub open spec fn summary_line(n: nat, label: Seq<char>) -> Seq<char> {
    "\n- "@ + decimal(n) + " [b]"@ + label + plural_suffix(n) + "[r]"@
}

/// The storage tooltip: how many modules remain, and how many use each action.
pub open spec fn storage_tooltip_text(s: Seq<Module>) -> Seq<char> {
    "[b]Storage[r]\n\nThere "@ + are_word(s.len()) + " "@ + decimal(s.len()) + " reactor module"@
        + plural_suffix(s.len()) + " remaining to draw:\n"@
        + summary_line(count_using(s, ModuleAction::Nothing), "starter"@)
        + summary_line(count_using(s, ModuleAction::Repair), "repair"@)
        + summary_line(count_using(s, ModuleAction::Missile), "missile"@)
        + summary_line(count_using(s, ModuleAction::Laser), "laser"@)
        + summary_line(count_using(s, ModuleAction::Fireball), "fireball"@)
}

fn push_summary_line(out: &mut String, n: usize, label: &str)
    ensures
        final(out)@ == old(out)@ + summary_line(n as nat, label@),
{
    out.append("\n- ");
    push_decimal(out, n as u64);
    out.append(" [b]");
    out.append(label);
    out.append(plural(n));
    out.append("[r]");
    assert(final(out)@ =~= old(out)@ + summary_line(n as nat, label@));
}

/// The tooltip of the storage pile.
pub fn storage_tooltip(storage: &Vec<Module>) -> (text: String)
    ensures
        text@ == storage_tooltip_text(storage@),
{
    let total = storage.len();
    let starts = count_modules_using(storage, ModuleAction::Nothing);
    let repairs = count_modules_using(storage, ModuleAction::Repair);
    let missiles = count_modules_using(storage, ModuleAction::Missile);
    let lasers = count_modules_using(storage, ModuleAction::Laser);
    let fireballs = count_modules_using(storage, ModuleAction::Fireball);
    let mut text = String::from_str("[b]Storage[r]\n\nThere ");
    text.append(are(total));
    text.append(" ");
    push_decimal(&mut text, total as u64);
    text.append(" reactor module");
    text.append(plural(total));
    text.append(" remaining to draw:\n");
    push_summary_line(&mut text, starts, "starter");
    push_summary_line(&mut text, repairs, "repair");
    push_summary_line(&mut text, missiles, "missile");
    push_summary_line(&mut text, lasers, "laser");
    push_summary_line(&mut text, fireballs, "fireball");
    assert(text@ =~= storage_tooltip_text(storage@));
    text
}

/// The label on the storage pile: the number of modules left in it.
pub fn storage_label(player_deck: &PlayerDeck) -> (text: String)
    ensures
        text@ == decimal(player_deck.storage@.len()),
{
    let mut text = String::new();
    push_decimal(&mut text, player_deck.storage.len() as u64);
    assert(text@ =~= decimal(player_deck.storage@.len()));
    text
}

/// The picture of a module in the hand: raised when selected, ignored by picking,
/// and shaking when something shakes it.
pub open spec fn hand_module_blueprint(b: Blueprint, m: Module, heat_capacity: u64, raised: bool) -> bool {
    &&& b.parts@ == module_parts(m) + seq![Part::Unpickable, Part::NodeShake] + if raised {
        seq![Part::Style(Style::Top(Val::Vw(-200_000_000i64)))]
    } else {
        Seq::<Part>::empty()
    }
    &&& module_children(b, m, heat_capacity)
}

pub fn hand_module(m: &Module, heat_capacity: u64, raised: bool) -> (b: Blueprint)
    ensures
        hand_module_blueprint(b, *m, heat_capacity, raised),
{
    let mut b = module(m, heat_capacity);
    b.parts.push(Part::Unpickable);
    b.parts.push(Part::NodeShake);
    if raised {
        b.parts.push(Part::Style(Style::Top(Val::Vw(-200_000_000i64))));
    }
    proof {
        if raised {
            assert(b.parts@ =~= module_parts(*m) + seq![Part::Unpickable, Part::NodeShake] + seq![
                Part::Style(Style::Top(Val::Vw(-200_000_000i64))),
            ]);
        } else {
            assert(b.parts@ =~= module_parts(*m) + seq![Part::Unpickable, Part::NodeShake]
                + Seq::<Part>::empty());
        }
    }
    b
}

/// Position `i` of the hand: a region laid out with the given styles, with the
/// module's short description as a tooltip, around the module's picture.
pub open spec fn hand_region_blueprint(b: Blueprint, layout: Seq<Style>, deck: DeckView, i: int) -> bool {
    let m = deck.hand[i];
    let n = layout.len() as int;
    &&& b.parts@.len() == n + 3
    &&& b.parts@[0] == Part::Name("ModuleInteractionRegion")
    &&& forall|k: int| 0 <= k < n ==> #[trigger] b.parts@[k + 1] == Part::Style(layout[k])
    &&& b.parts@[n + 1] matches Part::DynamicRichTooltip(a, s) && a == Anchor::BottomCenter
        && s@ == condition_label(m.condition) + effect_label(m.effect)
    &&& b.parts@[n + 2] == Part::HandIndex(HandIndex(i as usize))
    &&& b.children@.len() == 1
    &&& hand_module_blueprint(b.children@[0], m, deck.heat_capacity, i == deck.hand_idx)
}

/// The layout of a region of the hand.
pub open spec fn hand_region_layout() -> Seq<Style> {
    seq![
        Style::Preset(NodePreset::ColumnCenter),
        Style::FullHeight,
        Style::PaddingAll(Val::Vw(41_670_000i64)),
    ]
}

/// The regions of the hand, one per module, given the layout of each region.
pub fn hand_regions(player_deck: &PlayerDeck, layout: &Vec<Style>) -> (regions: Vec<Blueprint>)
    ensures
        regions@.len() == player_deck.hand@.len(),
        forall|i: int|
            0 <= i < regions@.len() ==> #[trigger] hand_region_blueprint(
                regions@[i],
                layout@,
                player_deck@,
                i,
            ),
{
    let mut regions: Vec<Blueprint> = Vec::new();
    let mut i: usize = 0;
    while i < player_deck.hand.len()
        invariant
            i <= player_deck.hand@.len(),
            regions@.len() == i,
            forall|j: int|
                0 <= j < i ==> #[trigger] hand_region_blueprint(regions@[j], layout@, player_deck@, j),
        decreases player_deck.hand@.len() - i,
    {
        let m = &player_deck.hand[i];
        let mut parts: Vec<Part> = vec![Part::Name("ModuleInteractionRegion")];
        let mut k: usize = 0;
        while k < layout.len()
            invariant
                k <= layout@.len(),
                parts@.len() == k + 1,
                parts@[0] == Part::Name("ModuleInteractionRegion"),
                forall|q: int| 0 <= q < k ==> #[trigger] parts@[q + 1] == Part::Style(layout@[q]),
            decreases layout@.len() - k,
        {
            parts.push(Part::Style(layout[k]));
            k += 1;
        }
        parts.push(Part::DynamicRichTooltip(Anchor::BottomCenter, m.short_description()));
        parts.push(Part::HandIndex(HandIndex(i)));
        let raised = i == player_deck.hand_idx;
        let region = Blueprint {
            parts,
            children: vec![hand_module(m, player_deck.heat_capacity, raised)],
        };
        regions.push(region);
        i += 1;
    }
    regions
}

/// The regions the hand shows after the deck changed.
pub fn sync_hand(player_deck: &PlayerDeck) -> (regions: Vec<Blueprint>)
    ensures
        regions@.len() == player_deck.hand@.len(),
        forall|i: int|
            0 <= i < regions@.len() ==> #[trigger] hand_region_blueprint(
                regions@[i],
                hand_region_layout(),
                player_deck@,
                i,
            ),
{
    let layout = vec![
        Style::Preset(NodePreset::ColumnCenter),
        Style::FullHeight,
        Style::PaddingAll(Val::Vw(41_670_000i64)),
    ];
    proof {
        assert(layout@ =~= hand_region_layout());
    }
    hand_regions(player_deck, &layout)
}

} // verus!
