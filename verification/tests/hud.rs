use flux_pursuit::assets::ImageKey;
use flux_pursuit::game::deck::PlayerDeck;
use flux_pursuit::game::hud::flux::flux_display_border;
use flux_pursuit::game::hud::flux::flux_label_color;
use flux_pursuit::game::hud::flux::flux_label_shakes;
use flux_pursuit::game::hud::flux::flux_label_text;
use flux_pursuit::game::hud::helm::phase_display_image;
use flux_pursuit::game::hud::helm::play_or_discard_module_on_click;
use flux_pursuit::game::hud::helm::select_module_on_hover;
use flux_pursuit::game::hud::helm::selected_offset;
use flux_pursuit::game::hud::helm::storage_label;
use flux_pursuit::game::hud::helm::storage_tooltip;
use flux_pursuit::game::hud::helm::sync_hand;
use flux_pursuit::game::hud::helm::take_storage_shake;
use flux_pursuit::game::hud::module::module;
use flux_pursuit::game::hud::module::module_glow;
use flux_pursuit::game::hud::reactor::discard_module_on_right_click;
use flux_pursuit::game::hud::reactor::play_hover_sfx_on_hover;
use flux_pursuit::game::hud::reactor::sync_reactor_grid;
use flux_pursuit::game::module::Module;
use flux_pursuit::game::module::ModuleAction;
use flux_pursuit::game::module::ModuleStatus;
use flux_pursuit::game::phase::helm::HelmActions;
use flux_pursuit::game::phase::Phase;
use flux_pursuit::game::stats::stats_grid;
use flux_pursuit::game::stats::Stats;
use flux_pursuit::hud::helm::hand::sync_hand_display;
use flux_pursuit::hud::helm::phase_display::phase_display_disabled;
use flux_pursuit::hud::helm::phase_display::phase_display_glows;
use flux_pursuit::hud::helm::phase_display::phase_display_tooltip;
use flux_pursuit::hud::helm::storage::sync_storage_display_tooltip;
use flux_pursuit::hud::hud;
use flux_pursuit::input::PointerButton;
use flux_pursuit::ui::Anchor;
use flux_pursuit::ui::Blueprint;
use flux_pursuit::ui::LabelKind;
use flux_pursuit::ui::Marker;
use flux_pursuit::ui::Part;
use flux_pursuit::ui::Style;
use flux_pursuit::ui::Val;

fn names(b: &Blueprint) -> Vec<&'static str> {
    b.children
        .iter()
        .filter_map(|c| match c.parts.first() {
            Some(Part::Name(n)) => Some(*n),
            _ => None,
        })
        .collect()
}

#[test]
fn the_hud_holds_the_reactor_and_the_helm() {
    let b = hud();
    assert_eq!(b.parts[0], Part::Name("Hud"));
    assert!(b.parts.iter().any(|p| matches!(p, Part::Marker(Marker::Hud(_)))));
    assert_eq!(names(&b), vec!["Reactor", "Column"]);
    assert_eq!(names(&b.children[1]), vec!["Helm"]);
    assert_eq!(names(&b.children[1].children[0]), vec!["LeftHelm", "HandDisplay", "RightHelm"]);
    let right = &b.children[1].children[0].children[2];
    assert_eq!(names(right), vec!["MiniButtons", "StorageDisplay"]);
    assert_eq!(right.children[0].children.len(), 3);
}

#[test]
fn flux_label_text_and_color() {
    assert_eq!(flux_label_text(3), "flux 3x");
    assert_eq!(flux_label_text(0), "flux 0x");
    assert_eq!(flux_label_color(0), flux_pursuit::ui::ThemeColor::MonitorDimText);
    assert_eq!(flux_label_color(2), flux_pursuit::ui::ThemeColor::MonitorText);
    assert!(flux_label_shakes("flux 1x", 2));
    assert!(!flux_label_shakes("flux 2x", 2));
    assert!(!flux_label_shakes("", 2));
    assert_eq!(flux_display_border(Phase::Reactor), flux_pursuit::ui::ThemeColor::MonitorText);
    assert_eq!(flux_display_border(Phase::Helm), flux_pursuit::ui::ThemeColor::MonitorDimText);
}

#[test]
fn storage_tooltip_counts_each_kind() {
    let storage = vec![
        Module::new(ModuleAction::Nothing, ModuleAction::Missile),
        Module::new(ModuleAction::Missile, ModuleAction::Missile),
        Module::new(ModuleAction::Laser, ModuleAction::Repair),
    ];
    assert_eq!(
        storage_tooltip(&storage),
        "[b]Storage[r]\n\nThere are 3 reactor modules remaining to draw:\n\n- 1 [b]starter[r]\n- 1 [b]repair[r]\n- 2 [b]missiles[r]\n- 1 [b]laser[r]\n- 0 [b]fireballs[r]"
    );
    let one = vec![Module::new(ModuleAction::Fireball, ModuleAction::Fireball)];
    assert_eq!(
        storage_tooltip(&one),
        "[b]Storage[r]\n\nThere is 1 reactor module remaining to draw:\n\n- 0 [b]starters[r]\n- 0 [b]repairs[r]\n- 0 [b]missiles[r]\n- 0 [b]lasers[r]\n- 1 [b]fireball[r]"
    );
}

#[test]
fn storage_display_tooltip_follows_the_configured_actions() {
    let storage = vec![
        Module::new(ModuleAction::Nothing, ModuleAction::Laser),
        Module::new(ModuleAction::Laser, ModuleAction::Laser),
    ];
    let actions = vec![ModuleAction::Laser, ModuleAction::Nothing];
    assert_eq!(
        sync_storage_display_tooltip(&storage, &actions),
        "[b]Storage[r]\n\nThere are 2 reactor modules remaining to draw:\n\n- 2 [b]lasers[r]\n- 1 [b]starter[r]"
    );
    assert_eq!(
        sync_storage_display_tooltip(&vec![], &vec![]),
        "[b]Storage[r]\n\nThere are 0 reactor modules remaining to draw:\n\n"
    );
}

#[test]
fn storage_label_and_shake() {
    let mut deck = PlayerDeck::new();
    deck.storage = vec![Module::empty(); 12];
    assert_eq!(storage_label(&deck), "12");
    deck.just_used_storage = true;
    assert!(take_storage_shake(&mut deck));
    assert!(!deck.just_used_storage);
    assert!(!take_storage_shake(&mut deck));
}

#[test]
fn phase_display_follows_the_phase() {
    assert_eq!(phase_display_image(Phase::Setup), ImageKey::PhaseSetup);
    assert_eq!(phase_display_image(Phase::Helm), ImageKey::PhasePlayer);
    assert_eq!(phase_display_image(Phase::Player), ImageKey::PhaseReactor);
    assert_eq!(phase_display_image(Phase::Enemy), ImageKey::PhaseEnemy);
    assert_eq!(
        phase_display_tooltip(Phase::Helm),
        "[b]Player phase[r]\n\nClick here to end your turn."
    );
    assert!(!phase_display_disabled(Phase::Helm));
    assert!(phase_display_disabled(Phase::Enemy));
}

#[test]
fn phase_display_glows_when_nothing_can_be_played() {
    let mut deck = PlayerDeck::new();
    assert!(phase_display_glows(Phase::Helm, &deck));
    assert!(!phase_display_glows(Phase::Reactor, &deck));
    deck.hand = vec![Module::new(ModuleAction::Nothing, ModuleAction::Laser)];
    deck.reactor = vec![Module { status: ModuleStatus::SlotInactive, ..Module::empty() }; 2];
    assert!(phase_display_glows(Phase::Helm, &deck));
    deck.reactor[1] = Module::empty();
    assert!(!phase_display_glows(Phase::Helm, &deck));
}

#[test]
fn hand_interactions() {
    let mut deck = PlayerDeck::new();
    deck.hand = vec![Module::new(ModuleAction::Nothing, ModuleAction::Laser); 3];
    assert!(select_module_on_hover(&mut deck, 2));
    assert_eq!(deck.hand_idx, 2);
    assert!(!select_module_on_hover(&mut deck, 2));
    assert_eq!(play_or_discard_module_on_click(PointerButton::Primary), Some(HelmActions::PlayModule));
    assert_eq!(
        play_or_discard_module_on_click(PointerButton::Secondary),
        Some(HelmActions::DiscardModule)
    );
    assert_eq!(play_or_discard_module_on_click(PointerButton::Middle), None);
    assert_eq!(selected_offset(1, 1), Val::Vw(-200_000_000));
    assert_eq!(selected_offset(0, 1), Val::Zero);
}

#[test]
fn reactor_slot_interactions() {
    let mut deck = PlayerDeck::new();
    deck.reactor = vec![
        Module::empty(),
        Module { status: ModuleStatus::SlotInactive, ..Module::new(ModuleAction::Laser, ModuleAction::Laser) },
    ];
    assert!(!play_hover_sfx_on_hover(&deck, 0, false));
    assert!(play_hover_sfx_on_hover(&deck, 1, false));
    assert!(!play_hover_sfx_on_hover(&deck, 1, true));
    assert!(!discard_module_on_right_click(PointerButton::Primary, Phase::Helm, &mut deck, 1));
    assert!(!discard_module_on_right_click(PointerButton::Secondary, Phase::Enemy, &mut deck, 1));
    assert!(!discard_module_on_right_click(PointerButton::Secondary, Phase::Helm, &mut deck, 0));
    assert!(discard_module_on_right_click(PointerButton::Secondary, Phase::Helm, &mut deck, 1));
    assert_eq!(deck.reactor[1].status, ModuleStatus::SlotEmpty);
    assert_eq!(deck.storage.len(), 1);
}

#[test]
fn module_glow_follows_the_heat() {
    let hot = Module { status: ModuleStatus::SlotInactive, heat: 3, ..Module::empty() };
    assert_eq!(module_glow(&hot, 4), (3, 4));
    assert_eq!(module_glow(&Module { heat: 9, ..hot }, 4), (4, 4));
    assert_eq!(module_glow(&hot, 0), (1, 1));
    assert_eq!(module_glow(&Module { status: ModuleStatus::SlotOverheated, ..hot }, 4), (1, 1));
    assert_eq!(module_glow(&Module { status: ModuleStatus::SlotActive, ..hot }, 4), (0, 1));
    let b = module(&Module::new(ModuleAction::Missile, ModuleAction::Repair), 4);
    assert_eq!(b.parts[1], Part::Image(ImageKey::ModuleFaceUp));
    assert_eq!(b.children[0].parts[1], Part::Image(ImageKey::MissileConditionIcon));
    assert_eq!(b.children[1].parts[1], Part::Image(ImageKey::RepairEffectIcon));
    let down = module(&Module { status: ModuleStatus::FaceDown, ..Module::new(ModuleAction::Missile, ModuleAction::Repair) }, 4);
    assert_eq!(down.children[0].parts[1], Part::Image(ImageKey::NothingConditionIcon));
}

#[test]
fn reactor_grid_shows_each_slot_with_its_description() {
    let mut deck = PlayerDeck::new();
    deck.heat_capacity = 5;
    deck.flux = 3;
    deck.reactor = vec![
        Module::empty(),
        Module { status: ModuleStatus::SlotInactive, heat: 2, ..Module::new(ModuleAction::Laser, ModuleAction::Laser) },
    ];
    deck.last_touched_idx = Some(1);
    let slots = sync_reactor_grid(&deck);
    assert_eq!(slots.len(), 2);
    assert_eq!(slots[0].parts[5], Part::NodeShake);
    assert_eq!(slots[1].parts[5], Part::FluxShake(3));
    assert_eq!(
        slots[1].parts[7],
        Part::DynamicRichTooltip(Anchor::CenterRight, deck.reactor[1].description(5))
    );
    assert_eq!(
        slots[0].parts[7],
        Part::DynamicRichTooltip(Anchor::CenterRight, String::from("[b]Reactor module[r]\n\nEmpty slot"))
    );
    assert_eq!(slots[1].parts[8], Part::PlaysHoverSfx);
}

#[test]
fn the_hand_is_redrawn_with_the_selection_raised() {
    let mut deck = PlayerDeck::new();
    deck.hand = vec![
        Module::new(ModuleAction::Nothing, ModuleAction::Missile),
        Module::new(ModuleAction::Missile, ModuleAction::Laser),
    ];
    deck.hand_idx = 1;
    let regions = sync_hand(&deck);
    assert_eq!(regions.len(), 2);
    assert_eq!(regions[0].parts[0], Part::Name("ModuleInteractionRegion"));
    assert_eq!(
        regions[1].parts[4],
        Part::DynamicRichTooltip(Anchor::BottomCenter, String::from("[b]Missile[r] -> [b]Laser[r]"))
    );
    let raised = Part::Style(Style::Top(Val::Vw(-200_000_000)));
    assert!(!regions[0].children[0].parts.contains(&raised));
    assert!(regions[1].children[0].parts.contains(&raised));
    let display = sync_hand_display(&deck);
    assert_eq!(display.len(), 2);
    assert_eq!(display[0].parts[1], Part::Style(Style::Preset(flux_pursuit::ui::NodePreset::Column)));
}

#[test]
fn stats_grid_lists_the_counters() {
    let mut stats = Stats::new();
    stats.missiles_fired = 4;
    stats.total_repaired = 12;
    let b = stats_grid(&stats, String::from("3"));
    assert_eq!(b.children.len(), 16);
    assert_eq!(b.children[0].parts[0], Part::Label(LabelKind::SmallLabel, "[b]Levels Completed:"));
    assert_eq!(b.children[1].parts[0], Part::DynamicLabel(LabelKind::SmallLabel, String::from("3")));
    assert_eq!(b.children[3].parts[0], Part::DynamicLabel(LabelKind::SmallLabel, String::from("4")));
    assert_eq!(b.children[9].parts[0], Part::DynamicLabel(LabelKind::SmallLabel, String::from("12")));
    assert_eq!(b.children[15].parts[0], Part::DynamicLabel(LabelKind::SmallLabel, String::from("0")));
}
