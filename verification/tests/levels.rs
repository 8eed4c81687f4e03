use flux_pursuit::animation::oscillate::Oscillate;
use flux_pursuit::animation::post_transform_order;
use flux_pursuit::animation::PostTransformSystems;
use flux_pursuit::animation::PostUpdateSet;
use flux_pursuit::assets::ImageKey;
use flux_pursuit::assets::SoundKey;
use flux_pursuit::ecs::EntityId;
use flux_pursuit::game::deck::DeckConfig;
use flux_pursuit::game::deck::EnemyDeck;
use flux_pursuit::game::deck::PlayerDeck;
use flux_pursuit::game::level::background;
use flux_pursuit::game::level::set_up_decks;
use flux_pursuit::game::level::spawn_level;
use flux_pursuit::game::level::Level;
use flux_pursuit::game::level::LevelConfig;
use flux_pursuit::game::level::LevelSetup;
use flux_pursuit::game::module::Module;
use flux_pursuit::game::module::ModuleAction;
use flux_pursuit::game::module::OnModuleAction;
use flux_pursuit::game::ship::enemy_ship;
use flux_pursuit::game::ship::lose_level;
use flux_pursuit::game::ship::player_ship;
use flux_pursuit::game::ship::win_level;
use flux_pursuit::game::ship::ShipConfig;
use flux_pursuit::game::turn::fire_enemy_missile;
use flux_pursuit::game::turn::player_actions_after;
use flux_pursuit::game::turn::player_bindings;
use flux_pursuit::game::turn::player_play_module;
use flux_pursuit::game::turn::player_select_left;
use flux_pursuit::game::turn::update_turn;
use flux_pursuit::game::turn::PlayerActionsEdge;
use flux_pursuit::game::turn::Turn;
use flux_pursuit::menu::Menu;
use flux_pursuit::ui::Part;

fn ship_config() -> ShipConfig {
    ShipConfig {
        player_weapons: vec![(100, 0), (-100, 0)],
        player_health_bar_offset: (0, 500),
        player_health_bar_size: (2000, 100),
        player_speed_max: 9000,
        enemy_weapons: vec![(0, 50)],
        enemy_health_bar_offset: (0, 700),
        enemy_health_bar_size: (3000, 100),
        enemy_oscillate_amplitude: (1, 2),
        enemy_oscillate_phase: (3, 4),
        enemy_oscillate_rate: (5, 6),
    }
}

fn level_setup(actions: Vec<ModuleAction>, enemy_health: i64) -> LevelSetup {
    let mut enemy_deck = EnemyDeck::new();
    enemy_deck.actions = actions;
    LevelSetup {
        enemy_deck,
        enemy_health,
        reward_max_health: 0,
        reward_heat_capacity: 0,
        reward_reactor_slots: 0,
    }
}

#[test]
fn levels_start_at_zero() {
    assert_eq!(Level::default(), Level(0));
    assert_eq!(flux_pursuit::level::Level::default(), flux_pursuit::level::Level(0));
}

#[test]
fn the_first_level_deals_both_decks() {
    let mut first = PlayerDeck::new();
    first.name = String::from("Starter");
    first.max_health = 40;
    let deck_config = DeckConfig { player_decks: vec![first] };
    let level_config = LevelConfig {
        levels: vec![
            level_setup(vec![ModuleAction::Missile], 20),
            level_setup(vec![ModuleAction::Laser], 30),
        ],
    };
    let mut player = PlayerDeck::new();
    let mut enemy = EnemyDeck::new();
    set_up_decks(0, &level_config, &deck_config, &mut player, &mut enemy);
    assert_eq!(player.name, "Starter");
    assert_eq!(player.max_health, 40);
    assert_eq!(enemy.actions, vec![ModuleAction::Missile]);
    player.max_health = 55;
    set_up_decks(1, &level_config, &deck_config, &mut player, &mut enemy);
    assert_eq!(player.max_health, 55);
    assert_eq!(enemy.actions, vec![ModuleAction::Laser]);
    set_up_decks(5, &level_config, &deck_config, &mut player, &mut enemy);
    assert_eq!(enemy.actions, vec![ModuleAction::Laser]);
}

#[test]
fn backgrounds_cycle_back_to_the_first() {
    assert_eq!(background(3).parts[1], Part::SpriteImage(ImageKey::BgLevel3));
    assert_eq!(background(9).parts[1], Part::SpriteImage(ImageKey::BgLevel9));
    assert_eq!(background(12).parts[1], Part::SpriteImage(ImageKey::BgLevel0));
    assert_eq!(background(0).children[0].parts[0], Part::Name("DimmingOverlay"));
}

#[test]
fn spawning_a_level() {
    let level_config = LevelConfig { levels: vec![level_setup(vec![], 25)] };
    let mut deck = PlayerDeck::new();
    deck.max_health = 40;
    assert!(spawn_level(1, &level_config, &ship_config(), &deck).is_none());
    let spawned = spawn_level(0, &level_config, &ship_config(), &deck).unwrap();
    assert_eq!(spawned.len(), 4);
    assert_eq!(spawned[1].blueprint.parts[0], Part::Name("Hud"));
    assert_eq!(spawned[2].blueprint.parts[3], Part::Health(flux_pursuit::combat::health::Health { max: 40, current: 40 }));
    assert_eq!(spawned[3].blueprint.parts[3], Part::Health(flux_pursuit::combat::health::Health { max: 25, current: 25 }));
    assert_eq!(spawned[3].extra[0], Part::DespawnOnExitLevel);
}

#[test]
fn ships_carry_their_weapons() {
    let config = ship_config();
    let player = player_ship(&config, 40);
    assert_eq!(player.children.len(), 2);
    let body = &player.children[1];
    assert_eq!(body.children.len(), 2);
    assert_eq!(body.children[1].parts[2], Part::Translation(-100, 0, -10_000_000));
    assert_eq!(body.children[1].parts[3], Part::TurnRotation(1, 4));
    let enemy = enemy_ship(&config, 25);
    assert_eq!(enemy.children.len(), 2);
    assert_eq!(enemy.children[1].parts[3], Part::TurnRotation(3, 4));
    assert_eq!(enemy.parts[10], Part::Oscillate(Oscillate::new((1, 2), (3, 4), (5, 6))));
}

#[test]
fn the_level_ends_when_a_ship_dies() {
    assert_eq!(win_level(9), Menu::Victory);
    assert_eq!(win_level(3), Menu::LevelUp);
    assert_eq!(lose_level(), Menu::Defeat);
    assert_eq!(flux_pursuit::level::win_level_on_enemy_escape(), (SoundKey::ShipDeath, Menu::Upgrade));
}

#[test]
fn level_label_shows_the_name() {
    let setup = flux_pursuit::level::LevelSetup { name: String::from("Nebula"), enemy_deck: EnemyDeck::new() };
    let s = flux_pursuit::level::level_label(&setup);
    assert_eq!(
        s.blueprint.parts[0],
        Part::DynamicLabel(flux_pursuit::ui::LabelKind::TinyLabel, String::from("[b]Nebula"))
    );
    assert_eq!(s.extra.last(), Some(&Part::DespawnOnExitLevel));
}

#[test]
fn turns_pass_from_the_reactor_to_the_enemy_to_the_player() {
    assert_eq!(Turn::default(), Turn::Player);
    assert_eq!(update_turn(Turn::Reactor), Some(Turn::Enemy));
    assert_eq!(update_turn(Turn::Enemy), Some(Turn::Player));
    assert_eq!(update_turn(Turn::Player), None);
    assert_eq!(
        fire_enemy_missile(EntityId(2), EntityId(1)),
        OnModuleAction { action: ModuleAction::Missile, source: EntityId(2), target: EntityId(1) }
    );
    assert_eq!(player_bindings().len(), 12);
}

#[test]
fn playing_a_module_hands_the_turn_to_the_reactor() {
    let mut deck = PlayerDeck::new();
    deck.hand = vec![Module::new(ModuleAction::Nothing, ModuleAction::Laser); 2];
    deck.hand_idx = 1;
    deck.reactor = vec![Module::empty()];
    player_select_left(&mut deck);
    assert_eq!(deck.hand_idx, 0);
    assert_eq!(player_play_module(&mut deck), Turn::Reactor);
    assert_eq!(deck.hand.len(), 1);
}

#[test]
fn player_actions_follow_the_turn_and_pauses_in_it() {
    for enabled in [false, true] {
        assert!(player_actions_after(enabled, PlayerActionsEdge::EnterPlayerTurn, true));
        assert!(!player_actions_after(enabled, PlayerActionsEdge::LeavePlayerTurn, false));
        assert!(!player_actions_after(enabled, PlayerActionsEdge::Pause, true));
        assert!(player_actions_after(enabled, PlayerActionsEdge::Resume, true));
        assert_eq!(player_actions_after(enabled, PlayerActionsEdge::Pause, false), enabled);
        assert_eq!(player_actions_after(enabled, PlayerActionsEdge::Resume, false), enabled);
    }
    let mut e = player_actions_after(false, PlayerActionsEdge::EnterPlayerTurn, true);
    e = player_actions_after(e, PlayerActionsEdge::Pause, true);
    assert!(!e);
    e = player_actions_after(e, PlayerActionsEdge::Resume, true);
    assert!(e);
    e = player_actions_after(e, PlayerActionsEdge::LeavePlayerTurn, false);
    assert!(!e);
}

#[test]
fn playing_without_a_free_slot_ignores_the_selection() {
    let mut deck = PlayerDeck::new();
    deck.hand = vec![Module::new(ModuleAction::Nothing, ModuleAction::Laser)];
    deck.hand_idx = 5;
    assert_eq!(player_play_module(&mut deck), Turn::Reactor);
    assert_eq!(deck.hand.len(), 1);
    assert_eq!(deck.hand_idx, 5);
    assert!(deck.reactor.is_empty());
}

#[test]
fn oscillation_moves_by_the_change_of_offset() {
    let mut o = Oscillate::new((10, 10), (0, 0), (1, 1));
    assert_eq!(o.apply((5, -3)), (5, -3));
    assert_eq!(o.apply((2, 4)), (-3, 7));
    assert_eq!(o.applied, (2, 4));
}

#[test]
fn transforms_are_post_processed_in_order() {
    let order = post_transform_order();
    assert_eq!(order[0], PostUpdateSet::BackupSave);
    assert_eq!(order[4], PostUpdateSet::Transform(PostTransformSystems::Finish));
}

#[test]
fn the_named_level_spawns_seven_roots() {
    let config = flux_pursuit::level::LevelConfig {
        levels: vec![flux_pursuit::level::LevelSetup { name: String::from("Drift"), enemy_deck: EnemyDeck::new() }],
    };
    let mut deck = PlayerDeck::new();
    deck.max_health = 30;
    assert!(flux_pursuit::level::spawn_level(2, &config, &ship_config(), &deck, 20).is_none());
    let spawned = flux_pursuit::level::spawn_level(0, &config, &ship_config(), &deck, 20).unwrap();
    assert_eq!(spawned.len(), 7);
    assert_eq!(spawned[0].blueprint.parts[0], Part::Name("Background"));
    assert_eq!(spawned[1].blueprint.parts[0], Part::Name("Hud"));
    assert_eq!(
        spawned[2].blueprint.parts[0],
        Part::DynamicLabel(flux_pursuit::ui::LabelKind::TinyLabel, String::from("[b]Drift"))
    );
    assert_eq!(spawned[3].blueprint.parts[0], Part::Name("Toaster"));
    assert_eq!(spawned[4].blueprint.parts[3], Part::Health(flux_pursuit::combat::health::Health { max: 30, current: 30 }));
    assert_eq!(spawned[5].blueprint.parts[3], Part::Health(flux_pursuit::combat::health::Health { max: 20, current: 20 }));
    assert_eq!(spawned[6].blueprint.parts[0], Part::Name("EnemyEscapeSensor"));
}
