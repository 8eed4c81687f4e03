use flux_pursuit::game::deck::EnemyDeck;
use flux_pursuit::game::deck::PlayerDeck;
use flux_pursuit::game::module::Module;
use flux_pursuit::game::module::ModuleAction;
use flux_pursuit::game::module::ModuleStatus;

fn face_up(condition: ModuleAction, effect: ModuleAction) -> Module {
    Module::new(condition, effect)
}

fn slot(status: ModuleStatus) -> Module {
    Module { status, ..Module::empty() }
}

fn empty_reactor(n: usize) -> Vec<Module> {
    (0..n).map(|_| Module::empty()).collect()
}

fn counts(modules: &[Module]) -> Vec<(ModuleAction, ModuleAction)> {
    let mut v: Vec<(ModuleAction, ModuleAction)> =
        modules.iter().map(|m| (m.condition, m.effect)).collect();
    v.sort_by_key(|(c, e)| (*c as u8, *e as u8));
    v
}

#[test]
fn advance_selected_stays_inside_the_hand() {
    let mut deck = PlayerDeck::new();
    deck.hand = vec![
        face_up(ModuleAction::Nothing, ModuleAction::Missile),
        face_up(ModuleAction::Missile, ModuleAction::Laser),
        face_up(ModuleAction::Laser, ModuleAction::Repair),
    ];
    deck.hand_idx = 1;
    deck.advance_selected(1);
    assert_eq!(deck.hand_idx, 2);
    deck.advance_selected(1);
    assert_eq!(deck.hand_idx, 2);
    deck.advance_selected(-1);
    deck.advance_selected(-1);
    deck.advance_selected(-1);
    assert_eq!(deck.hand_idx, 0);
}

#[test]
fn advance_selected_on_an_empty_hand_stays_at_zero() {
    let mut deck = PlayerDeck::new();
    deck.advance_selected(5);
    assert_eq!(deck.hand_idx, 0);
}

#[test]
fn draw_from_idx_swaps_the_last_module_in() {
    let mut deck = PlayerDeck::new();
    let a = face_up(ModuleAction::Nothing, ModuleAction::Missile);
    let b = face_up(ModuleAction::Missile, ModuleAction::Laser);
    let c = face_up(ModuleAction::Laser, ModuleAction::Fireball);
    deck.storage = vec![a, b, c];
    deck.draw_from_idx(0);
    assert_eq!(deck.hand, vec![a]);
    assert_eq!(deck.storage, vec![c, b]);
    assert!(deck.just_used_storage);
}

#[test]
fn discard_module_returns_the_slot_to_storage() {
    let mut deck = PlayerDeck::new();
    deck.reactor = vec![Module {
        condition: ModuleAction::Missile,
        effect: ModuleAction::Laser,
        status: ModuleStatus::SlotInactive,
        heat: 3,
    }];
    deck.discard_module(0);
    assert_eq!(deck.reactor[0].status, ModuleStatus::SlotEmpty);
    assert_eq!(deck.storage, vec![face_up(ModuleAction::Missile, ModuleAction::Laser)]);
    assert!(deck.just_used_storage);
}

#[test]
fn discard_module_of_an_empty_slot_does_nothing() {
    let mut deck = PlayerDeck::new();
    deck.reactor = empty_reactor(2);
    deck.discard_module(1);
    assert!(deck.storage.is_empty());
    assert!(!deck.just_used_storage);
}

#[test]
fn play_selected_fills_the_first_empty_slot() {
    let mut deck = PlayerDeck::new();
    let a = face_up(ModuleAction::Nothing, ModuleAction::Missile);
    let b = face_up(ModuleAction::Missile, ModuleAction::Laser);
    deck.hand = vec![a, b];
    deck.hand_idx = 1;
    deck.reactor = vec![slot(ModuleStatus::SlotInactive), Module::empty(), Module::empty()];
    assert!(deck.play_selected());
    assert_eq!(deck.hand, vec![a]);
    assert_eq!(deck.hand_idx, 0);
    assert_eq!(deck.reactor[1], Module { status: ModuleStatus::SlotInactive, ..b });
    assert_eq!(deck.last_touched_idx, Some(1));
}

#[test]
fn play_selected_prefers_an_overheated_slot_and_stores_it() {
    let mut deck = PlayerDeck::new();
    let a = face_up(ModuleAction::Laser, ModuleAction::Repair);
    let hot = Module {
        condition: ModuleAction::Nothing,
        effect: ModuleAction::Fireball,
        status: ModuleStatus::SlotOverheated,
        heat: 9,
    };
    deck.hand = vec![a];
    deck.reactor = vec![Module::empty(), hot];
    assert!(deck.play_selected());
    assert_eq!(deck.reactor[1], Module { status: ModuleStatus::SlotInactive, ..a });
    assert_eq!(deck.storage, vec![face_up(ModuleAction::Nothing, ModuleAction::Fireball)]);
    assert!(deck.hand.is_empty());
}

#[test]
fn play_selected_fails_without_a_free_slot() {
    let mut deck = PlayerDeck::new();
    deck.hand = vec![face_up(ModuleAction::Nothing, ModuleAction::Missile)];
    deck.reactor = vec![slot(ModuleStatus::SlotInactive)];
    assert!(!deck.play_selected());
    assert_eq!(deck.hand.len(), 1);
    let mut empty = PlayerDeck::new();
    empty.reactor = empty_reactor(3);
    assert!(!empty.play_selected());
}

#[test]
fn discard_selected_moves_the_module_into_the_first_half_of_storage() {
    let mut rng = rand::thread_rng();
    for _ in 0..20 {
        let mut deck = PlayerDeck::new();
        let a = face_up(ModuleAction::Nothing, ModuleAction::Missile);
        let b = face_up(ModuleAction::Repair, ModuleAction::Repair);
        deck.hand = vec![a, b];
        deck.hand_idx = 1;
        deck.storage = vec![a, a, a, a];
        assert!(deck.discard_selected(&mut rng));
        assert_eq!(deck.hand, vec![a]);
        assert_eq!(deck.storage.len(), 5);
        let pos = deck.storage.iter().position(|m| *m == b).unwrap();
        assert!(pos <= 2);
        assert!(deck.just_used_storage);
    }
    let mut empty = PlayerDeck::new();
    assert!(!empty.discard_selected(&mut rng));
}

#[test]
fn step_reactor_follows_the_chain_of_actions() {
    let mut deck = PlayerDeck::new();
    deck.reactor = vec![
        Module {
            status: ModuleStatus::SlotInactive,
            ..face_up(ModuleAction::Missile, ModuleAction::Laser)
        },
        Module {
            status: ModuleStatus::SlotInactive,
            ..face_up(ModuleAction::Nothing, ModuleAction::Missile)
        },
        Module {
            status: ModuleStatus::SlotInactive,
            ..face_up(ModuleAction::Fireball, ModuleAction::Repair)
        },
    ];
    assert!(!deck.is_reactor_done());
    assert!(deck.step_reactor());
    assert_eq!(deck.reactor[1].status, ModuleStatus::SlotActive);
    assert_eq!(deck.reactor[1].heat, 1);
    assert_eq!(deck.chain, 1);
    assert_eq!(deck.flux, 1);
    assert_eq!(deck.last_action, ModuleAction::Missile);
    assert!(deck.step_reactor());
    assert_eq!(deck.reactor[0].status, ModuleStatus::SlotActive);
    assert_eq!(deck.reactor[0].heat, 2);
    assert_eq!(deck.chain, 2);
    assert_eq!(deck.flux, 2);
    assert_eq!(deck.last_action, ModuleAction::Laser);
    assert_eq!(deck.last_touched_idx, Some(0));
    assert!(deck.is_reactor_done());
    assert!(!deck.step_reactor());
    assert_eq!(deck.last_action, ModuleAction::Nothing);
    assert_eq!(deck.last_touched_idx, None);
    assert_eq!(deck.action_queue.iter().copied().collect::<Vec<_>>(), vec![1, 0]);
}

#[test]
fn step_player_fires_the_queue_then_resets_the_flux() {
    let mut deck = PlayerDeck::new();
    deck.heat_capacity = 1;
    deck.reactor = vec![
        Module {
            status: ModuleStatus::SlotInactive,
            ..face_up(ModuleAction::Missile, ModuleAction::Laser)
        },
        Module {
            status: ModuleStatus::SlotInactive,
            ..face_up(ModuleAction::Nothing, ModuleAction::Missile)
        },
        Module::empty(),
    ];
    assert!(deck.step_reactor());
    assert!(deck.step_reactor());
    assert!(!deck.is_player_done());
    assert_eq!(deck.step_player(), Some(ModuleAction::Missile));
    assert_eq!(deck.reactor[1].status, ModuleStatus::SlotInactive);
    assert_eq!(deck.step_player(), Some(ModuleAction::Laser));
    assert_eq!(deck.reactor[0].status, ModuleStatus::SlotOverheated);
    assert!(deck.is_player_done());
    assert_eq!(deck.step_player(), None);
    assert_eq!(deck.flux, 0);
    assert_eq!(deck.chain, 0);
    assert_eq!(deck.last_touched_idx, None);
}

#[test]
fn step_player_overheats_the_hottest_slot_when_the_reactor_is_full() {
    let mut deck = PlayerDeck::new();
    deck.reactor = vec![
        Module { heat: 4, ..slot(ModuleStatus::SlotInactive) },
        Module { heat: 7, ..slot(ModuleStatus::SlotInactive) },
        Module { heat: 7, ..slot(ModuleStatus::SlotInactive) },
    ];
    assert_eq!(deck.step_player(), None);
    assert_eq!(deck.reactor[0].status, ModuleStatus::SlotInactive);
    assert_eq!(deck.reactor[1].status, ModuleStatus::SlotOverheated);
    assert_eq!(deck.reactor[2].status, ModuleStatus::SlotInactive);
}

#[test]
fn setup_draws_until_the_hand_is_full() {
    let mut rng = rand::thread_rng();
    let mut deck = PlayerDeck::new();
    deck.hand_size = 2;
    deck.storage = vec![
        face_up(ModuleAction::Nothing, ModuleAction::Missile),
        face_up(ModuleAction::Missile, ModuleAction::Laser),
        face_up(ModuleAction::Laser, ModuleAction::Fireball),
    ];
    assert!(!deck.is_setup_done());
    assert!(deck.step_setup(&mut rng));
    assert!(deck.step_setup(&mut rng));
    assert!(deck.is_setup_done());
    assert!(!deck.step_setup(&mut rng));
    assert_eq!(deck.hand.len(), 2);
    assert_eq!(deck.storage.len(), 1);
}

#[test]
fn draw_random_from_empty_storage_does_nothing() {
    let mut rng = rand::thread_rng();
    let mut deck = PlayerDeck::new();
    deck.draw_random(&mut rng);
    assert!(deck.hand.is_empty());
    assert!(!deck.just_used_storage);
}

#[test]
fn reset_returns_everything_and_deals_the_weapons_first() {
    let mut rng = rand::thread_rng();
    let weapon = face_up(ModuleAction::Nothing, ModuleAction::Missile);
    let other = face_up(ModuleAction::Missile, ModuleAction::Laser);
    let mut deck = PlayerDeck::new();
    deck.hand_size = 3;
    deck.weapons = vec![weapon];
    deck.storage = vec![other, other, weapon, other];
    deck.hand = vec![other];
    deck.reactor = vec![
        Module { heat: 5, ..Module { status: ModuleStatus::SlotActive, ..other } },
        Module::empty(),
    ];
    deck.flux = 4;
    deck.chain = 3;
    deck.action_queue.push_back(0);
    deck.last_action = ModuleAction::Laser;
    deck.last_touched_idx = Some(0);
    let before: Vec<Module> = deck
        .storage
        .iter()
        .chain(deck.hand.iter())
        .copied()
        .chain(std::iter::once(other))
        .collect();
    deck.reset(&mut rng);
    assert!(deck.reactor.iter().all(|m| m.status == ModuleStatus::SlotEmpty));
    assert_eq!(deck.hand.len(), 3);
    assert_eq!(deck.hand[0], weapon);
    assert_eq!(deck.hand_idx, 1);
    assert_eq!(deck.flux, 0);
    assert_eq!(deck.chain, 0);
    assert!(deck.action_queue.is_empty());
    assert_eq!(deck.last_action, ModuleAction::Nothing);
    assert_eq!(deck.last_touched_idx, None);
    let after: Vec<Module> = deck.storage.iter().chain(deck.hand.iter()).copied().collect();
    assert_eq!(counts(&after), counts(&before));
}

#[test]
fn duplicate_copies_the_deck() {
    let mut deck = PlayerDeck::new();
    deck.name = String::from("Scout");
    deck.max_health = 30;
    deck.storage = vec![face_up(ModuleAction::Repair, ModuleAction::Fireball)];
    deck.action_queue.push_back(2);
    let copy = deck.duplicate();
    assert_eq!(copy.name, "Scout");
    assert_eq!(copy.max_health, 30);
    assert_eq!(copy.storage, deck.storage);
    assert_eq!(copy.action_queue, deck.action_queue);
}

fn enemy(actions: Vec<ModuleAction>, action_limit: usize) -> EnemyDeck {
    let mut deck = EnemyDeck::new();
    deck.actions = actions;
    deck.action_limit = action_limit;
    deck
}

#[test]
fn enemy_default_deck_is_empty_with_a_limit_of_one() {
    let deck = EnemyDeck::default();
    assert_eq!(deck.flux, 0);
    assert!(deck.actions.is_empty());
    assert_eq!(deck.action_idx, 0);
    assert_eq!(deck.action_limit, 1);
}

#[test]
fn enemy_round_performs_limit_plus_round_actions() {
    let actions = vec![
        ModuleAction::Missile,
        ModuleAction::Laser,
        ModuleAction::Fireball,
        ModuleAction::Repair,
    ];
    let mut deck = enemy(actions, 1);
    assert_eq!(deck.step(0), Some(ModuleAction::Missile));
    assert_eq!(deck.flux, 1);
    assert!(deck.is_done(0));
    assert_eq!(deck.step(0), None);
    assert_eq!(deck.flux, 0);
    assert_eq!(deck.action_idx, 0);
    assert_eq!(deck.step(2), Some(ModuleAction::Missile));
    assert_eq!(deck.step(2), Some(ModuleAction::Laser));
    assert_eq!(deck.step(2), Some(ModuleAction::Fireball));
    assert_eq!(deck.flux, 3);
    assert_eq!(deck.step(2), None);
    assert_eq!(deck.step(10), Some(ModuleAction::Missile));
    deck.step(10);
    deck.step(10);
    assert_eq!(deck.step(10), Some(ModuleAction::Repair));
    assert!(deck.is_done(10));
    assert_eq!(deck.step(10), None);
}

#[test]
fn enemy_reset_restores_the_default() {
    let mut deck = enemy(vec![ModuleAction::Laser], 4);
    deck.step(0);
    deck.reset();
    assert!(deck.actions.is_empty());
    assert_eq!(deck.action_limit, 1);
    assert_eq!(deck.action_idx, 0);
    assert_eq!(deck.flux, 0);
}

fn all_modules(deck: &PlayerDeck) -> Vec<(ModuleAction, ModuleAction)> {
    let mut v: Vec<Module> = Vec::new();
    v.extend(deck.storage.iter().copied());
    v.extend(deck.hand.iter().copied());
    v.extend(deck.reactor.iter().copied().filter(|m| m.status != ModuleStatus::SlotEmpty));
    counts(&v)
}

#[test]
fn no_module_is_lost_or_duplicated_over_a_round() {
    let mut rng = rand::thread_rng();
    let mut deck = PlayerDeck::new();
    deck.hand_size = 3;
    deck.heat_capacity = 1;
    deck.storage = vec![
        face_up(ModuleAction::Nothing, ModuleAction::Missile),
        face_up(ModuleAction::Missile, ModuleAction::Laser),
        face_up(ModuleAction::Laser, ModuleAction::Repair),
        face_up(ModuleAction::Repair, ModuleAction::Fireball),
        face_up(ModuleAction::Nothing, ModuleAction::Laser),
    ];
    deck.reactor = empty_reactor(3);
    let before = all_modules(&deck);
    while deck.step_setup(&mut rng) {}
    assert_eq!(all_modules(&deck), before);
    deck.play_selected();
    deck.play_selected();
    assert_eq!(all_modules(&deck), before);
    deck.discard_selected(&mut rng);
    assert_eq!(all_modules(&deck), before);
    while deck.step_reactor() {}
    while deck.step_player().is_some() {}
    assert_eq!(all_modules(&deck), before);
    deck.discard_module(0);
    assert_eq!(all_modules(&deck), before);
    deck.reset(&mut rng);
    assert_eq!(all_modules(&deck), before);
}

#[test]
fn the_done_checks_agree_with_the_steps() {
    let mut deck = PlayerDeck::new();
    deck.reactor = vec![Module {
        status: ModuleStatus::SlotInactive,
        ..face_up(ModuleAction::Nothing, ModuleAction::Missile)
    }];
    assert_eq!(deck.is_reactor_done(), false);
    assert!(deck.step_reactor());
    assert!(deck.is_reactor_done());
    assert!(!deck.step_reactor());
    assert!(!deck.is_player_done());
    assert!(deck.step_player().is_some());
    assert!(deck.is_player_done());
    assert!(deck.step_player().is_none());
}

#[test]
fn powering_up_uses_one_inactive_slot_per_step() {
    let mut deck = PlayerDeck::new();
    deck.reactor = vec![
        Module { status: ModuleStatus::SlotInactive, ..face_up(ModuleAction::Nothing, ModuleAction::Nothing) },
        Module { status: ModuleStatus::SlotInactive, ..face_up(ModuleAction::Nothing, ModuleAction::Laser) },
        Module { status: ModuleStatus::SlotInactive, ..face_up(ModuleAction::Laser, ModuleAction::Missile) },
        Module::empty(),
    ];
    let inactive = |d: &PlayerDeck| d.reactor.iter().filter(|m| m.status == ModuleStatus::SlotInactive).count();
    let mut steps = 0;
    loop {
        let before = inactive(&deck);
        if !deck.step_reactor() {
            assert_eq!(inactive(&deck), before);
            break;
        }
        assert_eq!(inactive(&deck) + 1, before);
        steps += 1;
    }
    assert_eq!(steps, 3);
    let queued = deck.action_queue.len();
    assert!(deck.step_player().is_some());
    assert_eq!(deck.action_queue.len() + 1, queued);
}

#[test]
fn reset_returns_reactor_modules_face_up_and_cold() {
    let mut rng = rand::thread_rng();
    let hot = Module {
        condition: ModuleAction::Laser,
        effect: ModuleAction::Fireball,
        status: ModuleStatus::SlotOverheated,
        heat: 9,
    };
    let mut deck = PlayerDeck::new();
    deck.hand_size = 1;
    deck.reactor = vec![hot, Module::empty()];
    deck.reset(&mut rng);
    let all: Vec<Module> = deck.storage.iter().chain(deck.hand.iter()).copied().collect();
    assert_eq!(all, vec![face_up(ModuleAction::Laser, ModuleAction::Fireball)]);
}

#[test]
fn setup_steps_succeed_exactly_as_often_as_the_hand_has_room() {
    let mut rng = rand::thread_rng();
    for (storage, hand, size) in [(5usize, 1usize, 4usize), (2, 0, 5), (3, 4, 2), (0, 0, 3)] {
        let mut deck = PlayerDeck::new();
        deck.hand_size = size;
        deck.storage = vec![face_up(ModuleAction::Nothing, ModuleAction::Missile); storage];
        deck.hand = vec![face_up(ModuleAction::Laser, ModuleAction::Laser); hand];
        let mut successes = 0;
        while deck.step_setup(&mut rng) {
            successes += 1;
        }
        let expected = storage.min(size.saturating_sub(hand));
        assert_eq!(successes, expected);
        assert!(deck.is_setup_done());
        assert_eq!(deck.hand.len(), hand + expected);
    }
}

#[test]
fn enemy_flux_grows_by_one_per_action() {
    let mut deck = enemy(vec![ModuleAction::Missile, ModuleAction::Laser, ModuleAction::Repair], 3);
    deck.flux = 5;
    deck.step(0);
    assert_eq!(deck.flux, 6);
    deck.step(0);
    assert_eq!(deck.flux, 7);
    deck.step(0);
    assert_eq!(deck.flux, 8);
    assert_eq!(deck.step(0), None);
    assert_eq!(deck.flux, 0);
}

#[test]
fn selection_outside_an_empty_hand_is_accepted() {
    let mut deck = PlayerDeck::new();
    deck.hand_idx = 4;
    deck.reactor = vec![Module::empty()];
    assert!(!deck.play_selected());
    assert!(!deck.discard_selected(&mut rand::thread_rng()));
}
