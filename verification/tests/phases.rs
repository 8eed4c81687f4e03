use flux_pursuit::game::phase::helm::helm_action_enabled;
use flux_pursuit::game::deck::EnemyDeck;
use flux_pursuit::game::deck::PlayerDeck;
use flux_pursuit::game::module::Module;
use flux_pursuit::game::module::ModuleAction;
use flux_pursuit::game::module::ModuleStatus;
use flux_pursuit::game::phase::enemy::reset_step_timer_for_enemy;
use flux_pursuit::game::phase::enemy::step_enemy_phase;
use flux_pursuit::game::phase::enemy::DeathOscillation;
use flux_pursuit::game::phase::enemy::EnemyPhaseStep;
use flux_pursuit::game::phase::helm::helm_bindings;
use flux_pursuit::game::phase::helm::helm_discard_module;
use flux_pursuit::game::phase::helm::helm_end_turn;
use flux_pursuit::game::phase::helm::helm_is_empty;
use flux_pursuit::game::phase::helm::helm_phase_actions;
use flux_pursuit::game::phase::helm::helm_play_module;
use flux_pursuit::game::phase::helm::HelmActions;
use flux_pursuit::game::phase::is_new_round;
use flux_pursuit::game::phase::increment_round;
use flux_pursuit::game::phase::increment_step;
use flux_pursuit::game::phase::phase_change_sfx;
use flux_pursuit::game::phase::player::reset_step_timer_for_player;
use flux_pursuit::game::phase::player::step_player_phase;
use flux_pursuit::game::phase::reactor::step_reactor_phase;
use flux_pursuit::game::phase::setup::step_setup_phase;
use flux_pursuit::game::phase::Cooldown;
use flux_pursuit::game::phase::Phase;
use flux_pursuit::game::phase::PhaseStep;
use flux_pursuit::game::phase::Round;
use flux_pursuit::game::phase::Step;
use flux_pursuit::game::stats::Stats;
use flux_pursuit::assets::SoundKey;
use flux_pursuit::input::InputButton;

fn inactive(condition: ModuleAction, effect: ModuleAction) -> Module {
    Module { status: ModuleStatus::SlotInactive, ..Module::new(condition, effect) }
}

#[test]
fn the_round_starts_at_the_helm() {
    assert_eq!(Phase::default(), Phase::Helm);
}

#[test]
fn rounds_count_from_enemy_to_setup() {
    assert!(is_new_round(Phase::Enemy, Phase::Setup));
    assert!(!is_new_round(Phase::Setup, Phase::Enemy));
    assert!(!is_new_round(Phase::Helm, Phase::Setup));
    let mut round = Round(2);
    increment_round(&mut round);
    assert_eq!(round.0, 3);
    let mut step = Step(1);
    increment_step(&mut step, 2);
    assert_eq!(step.0, 3);
}

#[test]
fn phase_changes_play_a_sound_except_when_the_level_starts() {
    assert_eq!(phase_change_sfx(false), Some(SoundKey::PhaseChange));
    assert_eq!(phase_change_sfx(true), None);
}

#[test]
fn reactor_phase_powers_the_chain_then_hands_over() {
    let mut deck = PlayerDeck::new();
    deck.reactor = vec![
        inactive(ModuleAction::Nothing, ModuleAction::Laser),
        inactive(ModuleAction::Laser, ModuleAction::Repair),
        inactive(ModuleAction::Fireball, ModuleAction::Missile),
    ];
    let mut stats = Stats::new();
    assert_eq!(step_reactor_phase(&mut deck, &mut stats), PhaseStep::Wait(Cooldown::Decayed(0)));
    assert_eq!(stats.highest_flux, 1);
    assert_eq!(step_reactor_phase(&mut deck, &mut stats), PhaseStep::Wait(Cooldown::Last));
    assert_eq!(stats.highest_flux, 2);
    assert_eq!(step_reactor_phase(&mut deck, &mut stats), PhaseStep::Enter(Phase::Player));
    assert_eq!(stats.highest_flux, 2);
}

#[test]
fn player_phase_fires_each_queued_action() {
    let mut deck = PlayerDeck::new();
    deck.heat_capacity = 10;
    deck.reactor = vec![
        inactive(ModuleAction::Nothing, ModuleAction::Laser),
        inactive(ModuleAction::Laser, ModuleAction::Repair),
    ];
    let mut stats = Stats::new();
    step_reactor_phase(&mut deck, &mut stats);
    step_reactor_phase(&mut deck, &mut stats);
    assert_eq!(reset_step_timer_for_player(&deck), Cooldown::First);
    let step = Step(4);
    assert_eq!(
        step_player_phase(&mut deck, &step),
        (PhaseStep::Wait(Cooldown::Decayed(4)), Some(ModuleAction::Laser))
    );
    assert_eq!(
        step_player_phase(&mut deck, &step),
        (PhaseStep::Wait(Cooldown::Last), Some(ModuleAction::Repair))
    );
    assert_eq!(reset_step_timer_for_player(&deck), Cooldown::Zero);
    assert_eq!(step_player_phase(&mut deck, &step), (PhaseStep::Enter(Phase::Enemy), None));
}

#[test]
fn setup_phase_draws_until_full() {
    let mut rng = rand::thread_rng();
    let mut deck = PlayerDeck::new();
    deck.hand_size = 2;
    deck.storage = vec![
        Module::new(ModuleAction::Nothing, ModuleAction::Missile),
        Module::new(ModuleAction::Missile, ModuleAction::Laser),
        Module::new(ModuleAction::Laser, ModuleAction::Fireball),
    ];
    let step = Step(0);
    assert_eq!(step_setup_phase(&mut deck, &mut rng, &step), PhaseStep::Wait(Cooldown::Decayed(0)));
    assert_eq!(step_setup_phase(&mut deck, &mut rng, &step), PhaseStep::Wait(Cooldown::Last));
    assert_eq!(step_setup_phase(&mut deck, &mut rng, &step), PhaseStep::Enter(Phase::Player));
    assert_eq!(deck.hand.len(), 2);
}

#[test]
fn enemy_phase_acts_then_hands_over_to_setup() {
    let mut deck = EnemyDeck::new();
    deck.actions = vec![ModuleAction::Missile, ModuleAction::Laser];
    deck.action_limit = 2;
    let round = Round(0);
    assert_eq!(reset_step_timer_for_enemy(&round, &deck, false), Cooldown::First);
    assert_eq!(reset_step_timer_for_enemy(&round, &deck, true), Cooldown::Zero);
    let step = Step(0);
    assert_eq!(
        step_enemy_phase(1, &round, &step, false, DeathOscillation::Calm, &mut deck),
        EnemyPhaseStep::Act(ModuleAction::Missile, Cooldown::Decayed(0))
    );
    let step = Step(1);
    assert_eq!(
        step_enemy_phase(1, &round, &step, false, DeathOscillation::Calm, &mut deck),
        EnemyPhaseStep::Act(ModuleAction::Laser, Cooldown::Last)
    );
    assert_eq!(
        step_enemy_phase(1, &round, &step, false, DeathOscillation::Calm, &mut deck),
        EnemyPhaseStep::Enter(Phase::Setup)
    );
}

#[test]
fn a_dead_enemy_flees_or_explodes_on_the_final_level() {
    let mut deck = EnemyDeck::new();
    deck.actions = vec![ModuleAction::Missile];
    let round = Round(0);
    let step = Step(0);
    assert_eq!(
        step_enemy_phase(3, &round, &step, true, DeathOscillation::Calm, &mut deck),
        EnemyPhaseStep::Flee
    );
    assert_eq!(
        step_enemy_phase(9, &round, &step, true, DeathOscillation::Calm, &mut deck),
        EnemyPhaseStep::StartFirstOscillation
    );
    assert_eq!(
        step_enemy_phase(9, &round, &step, true, DeathOscillation::First, &mut deck),
        EnemyPhaseStep::StartSecondOscillation
    );
    assert_eq!(
        step_enemy_phase(9, &round, &step, true, DeathOscillation::Second, &mut deck),
        EnemyPhaseStep::Explode
    );
    assert_eq!(deck.action_idx, 0);
}

#[test]
fn helm_bindings_cover_every_action() {
    let b = helm_bindings();
    assert_eq!(b.len(), 15);
    assert_eq!(b[0], (HelmActions::SelectLeft, InputButton::DPadLeft));
    assert_eq!(b[14], (HelmActions::EndTurn, InputButton::KeyE));
    assert_eq!(
        helm_phase_actions(),
        vec![HelmActions::PlayModule, HelmActions::DiscardModule, HelmActions::EndTurn]
    );
}

#[test]
fn helm_play_and_discard() {
    let mut rng = rand::thread_rng();
    let mut deck = PlayerDeck::new();
    assert!(helm_is_empty(&deck));
    deck.hand = vec![
        Module::new(ModuleAction::Nothing, ModuleAction::Missile),
        Module::new(ModuleAction::Missile, ModuleAction::Laser),
    ];
    deck.reactor = vec![Module::empty()];
    assert!(!helm_is_empty(&deck));
    assert_eq!(helm_play_module(&mut deck), Some(Phase::Reactor));
    assert_eq!(helm_play_module(&mut deck), None);
    assert_eq!(helm_discard_module(&mut deck, &mut rng), (true, Some(Phase::Reactor)));
    assert_eq!(helm_discard_module(&mut deck, &mut rng), (false, None));
    assert_eq!(helm_end_turn(), Phase::Reactor);
}

#[test]
fn helm_actions_are_enabled_at_the_helm_unless_paused() {
    for action in [HelmActions::PlayModule, HelmActions::DiscardModule, HelmActions::EndTurn] {
        assert!(!helm_action_enabled(action, None, false));
        assert!(helm_action_enabled(action, Some(Phase::Helm), false));
        assert!(!helm_action_enabled(action, Some(Phase::Reactor), false));
        assert!(!helm_action_enabled(action, Some(Phase::Helm), true));
    }
    for action in [HelmActions::SelectLeft, HelmActions::SelectRight] {
        assert!(helm_action_enabled(action, None, false));
        assert!(helm_action_enabled(action, Some(Phase::Enemy), false));
        assert!(!helm_action_enabled(action, Some(Phase::Enemy), true));
    }
}
