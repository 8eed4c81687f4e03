use flux_pursuit::ecs::Schedule;
use flux_pursuit::ecs::UpdateStage;
use flux_pursuit::assets::SoundKey;
use flux_pursuit::audio::channel_of;
use flux_pursuit::audio::music_audio;
use flux_pursuit::audio::sfx_audio;
use flux_pursuit::audio::ui_audio;
use flux_pursuit::audio::volume_target;
use flux_pursuit::audio::AudioChannel;
use flux_pursuit::audio::Pitch;
use flux_pursuit::audio::PlaybackMode;
use flux_pursuit::audio::VolumeTarget;
use flux_pursuit::combat::death::despawn_on_death;
use flux_pursuit::combat::death::die_on_click;
use flux_pursuit::combat::death::mark_dead_on_death;
use flux_pursuit::combat::death::Dead;
use flux_pursuit::combat::faction::projectile_layers;
use flux_pursuit::combat::faction::Faction;
use flux_pursuit::combat::health::detect_death_from_health;
use flux_pursuit::combat::health::health_bar;
use flux_pursuit::combat::health::spawn_heal_popup_on_heal;
use flux_pursuit::combat::health::Health;
use flux_pursuit::ecs::AppPlan;
use flux_pursuit::ecs::AppStep;
use flux_pursuit::ecs::EntityId;
use flux_pursuit::game::combat::damage::damage_popup_anchor;
use flux_pursuit::game::combat::damage::damage_popup_text;
use flux_pursuit::game::combat::damage::deal_damage_on_collision;
use flux_pursuit::game::combat::damage::PopupAnchor;
use flux_pursuit::game::combat::damage::reduce_health_on_damage;
use flux_pursuit::game::combat::damage::Damage;
use flux_pursuit::game::combat::damage::Hit;
use flux_pursuit::game::combat::damage::OnDamage;
use flux_pursuit::game::combat::death::IsDead;
use flux_pursuit::game::combat::health::detect_death;
use flux_pursuit::game::combat::health::heal_popup_text;
use flux_pursuit::game::combat::health::increase_health_on_heal;
use flux_pursuit::game::combat::health::OnHeal;
use flux_pursuit::game::GameLayer;
use flux_pursuit::game::module::on_module_action;
use flux_pursuit::game::module::perform_module_action;
use flux_pursuit::game::module::ActionOutcome;
use flux_pursuit::game::module::ModuleAction;
use flux_pursuit::game::module::ModuleEffect;
use flux_pursuit::game::stats::Stats;
use flux_pursuit::input::PointerButton;
use flux_pursuit::ui::Part;

#[test]
fn faction_layers_and_opponents() {
    assert_eq!(Faction::Player.layer(), GameLayer::Player);
    assert_eq!(Faction::Enemy.layer(), GameLayer::Enemy);
    assert_eq!(Faction::Player.opponent(), Faction::Enemy);
    assert_eq!(Faction::Enemy.opponent().opponent(), Faction::Enemy);
    assert_eq!(projectile_layers(Faction::Player), (GameLayer::Default, GameLayer::Enemy));
    assert_eq!(projectile_layers(Faction::Enemy), (GameLayer::Default, GameLayer::Player));
}

#[test]
fn death_marks_and_despawns() {
    let e = EntityId(7);
    assert_eq!(mark_dead_on_death(Some(e)), Some((e, Dead)));
    assert_eq!(mark_dead_on_death(None), None);
    assert_eq!(flux_pursuit::game::combat::death::mark_dead_on_death(Some(e)), Some((e, IsDead)));
    assert_eq!(die_on_click(PointerButton::Primary, Some(e), true), Some(e));
    assert_eq!(die_on_click(PointerButton::Secondary, Some(e), true), None);
    assert_eq!(die_on_click(PointerButton::Primary, Some(e), false), None);
    assert_eq!(despawn_on_death(Some(e), true), Some(e));
    assert_eq!(despawn_on_death(Some(e), false), None);
}

#[test]
fn health_takes_damage_heals_and_clamps() {
    let mut h = Health::new(10);
    assert_eq!(h, Health { max: 10, current: 10 });
    h.take_damage(14);
    assert_eq!(h.current, -4);
    assert!(h.is_depleted());
    assert_eq!(h.fill(), (0, 10));
    assert_eq!(h.label(), "-4");
    h.clamp();
    assert_eq!(h.current, 0);
    h.heal(25);
    assert_eq!(h.current, 25);
    h.clamp();
    assert_eq!(h.current, 10);
    assert_eq!(h.diff(), 0);
    assert_eq!(Health::default(), Health { max: 100, current: 90 });
    assert_eq!(Health::default().diff(), 10);
}

#[test]
fn death_is_detected_once_health_runs_out() {
    let alive = Health { max: 10, current: 1 };
    let gone = Health { max: 10, current: 0 };
    assert!(!detect_death_from_health(&alive, false));
    assert!(detect_death_from_health(&gone, false));
    assert!(!detect_death_from_health(&gone, true));
    assert!(detect_death(&gone));
    assert!(!detect_death(&alive));
}

#[test]
fn health_bar_has_a_label_and_a_fill() {
    let b = health_bar((100, 200), (300, 400));
    assert_eq!(b.parts[0], Part::Name("HealthBar"));
    assert_eq!(b.parts[1], Part::Translation(100, 200, 10_000_000));
    assert_eq!(b.children[0].parts[0], Part::Name("HealthBarLabel"));
    assert_eq!(b.children[1].parts[3], Part::Scale(300, 400, 100_000_000));
}

#[test]
fn damage_is_dealt_to_the_body_hit() {
    let hitbox = EntityId(1);
    let collider = EntityId(2);
    let body = EntityId(3);
    assert_eq!(
        deal_damage_on_collision(hitbox, Some(Damage(5)), collider, Some(body), true),
        Some(Hit { hitbox, hurtbox: body, damage: OnDamage(5) })
    );
    assert_eq!(
        deal_damage_on_collision(hitbox, Some(Damage(5)), collider, None, true),
        Some(Hit { hitbox, hurtbox: collider, damage: OnDamage(5) })
    );
    assert_eq!(deal_damage_on_collision(hitbox, None, collider, None, true), None);
    assert_eq!(deal_damage_on_collision(hitbox, Some(Damage(5)), collider, None, false), None);
    let mut h = Health::new(8);
    reduce_health_on_damage(&mut h, OnDamage(5));
    assert_eq!(h.current, 3);
}

#[test]
fn plugins_add_types_systems_and_observers_in_order() {
    let mut app = AppPlan::new();
    flux_pursuit::combat::death::plugin(&mut app);
    assert_eq!(app.steps[0], AppStep::RegisterType("OnDeath"));
    assert_eq!(app.steps[2], AppStep::AddObserver("mark_dead_on_death"));
    assert_eq!(app.steps.len(), 9);
    let mut app = AppPlan::new();
    flux_pursuit::game::combat::plugin(&mut app);
    assert_eq!(app.steps.len(), 8 + 3 + 1 + 11);
    assert_eq!(app.steps[11], AppStep::RegisterType("Faction"));
    let mut app = AppPlan::new();
    flux_pursuit::game::health::plugin(&mut app);
    assert_eq!(app.steps, vec![AppStep::RegisterType("Health")]);
    let mut app = AppPlan::new();
    flux_pursuit::combat::health::plugin(&mut app);
    assert_eq!(
        app.steps,
        vec![
            AppStep::Configure("ConfigHandle<HealthConfig>"),
            AppStep::RegisterType("Health"),
            AppStep::AddSystem(Schedule::Update, UpdateStage::Update, false, "detect_death_from_health"),
            AppStep::AddSystem(Schedule::Update, UpdateStage::SyncLate, false, "clamp_health"),
            AppStep::RegisterType("HealthBarFill"),
            AppStep::AddSystem(Schedule::Update, UpdateStage::SyncLate, false, "sync_health_bar"),
            AppStep::RegisterType("HealthBarLabel"),
            AppStep::AddSystem(Schedule::Update, UpdateStage::SyncLate, false, "sync_health_label"),
            AppStep::RegisterType("OnHeal"),
            AppStep::AddObserver("increase_health_on_heal"),
            AppStep::RegisterType("HealPopup"),
            AppStep::AddObserver("spawn_heal_popup_on_heal"),
        ]
    );
}

#[test]
fn player_actions_count_in_the_stats() {
    let mut stats = Stats::new();
    let o = perform_module_action(ModuleAction::Repair, Faction::Player, 3, 9, 1, 5, &mut stats);
    assert_eq!(o, ActionOutcome { effect: ModuleEffect::Repair(6, 5), flux: 3, weapon: 1 });
    assert_eq!(stats.total_repaired, 3);
    let o = perform_module_action(ModuleAction::Missile, Faction::Enemy, 3, 9, 0, 0, &mut stats);
    assert_eq!(o, ActionOutcome { effect: ModuleEffect::LaunchMissile, flux: 9, weapon: 0 });
    assert_eq!(stats.missiles_fired, 0);
    perform_module_action(ModuleAction::Laser, Faction::Player, 1, 1, 0, 0, &mut stats);
    perform_module_action(ModuleAction::Fireball, Faction::Player, 1, 1, 0, 0, &mut stats);
    assert_eq!(stats.lasers_fired, 1);
    assert_eq!(stats.fireballs_unleashed, 1);
}

#[test]
fn an_action_comes_from_a_random_weapon() {
    let mut rng = rand::thread_rng();
    let mut stats = Stats::new();
    assert_eq!(on_module_action(ModuleAction::Laser, Faction::Player, 2, 0, 0, &mut stats, &mut rng), None);
    assert_eq!(stats.lasers_fired, 0);
    for _ in 0..50 {
        let o = on_module_action(ModuleAction::Repair, Faction::Player, 2, 0, 3, &mut stats, &mut rng)
            .unwrap();
        assert!(o.weapon < 3);
        match o.effect {
            ModuleEffect::Repair(heal, pitch) => {
                assert_eq!(heal, 4);
                assert!(pitch < 12);
            },
            _ => panic!("a repair heals"),
        }
    }
    assert_eq!(stats.total_repaired, 100);
}

#[test]
fn sounds_play_on_their_channels() {
    let m = music_audio(SoundKey::PhaseChange);
    assert_eq!(
        m.parts[2],
        Part::Audio(SoundKey::PhaseChange, PlaybackMode::Loop, AudioChannel::Music, Pitch::Unchanged)
    );
    let s = sfx_audio(SoundKey::Repair, Pitch::Semitones(4));
    assert_eq!(
        s.parts[2],
        Part::Audio(SoundKey::Repair, PlaybackMode::Despawn, AudioChannel::Sfx, Pitch::Semitones(4))
    );
    let u = ui_audio(SoundKey::ModuleHover, Pitch::Unchanged);
    assert_eq!(u.parts[0], Part::Name("UiAudio"));
    if let Part::Marker(marker) = u.parts[1].clone() {
        assert_eq!(channel_of(marker), Some(AudioChannel::Ui));
    } else {
        panic!("the second part marks the channel");
    }
    assert_eq!(volume_target(true, true), Some(VolumeTarget::Sink));
    assert_eq!(volume_target(false, true), Some(VolumeTarget::Playback));
    assert_eq!(volume_target(false, false), None);
}

#[test]
fn clamping_twice_changes_nothing() {
    let mut h = Health { max: 10, current: -3 };
    h.clamp();
    let once = h;
    h.clamp();
    assert_eq!(h, once);
    assert_eq!(h.current, 0);
    assert!(h.is_depleted());
}

#[test]
fn popups_show_the_signed_amount() {
    assert_eq!(heal_popup_text(OnHeal(5)), "+5");
    assert_eq!(heal_popup_text(OnHeal(120)), "+120");
    assert_eq!(damage_popup_text(OnDamage(3)), "-3");
    assert_eq!(damage_popup_text(OnDamage(0)), "-0");
}

#[test]
fn healing_adds_hit_points() {
    let mut h = Health::new(10);
    h.take_damage(6);
    increase_health_on_heal(&mut h, OnHeal(4));
    assert_eq!(h.current, 8);
    assert_eq!(h.max, 10);
}

#[test]
fn damage_popups_appear_over_the_ship_hit() {
    let (player, enemy) = (EntityId(1), EntityId(2));
    assert_eq!(damage_popup_anchor(player, player, enemy), Some(PopupAnchor::PlayerShipBody));
    assert_eq!(damage_popup_anchor(enemy, player, enemy), Some(PopupAnchor::EnemyShip));
    assert_eq!(damage_popup_anchor(EntityId(9), player, enemy), None);
}

#[test]
fn heal_popup_shows_a_plus_and_the_amount() {
    let b = spawn_heal_popup_on_heal(flux_pursuit::combat::health::OnHeal(7));
    assert_eq!(b.parts[1], Part::PopupText("+"));
    assert_eq!(b.parts.len(), 6);
    assert_eq!(b.children.len(), 1);
    assert_eq!(b.children[0].parts[0], Part::Name("Number"));
    assert_eq!(b.children[0].parts[1], Part::PopupBoldSpan("7".to_string()));
}
