//! Levels as the gameplay screen runs them: each deals an enemy deck and shows
//! its name, and the enemy escaping off the top of the screen ends it.
use vstd::prelude::*;

use crate::assets::SoundKey;
use crate::game::GameLayer;
use crate::game::deck::DeckConfig;
use crate::game::deck::EnemyDeck;
use crate::game::deck::PlayerDeck;
use crate::menu::Menu;
use crate::game::level::background;
use crate::game::level::background_blueprint;
use crate::game::ship::ShipConfig;
use crate::game::ship::enemy_ship;
use crate::game::ship::enemy_ship_blueprint;
use crate::game::ship::player_ship;
use crate::game::ship::player_ship_blueprint;
use crate::hud::hud;
use crate::hud::hud_blueprint;
use crate::ui::Blueprint;
use crate::ui::Marker;
use crate::ui::LabelKind;
use crate::ui::NodePreset;
use crate::ui::Observer;
use crate::ui::Part;
use crate::ui::Spawn;
use crate::ui::Style;
use crate::ui::Val;
use crate::ui::shaped;

verus! {

/// The level being played, from 0.
#[derive(PartialEq, Eq, Structural, Clone, Copy, Debug)]
pub struct Level(pub usize);

impl Default for Level {
    fn default() -> (l: Self)
        ensures
            l == Level(0),
    {
        Level(0)
    }
}

/// A level: its name and the enemy's deck.
pub struct LevelSetup {
    pub name: String,
    pub enemy_deck: EnemyDeck,
}

/// The levels of the game, in order.
pub struct LevelConfig {
    pub levels: Vec<LevelSetup>,
}

/// Entering a level deals its enemy deck; the first level also deals the first
/// player deck. A level the configuration does not list changes nothing.
pub fn set_up_decks(
    level: usize,
    level_config: &LevelConfig,
    deck_config: &DeckConfig,
    player_deck: &mut PlayerDeck,
    enemy_deck: &mut EnemyDeck,
)
    requires
        level == 0 && level < level_config.levels@.len() ==> deck_config.player_decks@.len() > 0,
    ensures
        level < level_config.levels@.len() ==> {
            &&& final(enemy_deck)@ == level_config.levels@[level as int].enemy_deck@
            &&& final(player_deck)@ == if level == 0 {
                deck_config.player_decks@[0]@
            } else {
                old(player_deck)@
            }
        },
        level >= level_config.levels@.len() ==> final(player_deck)@ == old(player_deck)@
            && final(enemy_deck)@ == old(enemy_deck)@,
{
    if level >= level_config.levels.len() {
        return;
    }
    let level_setup = &level_config.levels[level];
    if level == 0 {
        *player_deck = deck_config.player_decks[0].duplicate();
    }
    *enemy_deck = level_setup.enemy_deck.duplicate();
}

/// The level's name, in bold, in the top right corner.
pub open spec fn level_label_spawn(s: Spawn, name: Seq<char>) -> bool {
    &&& s.blueprint.parts@.len() == 1
    &&& s.blueprint.parts@[0] matches Part::DynamicLabel(k, text) && k == LabelKind::TinyLabel
        && text@ == "[b]"@ + name
    &&& s.blueprint.children@.len() == 0
    &&& s.extra@ == seq![
        Part::Style(Style::Preset(NodePreset::Default)),
        Part::Style(Style::Abs),
        Part::Style(Style::Top(Val::Vw(100_000_000i64))),
        Part::Style(Style::Right(Val::Vw(100_000_000i64))),
        Part::DespawnOnExitLevel,
    ]
}

pub fn level_label(level_setup: &LevelSetup) -> (s: Spawn)
    ensures
        level_label_spawn(s, level_setup.name@),
{
    let mut text = String::from_str("[b]");
    text.append(level_setup.name.as_str());
    let extra = vec![
        Part::Style(Style::Preset(NodePreset::Default)),
        Part::Style(Style::Abs),
        Part::Style(Style::Top(Val::Vw(100_000_000i64))),
        Part::Style(Style::Right(Val::Vw(100_000_000i64))),
        Part::DespawnOnExitLevel,
    ];
    proof {
        reveal_strlit("[b]");
        assert(extra@ =~= seq![
            Part::Style(Style::Preset(NodePreset::Default)),
            Part::Style(Style::Abs),
            Part::Style(Style::Top(Val::Vw(100_000_000i64))),
            Part::Style(Style::Right(Val::Vw(100_000_000i64))),
            Part::DespawnOnExitLevel,
        ]);
    }
    Spawn {
        blueprint: Blueprint {
            parts: vec![Part::DynamicLabel(LabelKind::TinyLabel, text)],
            children: vec![],
        },
        extra,
    }
}

/// The sensor above the screen that the enemy escapes through.
pub open spec fn escape_sensor_blueprint(b: Blueprint) -> bool {
    shaped(
        b,
        seq![
            Part::Name("EnemyEscapeSensor"),
            Part::Translation(5_900_000_000i64, 24_000_000_000i64, 0i64),
            Part::Sensor,
            Part::RectangleCollider(40_000_000_000i64, 5_000_000_000i64),
            Part::CollisionLayers(GameLayer::Default, GameLayer::Enemy),
            Part::CollisionEvents,
            Part::DespawnOnExitLevel,
            Part::Observes(Observer::WinLevelOnEnemyEscape),
        ],
        0,
    )
}

pub fn escape_sensor() -> (b: Blueprint)
    ensures
        escape_sensor_blueprint(b),
{
    Blueprint {
        parts: vec![
            Part::Name("EnemyEscapeSensor"),
            Part::Translation(5_900_000_000i64, 24_000_000_000i64, 0i64),
            Part::Sensor,
            Part::RectangleCollider(40_000_000_000i64, 5_000_000_000i64),
            Part::CollisionLayers(GameLayer::Default, GameLayer::Enemy),
            Part::CollisionEvents,
            Part::DespawnOnExitLevel,
            Part::Observes(Observer::WinLevelOnEnemyEscape),
        ],
        children: vec![],
    }
}

/// The column where toasts appear, at the right of the screen.
pub open spec fn toaster_spawn(s: Spawn) -> bool {
    &&& s.blueprint.parts@ == seq![
        Part::Name("Toaster"),
        Part::Marker(Marker::Toaster),
        Part::Style(Style::Preset(NodePreset::Column)),
        Part::Style(Style::Center),
        Part::Style(Style::Width(Val::Vw(7_420_000_000i64))),
        Part::Style(Style::Height(Val::Vw(4_420_000_000i64))),
        Part::Style(Style::Abs),
        Part::Style(Style::Right(Val::Zero)),
        Part::Style(Style::PaddingTop(Val::Vw(300_000_000i64))),
    ]
    &&& s.blueprint.children@.len() == 0
    &&& s.extra@ == seq![Part::DespawnOnExitLevel]
}

fn toaster() -> (s: Spawn)
    ensures
        toaster_spawn(s),
{
    let extra = vec![Part::DespawnOnExitLevel];
    let parts = vec![
        Part::Name("Toaster"),
        Part::Marker(Marker::Toaster),
        Part::Style(Style::Preset(NodePreset::Column)),
        Part::Style(Style::Center),
        Part::Style(Style::Width(Val::Vw(7_420_000_000i64))),
        Part::Style(Style::Height(Val::Vw(4_420_000_000i64))),
        Part::Style(Style::Abs),
        Part::Style(Style::Right(Val::Zero)),
        Part::Style(Style::PaddingTop(Val::Vw(300_000_000i64))),
    ];
    proof {
        assert(extra@ =~= seq![Part::DespawnOnExitLevel]);
        assert(parts@ =~= seq![
            Part::Name("Toaster"),
            Part::Marker(Marker::Toaster),
            Part::Style(Style::Preset(NodePreset::Column)),
            Part::Style(Style::Center),
            Part::Style(Style::Width(Val::Vw(7_420_000_000i64))),
            Part::Style(Style::Height(Val::Vw(4_420_000_000i64))),
            Part::Style(Style::Abs),
            Part::Style(Style::Right(Val::Zero)),
            Part::Style(Style::PaddingTop(Val::Vw(300_000_000i64))),
        ]);
    }
    Spawn { blueprint: Blueprint { parts, children: vec![] }, extra }
}

/// What entering a level spawns: its background, the HUD, its name, the toaster,
/// the two ships in their places and the sensor the enemy escapes through, all
/// despawned when the level is left. A level the configuration does not list
/// spawns nothing.
pub open spec fn level_spawns(
    spawned: Option<Vec<Spawn>>,
    level: usize,
    level_config: LevelConfig,
    ship_config: ShipConfig,
    player_health: i64,
    enemy_health: i64,
) -> bool {
    if level >= level_config.levels@.len() {
        spawned is None
    } else {
        spawned matches Some(s) && {
            &&& s@.len() == 7
            &&& background_blueprint(s@[0].blueprint, level)
            &&& s@[0].extra@ == Seq::<Part>::empty()
            &&& hud_blueprint(s@[1].blueprint)
            &&& s@[1].extra@ == seq![Part::DespawnOnExitLevel]
            &&& level_label_spawn(s@[2], level_config.levels@[level as int].name@)
            &&& toaster_spawn(s@[3])
            &&& player_ship_blueprint(s@[4].blueprint, ship_config, player_health)
            &&& s@[4].extra@ == seq![
                Part::Translation(6_100_000_000i64, -4_600_000_000i64, 200_000_000i64),
                Part::DespawnOnExitLevel,
            ]
            &&& enemy_ship_blueprint(s@[5].blueprint, ship_config, enemy_health)
            &&& s@[5].extra@ == seq![
                Part::Translation(5_900_000_000i64, 9_300_000_000i64, 0i64),
                Part::DespawnOnExitLevel,
            ]
            &&& escape_sensor_blueprint(s@[6].blueprint)
            &&& s@[6].extra@ == Seq::<Part>::empty()
        }
    }
}

/// The entities entering a level spawns; the player's ship gets the deck's
/// maximum health and the enemy's ship `enemy_health`.
pub fn spawn_level(
    level: usize,
    level_config: &LevelConfig,
    ship_config: &ShipConfig,
    player_deck: &PlayerDeck,
    enemy_health: i64,
) -> (spawned: Option<Vec<Spawn>>)
    ensures
        level_spawns(
            spawned,
            level,
            *level_config,
            *ship_config,
            player_deck.max_health,
            enemy_health,
        ),
{
    if level >= level_config.levels.len() {
        return None;
    }
    let level_setup = &level_config.levels[level];
    let background_extra: Vec<Part> = vec![];
    let hud_extra = vec![Part::DespawnOnExitLevel];
    let player_extra = vec![
        Part::Translation(6_100_000_000i64, -4_600_000_000i64, 200_000_000i64),
        Part::DespawnOnExitLevel,
    ];
    let enemy_extra = vec![
        Part::Translation(5_900_000_000i64, 9_300_000_000i64, 0i64),
        Part::DespawnOnExitLevel,
    ];
    let sensor_extra: Vec<Part> = vec![];
    proof {
        assert(background_extra@ =~= Seq::<Part>::empty());
        assert(sensor_extra@ =~= Seq::<Part>::empty());
        assert(hud_extra@ =~= seq![Part::DespawnOnExitLevel]);
        assert(player_extra@ =~= seq![
            Part::Translation(6_100_000_000i64, -4_600_000_000i64, 200_000_000i64),
            Part::DespawnOnExitLevel,
        ]);
        assert(enemy_extra@ =~= seq![
            Part::Translation(5_900_000_000i64, 9_300_000_000i64, 0i64),
            Part::DespawnOnExitLevel,
        ]);
    }
    let mut spawned: Vec<Spawn> = Vec::new();
    spawned.push(Spawn { blueprint: background(level), extra: background_extra });
    spawned.push(Spawn { blueprint: hud(), extra: hud_extra });
    spawned.push(level_label(level_setup));
    spawned.push(toaster());
    spawned.push(
        Spawn { blueprint: player_ship(ship_config, player_deck.max_health), extra: player_extra },
    );
    spawned.push(Spawn { blueprint: enemy_ship(ship_config, enemy_health), extra: enemy_extra });
    spawned.push(Spawn { blueprint: escape_sensor(), extra: sensor_extra });
    Some(spawned)
}

/// The enemy escaping plays the ship's death sound and opens the upgrade menu.
pub fn win_level_on_enemy_escape() -> (r: (SoundKey, Menu))
    ensures
        r == (SoundKey::ShipDeath, Menu::Upgrade),
{
    (SoundKey::ShipDeath, Menu::Upgrade)
}

} // verus!
