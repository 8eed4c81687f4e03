//! Levels: which decks each level deals, and what is spawned when it starts.
use vstd::prelude::*;

use crate::assets::ImageKey;
use crate::game::deck::DeckConfig;
use crate::game::deck::EnemyDeck;
use crate::game::deck::PlayerDeck;
use crate::game::hud::hud;
use crate::game::hud::hud_blueprint;
use crate::game::ship::ShipConfig;
use crate::game::ship::enemy_ship;
use crate::game::ship::enemy_ship_blueprint;
use crate::game::ship::player_ship;
use crate::game::ship::player_ship_blueprint;
use crate::ui::Blueprint;
use crate::ui::Part;
use crate::ui::Spawn;
use crate::ui::shaped;

verus! {

/// The level being played, from 0.
#[derive(PartialEq, Eq, Structural, Clone, Copy, Debug)]
pub struct Level(pub usize);

impl Default for Level {
    fn default() -> (l: Self)
        ensures
            l == Level(0),
    {
        Level(0)
    }
}

/// What a level deals: the enemy's deck and health, and the rewards for beating it.
pub struct LevelSetup {
    pub enemy_deck: EnemyDeck,
    pub enemy_health: i64,
    pub reward_max_health: i64,
    pub reward_heat_capacity: u64,
    pub reward_reactor_slots: usize,
}

/// The levels of the game, in order.
pub struct LevelConfig {
    pub levels: Vec<LevelSetup>,
}

/// Entering a level deals its enemy deck; the first level also deals the first
/// player deck. A level the configuration does not list changes nothing.
pub fn set_up_decks(
    level: usize,
    level_config: &LevelConfig,
    deck_config: &DeckConfig,
    player_deck: &mut PlayerDeck,
    enemy_deck: &mut EnemyDeck,
)
    requires
        level == 0 && level < level_config.levels@.len() ==> deck_config.player_decks@.len() > 0,
    ensures
        level < level_config.levels@.len() ==> {
            &&& final(enemy_deck)@ == level_config.levels@[level as int].enemy_deck@
            &&& final(player_deck)@ == if level == 0 {
                deck_config.player_decks@[0]@
            } else {
                old(player_deck)@
            }
        },
        level >= level_config.levels@.len() ==> final(player_deck)@ == old(player_deck)@
            && final(enemy_deck)@ == old(enemy_deck)@,
{
    if level >= level_config.levels.len() {
        return;
    }
    let level_setup = &level_config.levels[level];
    if level == 0 {
        *player_deck = deck_config.player_decks[0].duplicate();
    }
    *enemy_deck = level_setup.enemy_deck.duplicate();
}

/// The space background of each level; levels past the tenth reuse the first.
pub open spec fn level_background(level: usize) -> ImageKey {
    if level == 0 {
        ImageKey::BgLevel0
    } else if level == 1 {
        ImageKey::BgLevel1
    } else if level == 2 {
        ImageKey::BgLevel2
    } else if level == 3 {
        ImageKey::BgLevel3
    } else if level == 4 {
        ImageKey::BgLevel4
    } else if level == 5 {
        ImageKey::BgLevel5
    } else if level == 6 {
        ImageKey::BgLevel6
    } else if level == 7 {
        ImageKey::BgLevel7
    } else if level == 8 {
        ImageKey::BgLevel8
    } else if level == 9 {
        ImageKey::BgLevel9
    } else {
        ImageKey::BgLevel0
    }
}

/// The background of a level, dimmed by a black overlay at 70% opacity.
pub open spec fn background_blueprint(b: Blueprint, level: usize) -> bool {
    &&& shaped(
        b,
        seq![
            Part::Name("Background"),
            Part::SpriteImage(level_background(level)),
            Part::Translation(0i64, 0i64, -200_000_000i64),
            Part::DespawnOnExitLevel,
        ],
        1,
    )
    &&& shaped(
        b.children@[0],
        seq![
            Part::Name("DimmingOverlay"),
            Part::BlackSprite(7, 10, 52_000_000_000i64, 31_000_000_000i64),
            Part::Translation(0i64, 0i64, 100_000_000i64),
        ],
        0,
    )
}

pub fn background(level: usize) -> (b: Blueprint)
    ensures
        background_blueprint(b, level),
{
    let image = match level {
        0 => ImageKey::BgLevel0,
        1 => ImageKey::BgLevel1,
        2 => ImageKey::BgLevel2,
        3 => ImageKey::BgLevel3,
        4 => ImageKey::BgLevel4,
        5 => ImageKey::BgLevel5,
        6 => ImageKey::BgLevel6,
        7 => ImageKey::BgLevel7,
        8 => ImageKey::BgLevel8,
        9 => ImageKey::BgLevel9,
        _ => ImageKey::BgLevel0,
    };
    Blueprint {
        parts: vec![
            Part::Name("Background"),
            Part::SpriteImage(image),
            Part::Translation(0i64, 0i64, -200_000_000i64),
            Part::DespawnOnExitLevel,
        ],
        children: vec![
            Blueprint {
                parts: vec![
                    Part::Name("DimmingOverlay"),
                    Part::BlackSprite(7, 10, 52_000_000_000i64, 31_000_000_000i64),
                    Part::Translation(0i64, 0i64, 100_000_000i64),
                ],
                children: vec![],
            },
        ],
    }
}

/// What entering a level spawns: its background, the HUD, and the two ships in
/// their places, all despawned when the level is left. A level the configuration
/// does not list spawns nothing.
pub open spec fn level_spawns(
    spawned: Option<Vec<Spawn>>,
    level: usize,
    level_config: LevelConfig,
    ship_config: ShipConfig,
    max_health: i64,
) -> bool {
    if level >= level_config.levels@.len() {
        spawned is None
    } else {
        spawned matches Some(s) && {
            let enemy_health = level_config.levels@[level as int].enemy_health;
            &&& s@.len() == 4
            &&& background_blueprint(s@[0].blueprint, level)
            &&& s@[0].extra@ == Seq::<Part>::empty()
            &&& hud_blueprint(s@[1].blueprint)
            &&& s@[1].extra@ == seq![Part::DespawnOnExitLevel]
            &&& player_ship_blueprint(s@[2].blueprint, ship_config, max_health)
            &&& s@[2].extra@ == seq![
                Part::DespawnOnExitLevel,
                Part::Translation(6_100_000_000i64, -4_600_000_000i64, 200_000_000i64),
            ]
            &&& enemy_ship_blueprint(s@[3].blueprint, ship_config, enemy_health)
            &&& s@[3].extra@ == seq![
                Part::DespawnOnExitLevel,
                Part::Translation(5_900_000_000i64, 9_300_000_000i64, 0i64),
            ]
        }
    }
}

/// The entities entering a level spawns; the player's ship gets the deck's
/// maximum health and the enemy's the health the level gives it.
pub fn spawn_level(
    level: usize,
    level_config: &LevelConfig,
    ship_config: &ShipConfig,
    player_deck: &PlayerDeck,
) -> (spawned: Option<Vec<Spawn>>)
    ensures
        level_spawns(spawned, level, *level_config, *ship_config, player_deck.max_health),
{
    if level >= level_config.levels.len() {
        return None;
    }
    let level_setup = &level_config.levels[level];
    let background_extra: Vec<Part> = vec![];
    let hud_extra = vec![Part::DespawnOnExitLevel];
    let player_extra = vec![
        Part::DespawnOnExitLevel,
        Part::Translation(6_100_000_000i64, -4_600_000_000i64, 200_000_000i64),
    ];
    let enemy_extra = vec![
        Part::DespawnOnExitLevel,
        Part::Translation(5_900_000_000i64, 9_300_000_000i64, 0i64),
    ];
    proof {
        assert(background_extra@ =~= Seq::<Part>::empty());
        assert(hud_extra@ =~= seq![Part::DespawnOnExitLevel]);
        assert(player_extra@ =~= seq![
            Part::DespawnOnExitLevel,
            Part::Translation(6_100_000_000i64, -4_600_000_000i64, 200_000_000i64),
        ]);
        assert(enemy_extra@ =~= seq![
            Part::DespawnOnExitLevel,
            Part::Translation(5_900_000_000i64, 9_300_000_000i64, 0i64),
        ]);
    }
    let mut spawned: Vec<Spawn> = Vec::new();
    spawned.push(Spawn { blueprint: background(level), extra: background_extra });
    spawned.push(Spawn { blueprint: hud(), extra: hud_extra });
    spawned.push(Spawn { blueprint: player_ship(ship_config, player_deck.max_health), extra: player_extra });
    spawned.push(Spawn { blueprint: enemy_ship(ship_config, level_setup.enemy_health), extra: enemy_extra });
    Some(spawned)
}

} // verus!
