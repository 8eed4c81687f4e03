//! The two ships: what each is made of, and how the level ends when one dies.
//!
//! Positions, sizes and speeds are in hundred-millionths of a unit.
use vstd::prelude::*;

use crate::animation::oscillate::Oscillate;
use crate::assets::ImageKey;
use crate::combat::faction::Faction;
use crate::combat::health::Health;
use crate::game::GameLayer;
use crate::game::combat::health::health_bar;
use crate::game::combat::health::IsHealthBar;
use crate::menu::Menu;
use crate::ui::Blueprint;
use crate::ui::Marker;
use crate::ui::Observer;
use crate::ui::Part;
use crate::ui::shaped;

verus! {

/// Marks the player's ship.
#[derive(PartialEq, Eq, Structural, Clone, Copy, Debug)]
pub struct IsPlayerShip;

/// Marks the enemy's ship.
#[derive(PartialEq, Eq, Structural, Clone, Copy, Debug)]
pub struct IsEnemyShip;

/// Marks a point of a ship that projectiles are fired from.
#[derive(PartialEq, Eq, Structural, Clone, Copy, Debug)]
pub struct IsWeapon;

/// Where the ships carry their weapons and health bars, and how the enemy moves.
pub struct ShipConfig {
    pub player_weapons: Vec<(i64, i64)>,
    pub player_health_bar_offset: (i64, i64),
    pub player_health_bar_size: (i64, i64),
    pub player_speed_max: i64,
    pub enemy_weapons: Vec<(i64, i64)>,
    pub enemy_health_bar_offset: (i64, i64),
    pub enemy_health_bar_size: (i64, i64),
    pub enemy_oscillate_amplitude: (i64, i64),
    pub enemy_oscillate_phase: (i64, i64),
    pub enemy_oscillate_rate: (i64, i64),
}

pub open spec fn weapon_blueprint(b: Blueprint) -> bool {
    shaped(b, seq![Part::Name("Weapon"), Part::Marker(Marker::IsWeapon(IsWeapon))], 0)
}

fn weapon() -> (b: Blueprint)
    ensures
        weapon_blueprint(b),
{
    Blueprint {
        parts: vec![Part::Name("Weapon"), Part::Marker(Marker::IsWeapon(IsWeapon))],
        children: vec![],
    }
}

/// A weapon at `pos`, just behind the body, turned by `turns` of a full turn.
pub open spec fn placed_weapon_blueprint(b: Blueprint, pos: (i64, i64), turns: (u64, u64)) -> bool {
    shaped(
        b,
        seq![
            Part::Name("Weapon"),
            Part::Marker(Marker::IsWeapon(IsWeapon)),
            Part::Translation(pos.0, pos.1, -10_000_000i64),
            Part::TurnRotation(turns.0, turns.1),
        ],
        0,
    )
}

/// The weapons at each position, in order.
pub open spec fn weapons_placed(children: Seq<Blueprint>, positions: Seq<(i64, i64)>, turns: (u64, u64)) -> bool {
    &&& children.len() == positions.len()
    &&& forall|i: int|
        0 <= i < children.len() ==> #[trigger] placed_weapon_blueprint(
            children[i],
            positions[i],
            turns,
        )
}

/// Appends a weapon at each position to `children`.
fn push_weapons(children: &mut Vec<Blueprint>, positions: &Vec<(i64, i64)>, turns: (u64, u64))
    ensures
        final(children)@.len() == old(children)@.len() + positions@.len(),
        final(children)@.subrange(0, old(children)@.len() as int) == old(children)@,
        weapons_placed(
            final(children)@.subrange(old(children)@.len() as int, final(children)@.len() as int),
            positions@,
            turns,
        ),
{
    let ghost start = children@.len();
    let mut i: usize = 0;
    while i < positions.len()
        invariant
            i <= positions@.len(),
            children@.len() == start + i,
            start == old(children)@.len(),
            children@.subrange(0, start as int) == old(children)@,
            forall|j: int|
                0 <= j < i ==> #[trigger] placed_weapon_blueprint(
                    children@[start + j],
                    positions@[j],
                    turns,
                ),
        decreases positions@.len() - i,
    {
        let pos = positions[i];
        let mut w = weapon();
        w.parts.push(Part::Translation(pos.0, pos.1, -10_000_000i64));
        w.parts.push(Part::TurnRotation(turns.0, turns.1));
        proof {
            assert(w.parts@ =~= seq![
                Part::Name("Weapon"),
                Part::Marker(Marker::IsWeapon(IsWeapon)),
                Part::Translation(pos.0, pos.1, -10_000_000i64),
                Part::TurnRotation(turns.0, turns.1),
            ]);
        }
        children.push(w);
        proof {
            assert(children@.subrange(0, start as int) =~= old(children)@);
        }
        i += 1;
    }
    proof {
        let tail = children@.subrange(start as int, children@.len() as int);
        assert forall|j: int| 0 <= j < tail.len() implies #[trigger] placed_weapon_blueprint(
            tail[j],
            positions@[j],
            turns,
        ) by {
            assert(tail[j] == children@[start + j]);
        }
    }
}

/// A health bar placed at `offset` and scaled to `size`.
pub open spec fn placed_health_bar_blueprint(b: Blueprint, offset: (i64, i64), size: (i64, i64)) -> bool {
    shaped(
        b,
        seq![
            Part::Name("HealthBar"),
            Part::Marker(Marker::IsHealthBar(IsHealthBar)),
            Part::Translation(offset.0, offset.1, 10_000_000i64),
            Part::Scale(size.0, size.1, 100_000_000i64),
        ],
        0,
    )
}

fn placed_health_bar(offset: (i64, i64), size: (i64, i64)) -> (b: Blueprint)
    ensures
        placed_health_bar_blueprint(b, offset, size),
{
    let mut b = health_bar();
    b.parts.push(Part::Translation(offset.0, offset.1, 10_000_000i64));
    b.parts.push(Part::Scale(size.0, size.1, 100_000_000i64));
    proof {
        assert(b.parts@ =~= seq![
            Part::Name("HealthBar"),
            Part::Marker(Marker::IsHealthBar(IsHealthBar)),
            Part::Translation(offset.0, offset.1, 10_000_000i64),
            Part::Scale(size.0, size.1, 100_000_000i64),
        ]);
    }
    b
}

/// The player's ship with `health` hit points: its health bar, and its body
/// carrying the weapons, turned a quarter turn.
pub open spec fn player_ship_blueprint(b: Blueprint, config: ShipConfig, health: i64) -> bool {
    &&& shaped(
        b,
        seq![
            Part::Name("PlayerShip"),
            Part::Marker(Marker::IsPlayerShip(IsPlayerShip)),
            Part::Faction(Faction::Player),
            Part::Health(Health { max: health, current: health }),
            Part::InheritedVisibility,
            Part::KinematicBody,
            Part::MaxLinearSpeed(config.player_speed_max),
            Part::Observes(Observer::LoseLevel),
        ],
        2,
    )
    &&& placed_health_bar_blueprint(
        b.children@[0],
        config.player_health_bar_offset,
        config.player_health_bar_size,
    )
    &&& b.children@[1].parts@ == seq![
        Part::Name("Body"),
        Part::SpriteImage(ImageKey::PlayerShip),
        Part::RectangleCollider(8_000_000_000i64, 1_000_000_000i64),
        Part::CollisionLayer(GameLayer::Player),
    ]
    &&& weapons_placed(b.children@[1].children@, config.player_weapons@, (1u64, 4u64))
}

pub fn player_ship(config: &ShipConfig, health: i64) -> (b: Blueprint)
    ensures
        player_ship_blueprint(b, *config, health),
{
    let mut weapons: Vec<Blueprint> = Vec::new();
    push_weapons(&mut weapons, &config.player_weapons, (1, 4));
    proof {
        assert(weapons@.subrange(0, weapons@.len() as int) =~= weapons@);
    }
    let body = Blueprint {
        parts: vec![
            Part::Name("Body"),
            Part::SpriteImage(ImageKey::PlayerShip),
            Part::RectangleCollider(8_000_000_000i64, 1_000_000_000i64),
            Part::CollisionLayer(GameLayer::Player),
        ],
        children: weapons,
    };
    Blueprint {
        parts: vec![
            Part::Name("PlayerShip"),
            Part::Marker(Marker::IsPlayerShip(IsPlayerShip)),
            Part::Faction(Faction::Player),
            Part::Health(Health::new(health)),
            Part::InheritedVisibility,
            Part::KinematicBody,
            Part::MaxLinearSpeed(config.player_speed_max),
            Part::Observes(Observer::LoseLevel),
        ],
        children: vec![
            placed_health_bar(config.player_health_bar_offset, config.player_health_bar_size),
            body,
        ],
    }
}

/// The enemy's ship with `health` hit points: it oscillates, shakes when hit,
/// and carries its health bar and its weapons, turned three quarters of a turn.
pub open spec fn enemy_ship_blueprint(b: Blueprint, config: ShipConfig, health: i64) -> bool {
    let n = b.children@.len();
    &&& b.parts@.len() == 13
    &&& b.parts@.subrange(0, 10) == seq![
        Part::Name("EnemyShip"),
        Part::Marker(Marker::IsEnemyShip(IsEnemyShip)),
        Part::Faction(Faction::Enemy),
        Part::Health(Health { max: health, current: health }),
        Part::SpriteImage(ImageKey::EnemyShip),
        Part::KinematicBody,
        Part::RectangleCollider(16_700_000_000i64, 1_500_000_000i64),
        Part::CollisionLayer(GameLayer::Enemy),
        Part::Offset,
        Part::Shake,
    ]
    &&& b.parts@[10] matches Part::Oscillate(o) && o.amplitude == config.enemy_oscillate_amplitude
        && o.phase == config.enemy_oscillate_phase && o.rate == config.enemy_oscillate_rate
        && o.applied == (0i64, 0i64)
    &&& b.parts@[11] == Part::Observes(Observer::ApplyShake)
    &&& b.parts@[12] == Part::Observes(Observer::WinLevel)
    &&& n >= 1
    &&& placed_health_bar_blueprint(
        b.children@[0],
        config.enemy_health_bar_offset,
        config.enemy_health_bar_size,
    )
    &&& weapons_placed(b.children@.subrange(1, n as int), config.enemy_weapons@, (3u64, 4u64))
}

pub fn enemy_ship(config: &ShipConfig, health: i64) -> (b: Blueprint)
    ensures
        enemy_ship_blueprint(b, *config, health),
{
    let mut children: Vec<Blueprint> = vec![
        placed_health_bar(config.enemy_health_bar_offset, config.enemy_health_bar_size),
    ];
    push_weapons(&mut children, &config.enemy_weapons, (3, 4));
    let b = Blueprint {
        parts: vec![
            Part::Name("EnemyShip"),
            Part::Marker(Marker::IsEnemyShip(IsEnemyShip)),
            Part::Faction(Faction::Enemy),
            Part::Health(Health::new(health)),
            Part::SpriteImage(ImageKey::EnemyShip),
            Part::KinematicBody,
            Part::RectangleCollider(16_700_000_000i64, 1_500_000_000i64),
            Part::CollisionLayer(GameLayer::Enemy),
            Part::Offset,
            Part::Shake,
            Part::Oscillate(
                Oscillate::new(
                    config.enemy_oscillate_amplitude,
                    config.enemy_oscillate_phase,
                    config.enemy_oscillate_rate,
                ),
            ),
            Part::Observes(Observer::ApplyShake),
            Part::Observes(Observer::WinLevel),
        ],
        children,
    };
    proof {
        assert(b.parts@.subrange(0, 10) =~= seq![
            Part::Name("EnemyShip"),
            Part::Marker(Marker::IsEnemyShip(IsEnemyShip)),
            Part::Faction(Faction::Enemy),
            Part::Health(Health { max: health, current: health }),
            Part::SpriteImage(ImageKey::EnemyShip),
            Part::KinematicBody,
            Part::RectangleCollider(16_700_000_000i64, 1_500_000_000i64),
            Part::CollisionLayer(GameLayer::Enemy),
            Part::Offset,
            Part::Shake,
        ]);
    }
    b
}

/// The player's ship dying opens the defeat menu.
pub fn lose_level() -> (menu: Menu)
    ensures
        menu == Menu::Defeat,
{
    Menu::Defeat
}

/// The enemy's ship dying opens the victory menu on the final level and the
/// level-up menu on the others.
pub fn win_level(level: usize) -> (menu: Menu)
    ensures
        menu == (if level == 9 {
            Menu::Victory
        } else {
            Menu::LevelUp
        }),
{
    if level == 9 {
        Menu::Victory
    } else {
        Menu::LevelUp
    }
}

} // verus!
