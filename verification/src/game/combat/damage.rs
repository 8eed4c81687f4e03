//! Damage: projectiles that hit a ship take hit points away from it.
use vstd::prelude::*;

use crate::combat::health::Health;
use crate::ecs::AppPlan;
use crate::ecs::AppStep;
use crate::ecs::Schedule;
use crate::ecs::UpdateStage;
use crate::ecs::EntityId;
use crate::text::signed_decimal;
use crate::text::signed_decimal_string;

verus! {

/// The damage a projectile deals on impact.
#[derive(PartialEq, Eq, Structural, Clone, Copy, Debug)]
pub struct Damage(pub i64);

/// The event of a ship being hit for the given damage.
#[derive(PartialEq, Eq, Structural, Clone, Copy, Debug)]
pub struct OnDamage(pub i64);

/// What the damage plugin adds to the app: each type, then what it brings.
pub open spec fn damage_steps() -> Seq<AppStep> {
    seq![
        AppStep::Configure("ConfigHandle<DamageConfig>"),
        AppStep::RegisterType("Damage"),
        AppStep::RegisterType("OnDamage"),
        AppStep::AddObserver("deal_damage_on_collision"),
        AppStep::AddObserver("reduce_health_on_damage"),
        AppStep::RegisterType("IsDamagePopup"),
        AppStep::AddObserver("display_damage_indicator"),
        AppStep::AddSystem(Schedule::Update, UpdateStage::Update, true, "apply_fade_out_to_damage_popup"),
    ]
}

/// Adds damage and its popups, with their observers and systems.
pub fn plugin(app: &mut AppPlan)
    ensures
        final(app).steps@ == old(app).steps@ + damage_steps(),
{
    app.add(AppStep::Configure("ConfigHandle<DamageConfig>"));
    app.add(AppStep::RegisterType("Damage"));
    app.add(AppStep::RegisterType("OnDamage"));
    app.add(AppStep::AddObserver("deal_damage_on_collision"));
    app.add(AppStep::AddObserver("reduce_health_on_damage"));
    app.add(AppStep::RegisterType("IsDamagePopup"));
    app.add(AppStep::AddObserver("display_damage_indicator"));
    app.add(AppStep::AddSystem(Schedule::Update, UpdateStage::Update, true, "apply_fade_out_to_damage_popup"));
    proof {
        assert(app.steps@ =~= old(app).steps@ + damage_steps());
    }
}

/// What a collision does: the hitbox to despawn, and the entity hit with the
/// damage it takes.
#[derive(PartialEq, Eq, Structural, Clone, Copy, Debug)]
pub struct Hit {
    pub hitbox: EntityId,
    pub hurtbox: EntityId,
    pub damage: OnDamage,
}

/// A hitbox carrying damage that collides with an entity with health is spent
/// and deals its damage. The entity hit is the collider's body when it has one.
pub fn deal_damage_on_collision(
    hitbox: EntityId,
    damage: Option<Damage>,
    collider: EntityId,
    body: Option<EntityId>,
    hurtbox_has_health: bool,
) -> (hit: Option<Hit>)
    ensures
        hit == match damage {
            Some(d) => if hurtbox_has_health {
                Some(
                    Hit {
                        hitbox,
                        hurtbox: match body {
                            Some(b) => b,
                            None => collider,
                        },
                        damage: OnDamage(d.0),
                    },
                )
            } else {
                None
            },
            None => None,
        },
{
    let d = match damage {
        Some(d) => d,
        None => return None,
    };
    let hurtbox = match body {
        Some(b) => b,
        None => collider,
    };
    if !hurtbox_has_health {
        return None;
    }
    Some(Hit { hitbox, hurtbox, damage: OnDamage(d.0) })
}

/// Damage takes hit points away.
pub fn reduce_health_on_damage(health: &mut Health, event: OnDamage)
    requires
        i64::MIN <= old(health).current - event.0 <= i64::MAX,
    ensures
        *final(health) == (Health { current: (old(health).current - event.0) as i64, ..*old(health) }),
{
    health.take_damage(event.0);
}

/// The text of the popup shown over a damaged ship: a minus sign, then the damage.
pub fn damage_popup_text(event: OnDamage) -> (s: String)
    ensures
        s@ == seq!['-'] + signed_decimal(event.0 as int),
{
    let amount = signed_decimal_string(event.0);
    let mut s = String::new();
    proof {
        reveal_strlit("-");
    }
    s.append("-");
    s.append(amount.as_str());
    proof {
        assert(s@ =~= seq!['-'] + signed_decimal(event.0 as int));
    }
    s
}

/// Where a damage popup appears: over the player ship's body or over the
/// enemy ship.
#[derive(PartialEq, Eq, Structural, Clone, Copy, Debug)]
pub enum PopupAnchor {
    PlayerShipBody,
    EnemyShip,
}

/// The ship over which the damage popup for `target` appears; no popup is
/// shown for an entity that is neither ship.
pub fn damage_popup_anchor(target: EntityId, player_ship: EntityId, enemy_ship: EntityId) -> (a:
    Option<PopupAnchor>)
    ensures
        a == (if target == player_ship {
            Some(PopupAnchor::PlayerShipBody)
        } else if target == enemy_ship {
            Some(PopupAnchor::EnemyShip)
        } else {
            None
        }),
{
    if target == player_ship {
        Some(PopupAnchor::PlayerShipBody)
    } else if target == enemy_ship {
        Some(PopupAnchor::EnemyShip)
    } else {
        None
    }
}

} // verus!
