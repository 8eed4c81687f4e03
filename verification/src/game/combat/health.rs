//! The health bars of the ships.
use vstd::prelude::*;

use crate::combat::health::Health;
use crate::ecs::AppPlan;
use crate::ecs::AppStep;
use crate::ecs::Schedule;
use crate::ecs::UpdateStage;
use crate::ui::Blueprint;
use crate::ui::Marker;
use crate::ui::Part;
use crate::ui::shaped;
use crate::text::signed_decimal;
use crate::text::signed_decimal_string;

verus! {

/// What the health plugin adds to the app: each type, then what it brings.
pub open spec fn health_steps() -> Seq<AppStep> {
    seq![
        AppStep::Configure("ConfigHandle<HealthConfig>"),
        AppStep::RegisterType("Health"),
        AppStep::AddSystem(Schedule::Update, UpdateStage::Update, false, "detect_death"),
        AppStep::AddSystem(Schedule::Update, UpdateStage::SyncLate, false, "clamp_health"),
        AppStep::RegisterType("IsHealthBar"),
        AppStep::AddSystem(Schedule::Update, UpdateStage::SyncLate, false, "sync_health_bar"),
        AppStep::RegisterType("OnHeal"),
        AppStep::AddObserver("increase_health_on_heal"),
        AppStep::RegisterType("IsHealPopup"),
        AppStep::AddObserver("spawn_heal_popup_on_heal"),
        AppStep::AddSystem(Schedule::Update, UpdateStage::Update, true, "apply_fade_out_to_heal_popup"),
    ]
}

/// Adds health, the health bar and healing, with their systems and observers.
pub fn plugin(app: &mut AppPlan)
    ensures
        final(app).steps@ == old(app).steps@ + health_steps(),
{
    app.add(AppStep::Configure("ConfigHandle<HealthConfig>"));
    app.add(AppStep::RegisterType("Health"));
    app.add(AppStep::AddSystem(Schedule::Update, UpdateStage::Update, false, "detect_death"));
    app.add(AppStep::AddSystem(Schedule::Update, UpdateStage::SyncLate, false, "clamp_health"));
    app.add(AppStep::RegisterType("IsHealthBar"));
    app.add(AppStep::AddSystem(Schedule::Update, UpdateStage::SyncLate, false, "sync_health_bar"));
    app.add(AppStep::RegisterType("OnHeal"));
    app.add(AppStep::AddObserver("increase_health_on_heal"));
    app.add(AppStep::RegisterType("IsHealPopup"));
    app.add(AppStep::AddObserver("spawn_heal_popup_on_heal"));
    app.add(AppStep::AddSystem(Schedule::Update, UpdateStage::Update, true, "apply_fade_out_to_heal_popup"));
    proof {
        assert(app.steps@ =~= old(app).steps@ + health_steps());
    }
}

/// Marks a health bar; its width follows the health of its parent.
#[derive(PartialEq, Eq, Structural, Clone, Copy, Debug)]
pub struct IsHealthBar;

pub open spec fn health_bar_blueprint(b: Blueprint) -> bool {
    shaped(b, seq![Part::Name("HealthBar"), Part::Marker(Marker::IsHealthBar(IsHealthBar))], 0)
}

pub fn health_bar() -> (b: Blueprint)
    ensures
        health_bar_blueprint(b),
{
    Blueprint {
        parts: vec![Part::Name("HealthBar"), Part::Marker(Marker::IsHealthBar(IsHealthBar))],
        children: Vec::new(),
    }
}

/// The event of a ship being healed by the given amount of hit points.
#[derive(PartialEq, Eq, Structural, Clone, Copy, Debug)]
pub struct OnHeal(pub i64);

/// Healing gives the healed ship the amount in hit points.
pub fn increase_health_on_heal(health: &mut Health, event: OnHeal)
    requires
        i64::MIN <= old(health).current + event.0 <= i64::MAX,
    ensures
        *final(health) == (Health { current: (old(health).current + event.0) as i64, ..*old(health) }),
{
    health.heal(event.0);
}

/// The text of the popup shown over a healed ship: a plus sign, then the amount.
pub fn heal_popup_text(event: OnHeal) -> (s: String)
    ensures
        s@ == seq!['+'] + signed_decimal(event.0 as int),
{
    let amount = signed_decimal_string(event.0);
    let mut s = String::new();
    proof {
        reveal_strlit("+");
    }
    s.append("+");
    s.append(amount.as_str());
    proof {
        assert(s@ =~= seq!['+'] + signed_decimal(event.0 as int));
    }
    s
}

/// A ship whose health changed dies when no hit points are left; this check
/// does not look at whether it died before.
pub fn detect_death(health: &Health) -> (dies: bool)
    ensures
        dies == (health.current <= 0),
{
    health.is_depleted()
}

} // verus!
