//! Hit points of the ships, and the health bar drawn above each.
//!
//! Hit points are whole numbers. `current` may fall below zero between a hit and
//! the clamp at the end of the frame.
use vstd::prelude::*;

use crate::ecs::AppPlan;
use crate::ecs::AppStep;
use crate::ecs::Schedule;
use crate::ecs::UpdateStage;
use crate::text::signed_decimal;
use crate::text::signed_decimal_string;
use crate::ui::Blueprint;
use crate::ui::Marker;
use crate::ui::Part;
use crate::ui::ThemeColor;
use crate::ui::shaped;

verus! {

/// What the health plugin adds to the app: each type, then what it brings.
pub open spec fn health_steps() -> Seq<AppStep> {
    seq![
        AppStep::Configure("ConfigHandle<HealthConfig>"),
        AppStep::RegisterType("Health"),
        AppStep::AddSystem(Schedule::Update, UpdateStage::Update, false, "detect_death_from_health"),
        AppStep::AddSystem(Schedule::Update, UpdateStage::SyncLate, false, "clamp_health"),
        AppStep::RegisterType("HealthBarFill"),
        AppStep::AddSystem(Schedule::Update, UpdateStage::SyncLate, false, "sync_health_bar"),
        AppStep::RegisterType("HealthBarLabel"),
        AppStep::AddSystem(Schedule::Update, UpdateStage::SyncLate, false, "sync_health_label"),
        AppStep::RegisterType("OnHeal"),
        AppStep::AddObserver("increase_health_on_heal"),
        AppStep::RegisterType("HealPopup"),
        AppStep::AddObserver("spawn_heal_popup_on_heal"),
    ]
}

/// Adds health, the health bar and healing, with their systems and observers.
pub fn plugin(app: &mut AppPlan)
    ensures
        final(app).steps@ == old(app).steps@ + health_steps(),
{
    app.add(AppStep::Configure("ConfigHandle<HealthConfig>"));
    app.add(AppStep::RegisterType("Health"));
    app.add(AppStep::AddSystem(Schedule::Update, UpdateStage::Update, false, "detect_death_from_health"));
    app.add(AppStep::AddSystem(Schedule::Update, UpdateStage::SyncLate, false, "clamp_health"));
    app.add(AppStep::RegisterType("HealthBarFill"));
    app.add(AppStep::AddSystem(Schedule::Update, UpdateStage::SyncLate, false, "sync_health_bar"));
    app.add(AppStep::RegisterType("HealthBarLabel"));
    app.add(AppStep::AddSystem(Schedule::Update, UpdateStage::SyncLate, false, "sync_health_label"));
    app.add(AppStep::RegisterType("OnHeal"));
    app.add(AppStep::AddObserver("increase_health_on_heal"));
    app.add(AppStep::RegisterType("HealPopup"));
    app.add(AppStep::AddObserver("spawn_heal_popup_on_heal"));
    proof {
        assert(app.steps@ =~= old(app).steps@ + health_steps());
    }
}

/// Marks the fill of a health bar; its width follows the health of its parent.
#[derive(PartialEq, Eq, Structural, Clone, Copy, Debug)]
pub struct HealthBarFill;

/// A health bar at `offset` from its ship, `size` large: a label with the hit
/// points over the fill. Lengths are in hundred-millionths of a unit.
pub open spec fn health_bar_blueprint(b: Blueprint, offset: (i64, i64), size: (i64, i64)) -> bool {
    &&& shaped(
        b,
        seq![
            Part::Name("HealthBar"),
            Part::Translation(offset.0, offset.1, 10_000_000i64),
            Part::InheritedVisibility,
        ],
        2,
    )
    &&& shaped(
        b.children@[0],
        seq![
            Part::Name("HealthBarLabel"),
            Part::Marker(Marker::HealthBarLabel),
            Part::WorldText(800_000_000i64, ThemeColor::BodyText),
            Part::Translation(0i64, 150_000_000i64, 10_000_000i64),
        ],
        0,
    )
    &&& shaped(
        b.children@[1],
        seq![
            Part::Name("HealthBarFill"),
            Part::Marker(Marker::HealthBarFill(HealthBarFill)),
            Part::Sprite,
            Part::Scale(size.0, size.1, 100_000_000i64),
        ],
        0,
    )
}

pub fn health_bar(offset: (i64, i64), size: (i64, i64)) -> (b: Blueprint)
    ensures
        health_bar_blueprint(b, offset, size),
{
    let label = Blueprint {
        parts: vec![
            Part::Name("HealthBarLabel"),
            Part::Marker(Marker::HealthBarLabel),
            Part::WorldText(800_000_000i64, ThemeColor::BodyText),
            Part::Translation(0i64, 150_000_000i64, 10_000_000i64),
        ],
        children: Vec::new(),
    };
    let fill = Blueprint {
        parts: vec![
            Part::Name("HealthBarFill"),
            Part::Marker(Marker::HealthBarFill(HealthBarFill)),
            Part::Sprite,
            Part::Scale(size.0, size.1, 100_000_000i64),
        ],
        children: Vec::new(),
    };
    Blueprint {
        parts: vec![
            Part::Name("HealthBar"),
            Part::Translation(offset.0, offset.1, 10_000_000i64),
            Part::InheritedVisibility,
        ],
        children: vec![label, fill],
    }
}

/// The event of a ship being healed by the given amount of hit points.
#[derive(PartialEq, Eq, Structural, Clone, Copy, Debug)]
pub struct OnHeal(pub i64);

/// The popup shown over a healed ship: a plus sign with the amount in bold after
/// it. It rises, dies after a delay and fades out, and goes with the level.
/// Where it appears and how large it is drawn depend on real-valued settings and
/// chance, and are left to the caller.
pub open spec fn heal_popup_blueprint(b: Blueprint, event: OnHeal) -> bool {
    &&& shaped(
        b,
        seq![
            Part::Marker(Marker::HealPopup),
            Part::PopupText("+"),
            Part::PopupLifetime,
            Part::KinematicBody,
            Part::PopupVelocity,
            Part::DespawnOnExitLevel,
        ],
        1,
    )
    &&& b.children@[0].children@.len() == 0
    &&& b.children@[0].parts@.len() == 2
    &&& b.children@[0].parts@[0] == Part::Name("Number")
    &&& b.children@[0].parts@[1] matches Part::PopupBoldSpan(t) && t@ == signed_decimal(event.0 as int)
}

pub fn spawn_heal_popup_on_heal(event: OnHeal) -> (b: Blueprint)
    ensures
        heal_popup_blueprint(b, event),
{
    let number = Blueprint {
        parts: vec![Part::Name("Number"), Part::PopupBoldSpan(signed_decimal_string(event.0))],
        children: Vec::new(),
    };
    Blueprint {
        parts: vec![
            Part::Marker(Marker::HealPopup),
            Part::PopupText("+"),
            Part::PopupLifetime,
            Part::KinematicBody,
            Part::PopupVelocity,
            Part::DespawnOnExitLevel,
        ],
        children: vec![number],
    }
}

/// The hit points of a ship.
#[derive(PartialEq, Eq, Structural, Clone, Copy, Debug)]
pub struct Health {
    pub max: i64,
    pub current: i64,
}

/// `x` brought into `[lo, hi]`.
pub open spec fn clamped(x: int, lo: int, hi: int) -> int {
    if x < lo {
        lo
    } else if x > hi {
        hi
    } else {
        x
    }
}

/// Clamping settles the hit points: clamping again changes nothing, and clamped
/// hit points are depleted exactly when none are left.
pub proof fn lemma_clamp_settles(current: int, max: int)
    requires
        max >= 0,
    ensures
        clamped(clamped(current, 0, max), 0, max) == clamped(current, 0, max),
        0 <= clamped(current, 0, max) <= max,
        (clamped(current, 0, max) <= 0) == (clamped(current, 0, max) == 0),
{
}

impl Default for Health {
    /// A ship with 90 of 100 hit points.
    fn default() -> (h: Self)
        ensures
            h == (Health { max: 100, current: 90 }),
    {
        Health { max: 100, current: 90 }
    }
}

impl Health {
    /// Full health.
    pub fn new(max: i64) -> (h: Health)
        ensures
            h == (Health { max, current: max }),
    {
        Health { max, current: max }
    }

    /// The hit points missing.
    pub fn diff(&self) -> (d: i64)
        requires
            i64::MIN <= self.max - self.current <= i64::MAX,
        ensures
            d == self.max - self.current,
    {
        self.max - self.current
    }

    /// A hit takes `damage` hit points away.
    pub fn take_damage(&mut self, damage: i64)
        requires
            i64::MIN <= old(self).current - damage <= i64::MAX,
        ensures
            *final(self) == (Health { current: (old(self).current - damage) as i64, ..*old(self) }),
    {
        self.current = self.current - damage;
    }

    /// Healing gives `amount` hit points back, possibly past the maximum until
    /// the next clamp.
    pub fn heal(&mut self, amount: i64)
        requires
            i64::MIN <= old(self).current + amount <= i64::MAX,
        ensures
            *final(self) == (Health { current: (old(self).current + amount) as i64, ..*old(self) }),
    {
        self.current = self.current + amount;
    }

    /// Brings the hit points back into `[0, max]`.
    pub fn clamp(&mut self)
        requires
            old(self).max >= 0,
        ensures
            *final(self) == (Health {
                current: clamped(old(self).current as int, 0, old(self).max as int) as i64,
                ..*old(self)
            }),
            0 <= final(self).current <= final(self).max,
            0 <= old(self).current <= old(self).max ==> *final(self) == *old(self),
    {
        if self.current < 0 {
            self.current = 0;
        } else if self.current > self.max {
            self.current = self.max;
        }
    }

    /// No hit points are left.
    pub fn is_depleted(&self) -> (r: bool)
        ensures
            r == (self.current <= 0),
    {
        self.current <= 0
    }

    /// How full the bar is, as hit points left over the maximum; a negative
    /// count shows as an empty bar.
    pub fn fill(&self) -> (f: (i64, i64))
        ensures
            f == (if self.current < 0 {
                (0i64, self.max)
            } else {
                (self.current, self.max)
            }),
    {
        if self.current < 0 {
            (0, self.max)
        } else {
            (self.current, self.max)
        }
    }

    /// The text of the health bar's label.
    pub fn label(&self) -> (s: String)
        ensures
            s@ == signed_decimal(self.current as int),
    {
        signed_decimal_string(self.current)
    }
}

/// A ship whose health changed dies when no hit points are left, unless it is
/// already dead.
pub fn detect_death_from_health(health: &Health, dead: bool) -> (dies: bool)
    ensures
        dies == (!dead && health.current <= 0),
{
    !dead && health.is_depleted()
}

} // verus!
