//! Death: what happens to an entity when it dies or is clicked to death.
use vstd::prelude::*;

use crate::ecs::AppPlan;
use crate::ecs::AppStep;
use crate::ecs::Schedule;
use crate::ecs::UpdateStage;
use crate::ecs::EntityId;
use crate::input::PointerButton;

verus! {

/// The event of an entity dying.
#[derive(PartialEq, Eq, Structural, Clone, Copy, Debug)]
pub struct OnDeath;

/// Marks an entity that has died.
#[derive(PartialEq, Eq, Structural, Clone, Copy, Debug)]
pub struct Dead;

/// Marks an entity that a primary click despawns.
#[derive(PartialEq, Eq, Structural, Clone, Copy, Debug)]
pub struct DieOnClick;

/// Marks an entity that is despawned when it dies.
#[derive(PartialEq, Eq, Structural, Clone, Copy, Debug)]
pub struct DespawnOnDeath;

/// What the death plugin adds to the app: each type, then what it brings.
pub open spec fn death_steps() -> Seq<AppStep> {
    seq![
        AppStep::RegisterType("OnDeath"),
        AppStep::RegisterType("Dead"),
        AppStep::AddObserver("mark_dead_on_death"),
        AppStep::RegisterType("DieOnLifetime"),
        AppStep::AddSystem(Schedule::Update, UpdateStage::Update, false, "die_on_lifetime"),
        AppStep::RegisterType("DieOnClick"),
        AppStep::AddObserver("die_on_click"),
        AppStep::RegisterType("DespawnOnDeath"),
        AppStep::AddObserver("despawn_on_death"),
    ]
}

/// Adds the death event and markers, with their observers and systems.
pub fn plugin(app: &mut AppPlan)
    ensures
        final(app).steps@ == old(app).steps@ + death_steps(),
{
    app.add(AppStep::RegisterType("OnDeath"));
    app.add(AppStep::RegisterType("Dead"));
    app.add(AppStep::AddObserver("mark_dead_on_death"));
    app.add(AppStep::RegisterType("DieOnLifetime"));
    app.add(AppStep::AddSystem(Schedule::Update, UpdateStage::Update, false, "die_on_lifetime"));
    app.add(AppStep::RegisterType("DieOnClick"));
    app.add(AppStep::AddObserver("die_on_click"));
    app.add(AppStep::RegisterType("DespawnOnDeath"));
    app.add(AppStep::AddObserver("despawn_on_death"));
    proof {
        assert(app.steps@ =~= old(app).steps@ + death_steps());
    }
}

/// A death event marks its target dead; an event without a target does nothing.
pub fn mark_dead_on_death(target: Option<EntityId>) -> (r: Option<(EntityId, Dead)>)
    ensures
        r == match target {
            Some(e) => Some((e, Dead)),
            None => None,
        },
{
    match target {
        Some(e) => Some((e, Dead)),
        None => None,
    }
}

/// A primary click on an entity marked [`DieOnClick`] despawns it: the entity
/// returned is the one to despawn.
pub fn die_on_click(button: PointerButton, target: Option<EntityId>, dies_on_click: bool) -> (r:
    Option<EntityId>)
    ensures
        r == (if button == PointerButton::Primary && dies_on_click {
            target
        } else {
            None
        }),
{
    if !matches!(button, PointerButton::Primary) || !dies_on_click {
        return None;
    }
    target
}

/// A dying entity marked [`DespawnOnDeath`] is despawned at the end of the frame:
/// the entity returned is the one to despawn.
pub fn despawn_on_death(target: Option<EntityId>, despawns_on_death: bool) -> (r: Option<EntityId>)
    ensures
        r == (if despawns_on_death {
            target
        } else {
            None
        }),
{
    if !despawns_on_death {
        return None;
    }
    target
}

} // verus!
