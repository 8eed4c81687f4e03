//! Death of a ship: it is marked dead.
use vstd::prelude::*;

use crate::ecs::AppPlan;
use crate::ecs::AppStep;
use crate::ecs::EntityId;

verus! {

/// The event of a ship dying.
#[derive(PartialEq, Eq, Structural, Clone, Copy, Debug)]
pub struct OnDeath;

/// Marks a ship that has died.
#[derive(PartialEq, Eq, Structural, Clone, Copy, Debug)]
pub struct IsDead;

/// What the death plugin adds to the app: each type, then what it brings.
pub open spec fn death_steps() -> Seq<AppStep> {
    seq![
        AppStep::RegisterType("OnDeath"),
        AppStep::RegisterType("IsDead"),
        AppStep::AddObserver("mark_dead_on_death"),
    ]
}

/// Adds the death event and marker, with the observer that marks the dead.
pub fn plugin(app: &mut AppPlan)
    ensures
        final(app).steps@ == old(app).steps@ + death_steps(),
{
    app.add(AppStep::RegisterType("OnDeath"));
    app.add(AppStep::RegisterType("IsDead"));
    app.add(AppStep::AddObserver("mark_dead_on_death"));
    proof {
        assert(app.steps@ =~= old(app).steps@ + death_steps());
    }
}

/// A death event marks its target dead; an event without a target does nothing.
pub fn mark_dead_on_death(target: Option<EntityId>) -> (r: Option<(EntityId, IsDead)>)
    ensures
        r == match target {
            Some(e) => Some((e, IsDead)),
            None => None,
        },
{
    match target {
        Some(e) => Some((e, IsDead)),
        None => None,
    }
}

} // verus!
