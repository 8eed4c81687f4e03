//! Combat between the two ships: damage, death and health.
pub mod damage;
pub mod death;
pub mod health;

use vstd::prelude::*;

use crate::ecs::AppPlan;

verus! {

/// Adds the plugins of damage, death, factions and health, in that order.
pub fn plugin(app: &mut AppPlan)
    ensures
        final(app).steps@ == old(app).steps@ + damage::damage_steps() + death::death_steps()
            + crate::combat::faction::faction_steps() + health::health_steps(),
{
    damage::plugin(app);
    death::plugin(app);
    crate::combat::faction::plugin(app);
    health::plugin(app);
}

} // verus!
