//! Health as a reflected type.
use vstd::prelude::*;

use crate::ecs::AppPlan;
use crate::ecs::AppStep;

verus! {

/// Registers [`crate::combat::health::Health`] for reflection.
pub fn plugin(app: &mut AppPlan)
    ensures
        final(app).steps@ == old(app).steps@.push(AppStep::RegisterType("Health")),
{
    app.add(AppStep::RegisterType("Health"));
}

} // verus!
