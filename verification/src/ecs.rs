//! Entities, and what plugins add to the app.
//!
//! A plugin does not touch the engine itself: it appends steps to an [`AppPlan`],
//! which the engine side carries out in order.
use vstd::prelude::*;

verus! {

/// An entity of the game world.
#[derive(PartialEq, Eq, Structural, Clone, Copy, Debug)]
pub struct EntityId(pub u64);

/// The schedules systems run in.
#[derive(PartialEq, Eq, Structural, Clone, Copy, Debug)]
pub enum Schedule {
    Startup,
    Update,
    PostUpdate,
    /// When states change.
    StateFlush,
}

/// The ordered stages of an update that systems are placed in.
#[derive(PartialEq, Eq, Structural, Clone, Copy, Debug)]
pub enum UpdateStage {
    TickTimers,
    RecordInput,
    Update,
    SyncLate,
}

/// One thing a plugin asks of the app.
#[derive(Clone, Copy, PartialEq, Debug)]
pub enum AppStep {
    /// Configure the named type the way the engine's configuration loader does.
    Configure(&'static str),
    /// Register the named type for reflection.
    RegisterType(&'static str),
    /// Run the named system in the schedule, at the stage; the flag says whether
    /// pausing the game stops it.
    AddSystem(Schedule, UpdateStage, bool, &'static str),
    /// Run the named observer whenever its event is triggered.
    AddObserver(&'static str),
}

/// The steps plugins have asked for, in order.
pub struct AppPlan {
    pub steps: Vec<AppStep>,
}

impl AppPlan {
    pub fn new() -> (app: AppPlan)
        ensures
            app.steps@ == Seq::<AppStep>::empty(),
    {
        AppPlan { steps: Vec::new() }
    }

    /// Appends a step.
    pub fn add(&mut self, step: AppStep)
        ensures
            final(self).steps@ == old(self).steps@.push(step),
    {
        self.steps.push(step);
    }
}

} // verus!
