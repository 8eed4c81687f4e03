use vstd::prelude::*;

use crate::ecs::AppPlan;
use crate::ecs::AppStep;
use crate::game::GameLayer;

verus! {

/// What the faction plugin adds to the app.
pub open spec fn faction_steps() -> Seq<AppStep> {
    seq![
        AppStep::RegisterType("Faction"),
    ]
}

/// Adds the faction component.
pub fn plugin(app: &mut AppPlan)
    ensures
        final(app).steps@ == old(app).steps@ + faction_steps(),
{
    app.add(AppStep::RegisterType("Faction"));
    proof {
        assert(app.steps@ =~= old(app).steps@ + faction_steps());
    }
}

/// The side an entity fights for.
#[derive(PartialEq, Eq, Structural, Clone, Copy, Debug)]
pub enum Faction {
    Player,
    Enemy,
}

impl Faction {
    /// The physics layer of this faction.
    pub open spec fn spec_layer(self) -> GameLayer {
        match self {
            Faction::Player => GameLayer::Player,
            Faction::Enemy => GameLayer::Enemy,
        }
    }

    /// The faction this faction fights against.
    pub open spec fn spec_opponent(self) -> Faction {
        match self {
            Faction::Player => Faction::Enemy,
            Faction::Enemy => Faction::Player,
        }
    }

    pub fn layer(&self) -> (layer: GameLayer)
        ensures
            layer == self.spec_layer(),
    {
        match self {
            Self::Player => GameLayer::Player,
            Self::Enemy => GameLayer::Enemy,
        }
    }

    pub fn opponent(&self) -> (other: Self)
        ensures
            other == self.spec_opponent(),
    {
        match self {
            Self::Player => Self::Enemy,
            Self::Enemy => Self::Player,
        }
    }
}

/// The collision layers of a projectile fired by `faction`: its own layer is the
/// default one and it collides with the opposing faction's layer only.
pub fn projectile_layers(faction: Faction) -> (layers: (GameLayer, GameLayer))
    ensures
        layers == (GameLayer::Default, faction.spec_opponent().spec_layer()),
{
    (GameLayer::Default, faction.opponent().layer())
}

/// Taking the opponent twice gives back the faction itself, and a faction
/// never shares its physics layer with its opponent.
pub proof fn lemma_opponent_involution(faction: Faction)
    ensures
        faction.spec_opponent().spec_opponent() == faction,
        faction.spec_opponent() != faction,
        faction.spec_opponent().spec_layer() != faction.spec_layer(),
{
}

} // verus!
