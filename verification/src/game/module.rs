//! Reactor modules: what triggers them, what they do, and how they are described.
use vstd::prelude::*;

use rand::rngs::ThreadRng;

use crate::combat::faction::Faction;
use crate::ecs::EntityId;
use crate::game::stats::Stats;
use crate::rng::choose_index;
use crate::rng::random_index;
use crate::text::capitalized;
use crate::text::capitalize;
use crate::text::decimal;
use crate::text::push_decimal;

verus! {

/// An action a reactor module can be triggered by or can perform.
#[derive(PartialEq, Eq, Structural, Clone, Copy, Debug)]
pub enum ModuleAction {
    Nothing,
    Missile,
    Laser,
    Fireball,
    Repair,
}

/// Where a module is and what state it is in.
#[derive(PartialEq, Eq, Structural, Clone, Copy, Debug)]
pub enum ModuleStatus {
    FaceUp,
    FaceDown,
    SlotEmpty,
    SlotInactive,
    SlotActive,
    SlotOverheated,
}

/// The event of a ship performing an action on a target.
#[derive(PartialEq, Eq, Structural, Clone, Copy, Debug)]
pub struct OnModuleAction {
    pub action: ModuleAction,
    pub source: EntityId,
    pub target: EntityId,
}

/// A reactor module. `heat` counts whole heat units accumulated in the reactor.
#[derive(PartialEq, Eq, Structural, Clone, Copy, Debug)]
pub struct Module {
    pub condition: ModuleAction,
    pub effect: ModuleAction,
    pub status: ModuleStatus,
    pub heat: u64,
}

/// A module's identity as a card: its condition and its effect.
pub type Card = (ModuleAction, ModuleAction);

pub open spec fn card(m: Module) -> Card {
    (m.condition, m.effect)
}

impl Module {
    /// An empty reactor slot.
    pub fn empty() -> (m: Self)
        ensures
            m == (Module {
                condition: ModuleAction::Nothing,
                effect: ModuleAction::Nothing,
                status: ModuleStatus::SlotEmpty,
                heat: 0,
            }),
    {
        Self {
            condition: ModuleAction::Nothing,
            effect: ModuleAction::Nothing,
            status: ModuleStatus::SlotEmpty,
            heat: 0,
        }
    }

    pub fn new(condition: ModuleAction, effect: ModuleAction) -> (m: Self)
        ensures
            m == (Module { condition, effect, status: ModuleStatus::FaceUp, heat: 0 }),
    {
        Self { condition, effect, status: ModuleStatus::FaceUp, heat: 0 }
    }

    /// One line naming the trigger and the effect.
    pub fn short_description(&self) -> (s: String)
        ensures
            s@ == condition_label(self.condition) + effect_label(self.effect),
    {
        let mut s = String::from_str(condition_label_str(self.condition));
        s.append(effect_label_str(self.effect));
        s
    }

    /// The tooltip text of the module, given the heat capacity of the reactor.
    pub fn description(&self, heat_capacity: u64) -> (s: String)
        ensures
            s@ == description_text(*self, heat_capacity),
    {
        let header = "[b]Reactor module[r]";
        match self.status {
            ModuleStatus::FaceDown => String::from_str(header),
            ModuleStatus::SlotEmpty => {
                let mut s = String::from_str(header);
                s.append("\n\nEmpty slot");
                s
            },
            _ => {
                let mut sentence = String::from_str(condition_phrase_str(self.condition));
                sentence.append(effect_phrase_str(self.condition, self.effect));
                sentence.append(".");
                let body = capitalize(sentence.as_str());
                let mut s = String::from_str(header);
                if matches!(self.status, ModuleStatus::SlotOverheated) {
                    s.append(" (OVERHEATED)");
                } else {
                    s.append(" (heat: ");
                    push_decimal(&mut s, self.heat);
                    s.append("/");
                    push_decimal(&mut s, heat_capacity);
                    s.append(")");
                }
                s.append(" - Right click to remove\n\n> ");
                s.append(body.as_str());
                s.append(stats_line_str(self.effect));
                proof {
                    assert(s@ =~= description_text(*self, heat_capacity));
                }
                s
            },
        }
    }
}

pub open spec fn condition_label(a: ModuleAction) -> Seq<char> {
    match a {
        ModuleAction::Nothing => "[b]Start[r] -> "@,
        ModuleAction::Missile => "[b]Missile[r] -> "@,
        ModuleAction::Laser => "[b]Laser[r] -> "@,
        ModuleAction::Fireball => "[b]Fireball[r] -> "@,
        ModuleAction::Repair => "[b]Repair[r] -> "@,
    }
}

pub open spec fn effect_label(a: ModuleAction) -> Seq<char> {
    match a {
        ModuleAction::Nothing => "[b]Nothing[r]"@,
        ModuleAction::Missile => "[b]Missile[r]"@,
        ModuleAction::Laser => "[b]Laser[r]"@,
        ModuleAction::Fireball => "[b]Fireball[r]"@,
        ModuleAction::Repair => "[b]Repair[r]"@,
    }
}

/// The opening of the sentence describing when a module triggers.
pub open spec fn condition_phrase(a: ModuleAction) -> Seq<char> {
    match a {
        ModuleAction::Nothing => "at the start of a new chain, "@,
        ModuleAction::Missile => "after launching a missile, "@,
        ModuleAction::Laser => "after firing a laser, "@,
        ModuleAction::Fireball => "after unleashing a fireball, "@,
        ModuleAction::Repair => "after repairing the hull, "@,
    }
}

/// The rest of the sentence: what the module does, "another" when it repeats its trigger.
pub open spec fn effect_phrase(c: ModuleAction, e: ModuleAction) -> Seq<char> {
    match e {
        ModuleAction::Nothing => "end the chain"@,
        ModuleAction::Missile => if c == ModuleAction::Missile {
            "launch another missile"@
        } else {
            "launch a missile"@
        },
        ModuleAction::Laser => if c == ModuleAction::Laser {
            "fire another laser"@
        } else {
            "fire a laser"@
        },
        ModuleAction::Fireball => if c == ModuleAction::Fireball {
            "unleash another fireball and end the chain"@
        } else {
            "unleash a fireball and end the chain"@
        },
        ModuleAction::Repair => if c == ModuleAction::Repair {
            "repair the hull again"@
        } else {
            "repair the hull"@
        },
    }
}

pub open spec fn stats_line(e: ModuleAction) -> Seq<char> {
    match e {
        ModuleAction::Nothing => ""@,
        ModuleAction::Missile => "\n\n[b]Damage:[r] 1 times flux"@,
        ModuleAction::Laser => "\n\n[b]Damage:[r] 2 times flux"@,
        ModuleAction::Fireball => "\n\n[b]Damage:[r] 8 times flux"@,
        ModuleAction::Repair => "\n\n[b]Heal:[r] 2 times flux"@,
    }
}

/// The heat part of the tooltip header.
pub open spec fn heat_text(m: Module, heat_capacity: u64) -> Seq<char> {
    if m.status == ModuleStatus::SlotOverheated {
        " (OVERHEATED)"@
    } else {
        " (heat: "@ + decimal(m.heat as nat) + "/"@ + decimal(heat_capacity as nat) + ")"@
    }
}

/// The full tooltip text of a module.
pub open spec fn description_text(m: Module, heat_capacity: u64) -> Seq<char> {
    let header = "[b]Reactor module[r]"@;
    match m.status {
        ModuleStatus::FaceDown => header,
        ModuleStatus::SlotEmpty => header + "\n\nEmpty slot"@,
        _ => header + heat_text(m, heat_capacity) + " - Right click to remove\n\n> "@
            + capitalized(condition_phrase(m.condition) + effect_phrase(m.condition, m.effect) + "."@)
            + stats_line(m.effect),
    }
}

fn condition_label_str(a: ModuleAction) -> (s: &'static str)
    ensures
        s@ == condition_label(a),
{
    match a {
        ModuleAction::Nothing => "[b]Start[r] -> ",
        ModuleAction::Missile => "[b]Missile[r] -> ",
        ModuleAction::Laser => "[b]Laser[r] -> ",
        ModuleAction::Fireball => "[b]Fireball[r] -> ",
        ModuleAction::Repair => "[b]Repair[r] -> ",
    }
}

fn effect_label_str(a: ModuleAction) -> (s: &'static str)
    ensures
        s@ == effect_label(a),
{
    match a {
        ModuleAction::Nothing => "[b]Nothing[r]",
        ModuleAction::Missile => "[b]Missile[r]",
        ModuleAction::Laser => "[b]Laser[r]",
        ModuleAction::Fireball => "[b]Fireball[r]",
        ModuleAction::Repair => "[b]Repair[r]",
    }
}

fn condition_phrase_str(a: ModuleAction) -> (s: &'static str)
    ensures
        s@ == condition_phrase(a),
{
    match a {
        ModuleAction::Nothing => "at the start of a new chain, ",
        ModuleAction::Missile => "after launching a missile, ",
        ModuleAction::Laser => "after firing a laser, ",
        ModuleAction::Fireball => "after unleashing a fireball, ",
        ModuleAction::Repair => "after repairing the hull, ",
    }
}

fn effect_phrase_str(c: ModuleAction, e: ModuleAction) -> (s: &'static str)
    ensures
        s@ == effect_phrase(c, e),
{
    match (c, e) {
        (_, ModuleAction::Nothing) => "end the chain",
        (ModuleAction::Missile, ModuleAction::Missile) => "launch another missile",
        (_, ModuleAction::Missile) => "launch a missile",
        (ModuleAction::Laser, ModuleAction::Laser) => "fire another laser",
        (_, ModuleAction::Laser) => "fire a laser",
        (ModuleAction::Fireball, ModuleAction::Fireball) => {
            "unleash another fireball and end the chain"
        },
        (_, ModuleAction::Fireball) => "unleash a fireball and end the chain",
        (ModuleAction::Repair, ModuleAction::Repair) => "repair the hull again",
        (_, ModuleAction::Repair) => "repair the hull",
    }
}

fn stats_line_str(e: ModuleAction) -> (s: &'static str)
    ensures
        s@ == stats_line(e),
{
    match e {
        ModuleAction::Nothing => "",
        ModuleAction::Missile => "\n\n[b]Damage:[r] 1 times flux",
        ModuleAction::Laser => "\n\n[b]Damage:[r] 2 times flux",
        ModuleAction::Fireball => "\n\n[b]Damage:[r] 8 times flux",
        ModuleAction::Repair => "\n\n[b]Heal:[r] 2 times flux",
    }
}

} // verus!

verus! {

/// What a triggered module action does in the world.
#[derive(PartialEq, Eq, Structural, Clone, Copy, Debug)]
pub enum ModuleEffect {
    /// Launch a missile from a weapon of the acting ship.
    LaunchMissile,
    /// Fire a laser from a weapon of the acting ship.
    FireLaser,
    /// Unleash a fireball from a weapon of the acting ship.
    UnleashFireball,
    /// Heal the acting ship by the given amount; the repair sound is pitched up by
    /// the given number of semitones.
    Repair(u64, u64),
    /// Nothing happens.
    Idle,
}

/// An action performed: its effect, the flux it is performed with, and the
/// weapon of the acting ship it comes from.
#[derive(PartialEq, Eq, Structural, Clone, Copy, Debug)]
pub struct ActionOutcome {
    pub effect: ModuleEffect,
    pub flux: u64,
    pub weapon: usize,
}

/// `a + b`, or `u64::MAX` when that is too large.
pub open spec fn sat_sum(a: u64, b: u64) -> u64 {
    if a + b > u64::MAX {
        u64::MAX
    } else {
        (a + b) as u64
    }
}

/// The effect of an action performed by a ship with the given flux.
pub open spec fn action_effect(action: ModuleAction, flux: u64, pitch: u64) -> ModuleEffect {
    match action {
        ModuleAction::Missile => ModuleEffect::LaunchMissile,
        ModuleAction::Laser => ModuleEffect::FireLaser,
        ModuleAction::Fireball => ModuleEffect::UnleashFireball,
        ModuleAction::Repair => ModuleEffect::Repair(sat_sum(flux, flux), pitch),
        ModuleAction::Nothing => ModuleEffect::Idle,
    }
}

/// The player's statistics after the player performs an action with the flux.
pub open spec fn counted(stats: Stats, action: ModuleAction, flux: u64) -> Stats {
    match action {
        ModuleAction::Missile => Stats { missiles_fired: (stats.missiles_fired + 1) as usize, ..stats },
        ModuleAction::Laser => Stats { lasers_fired: (stats.lasers_fired + 1) as usize, ..stats },
        ModuleAction::Fireball => Stats {
            fireballs_unleashed: (stats.fireballs_unleashed + 1) as usize,
            ..stats
        },
        ModuleAction::Repair => Stats { total_repaired: sat_sum(stats.total_repaired, flux), ..stats },
        ModuleAction::Nothing => stats,
    }
}

/// The statistics after a ship of the faction performs an action: only the
/// player's actions count.
pub open spec fn stats_after(stats: Stats, faction: Faction, action: ModuleAction, flux: u64) -> Stats {
    if faction == Faction::Player {
        counted(stats, action, flux)
    } else {
        stats
    }
}

/// The counters the player's action increments have room left.
pub open spec fn countable(stats: Stats, faction: Faction) -> bool {
    faction == Faction::Player ==> {
        &&& stats.missiles_fired < usize::MAX
        &&& stats.lasers_fired < usize::MAX
        &&& stats.fireballs_unleashed < usize::MAX
    }
}

/// An action performed by a ship of the given faction from the given weapon: the
/// flux is the player's deck flux for the player and the enemy's for the enemy,
/// and the player's statistics count the actions the player performs.
pub fn perform_module_action(
    action: ModuleAction,
    faction: Faction,
    player_flux: u64,
    enemy_flux: u64,
    weapon: usize,
    pitch: u64,
    stats: &mut Stats,
) -> (r: ActionOutcome)
    requires
        countable(*old(stats), faction),
    ensures
        ({
            let flux = if faction == Faction::Player {
                player_flux
            } else {
                enemy_flux
            };
            &&& r == (ActionOutcome { effect: action_effect(action, flux, pitch), flux, weapon })
            &&& *final(stats) == stats_after(*old(stats), faction, action, flux)
        }),
{
    let is_player = matches!(faction, Faction::Player);
    let flux = if is_player {
        player_flux
    } else {
        enemy_flux
    };
    let effect = match action {
        ModuleAction::Missile => {
            if is_player {
                stats.missiles_fired = stats.missiles_fired + 1;
            }
            ModuleEffect::LaunchMissile
        },
        ModuleAction::Laser => {
            if is_player {
                stats.lasers_fired = stats.lasers_fired + 1;
            }
            ModuleEffect::FireLaser
        },
        ModuleAction::Fireball => {
            if is_player {
                stats.fireballs_unleashed = stats.fireballs_unleashed + 1;
            }
            ModuleEffect::UnleashFireball
        },
        ModuleAction::Repair => {
            if is_player {
                stats.total_repaired = stats.total_repaired.saturating_add(flux);
            }
            ModuleEffect::Repair(flux.saturating_add(flux), pitch)
        },
        ModuleAction::Nothing => ModuleEffect::Idle,
    };
    ActionOutcome { effect, flux, weapon }
}

/// The flux an action is performed with: the player's deck flux for the player
/// and the enemy's for the enemy.
pub open spec fn acting_flux(faction: Faction, player_flux: u64, enemy_flux: u64) -> u64 {
    if faction == Faction::Player {
        player_flux
    } else {
        enemy_flux
    }
}

/// What an action performed with the flux from one of `weapon_count` weapons
/// can come to.
pub open spec fn performed(o: ActionOutcome, action: ModuleAction, flux: u64, weapon_count: usize) -> bool {
    &&& o.weapon < weapon_count
    &&& o.flux == flux
    &&& action == ModuleAction::Repair ==> exists|pitch: u64|
        pitch < 12 && o.effect == #[trigger] action_effect(action, flux, pitch)
    &&& action != ModuleAction::Repair ==> o.effect == action_effect(action, flux, 0)
}

/// A ship performs an action: it is fired from one of the ship's weapons, picked
/// at random (a ship without weapons does nothing), and a repair's sound is pitched
/// up by a random number of semitones below twelve.
pub fn on_module_action(
    action: ModuleAction,
    faction: Faction,
    player_flux: u64,
    enemy_flux: u64,
    weapon_count: usize,
    stats: &mut Stats,
    rng: &mut ThreadRng,
) -> (r: Option<ActionOutcome>)
    requires
        countable(*old(stats), faction),
    ensures
        r is None <==> weapon_count == 0,
        r is None ==> *final(stats) == *old(stats),
        r matches Some(o) ==> performed(
            o,
            action,
            acting_flux(faction, player_flux, enemy_flux),
            weapon_count,
        ),
        r matches Some(o) ==> *final(stats) == stats_after(*old(stats), faction, action, o.flux),
{
    let mut weapons: Vec<usize> = Vec::new();
    let mut k: usize = 0;
    while k < weapon_count
        invariant
            k <= weapon_count,
            weapons@.len() == k,
            forall|j: int| 0 <= j < k ==> #[trigger] weapons@[j] == j,
        decreases weapon_count - k,
    {
        weapons.push(k);
        k += 1;
    }
    let weapon = match choose_index(rng, &weapons) {
        Some(w) => w,
        None => return None,
    };
    proof {
        let j = choose|j: int| 0 <= j < weapons@.len() && weapons@[j] == weapon;
        assert(weapons@[j] == j);
    }
    let pitch: u64 = if matches!(action, ModuleAction::Repair) {
        random_index(rng, 12) as u64
    } else {
        0
    };
    let o = perform_module_action(action, faction, player_flux, enemy_flux, weapon, pitch, stats);
    proof {
        let flux = acting_flux(faction, player_flux, enemy_flux);
        assert(o.effect == action_effect(action, flux, pitch));
    }
    Some(o)
}

} // verus!
