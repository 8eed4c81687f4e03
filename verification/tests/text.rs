use flux_pursuit::game::module::Module;
use flux_pursuit::game::module::ModuleAction;
use flux_pursuit::game::module::ModuleStatus;
use flux_pursuit::text::capitalize;
use flux_pursuit::text::decimal_string;
use flux_pursuit::text::signed_decimal_string;

#[test]
fn decimal_renders_without_leading_zeros() {
    assert_eq!(decimal_string(0), "0");
    assert_eq!(decimal_string(7), "7");
    assert_eq!(decimal_string(1234), "1234");
    assert_eq!(decimal_string(u64::MAX), u64::MAX.to_string());
}

#[test]
fn signed_decimal_has_a_minus_sign() {
    assert_eq!(signed_decimal_string(0), "0");
    assert_eq!(signed_decimal_string(90), "90");
    assert_eq!(signed_decimal_string(-42), "-42");
    assert_eq!(signed_decimal_string(i64::MIN), i64::MIN.to_string());
}

#[test]
fn capitalize_upper_cases_the_first_letter() {
    assert_eq!(capitalize("after firing a laser."), "After firing a laser.");
    assert_eq!(capitalize("Already"), "Already");
    assert_eq!(capitalize(""), "");
}

#[test]
fn short_description_names_trigger_and_effect() {
    let m = Module::new(ModuleAction::Nothing, ModuleAction::Missile);
    assert_eq!(m.short_description(), "[b]Start[r] -> [b]Missile[r]");
    let m = Module::new(ModuleAction::Repair, ModuleAction::Nothing);
    assert_eq!(m.short_description(), "[b]Repair[r] -> [b]Nothing[r]");
}

#[test]
fn description_of_a_face_down_module_is_the_header() {
    let m = Module { status: ModuleStatus::FaceDown, ..Module::new(ModuleAction::Laser, ModuleAction::Laser) };
    assert_eq!(m.description(5), "[b]Reactor module[r]");
}

#[test]
fn description_of_an_empty_slot() {
    assert_eq!(Module::empty().description(5), "[b]Reactor module[r]\n\nEmpty slot");
}

#[test]
fn description_of_a_slot_shows_heat_and_damage() {
    let m = Module {
        condition: ModuleAction::Laser,
        effect: ModuleAction::Laser,
        status: ModuleStatus::SlotInactive,
        heat: 2,
    };
    assert_eq!(
        m.description(5),
        "[b]Reactor module[r] (heat: 2/5) - Right click to remove\n\n> After firing a laser, fire another laser.\n\n[b]Damage:[r] 2 times flux"
    );
}

#[test]
fn description_of_a_starter_module() {
    let m = Module::new(ModuleAction::Nothing, ModuleAction::Fireball);
    assert_eq!(
        m.description(3),
        "[b]Reactor module[r] (heat: 0/3) - Right click to remove\n\n> At the start of a new chain, unleash a fireball and end the chain.\n\n[b]Damage:[r] 8 times flux"
    );
}

#[test]
fn description_of_an_overheated_repair() {
    let m = Module {
        condition: ModuleAction::Repair,
        effect: ModuleAction::Repair,
        status: ModuleStatus::SlotOverheated,
        heat: 9,
    };
    assert_eq!(
        m.description(4),
        "[b]Reactor module[r] (OVERHEATED) - Right click to remove\n\n> After repairing the hull, repair the hull again.\n\n[b]Heal:[r] 2 times flux"
    );
}

#[test]
fn description_of_a_module_that_ends_the_chain() {
    let m = Module::new(ModuleAction::Missile, ModuleAction::Nothing);
    assert_eq!(
        m.description(1),
        "[b]Reactor module[r] (heat: 0/1) - Right click to remove\n\n> After launching a missile, end the chain."
    );
}
