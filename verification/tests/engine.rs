use rune::runtime::{RuntimeContext, VmError};
use rune::{BuildError, Module, Source, Sources, Unit, Value};
use weapon_scripts::driver::{drive, execute, materialize, returned_value};
use weapon_scripts::entities::{Attribute, AttributeKind, SpawnQueue};
use weapon_scripts::weapons::{Level, MeleeWeapon, WandWeapon, Weapon, WeaponId};
use weapon_scripts::rune_context::{registered, report_of};
use weapon_scripts::{RuneContext, ScriptError};

fn sources(text: &str) -> Sources {
    let mut sources = Sources::new();
    sources.insert(Source::new("entry", text).unwrap()).unwrap();
    sources
}

fn context(text: &str) -> RuneContext {
    RuneContext::new(sources(text), Module::new()).unwrap()
}

fn wands(value: Value) -> Result<Vec<Weapon>, VmError> {
    let ids = rune::from_value::<Vec<u32>>(value)?;
    Ok(ids.into_iter().map(Weapon::new_wand).collect())
}

#[test]
fn a_well_formed_script_compiles_without_diagnostics() {
    let context = RuneContext::new(sources("pub fn main() { 42 }"), Module::new()).unwrap();
    assert!(context.diagnostics().is_empty());
}

#[test]
fn a_syntax_error_is_a_compile_error_with_its_report() {
    let made = RuneContext::new(sources("pub fn main() { let = }"), Module::new());
    match made {
        Err(ScriptError::Compile { diagnostics, .. }) => {
            let report = String::from_utf8_lossy(&diagnostics).into_owned();
            assert!(!report.is_empty());
            assert!(report.contains("entry"));
        }
        _ => panic!("the script should not compile"),
    }
}

#[test]
fn an_unknown_symbol_is_a_compile_error() {
    let made = RuneContext::new(sources("pub fn main() { Weapon::new_wand(1) }"), Module::new());
    assert!(matches!(made, Err(ScriptError::Compile { .. })));
}

#[test]
fn warnings_survive_a_successful_build() {
    let context =
        RuneContext::new(sources("pub fn main() { let text = `plain`; text }"), Module::new())
            .unwrap();
    let report = String::from_utf8_lossy(context.diagnostics()).into_owned();
    assert!(report.contains("warning"));
    let mut vm = context.vm();
    let output = execute(&mut vm, "main").unwrap();
    assert_eq!(rune::from_value::<String>(output).unwrap(), "plain");
}

#[test]
fn a_module_can_be_installed_beside_the_default_ones() {
    let mut module = Module::new();
    module.function("seven", || 7i64).build().unwrap();
    let context = RuneContext::new(sources("pub fn main() { seven() * 6 }"), module).unwrap();
    let mut vm = context.vm();
    let output = execute(&mut vm, "main").unwrap();
    assert_eq!(rune::from_value::<i64>(output).unwrap(), 42);
}

#[test]
fn a_conflicting_module_is_a_registration_error() {
    let mut module = Module::with_crate_item("std", ["io"]).unwrap();
    module.function("println", |_text: String| ()).build().unwrap();
    let made = RuneContext::new(sources("pub fn main() { 42 }"), module);
    assert!(matches!(made, Err(ScriptError::BridgeRegistration(_))));
}

#[test]
fn the_entry_point_runs_to_completion() {
    let context = context("pub fn main() { let total = 0; for n in 0..5 { total += n; } total }");
    let mut vm = context.vm();
    let output = execute(&mut vm, "main").unwrap();
    assert_eq!(rune::from_value::<i64>(output).unwrap(), 10);
}

#[test]
fn the_entry_point_is_found_by_its_name() {
    let context = context("pub fn main() { 1 } pub fn other() { 2 }");
    let mut vm = context.vm();
    let output = execute(&mut vm, "other").unwrap();
    assert_eq!(rune::from_value::<i64>(output).unwrap(), 2);
}

#[test]
fn a_missing_entry_point_is_an_execution_error() {
    let context = context("pub fn main() { 42 }");
    let mut vm = context.vm();
    assert!(matches!(execute(&mut vm, "absent"), Err(ScriptError::Execution(_))));
}

#[test]
fn a_fault_in_the_script_is_an_execution_error() {
    let context = context("pub fn main() { let zero = 0; 1 / zero }");
    let mut vm = context.vm();
    assert!(matches!(execute(&mut vm, "main"), Err(ScriptError::Execution(_))));
}

#[test]
fn two_machines_of_one_context_give_equal_output() {
    let context = context("pub fn main() { [1, 2, 3] }");
    let mut first = context.vm();
    let mut second = context.vm();
    let a = rune::from_value::<Vec<i64>>(execute(&mut first, "main").unwrap()).unwrap();
    let b = rune::from_value::<Vec<i64>>(execute(&mut second, "main").unwrap()).unwrap();
    assert_eq!(a, vec![1, 2, 3]);
    assert_eq!(a, b);
    // A machine can be run again, and a third one is not affected by the others.
    let again = rune::from_value::<Vec<i64>>(execute(&mut first, "main").unwrap()).unwrap();
    assert_eq!(again, a);
    let mut third = context.vm();
    let c = rune::from_value::<Vec<i64>>(execute(&mut third, "main").unwrap()).unwrap();
    assert_eq!(c, a);
}

#[test]
fn a_machine_is_bound_to_the_unit_and_runtime_of_its_context() {
    let context = context("pub fn main() { 42 }");
    let first = context.vm();
    let second = context.vm();
    assert!(first.is_same(second.context(), second.unit()));
}

#[test]
fn drive_spawns_one_entity_for_each_weapon() {
    let context = context("pub fn main() { [10, 20, 30] }");
    let mut vm = context.vm();
    let mut queue = SpawnQueue::new();
    let done = drive(&mut vm, "main", wands, &mut queue);
    assert!(matches!(done, Ok(3)));
    assert_eq!(queue.len(), 3);
    for (entity, id) in queue.entities().iter().zip([10u32, 20, 30]) {
        assert_eq!(
            entity.records(),
            &vec![Attribute::Id(WeaponId { id }), Attribute::Wand(WandWeapon)]
        );
    }
}

#[test]
fn drive_hands_the_returned_value_to_the_decoder() {
    let context = context("pub fn main() { (2, 10) }");
    let mut vm = context.vm();
    let mut queue = SpawnQueue::new();
    let done = drive(
        &mut vm,
        "main",
        |value| {
            let (id, level) = rune::from_value::<(u32, u32)>(value)?;
            Ok(vec![Weapon::new_melee(id).level(level)])
        },
        &mut queue,
    );
    assert!(matches!(done, Ok(1)));
    assert_eq!(
        queue.entities()[0].records(),
        &vec![
            Attribute::Id(WeaponId { id: 2 }),
            Attribute::Melee(MeleeWeapon),
            Attribute::Level(Level(10))
        ]
    );
}

#[test]
fn a_value_that_is_no_sequence_is_a_decode_error() {
    let context = context("pub fn main() { 42 }");
    let mut vm = context.vm();
    let mut queue = SpawnQueue::new();
    queue.spawn(weapon_scripts::entities::EntityRecords::new());
    let done = drive(&mut vm, "main", wands, &mut queue);
    assert!(matches!(done, Err(ScriptError::Decode(_))));
    assert_eq!(queue.len(), 1);
}

#[test]
fn a_sequence_of_the_wrong_elements_is_a_decode_error() {
    let context = context("pub fn main() { [1, \"two\", 3] }");
    let mut vm = context.vm();
    let mut queue = SpawnQueue::new();
    let done = drive(&mut vm, "main", wands, &mut queue);
    assert!(matches!(done, Err(ScriptError::Decode(_))));
    assert_eq!(queue.len(), 0);
}

#[test]
fn a_fault_spawns_nothing() {
    let context = context("pub fn main() { let zero = 0; [1 / zero] }");
    let mut vm = context.vm();
    let mut queue = SpawnQueue::new();
    let done = drive(&mut vm, "main", wands, &mut queue);
    assert!(matches!(done, Err(ScriptError::Execution(_))));
    assert_eq!(queue.len(), 0);
}

#[test]
fn materialize_turns_a_rejected_value_into_a_decode_error() {
    let mut queue = SpawnQueue::new();
    let rejected = rune::from_value::<Vec<u32>>(rune::to_value(1.5f64).unwrap());
    let done = materialize(&mut queue, rejected.map(|_| Vec::new()));
    assert!(matches!(done, Err(ScriptError::Decode(_))));
    assert_eq!(queue.len(), 0);
}

#[test]
fn returned_value_keeps_a_value_and_wraps_a_fault() {
    let kept = returned_value(Ok(rune::to_value(5i64).unwrap())).unwrap();
    assert_eq!(rune::from_value::<i64>(kept).unwrap(), 5);
    let fault = rune::from_value::<i64>(rune::to_value(true).unwrap()).unwrap_err();
    assert!(matches!(returned_value(Err(fault)), Err(ScriptError::Execution(_))));
}

#[test]
fn a_failed_registration_is_a_registration_error() {
    let mut module = Module::new();
    module.function("twice", || 1i64).build().unwrap();
    let failed = module.function("twice", || 2i64).build().map(|_| ());
    assert!(failed.is_err());
    assert!(matches!(registered(failed), Err(ScriptError::BridgeRegistration(_))));
    assert!(matches!(registered(Ok::<u8, rune::ContextError>(3)), Ok(3)));
}

#[test]
fn a_script_that_returns_nothing_to_spawn_spawns_nothing() {
    let context = context("pub fn main() { [] }");
    let mut vm = context.vm();
    let mut queue = SpawnQueue::new();
    let done = drive(&mut vm, "main", wands, &mut queue);
    assert!(matches!(done, Ok(0)));
    assert_eq!(queue.len(), 0);
}

#[test]
fn a_failed_build_carries_the_report() {
    let verdict = RuneContext::compiled(Err(BuildError::default()), Ok(vec![1, 2, 3]));
    match verdict {
        Err(ScriptError::Compile { diagnostics, .. }) => assert_eq!(diagnostics, vec![1, 2, 3]),
        _ => panic!("a failed build is a compile error"),
    }
}

#[test]
fn a_successful_build_keeps_the_report() {
    let verdict = RuneContext::compiled(Ok(Unit::default()), Ok(vec![4, 5]));
    match verdict {
        Ok((_, report)) => assert_eq!(report, vec![4, 5]),
        Err(_) => panic!("a successful build gives its unit"),
    }
}

#[test]
fn a_report_that_cannot_be_rendered_comes_first() {
    let unrendered = || rune::diagnostics::EmitError::Alloc(rune::alloc::Error::CapacityOverflow);
    let failed = RuneContext::compiled(Err(BuildError::default()), Err(unrendered()));
    assert!(matches!(failed, Err(ScriptError::Emit(_))));
    let built = RuneContext::compiled(Ok(Unit::default()), Err(unrendered()));
    assert!(matches!(built, Err(ScriptError::Emit(_))));
}

#[test]
fn a_context_is_ready_once_its_runtime_is_resolved() {
    let made = RuneContext::ready(Unit::default(), vec![9], Ok(RuntimeContext::default()));
    let context = made.ok().expect("the runtime was resolved");
    assert_eq!(context.diagnostics(), &vec![9]);
    let vm = context.vm();
    assert!(vm.is_same(context.vm().context(), context.vm().unit()));
}

#[test]
fn an_unresolved_runtime_is_a_runtime_error() {
    let made =
        RuneContext::ready(Unit::default(), vec![7, 8], Err(rune::alloc::Error::CapacityOverflow));
    match made {
        Err(ScriptError::Runtime { diagnostics, .. }) => assert_eq!(diagnostics, vec![7, 8]),
        _ => panic!("an unresolved runtime is a runtime error"),
    }
}

#[test]
fn nothing_reported_gives_an_empty_report() {
    let diagnostics = rune::Diagnostics::new();
    let report = report_of(&diagnostics, &sources("pub fn main() { 42 }")).unwrap();
    assert!(report.is_empty());

    let mut clean = sources("pub fn main() { 42 }");
    let mut collected = rune::Diagnostics::new();
    let built = rune::prepare(&mut clean).with_diagnostics(&mut collected).build();
    assert!(built.is_ok());
    assert!(collected.is_empty());
    assert!(report_of(&collected, &clean).unwrap().is_empty());
}

#[test]
fn what_was_reported_is_rendered_on_its_sources() {
    let mut broken = sources("pub fn main() { let = }");
    let mut collected = rune::Diagnostics::new();
    let built = rune::prepare(&mut broken).with_diagnostics(&mut collected).build();
    assert!(built.is_err());
    assert!(!collected.is_empty());
    let report = report_of(&collected, &broken).unwrap();
    let text = String::from_utf8_lossy(&report).into_owned();
    assert!(text.contains("error"));
    assert!(text.contains("entry"));
    // The same diagnostics on the same sources give the same text.
    assert_eq!(report_of(&collected, &broken).unwrap(), report);
    // The context keeps exactly this text for a script that does not compile.
    match RuneContext::new(sources("pub fn main() { let = }"), Module::new()) {
        Err(ScriptError::Compile { diagnostics, .. }) => assert_eq!(diagnostics, report),
        _ => panic!("the script should not compile"),
    }
}

#[test]
fn a_report_on_other_sources_is_an_answer_all_the_same() {
    let mut broken = sources("pub fn main() {\n    let text = `plain`;\n    let = \n}");
    let mut collected = rune::Diagnostics::new();
    let _ = rune::prepare(&mut broken).with_diagnostics(&mut collected).build();
    assert!(!collected.is_empty());
    // Sources that the diagnostics were not collected on: none at all, and a
    // shorter text under the same name.
    let _ = report_of(&collected, &Sources::new());
    let _ = report_of(&collected, &sources("x"));
    let _ = report_of(&collected, &sources(""));
}

#[test]
fn no_attribute_kind_is_spawned_twice_by_the_driver() {
    let context = context("pub fn main() { [1] }");
    let mut vm = context.vm();
    let mut queue = SpawnQueue::new();
    drive(&mut vm, "main", wands, &mut queue).unwrap();
    let entity = &queue.entities()[0];
    assert_eq!(entity.get(AttributeKind::Id), Some(Attribute::Id(WeaponId { id: 1 })));
    assert_eq!(entity.get(AttributeKind::Level), None);
}
