//! The execution driver: runs the entry point of a compiled script and turns
//! the weapons it returned into entities.

use crate::entities::{attached, Attribute, SpawnQueue};
use crate::rune_context::ScriptError;
use crate::laws::records_attach_attributes;
use crate::weapons::{marker_count, records_of, Weapon, WeaponCommand};
use vstd::prelude::*;

verus! {

#[verifier::external_type_specification]
#[verifier::external_body]
pub struct ExValue(rune::Value);

/// `rune::Vm::execute(..)?.complete().into_result()` calls the function named
/// `entry` without arguments and drives it to completion. What comes back is
/// the script's matter: its return value, or the fault that stopped it. A
/// script that never finishes keeps the call from returning.
#[verifier::external_body]
fn run(vm: &mut rune::Vm, entry: &str) -> (returned: Result<rune::Value, rune::runtime::VmError>) {
    vm.execute([entry], ())?.complete().into_result()
}

/// Runs the entry point named `entry` to completion and hands out the value
/// it returned. A fault of the virtual machine is an execution error.
///
/// The call returns only if the script does: nothing bounds the time or the
/// steps that a script may take.
pub fn execute(vm: &mut rune::Vm, entry: &str) -> (output: Result<rune::Value, ScriptError>)
    ensures
        output matches Err(e) ==> e is Execution,
{
    returned_value(run(vm, entry))
}

/// What the driver makes of a finished run: the value as it is, a fault as an
/// execution error.
pub fn returned_value(returned: Result<rune::Value, rune::runtime::VmError>) -> (output: Result<
    rune::Value,
    ScriptError,
>)
    ensures
        output == match returned {
            Ok(value) => Ok::<_, ScriptError>(value),
            Err(fault) => Err::<rune::Value, _>(ScriptError::Execution(fault)),
        },
{
    match returned {
        Ok(value) => Ok(value),
        Err(fault) => Err(ScriptError::Execution(fault)),
    }
}

/// The entities that a run of weapons becomes, one for each weapon, in order.
pub open spec fn entities_of(weapons: Seq<Weapon>) -> Seq<Seq<Attribute>> {
    Seq::new(weapons.len(), |i: int| records_of(weapons[i]@))
}

/// Spawns one entity for each weapon, in order.
pub fn spawn_weapons(queue: &mut SpawnQueue, weapons: Vec<Weapon>)
    ensures
        final(queue)@ == old(queue)@ + entities_of(weapons@),
        final(queue)@.len() == old(queue)@.len() + weapons@.len(),
        forall|i: int|
            old(queue)@.len() <= i < final(queue)@.len() ==> marker_count(
                attached(#[trigger] final(queue)@[i]),
            ) == 1,
{
    let ghost all = weapons@;
    for weapon in remaining: weapons.into_iter()
        invariant
            remaining.seq() == all,
            queue@ == old(queue)@ + entities_of(all.take(remaining.index() as int)),
    {
        let ghost before = remaining.index() as int;
        queue.spawn_weapon(weapon);
        assert(entities_of(all.take(before + 1)) =~= entities_of(all.take(before)).push(
            records_of(all[before]@),
        ));
    }
    assert(all.take(all.len() as int) =~= all);
    assert forall|i: int| old(queue)@.len() <= i < queue@.len() implies marker_count(
        attached(#[trigger] queue@[i]),
    ) == 1 by {
        records_attach_attributes(all[i - old(queue)@.len()]@);
    }
}

/// Materializes what the entry point returned. Weapons that were decoded are
/// spawned, one entity each; a value that could not be decoded is a decode
/// error and spawns nothing.
pub fn materialize(
    queue: &mut SpawnQueue,
    decoded: Result<Vec<Weapon>, rune::runtime::VmError>,
) -> (done: Result<usize, ScriptError>)
    ensures
        match decoded {
            Ok(weapons) => done == Ok::<_, ScriptError>(weapons.len()) && final(queue)@ == old(
                queue,
            )@ + entities_of(weapons@),
            Err(fault) => done == Err::<usize, _>(ScriptError::Decode(fault)) && final(queue)@
                == old(queue)@,
        },
        forall|i: int|
            old(queue)@.len() <= i < final(queue)@.len() ==> marker_count(
                attached(#[trigger] final(queue)@[i]),
            ) == 1,
{
    match decoded {
        Ok(weapons) => {
            let count = weapons.len();
            spawn_weapons(queue, weapons);
            Ok(count)
        },
        Err(fault) => Err(ScriptError::Decode(fault)),
    }
}

/// Runs the entry point named `entry`, decodes what it returned with `decode`
/// and spawns one entity for each weapon that came out.
///
/// Nothing is spawned unless the run completed and its value was decoded: a
/// fault of the virtual machine is an execution error, a value that `decode`
/// rejects is a decode error, and either leaves the queue as it was.
///
/// The call returns only if the script does: nothing bounds the time or the
/// steps that a script may take.
pub fn drive<D>(vm: &mut rune::Vm, entry: &str, decode: D, queue: &mut SpawnQueue) -> (done: Result<
    usize,
    ScriptError,
>) where D: FnOnce(rune::Value) -> Result<Vec<Weapon>, rune::runtime::VmError>
    requires
        forall|value: rune::Value| decode.requires((value,)),
    ensures
        match done {
            Ok(count) => exists|value: rune::Value, weapons: Vec<Weapon>|
                decode.ensures((value,), Ok(weapons)) && count == weapons@.len() && final(queue)@
                    == old(queue)@ + entities_of(weapons@),
            Err(e) => (e is Execution || e is Decode) && final(queue)@ == old(queue)@,
        },
        done matches Ok(count) ==> final(queue)@.len() == old(queue)@.len() + count,
        forall|i: int|
            old(queue)@.len() <= i < final(queue)@.len() ==> marker_count(
                attached(#[trigger] final(queue)@[i]),
            ) == 1,
{
    match execute(vm, entry) {
        Ok(value) => {
            let decoded = decode(value);
            materialize(queue, decoded)
        },
        Err(error) => Err(error),
    }
}

} // verus!
