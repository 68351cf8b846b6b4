//! What holds of every run of the machine, proved from its definition.

use vstd::prelude::*;
use crate::compiler::address::{slot_of, var_type_of, Scope};
use crate::compiler::program_manager::{
    accepted_reply, integer_result, is_arithmetic, is_comparison, ActionView, Fault, MachineView,
    ProgramManager, Request, RuntimeError, Stepped,
};
use crate::compiler::quadruplets::{operator_of_code, QuadOperator, Quadruplet};
use crate::compiler::semantic_cube::Type;
use crate::compiler::value_table::{MemoryError, MemoryView, Value};

verus! {

/// The state in which the jump at `index`, its target filled in, is the
/// quadruplet to execute.
pub open spec fn ready_at(before: MachineView, index: i32, target: i32) -> MachineView
    recommends
        before.patched(index, target) is Ok,
{
    MachineView { pointer: index as int, ..before.patched(index, target).unwrap() }
}

/// The outcome of a step that only moves the pointer to `pointer`.
pub open spec fn moved_to(state: MachineView, pointer: int) -> Result<
    (MachineView, ActionView),
    RuntimeError,
> {
    Ok((MachineView { pointer, ..state }, ActionView::Continue))
}

/// A jump on false whose target was filled in goes to that target when its
/// guard is false and to the next quadruplet when the guard is true.
pub proof fn lemma_patched_branch(before: MachineView, index: i32, target: i32, truth: bool)
    requires
        0 <= index < before.code.len(),
        index < i32::MAX,
        operator_of_code(before.code[index as int].operator as int) == Some(QuadOperator::GotoF),
        before.table.read_bool(before.frame(), before.code[index as int].arg1 as int) == Ok::<
            bool,
            MemoryError,
        >(truth),
    ensures
        before.patched(index, target) is Ok,
        ready_at(before, index, target).step() == moved_to(
            ready_at(before, index, target),
            if truth {
                index + 1
            } else {
                target as int
            },
        ),
{
}

/// An unconditional jump whose target was filled in goes to that target.
pub proof fn lemma_patched_goto(before: MachineView, index: i32, target: i32)
    requires
        0 <= index < before.code.len(),
        index < i32::MAX,
        operator_of_code(before.code[index as int].operator as int) == Some(QuadOperator::Goto),
    ensures
        before.patched(index, target) is Ok,
        ready_at(before, index, target).step() == moved_to(
            ready_at(before, index, target),
            target as int,
        ),
{
}

/// Filling in a target changes the quadruplet at the index and no other,
/// and nothing but the code.
pub proof fn lemma_patch_is_local(before: MachineView, index: i32, target: i32, other: int)
    requires
        before.patched(index, target) is Ok,
        0 <= other < before.code.len(),
        other != index,
    ensures
        before.patched(index, target).unwrap().code.len() == before.code.len(),
        before.patched(index, target).unwrap().code[other] == before.code[other],
        before.patched(index, target).unwrap() == (MachineView {
            code: before.patched(index, target).unwrap().code,
            ..before
        }),
{
}

/// Filling in a target rewrites one field of the jump: the first argument
/// of an unconditional jump, the second of a jump on false. The operator
/// and the other fields are those that were emitted.
pub proof fn lemma_patch_rewrites_the_target_only(before: MachineView, index: i32, target: i32)
    requires
        before.patched(index, target) is Ok,
    ensures
        0 <= index < before.code.len(),
        ({
            let emitted = before.code[index as int];
            let filled = before.patched(index, target).unwrap().code[index as int];
            &&& filled.operator == emitted.operator
            &&& filled.result == emitted.result
            &&& emitted.operator == 1 ==> filled.arg1 == target && filled.arg2 == emitted.arg2
            &&& emitted.operator == 3 ==> filled.arg2 == Some(target) && filled.arg1
                == emitted.arg1
            &&& emitted.operator == 1 || emitted.operator == 3
        }),
{
}

/// What a write leaves alone: every frame but the innermost, the return
/// addresses, the pending frame, the pointer, the code and the functions.
pub open spec fn write_is_confined(
    state: MachineView,
    written: Result<MachineView, Fault>,
) -> bool {
    match written {
        Ok(after) => {
            &&& after.frames.len() == state.frames.len()
            &&& after.frames.skip(1) == state.frames.skip(1)
            &&& after.returns == state.returns
            &&& after.pending == state.pending
            &&& after.pointer == state.pointer
            &&& after.code == state.code
            &&& after.functions == state.functions
        },
        Err(_) => true,
    }
}

/// A write changes no frame but the innermost.
pub proof fn lemma_write_keeps_outer_frames(state: MachineView)
    ensures
        forall|address: int, value: Value|
            write_is_confined(state, #[trigger] state.write_value(address, value)),
{
    assert forall|address: int, value: Value|
        write_is_confined(state, #[trigger] state.write_value(address, value)) by {
        if let Ok(after) = state.write_value(address, value) {
            assert(after.frames.skip(1) =~= state.frames.skip(1));
        }
    }
}

/// A step changes the stacked frames in one of three ways only: it leaves
/// every frame but the innermost as it is; it puts the pending frame on top
/// of them; or it drops the innermost. The frames of the callers are never
/// written by the function they called.
pub proof fn lemma_outer_frames_kept(state: MachineView)
    ensures
        state.step() matches Ok((next, _)) ==> {
            ||| (next.frames.len() == state.frames.len() && next.frames.skip(1)
                =~= state.frames.skip(1))
            ||| (state.pending matches Some(frame) && next.frames == seq![frame] + state.frames)
            ||| (state.frames.len() > 0 && next.frames == state.frames.skip(1))
        },
{
    lemma_write_keeps_outer_frames(state);
}

/// The frame that a call enters is the pending frame, and a function that
/// returns at once gives back the state of its caller: the same frames and
/// return addresses, the pointer behind the call.
pub proof fn lemma_call_then_return(state: MachineView, quad: Quadruplet)
    requires
        state.call(quad) is Ok,
        0 <= state.pointer < i32::MAX,
    ensures
        ({
            let inside = state.call(quad).unwrap().0;
            &&& state.pending is Some
            &&& inside.frames.len() == state.frames.len() + 1
            &&& inside.returns.len() == state.returns.len() + 1
            &&& inside.frame() == state.pending
            &&& inside.pending is None
            &&& inside.leave() matches Ok((back, _)) && back.frames =~= state.frames && back.returns
                =~= state.returns && back.pointer == state.pointer + 1
        }),
{
    let inside = state.call(quad).unwrap().0;
    assert(inside.frames.skip(1) =~= state.frames);
    assert(inside.returns.skip(1) =~= state.returns);
}

/// A step keeps the stack of frames as deep as the stack of return
/// addresses.
pub proof fn lemma_step_keeps_balance(state: MachineView)
    requires
        state.balanced(),
    ensures
        state.step() matches Ok((next, _)) ==> next.balanced(),
{
    lemma_write_keeps_outer_frames(state);
}

/// Handing in a result keeps the two stacks equally deep.
pub proof fn lemma_complete_keeps_balance(state: MachineView, reply: Value)
    requires
        state.balanced(),
    ensures
        state.complete(reply) matches Ok(next) ==> next.balanced(),
{
    lemma_write_keeps_outer_frames(state);
}

/// However many steps the machine takes, the two stacks stay equally deep.
pub proof fn lemma_run_keeps_balance(state: MachineView, fuel: nat)
    requires
        state.balanced(),
    ensures
        state.run(fuel).0.balanced(),
    decreases fuel,
{
    if fuel > 0 {
        lemma_step_keeps_balance(state);
        match state.step() {
            Ok((next, ActionView::Continue)) => {
                lemma_run_keeps_balance(next, (fuel - 1) as nat);
            },
            _ => {},
        }
    }
}

/// A call makes both stacks one deeper and a return makes both one
/// shallower; no other step changes either depth. So the two depths differ
/// after a step by what they differed before.
pub proof fn lemma_depths_move_together(state: MachineView)
    ensures
        state.step() matches Ok((next, _)) ==> next.frames.len() - state.frames.len()
            == next.returns.len() - state.returns.len(),
{
    lemma_write_keeps_outer_frames(state);
}

/// Whether two states are the same machine: they agree in everything but
/// the table of types, which the machine never reads.
pub open spec fn same_machine(first: MachineView, second: MachineView) -> bool {
    second == (MachineView { cubo: second.cubo, ..first })
}

/// Whether two steps came out alike: the same fault, or the same request to
/// the driver and states that are the same machine.
pub open spec fn same_outcome(
    first: Result<(MachineView, ActionView), RuntimeError>,
    second: Result<(MachineView, ActionView), RuntimeError>,
) -> bool {
    match (first, second) {
        (Ok((left, asked)), Ok((right, wanted))) => same_machine(left, right) && asked == wanted,
        (Err(fault), Err(other)) => fault == other,
        _ => false,
    }
}

/// Two machines in the same state take the same step: they fail alike, or
/// ask the same of their drivers and are in the same state afterwards.
pub proof fn lemma_same_state_same_step(first: MachineView, second: MachineView)
    requires
        same_machine(first, second),
    ensures
        same_outcome(first.step(), second.step()),
        first.awaited() == second.awaited(),
{
}

/// Two machines in the same state that are handed the same result store it
/// alike.
pub proof fn lemma_same_state_same_reply(first: MachineView, second: MachineView, reply: Value)
    requires
        same_machine(first, second),
    ensures
        match (first.complete(reply), second.complete(reply)) {
            (Ok(left), Ok(right)) => same_machine(left, right),
            (Err(fault), Err(other)) => fault == other,
            _ => false,
        },
{
}

/// Two machines in the same state run alike, however many steps they take:
/// they stop for the same reason, with the same output asked of their
/// drivers, and in the same state. So a program that is run twice from the
/// same state, its driver giving the same results, prints the same.
pub proof fn lemma_same_state_same_run(first: MachineView, second: MachineView, fuel: nat)
    requires
        same_machine(first, second),
    ensures
        same_machine(first.run(fuel).0, second.run(fuel).0),
        first.run(fuel).1 == second.run(fuel).1,
    decreases fuel,
{
    if fuel > 0 {
        lemma_same_state_same_step(first, second);
        match (first.step(), second.step()) {
            (Ok((left, ActionView::Continue)), Ok((right, _))) => {
                lemma_same_state_same_run(left, right, (fuel - 1) as nat);
            },
            _ => {},
        }
    }
}

/// Two managers built alike and fed alike are the same machine, whatever
/// tables of types they hold.
pub proof fn lemma_managers_in_the_same_state(first: ProgramManager, second: ProgramManager)
    requires
        first.instruction_pointer == second.instruction_pointer,
        first.quadruplets@ == second.quadruplets@,
        first.tabla_funciones@ == second.tabla_funciones@,
        first.value_table@ == second.value_table@,
        first.memory_stack@.len() == second.memory_stack@.len(),
        forall|i: int|
            0 <= i < first.memory_stack@.len() ==> first.memory_stack@[i]@
                == second.memory_stack@[i]@,
        first.position_before_fcall@ == second.position_before_fcall@,
        first.upcoming_function is Some <==> second.upcoming_function is Some,
        first.upcoming_function is Some ==> first.upcoming_function.unwrap()@
            == second.upcoming_function.unwrap()@,
        first.operand_stack@ == second.operand_stack@,
        first.operator_stack@ == second.operator_stack@,
        first.polish_vector@ == second.polish_vector@,
        first.jumps_stack@ == second.jumps_stack@,
        first.curr_function@ == second.curr_function@,
    ensures
        same_machine(first@, second@),
{
    assert(first@.frames =~= second@.frames);
}

/// The counters of the allocator stay in agreement with the storage of the
/// program while the machine runs: no step counts anything, and none makes
/// or drops a cell of the program.
pub proof fn lemma_step_keeps_stored(state: MachineView, framed: bool)
    requires
        state.table.stored(framed),
    ensures
        state.step() matches Ok((next, _)) ==> next.table.stored(framed),
        forall|reply: Value| #[trigger]
            state.complete(reply) matches Ok(next) ==> next.table.stored(framed),
{
    lemma_write_keeps_shape(state);
}

/// However many steps the machine takes, the counters stay in agreement
/// with the storage of the program.
pub proof fn lemma_run_keeps_stored(state: MachineView, fuel: nat, framed: bool)
    requires
        state.table.stored(framed),
    ensures
        state.run(fuel).0.table.stored(framed),
{
    lemma_run_keeps_program(state, fuel);
}

/// A temporary of the program, declared while the counters agree with the
/// storage, has a cell at its address: it can be read and written at once.
/// It reads as zero or false where no cleared temporary left its cell
/// behind, which is where the counter equals the number of cells.
pub proof fn lemma_temp_declared(state: MachineView, category: Type)
    requires
        state.settled(),
        state.frames.len() == 0,
        state.table.next_variable(category, Scope::Temp) is Ok,
    ensures
        ({
            let address = state.table.next_variable(category, Scope::Temp).unwrap() as int;
            let after = MachineView { table: state.with_temp(category), ..state };
            let fresh = state.table.counters.count(category, Scope::Temp).unwrap() == (
            match category {
                Type::Int => state.table.globals.int_temps.len(),
                Type::Float => state.table.globals.float_temps.len(),
                _ => state.table.globals.bool_temps.len(),
            });
            &&& after.settled()
            &&& var_type_of(address) == category
            &&& category == Type::Int ==> after.table.read_int(None, address) is Ok
                && after.write_value(address, Value::Int(0)) is Ok
            &&& category == Type::Float ==> after.table.read_float(None, address) is Ok
                && after.write_value(address, Value::Float(0)) is Ok
            &&& category == Type::Bool ==> after.table.read_bool(None, address) is Ok
                && after.write_value(address, Value::Bool(false)) is Ok
            &&& fresh && category == Type::Int ==> after.table.read_int(None, address) == Ok::<
                i64,
                MemoryError,
            >(0)
            &&& fresh && category == Type::Float ==> after.table.read_float(None, address)
                == Ok::<u64, MemoryError>(0)
            &&& fresh && category == Type::Bool ==> after.table.read_bool(None, address)
                == Ok::<bool, MemoryError>(false)
        }),
{
}

/// The outcome of a step that asks the driver for `request` and waits.
pub open spec fn asked(state: MachineView, request: Request) -> Stepped {
    Ok((state, ActionView::Compute(request)))
}

/// An operator that meets an integer and a float, in either order, or two
/// floats, hands them to the driver in their order, the integer still an
/// integer: it is the driver that converts it to a float. The state waits.
pub proof fn lemma_float_operands_requested(
    state: MachineView,
    operator: QuadOperator,
    quad: Quadruplet,
    left: Value,
    right: Value,
)
    requires
        quad.arg2 is Some,
        quad.result is Some,
        state.read_number(quad.arg1 as int) == Ok::<Value, Fault>(left),
        state.read_number(quad.arg2.unwrap() as int) == Ok::<Value, Fault>(right),
        left is Float || right is Float,
    ensures
        state.binary(operator, quad) == asked(state, Request { operator, left, right }),
        left is Int || left is Float,
        right is Int || right is Float,
{
}

/// Two integers are combined by the machine itself, and the result is an
/// integer or a boolean: no float comes of two integers.
pub proof fn lemma_integers_stay_integers(
    state: MachineView,
    operator: QuadOperator,
    quad: Quadruplet,
    left: i64,
    right: i64,
)
    requires
        quad.arg2 is Some,
        quad.result is Some,
        state.read_number(quad.arg1 as int) == Ok::<Value, Fault>(Value::Int(left)),
        state.read_number(quad.arg2.unwrap() as int) == Ok::<Value, Fault>(Value::Int(right)),
    ensures
        state.binary(operator, quad) matches Ok((_, action)) ==> action == ActionView::Continue,
        state.binary(operator, quad) is Ok && is_arithmetic(operator) ==> integer_result(
            operator,
            left,
            right,
        ) matches Some(Value::Int(_)),
        state.binary(operator, quad) is Ok && is_comparison(operator) ==> integer_result(
            operator,
            left,
            right,
        ) matches Some(Value::Bool(_)),
{
}

/// The result of a request is stored as what the operator gives: a float
/// for arithmetic, a boolean for a comparison, at the quadruplet's result
/// address, and the machine moves on to the next quadruplet.
pub proof fn lemma_reply_is_stored(state: MachineView, reply: Value)
    requires
        state.complete(reply) is Ok,
    ensures
        state.awaited() is Some,
        ({
            let (request, target) = state.awaited().unwrap();
            &&& accepted_reply(request.operator, reply) == Some(reply)
            &&& is_arithmetic(request.operator) ==> reply is Float
            &&& is_comparison(request.operator) ==> reply is Bool
            &&& state.write_value(target as int, reply) matches Ok(after) && state.complete(reply)
                == Ok::<MachineView, RuntimeError>(after.advanced())
        }),
{
}

/// The machine asks for a computation exactly where it waits for one, and
/// asking changes nothing.
pub proof fn lemma_request_is_awaited(state: MachineView)
    ensures
        state.awaited() matches Some((request, _)) ==> state.step() == Ok::<
            (MachineView, ActionView),
            RuntimeError,
        >((state, ActionView::Compute(request))),
        state.step() matches Ok((next, ActionView::Compute(request))) ==> next == state && (
        state.awaited() matches Some((wanted, _)) && wanted == request),
{
}

/// An address that reads as a number lies in a band of integers or floats,
/// and the value read has the type that the address gives.
pub proof fn lemma_read_has_address_type(state: MachineView, address: int)
    ensures
        state.read_number(address) matches Ok(value) ==> (match value {
            Value::Int(_) => var_type_of(address) == Type::Int && slot_of(Type::Int, address)
                is Some,
            Value::Float(_) => var_type_of(address) == Type::Float && slot_of(
                Type::Float,
                address,
            ) is Some,
            Value::Bool(_) => false,
        }),
{
}

/// A value written to a local or to a temporary inside a call stays in the
/// frame of that call: the storage of the program keeps what it had.
pub proof fn lemma_frame_write_stays_inside(
    state: MachineView,
    address: int,
    value: Value,
    scope: Scope,
    index: int,
)
    requires
        state.frames.len() > 0,
        state.write_value(address, value) is Ok,
        scope == Scope::Local || scope == Scope::Temp,
        slot_of(
            match value {
                Value::Int(_) => Type::Int,
                Value::Float(_) => Type::Float,
                Value::Bool(_) => Type::Bool,
            },
            address,
        ) == Some((scope, index)),
    ensures
        state.write_value(address, value).unwrap().table == state.table,
{
}

/// The frame prepared for a call has the sizes that the function asks for,
/// and every cell of it is zero or false.
pub proof fn lemma_prepared_frame_is_zeroed(state: MachineView, quad: Quadruplet)
    requires
        state.prepare(quad) is Ok,
    ensures
        state.function(quad.arg1) is Some,
        state.prepare(quad).unwrap().0.pending is Some,
        ({
            let sizes = state.function(quad.arg1).unwrap().vars_amount;
            let frame = state.prepare(quad).unwrap().0.pending.unwrap();
            &&& frame == MemoryView::zeroed(
                sizes.local_ints as int,
                sizes.temp_ints as int,
                sizes.local_floats as int,
                sizes.temp_floats as int,
                sizes.temp_bools as int,
            )
            &&& frame.ints.len() == sizes.local_ints
            &&& frame.int_temps.len() == sizes.temp_ints
            &&& frame.floats.len() == sizes.local_floats
            &&& frame.float_temps.len() == sizes.temp_floats
            &&& frame.bool_temps.len() == sizes.temp_bools
            &&& forall|i: int| 0 <= i < frame.ints.len() ==> frame.ints[i] == 0
            &&& forall|i: int| 0 <= i < frame.int_temps.len() ==> frame.int_temps[i] == 0
            &&& forall|i: int| 0 <= i < frame.floats.len() ==> frame.floats[i] == 0
            &&& forall|i: int| 0 <= i < frame.float_temps.len() ==> frame.float_temps[i] == 0
            &&& forall|i: int| 0 <= i < frame.bool_temps.len() ==> !frame.bool_temps[i]
        }),
{
}

/// Whether two frames have cells of the same number in each of their parts.
pub open spec fn same_sizes(first: MemoryView, second: MemoryView) -> bool {
    &&& first.ints.len() == second.ints.len()
    &&& first.int_temps.len() == second.int_temps.len()
    &&& first.floats.len() == second.floats.len()
    &&& first.float_temps.len() == second.float_temps.len()
    &&& first.bool_temps.len() == second.bool_temps.len()
}

/// What no step of the machine touches: the code, the functions, the
/// constants, the counters of the allocator and the work lists of the code
/// generator.
pub open spec fn same_program(first: MachineView, second: MachineView) -> bool {
    &&& first.code == second.code
    &&& first.functions == second.functions
    &&& first.table.const_ints == second.table.const_ints
    &&& first.table.const_floats == second.table.const_floats
    &&& first.table.const_strings == second.table.const_strings
    &&& first.table.counters == second.table.counters
    &&& first.operands == second.operands
    &&& first.operators == second.operators
    &&& first.polish == second.polish
    &&& first.jumps == second.jumps
    &&& first.scopes == second.scopes
    &&& first.cubo == second.cubo
}

/// What a write keeps: the program, and the size of every part of the
/// storage of the program and of the innermost frame.
pub open spec fn write_keeps_shape(
    state: MachineView,
    written: Result<MachineView, Fault>,
) -> bool {
    match written {
        Ok(after) => {
            &&& same_program(state, after)
            &&& same_sizes(state.table.globals, after.table.globals)
            &&& state.frames.len() > 0 ==> same_sizes(state.frames[0], after.frames[0])
        },
        Err(_) => true,
    }
}

/// A write stores one value in a cell that exists: it makes no cell and
/// drops none, and it leaves the program alone.
pub proof fn lemma_write_keeps_shape(state: MachineView)
    ensures
        forall|address: int, value: Value|
            write_keeps_shape(state, #[trigger] state.write_value(address, value)),
{
}

/// While the machine runs, the program stays as it was compiled: no step
/// changes the code, the functions or the constants, and none makes or
/// drops a cell of the program's storage.
pub proof fn lemma_step_keeps_program(state: MachineView)
    ensures
        state.step() matches Ok((next, _)) ==> same_program(state, next) && same_sizes(
            state.table.globals,
            next.table.globals,
        ),
{
    lemma_write_keeps_shape(state);
}

/// Handing in a result keeps the program as it was compiled.
pub proof fn lemma_complete_keeps_program(state: MachineView, reply: Value)
    ensures
        state.complete(reply) matches Ok(next) ==> same_program(state, next) && same_sizes(
            state.table.globals,
            next.table.globals,
        ),
{
    lemma_write_keeps_shape(state);
}

/// However many steps the machine takes, the program stays as it was
/// compiled.
pub proof fn lemma_run_keeps_program(state: MachineView, fuel: nat)
    ensures
        same_program(state, state.run(fuel).0),
        same_sizes(state.table.globals, state.run(fuel).0.table.globals),
    decreases fuel,
{
    if fuel > 0 {
        lemma_step_keeps_program(state);
        match state.step() {
            Ok((next, ActionView::Continue)) => {
                lemma_run_keeps_program(next, (fuel - 1) as nat);
            },
            _ => {},
        }
    }
}

} // verus!
