use pandora::compiler::program_manager::{
    Action, CompileError, Fault, Output, ProgramManager, Request, RuntimeError,
};
use pandora::compiler::quadruplets::{QuadOperator, Quadruplet};
use pandora::compiler::semantic_cube::Type;
use pandora::compiler::semantic_tables::{
    FunctionInfo, FunctionParam, VarType, VariableTable, VarsAmount,
};
use pandora::compiler::value_table::{Memory, MemoryError, Value};

fn as_float(value: Value) -> f64 {
    match value {
        Value::Int(number) => number as f64,
        Value::Float(bits) => f64::from_bits(bits),
        Value::Bool(_) => panic!("a boolean is no operand"),
    }
}

fn compute(request: Request) -> Value {
    let left = as_float(request.left);
    let right = as_float(request.right);
    match request.operator {
        QuadOperator::Add => Value::Float((left + right).to_bits()),
        QuadOperator::Subtract => Value::Float((left - right).to_bits()),
        QuadOperator::Multiply => Value::Float((left * right).to_bits()),
        QuadOperator::Divide => Value::Float((left / right).to_bits()),
        QuadOperator::GreaterThan => Value::Bool(left > right),
        QuadOperator::LessThan => Value::Bool(left < right),
        QuadOperator::NotEqual => Value::Bool(left != right),
        _ => panic!("no computation on floats"),
    }
}

fn render(output: Output) -> String {
    match output {
        Output::Int(value) => format!("{}", value),
        Output::Float(bits) => format!("{}", f64::from_bits(bits)),
        Output::Text(text) => text,
    }
}

fn run(manager: &mut ProgramManager) -> Result<Vec<String>, RuntimeError> {
    let mut lines = Vec::new();
    let mut action = manager.run_program(64)?;
    let mut rounds = 0;
    loop {
        match action {
            Action::Finished => return Ok(lines),
            Action::Continue => {}
            Action::Print(output) => lines.push(render(output)),
            Action::Compute(request) => manager.complete(compute(request))?,
        }
        rounds += 1;
        assert!(rounds < 100_000, "the program does not end");
        action = manager.resume(64)?;
    }
}

fn function(name: &str, amounts: [i32; 5], start: i32) -> FunctionInfo {
    FunctionInfo {
        name: name.to_string(),
        params: Vec::new(),
        vars: VariableTable::new(),
        vars_amount: VarsAmount {
            local_ints: amounts[0],
            temp_ints: amounts[1],
            local_floats: amounts[2],
            temp_floats: amounts[3],
            temp_bools: amounts[4],
        },
        start_address: start,
    }
}

fn emit(
    manager: &mut ProgramManager,
    operator: QuadOperator,
    arg1: i32,
    arg2: Option<i32>,
    result: Option<i32>,
) -> i32 {
    manager.create_quad(operator, arg1, arg2, result).unwrap()
}

#[test]
fn while_loop_counts_down() {
    // var int i; i = 3; while (i > 0) do { print(i); i = i - 1; }
    let mut m = ProgramManager::new();
    let i = m.value_table.insert_integer(0, "global", None).unwrap();
    assert_eq!(i, 1000);
    let three = m.value_table.insert_cte_int(3).unwrap();
    let zero = m.value_table.insert_cte_int(0).unwrap();
    let one = m.value_table.insert_cte_int(1).unwrap();
    assert_eq!((three, zero, one), (9000, 9001, 9002));

    assert_eq!(emit(&mut m, QuadOperator::Assign, i, Some(three), None), 0);
    let guard = m.new_temp(Type::Bool).unwrap();
    assert_eq!(guard, 8000);
    let test = emit(&mut m, QuadOperator::GreaterThan, i, Some(zero), Some(guard));
    let jump = emit(&mut m, QuadOperator::GotoF, guard, None, None);
    emit(&mut m, QuadOperator::Print, i, None, None);
    let next = m.new_temp(Type::Int).unwrap();
    assert_eq!(next, 3000);
    emit(&mut m, QuadOperator::Subtract, i, Some(one), Some(next));
    emit(&mut m, QuadOperator::Assign, i, Some(next), None);
    emit(&mut m, QuadOperator::Goto, test, None, None);
    let after = m.quadruplets.len();
    assert_eq!(after, 7);
    m.fill_quad(jump, after).unwrap();
    emit(&mut m, QuadOperator::EndProgram, 0, None, None);

    let patched = *m.quadruplets.get(jump).unwrap();
    assert_eq!(patched.operator, 3);
    assert_eq!(patched.arg1, guard);
    assert_eq!(patched.arg2, Some(7));
    assert_eq!(patched.result, None);
    let back = *m.quadruplets.get(6).unwrap();
    assert_eq!((back.operator, back.arg1), (1, test));

    let lines = run(&mut m).unwrap();
    assert_eq!(lines, vec!["3", "2", "1"]);
    assert_eq!(m.value_table.get_int(i, None), Ok(0));
    assert_eq!(m.instruction_pointer, 7);
}

#[test]
fn an_empty_program_cannot_run() {
    let mut m = ProgramManager::new();
    assert_eq!(
        m.run_program(10),
        Err(RuntimeError { index: 0, fault: Fault::EmptyProgram })
    );
}

#[test]
fn patched_jump_goes_to_its_target_when_the_guard_is_false() {
    for truth in [false, true] {
        let mut m = ProgramManager::new();
        let guard = m.new_temp(Type::Bool).unwrap();
        m.value_table.set_bool(guard, truth, None).unwrap();
        let jump = emit(&mut m, QuadOperator::GotoF, guard, None, None);
        emit(&mut m, QuadOperator::EndProgram, 0, None, None);
        emit(&mut m, QuadOperator::EndProgram, 0, None, None);
        emit(&mut m, QuadOperator::EndProgram, 0, None, None);
        m.fill_quad(jump, 3).unwrap();
        m.instruction_pointer = 0;
        assert_eq!(m.step(), Ok(Action::Continue));
        assert_eq!(m.instruction_pointer, if truth { 1 } else { 3 });
    }
}

#[test]
fn unpatched_jump_on_false_lacks_its_target() {
    let mut m = ProgramManager::new();
    let guard = m.new_temp(Type::Bool).unwrap();
    emit(&mut m, QuadOperator::GotoF, guard, None, None);
    assert_eq!(
        m.run_program(10),
        Err(RuntimeError { index: 0, fault: Fault::MissingOperand })
    );
    assert_eq!(m.instruction_pointer, 0);
}

#[test]
fn fill_quad_refuses_what_is_no_jump() {
    let mut m = ProgramManager::new();
    emit(&mut m, QuadOperator::Print, 1000, None, None);
    emit(&mut m, QuadOperator::Goto, 0, None, None);
    assert_eq!(
        m.fill_quad(0, 5),
        Err(CompileError::NotAJump { index: 0, operator: 12 })
    );
    assert_eq!(m.fill_quad(2, 5), Err(CompileError::NoSuchQuadruplet { index: 2 }));
    assert_eq!(m.fill_quad(-1, 5), Err(CompileError::NoSuchQuadruplet { index: -1 }));
    assert_eq!(m.fill_quad(1, 5), Ok(()));
    let goto = *m.quadruplets.get(1).unwrap();
    assert_eq!((goto.operator, goto.arg1, goto.arg2, goto.result), (1, 5, None, None));
}

#[test]
fn integer_arithmetic_is_exact() {
    let cases = [
        (QuadOperator::Add, 7, 5, 12),
        (QuadOperator::Subtract, 7, 5, 2),
        (QuadOperator::Multiply, 7, 5, 35),
        (QuadOperator::Divide, 7, 5, 1),
        (QuadOperator::Divide, -7, 2, -3),
        (QuadOperator::Divide, 7, -2, -3),
        (QuadOperator::Divide, -7, -2, 3),
    ];
    for (operator, left, right, expected) in cases {
        let mut m = ProgramManager::new();
        let a = m.value_table.insert_cte_int(left).unwrap();
        let b = m.value_table.insert_cte_int(right).unwrap();
        let r = m.value_table.insert_integer(0, "global", None).unwrap();
        emit(&mut m, operator, a, Some(b), Some(r));
        assert_eq!(m.run_program(1), Ok(Action::Continue));
        assert_eq!(m.value_table.get_int(r, None), Ok(expected));
        assert_eq!(m.instruction_pointer, 1);
    }
}

#[test]
fn integer_comparisons() {
    let cases = [
        (QuadOperator::GreaterThan, 3, 2, true),
        (QuadOperator::GreaterThan, 2, 2, false),
        (QuadOperator::LessThan, 1, 2, true),
        (QuadOperator::LessThan, 2, 1, false),
        (QuadOperator::NotEqual, 1, 2, true),
        (QuadOperator::NotEqual, 2, 2, false),
    ];
    for (operator, left, right, expected) in cases {
        let mut m = ProgramManager::new();
        let a = m.value_table.insert_cte_int(left).unwrap();
        let b = m.value_table.insert_cte_int(right).unwrap();
        let r = m.new_temp(Type::Bool).unwrap();
        emit(&mut m, operator, a, Some(b), Some(r));
        assert_eq!(m.run_program(1), Ok(Action::Continue));
        assert_eq!(m.value_table.get_bool(r, None), Ok(expected));
    }
}

#[test]
fn integer_faults_are_reported_with_their_index() {
    let cases = [
        (QuadOperator::Divide, 1, 0),
        (QuadOperator::Divide, i64::MIN, -1),
        (QuadOperator::Add, i64::MAX, 1),
        (QuadOperator::Subtract, i64::MIN, 1),
        (QuadOperator::Multiply, i64::MAX, 2),
    ];
    for (operator, left, right) in cases {
        let mut m = ProgramManager::new();
        let a = m.value_table.insert_cte_int(left).unwrap();
        let b = m.value_table.insert_cte_int(right).unwrap();
        let r = m.value_table.insert_integer(5, "global", None).unwrap();
        emit(&mut m, QuadOperator::Goto, 1, None, None);
        emit(&mut m, operator, a, Some(b), Some(r));
        assert_eq!(
            m.run_program(10),
            Err(RuntimeError { index: 1, fault: Fault::ArithmeticError })
        );
        assert_eq!(m.value_table.get_int(r, None), Ok(5));
        assert_eq!(m.instruction_pointer, 1);
    }
}

#[test]
fn mixed_operands_are_promoted_to_float() {
    let arithmetic = [
        (QuadOperator::Add, 2.5 + 4.0, 4.0 + 2.5),
        (QuadOperator::Subtract, 4.0 - 2.5, 2.5 - 4.0),
        (QuadOperator::Multiply, 4.0 * 2.5, 2.5 * 4.0),
        (QuadOperator::Divide, 4.0 / 2.5, 2.5 / 4.0),
    ];
    for (operator, int_first, float_first) in arithmetic {
        let mut m = ProgramManager::new();
        let a = m.value_table.insert_cte_int(4).unwrap();
        let b = m.value_table.insert_cte_float(2.5f64.to_bits()).unwrap();
        let r = m.value_table.insert_float(0, "global", None).unwrap();
        let s = m.value_table.insert_float(0, "global", None).unwrap();
        emit(&mut m, operator, a, Some(b), Some(r));
        emit(&mut m, operator, b, Some(a), Some(s));
        let first = m.run_program(10).unwrap();
        assert_eq!(
            first,
            Action::Compute(Request {
                operator,
                left: Value::Int(4),
                right: Value::Float(2.5f64.to_bits()),
            })
        );
        assert_eq!(m.instruction_pointer, 0);
        assert_eq!(run(&mut m), Ok(vec![]));
        assert_eq!(m.value_table.get_float(r, None).map(f64::from_bits), Ok(int_first));
        assert_eq!(m.value_table.get_float(s, None).map(f64::from_bits), Ok(float_first));
    }
}

#[test]
fn mixed_comparisons_are_promoted_to_float() {
    let cases = [
        (QuadOperator::GreaterThan, 4, 2.5, true, false),
        (QuadOperator::LessThan, 4, 2.5, false, true),
        (QuadOperator::NotEqual, 4, 2.5, true, true),
        (QuadOperator::NotEqual, 4, 4.0, false, false),
        (QuadOperator::NotEqual, 4, 5.5, true, true),
    ];
    for (operator, int, float, int_first, float_first) in cases {
        let mut m = ProgramManager::new();
        let a = m.value_table.insert_cte_int(int).unwrap();
        let b = m.value_table.insert_cte_float(f64::to_bits(float)).unwrap();
        let r = m.new_temp(Type::Bool).unwrap();
        let s = m.new_temp(Type::Bool).unwrap();
        emit(&mut m, operator, a, Some(b), Some(r));
        emit(&mut m, operator, b, Some(a), Some(s));
        assert_eq!(run(&mut m), Ok(vec![]));
        assert_eq!(m.value_table.get_bool(r, None), Ok(int_first));
        assert_eq!(m.value_table.get_bool(s, None), Ok(float_first));
    }
}

#[test]
fn two_floats_are_combined_as_floats() {
    let mut m = ProgramManager::new();
    let a = m.value_table.insert_cte_float(1.5f64.to_bits()).unwrap();
    let b = m.value_table.insert_cte_float(0.25f64.to_bits()).unwrap();
    let r = m.value_table.insert_float(0, "global", None).unwrap();
    emit(&mut m, QuadOperator::Add, a, Some(b), Some(r));
    emit(&mut m, QuadOperator::Print, r, None, None);
    assert_eq!(run(&mut m), Ok(vec!["1.75".to_string()]));
}

#[test]
fn a_reply_must_be_awaited_and_of_the_right_kind() {
    let mut m = ProgramManager::new();
    let a = m.value_table.insert_cte_int(4).unwrap();
    let b = m.value_table.insert_cte_float(2.5f64.to_bits()).unwrap();
    let r = m.value_table.insert_float(0, "global", None).unwrap();
    let t = m.new_temp(Type::Bool).unwrap();
    emit(&mut m, QuadOperator::Add, a, Some(b), Some(r));
    emit(&mut m, QuadOperator::LessThan, a, Some(b), Some(t));
    emit(&mut m, QuadOperator::Add, a, Some(a), Some(1000));
    let unexpected = |index| Err(RuntimeError { index, fault: Fault::UnexpectedReply });
    m.instruction_pointer = 0;
    assert_eq!(m.complete(Value::Bool(true)), unexpected(0));
    assert_eq!(m.complete(Value::Int(1)), unexpected(0));
    assert_eq!(m.complete(Value::Float(6.5f64.to_bits())), Ok(()));
    assert_eq!(m.instruction_pointer, 1);
    assert_eq!(m.complete(Value::Float(0)), unexpected(1));
    assert_eq!(m.complete(Value::Bool(false)), Ok(()));
    assert_eq!(m.instruction_pointer, 2);
    assert_eq!(m.complete(Value::Float(0)), unexpected(2));
    m.instruction_pointer = 3;
    assert_eq!(m.complete(Value::Float(0)), unexpected(3));
    assert_eq!(m.value_table.get_float(r, None), Ok(6.5f64.to_bits()));
}

#[test]
fn assignment_needs_equal_types() {
    let mut m = ProgramManager::new();
    let i = m.value_table.insert_integer(0, "global", None).unwrap();
    let f = m.value_table.insert_float(0, "global", None).unwrap();
    let c = m.value_table.insert_cte_float(2.0f64.to_bits()).unwrap();
    emit(&mut m, QuadOperator::Assign, f, Some(c), None);
    emit(&mut m, QuadOperator::Assign, i, Some(c), None);
    assert_eq!(
        m.run_program(10),
        Err(RuntimeError { index: 1, fault: Fault::TypeMismatch })
    );
    assert_eq!(m.value_table.get_float(f, None), Ok(2.0f64.to_bits()));
    assert_eq!(m.value_table.get_int(i, None), Ok(0));
}

#[test]
fn a_constant_is_never_written() {
    let mut m = ProgramManager::new();
    let c = m.value_table.insert_cte_int(2).unwrap();
    let d = m.value_table.insert_cte_int(3).unwrap();
    emit(&mut m, QuadOperator::Assign, c, Some(d), None);
    assert_eq!(
        m.run_program(10),
        Err(RuntimeError { index: 0, fault: Fault::Memory(MemoryError::ReadOnly) })
    );
    assert_eq!(m.value_table.get_int(c, None), Ok(2));
}

#[test]
fn print_takes_integers_floats_and_strings() {
    let mut m = ProgramManager::new();
    let i = m.value_table.insert_cte_int(-12).unwrap();
    let f = m.value_table.insert_cte_float(0.5f64.to_bits()).unwrap();
    let s = m.value_table.insert_cte_string("hola".to_string()).unwrap();
    let b = m.new_temp(Type::Bool).unwrap();
    emit(&mut m, QuadOperator::Print, i, None, None);
    emit(&mut m, QuadOperator::Print, f, None, None);
    emit(&mut m, QuadOperator::Print, s, None, None);
    emit(&mut m, QuadOperator::Print, b, None, None);
    assert_eq!(m.run_program(10), Ok(Action::Print(Output::Int(-12))));
    assert_eq!(m.resume(10), Ok(Action::Print(Output::Float(0.5f64.to_bits()))));
    assert_eq!(m.resume(10), Ok(Action::Print(Output::Text("hola".to_string()))));
    assert_eq!(
        m.resume(10),
        Err(RuntimeError { index: 3, fault: Fault::UnsupportedPrintType })
    );
}

#[test]
fn invalid_operators_and_pointers() {
    let mut m = ProgramManager::new();
    emit(&mut m, QuadOperator::GotoV, 0, None, None);
    assert_eq!(
        m.run_program(10),
        Err(RuntimeError { index: 0, fault: Fault::InvalidOperator })
    );
    let mut m = ProgramManager::new();
    emit(&mut m, QuadOperator::Goto, -4, None, None);
    assert_eq!(
        m.run_program(10),
        Err(RuntimeError { index: -4, fault: Fault::BadPointer })
    );
    let mut m = ProgramManager::new();
    emit(&mut m, QuadOperator::Add, 1000, None, Some(1000));
    assert_eq!(
        m.run_program(10),
        Err(RuntimeError { index: 0, fault: Fault::MissingOperand })
    );
    let mut m = ProgramManager::new();
    emit(&mut m, QuadOperator::Goto, 40, None, None);
    assert_eq!(m.run_program(10), Ok(Action::Finished));
    assert_eq!(m.instruction_pointer, 40);
}

#[test]
fn the_step_budget_is_kept() {
    let mut m = ProgramManager::new();
    emit(&mut m, QuadOperator::Goto, 0, None, None);
    assert_eq!(m.run_program(1000), Ok(Action::Continue));
    assert_eq!(m.instruction_pointer, 0);
    assert_eq!(m.resume(0), Ok(Action::Continue));
}

/// f(n) = if n > 0 { local = n; f(n - 1) }; print(local)
fn recursive_program(depth: i64) -> ProgramManager {
    let mut m = ProgramManager::new();
    let zero = m.value_table.insert_cte_int(0).unwrap();
    let one = m.value_table.insert_cte_int(1).unwrap();
    let start = m.value_table.insert_cte_int(depth).unwrap();
    let main_jump = emit(&mut m, QuadOperator::Goto, 0, None, None);

    let parameter = FunctionParam { var_type: VarType::Int, name: "n".to_string() };
    let id = m.open_function("f".to_string(), vec![parameter]).unwrap();
    assert_eq!(id, 0);
    assert_eq!(m.function_id(&"f".to_string()), Some(0));
    let n = m.value_table.insert_integer(0, "local", m.memory_stack.top()).unwrap();
    let local = m.value_table.insert_integer(0, "local", m.memory_stack.top()).unwrap();
    assert_eq!((n, local), (2000, 2001));
    let guard = m.new_temp(Type::Bool).unwrap();
    let less = m.new_temp(Type::Int).unwrap();
    assert_eq!((guard, less), (8000, 3000));
    emit(&mut m, QuadOperator::GreaterThan, n, Some(zero), Some(guard));
    let skip = emit(&mut m, QuadOperator::GotoF, guard, None, None);
    emit(&mut m, QuadOperator::Assign, local, Some(n), None);
    emit(&mut m, QuadOperator::Subtract, n, Some(one), Some(less));
    emit(&mut m, QuadOperator::Memory, id, None, None);
    emit(&mut m, QuadOperator::Param, less, Some(n), None);
    emit(&mut m, QuadOperator::GoSub, id, None, None);
    let end = m.quadruplets.len();
    m.fill_quad(skip, end).unwrap();
    emit(&mut m, QuadOperator::Print, local, None, None);
    emit(&mut m, QuadOperator::EndFunc, 0, None, None);
    m.close_function().unwrap();

    let main = m.quadruplets.len();
    m.fill_quad(main_jump, main).unwrap();
    emit(&mut m, QuadOperator::Memory, id, None, None);
    emit(&mut m, QuadOperator::Param, start, Some(n), None);
    emit(&mut m, QuadOperator::GoSub, id, None, None);
    emit(&mut m, QuadOperator::EndProgram, 0, None, None);
    m
}

#[test]
fn a_function_scope_records_what_a_call_needs() {
    let m = recursive_program(1);
    let info = m.tabla_funciones.at(0).unwrap();
    assert_eq!(info.name, "f");
    assert_eq!(info.params.len(), 1);
    assert_eq!(info.start_address, 1);
    assert_eq!(
        info.vars_amount,
        VarsAmount { local_ints: 2, temp_ints: 1, local_floats: 0, temp_floats: 0, temp_bools: 1 }
    );
    assert!(m.curr_function.is_empty());
    assert!(m.memory_stack.is_empty());
    assert_eq!(m.value_table.counters.int_local, 0);
    assert_eq!(m.value_table.counters.int_temp, 0);
    assert_eq!(m.value_table.counters.bool_temp, 0);
    assert_eq!(m.function_id(&"g".to_string()), None);
}

#[test]
fn closing_needs_an_open_function() {
    let mut m = ProgramManager::new();
    assert_eq!(m.close_function(), Err(CompileError::NoOpenFunction));
    assert_eq!(m.open_function("f".to_string(), Vec::new()), Ok(0));
    assert_eq!(m.open_function("g".to_string(), Vec::new()), Ok(1));
    assert_eq!(m.curr_function.top(), Some(&"g".to_string()));
    assert_eq!(m.memory_stack.size(), 2);
    assert_eq!(m.close_function(), Ok(()));
    assert_eq!(m.curr_function.top(), Some(&"f".to_string()));
    assert_eq!(m.close_function(), Ok(()));
    assert_eq!(m.close_function(), Err(CompileError::NoOpenFunction));
    assert_eq!(m.open_function("f".to_string(), Vec::new()), Ok(0));
    assert_eq!(m.tabla_funciones.len(), 2);
}

#[test]
fn each_activation_has_its_own_locals() {
    let mut m = recursive_program(3);
    let lines = run(&mut m).unwrap();
    assert_eq!(lines, vec!["0", "1", "2", "3"]);
    assert_eq!(m.memory_stack.size(), 0);
    assert!(m.upcoming_function.is_none());
}

#[test]
fn frames_and_return_addresses_stay_balanced() {
    let mut m = recursive_program(2);
    let mut action = m.run_program(1).unwrap();
    let mut deepest = 0;
    let mut steps = 0;
    while action != Action::Finished {
        assert_eq!(m.memory_stack.size(), m.position_before_fcall.size());
        if m.memory_stack.size() > deepest {
            deepest = m.memory_stack.size();
        }
        if let Action::Compute(request) = action {
            m.complete(compute(request)).unwrap();
        }
        action = m.resume(1).unwrap();
        steps += 1;
        assert!(steps < 1000);
    }
    assert_eq!(deepest, 3);
    assert_eq!(m.memory_stack.size(), 0);
    assert_eq!(m.position_before_fcall.size(), 0);
}

#[test]
fn running_twice_prints_the_same() {
    let first = run(&mut recursive_program(4)).unwrap();
    let second = run(&mut recursive_program(4)).unwrap();
    assert_eq!(first, second);
    assert_eq!(first, vec!["0", "1", "2", "3", "4"]);
}

#[test]
fn calls_need_a_frame_and_a_function() {
    let mut m = ProgramManager::new();
    emit(&mut m, QuadOperator::GoSub, 0, None, None);
    assert_eq!(
        m.run_program(10),
        Err(RuntimeError { index: 0, fault: Fault::NoPendingFrame })
    );
    let mut m = ProgramManager::new();
    emit(&mut m, QuadOperator::Memory, 0, None, None);
    assert_eq!(
        m.run_program(10),
        Err(RuntimeError { index: 0, fault: Fault::UnknownFunction })
    );
    let mut m = ProgramManager::new();
    emit(&mut m, QuadOperator::Memory, -1, None, None);
    assert_eq!(
        m.run_program(10),
        Err(RuntimeError { index: 0, fault: Fault::UnknownFunction })
    );
    let mut m = ProgramManager::new();
    m.tabla_funciones.insert(function("g", [1, -1, 0, 0, 0], 0));
    emit(&mut m, QuadOperator::Memory, 0, None, None);
    assert_eq!(
        m.run_program(10),
        Err(RuntimeError { index: 0, fault: Fault::FrameSize })
    );
    let mut m = ProgramManager::new();
    emit(&mut m, QuadOperator::EndFunc, 0, None, None);
    assert_eq!(
        m.run_program(10),
        Err(RuntimeError { index: 0, fault: Fault::StackUnderflow })
    );
    let mut m = ProgramManager::new();
    emit(&mut m, QuadOperator::Param, 9000, Some(2000), None);
    assert_eq!(
        m.run_program(10),
        Err(RuntimeError { index: 0, fault: Fault::NoPendingFrame })
    );
}

#[test]
fn parameters_go_to_the_pending_frame_only() {
    let mut m = ProgramManager::new();
    m.tabla_funciones.insert(function("g", [1, 0, 1, 0, 0], 5));
    let c = m.value_table.insert_cte_int(41).unwrap();
    let f = m.value_table.insert_cte_float(1.5f64.to_bits()).unwrap();
    let g = m.value_table.insert_integer(7, "global", None).unwrap();
    emit(&mut m, QuadOperator::Memory, 0, None, None);
    emit(&mut m, QuadOperator::Param, c, Some(2000), None);
    emit(&mut m, QuadOperator::Param, f, Some(5000), None);
    emit(&mut m, QuadOperator::Param, c, Some(g), None);
    assert_eq!(
        m.run_program(10),
        Err(RuntimeError { index: 3, fault: Fault::Memory(MemoryError::WrongBand) })
    );
    let pending = m.upcoming_function.clone().unwrap();
    assert_eq!(pending.ints, vec![41]);
    assert_eq!(pending.floats, vec![1.5f64.to_bits()]);
    assert_eq!(m.value_table.get_int(g, None), Ok(7));
    m.instruction_pointer = 1;
    m.quadruplets.set(1, Quadruplet::new(14, c, Some(2001), None));
    assert_eq!(
        m.step(),
        Err(RuntimeError { index: 1, fault: Fault::Memory(MemoryError::OutOfRange) })
    );
    m.quadruplets.set(1, Quadruplet::new(14, c, Some(8000), None));
    assert_eq!(m.step(), Err(RuntimeError { index: 1, fault: Fault::TypeMismatch }));
}

#[test]
fn a_number_that_is_no_operator_code_is_refused() {
    for code in [0, 18, 99, -1] {
        let mut m = ProgramManager::new();
        emit(&mut m, QuadOperator::Print, 9000, None, None);
        m.quadruplets.set(0, Quadruplet::new(code, 0, None, None));
        assert_eq!(
            m.run_program(10),
            Err(RuntimeError { index: 0, fault: Fault::InvalidOperator })
        );
        assert_eq!(m.complete(Value::Float(0)), Err(RuntimeError {
            index: 0,
            fault: Fault::UnexpectedReply,
        }));
    }
}

#[test]
fn a_finished_machine_stays_finished() {
    let mut m = ProgramManager::new();
    emit(&mut m, QuadOperator::EndProgram, 0, None, None);
    emit(&mut m, QuadOperator::Print, 9000, None, None);
    assert_eq!(m.run_program(10), Ok(Action::Finished));
    assert_eq!(m.instruction_pointer, 0);
    assert_eq!(m.step(), Ok(Action::Finished));
    assert_eq!(m.resume(10), Ok(Action::Finished));
    assert_eq!(m.instruction_pointer, 0);
    m.instruction_pointer = 2;
    assert_eq!(m.step(), Ok(Action::Finished));
    assert_eq!(m.instruction_pointer, 2);
}

#[test]
fn a_fault_leaves_the_machine_as_it_was() {
    let mut m = recursive_program(2);
    let mut action = m.run_program(1).unwrap();
    while m.memory_stack.size() < 2 {
        if let Action::Compute(request) = action {
            m.complete(compute(request)).unwrap();
        }
        action = m.resume(1).unwrap();
    }
    let at = m.instruction_pointer;
    m.quadruplets.set(at, Quadruplet::new(4, 2005, Some(2000), None));
    let frames = m.memory_stack.size();
    let top = m.memory_stack.top().cloned();
    assert_eq!(
        m.step(),
        Err(RuntimeError { index: at, fault: Fault::Memory(MemoryError::OutOfRange) })
    );
    assert_eq!(m.instruction_pointer, at);
    assert_eq!(m.memory_stack.size(), frames);
    assert_eq!(m.position_before_fcall.size(), frames);
    assert_eq!(m.memory_stack.top().cloned(), top);
}

#[test]
fn filling_in_a_target_rewrites_that_field_only() {
    let mut m = ProgramManager::new();
    emit(&mut m, QuadOperator::Print, 9000, None, None);
    emit(&mut m, QuadOperator::Goto, 0, Some(21), Some(22));
    emit(&mut m, QuadOperator::GotoF, 8000, None, Some(23));
    emit(&mut m, QuadOperator::GotoF, 8001, Some(24), None);
    let table = m.value_table.clone();
    assert_eq!(m.fill_quad(1, 7), Ok(()));
    assert_eq!(m.fill_quad(2, 8), Ok(()));
    assert_eq!(m.fill_quad(3, 9), Ok(()));
    assert_eq!(*m.quadruplets.get(0).unwrap(), Quadruplet::new(12, 9000, None, None));
    assert_eq!(*m.quadruplets.get(1).unwrap(), Quadruplet::new(1, 7, Some(21), Some(22)));
    assert_eq!(*m.quadruplets.get(2).unwrap(), Quadruplet::new(3, 8000, Some(8), Some(23)));
    assert_eq!(*m.quadruplets.get(3).unwrap(), Quadruplet::new(3, 8001, Some(9), None));
    assert_eq!(m.quadruplets.len(), 4);
    assert_eq!(m.instruction_pointer, 4);
    assert_eq!(m.value_table, table);
    assert_eq!(m.fill_quad(1, 11), Ok(()));
    assert_eq!(*m.quadruplets.get(1).unwrap(), Quadruplet::new(1, 11, Some(21), Some(22)));
}

#[test]
fn a_declared_temporary_of_the_program_has_its_cell() {
    let mut m = ProgramManager::new();
    let first = m.new_temp(Type::Int).unwrap();
    let flag = m.new_temp(Type::Bool).unwrap();
    let ratio = m.new_temp(Type::Float).unwrap();
    assert_eq!(m.value_table.get_int(first, None), Ok(0));
    assert_eq!(m.value_table.get_bool(flag, None), Ok(false));
    assert_eq!(m.value_table.get_float(ratio, None), Ok(0));
    m.value_table.set_int(first, 5, None).unwrap();
    m.value_table.set_bool(flag, true, None).unwrap();
    m.value_table.set_float(ratio, 9, None).unwrap();
    // A function counts its temporaries without storing them; closing it
    // starts the counters again, and the cells of the program are kept.
    m.open_function("f".to_string(), Vec::new()).unwrap();
    assert_eq!(m.new_temp(Type::Int), Ok(3000));
    assert_eq!(m.new_temp(Type::Int), Ok(3001));
    m.close_function().unwrap();
    assert_eq!(m.value_table.counters.int_temp, 0);
    assert_eq!(m.new_temp(Type::Int), Ok(first));
    assert_eq!(m.new_temp(Type::Bool), Ok(flag));
    assert_eq!(m.new_temp(Type::Float), Ok(ratio));
    assert_eq!(m.value_table.get_int(first, None), Ok(5));
    assert_eq!(m.value_table.get_bool(flag, None), Ok(true));
    assert_eq!(m.value_table.get_float(ratio, None), Ok(9));
    let second = m.new_temp(Type::Int).unwrap();
    assert_eq!(second, first + 1);
    assert_eq!(m.value_table.get_int(second, None), Ok(0));
    assert_eq!(m.value_table.set_int(second, 6, None), Ok(()));
}
