use pandora::compiler::address::{
    band_of, first_address, locate, scope_from_name, Scope, BAND_SIZE, LOCAL_VALUES,
    START_BOOL_VALUES, START_CONST_FLOAT_VALUES, START_CONST_INT_VALUES,
    START_CONST_STRING_VALUES, START_FLOAT_VALUES, START_INT_VALUES, TEMP_VALUES,
};
use pandora::compiler::program_manager::CompileError;
use pandora::compiler::quadruplets::{
    convert_quad_op_to_code, convert_semantic_op_to_quad_op, quad_op_code, QuadOperator,
    Quadruplet, QuadrupletList,
};
use pandora::compiler::semantic_tables::{
    FunctionInfo, FunctionTable, VarType, VarValue, VariableInfo, VariableTable, VarsAmount,
};
use pandora::compiler::value_table::{AllocError, Memory, MemoryError, ValueTable};
use pandora::{CuboSemantico, Operator, ProgramManager, Type};

const TYPES: [Type; 5] = [Type::Int, Type::Float, Type::Bool, Type::String, Type::Error];
const OPERATORS: [Operator; 8] = [
    Operator::Add,
    Operator::Subtract,
    Operator::Multiply,
    Operator::Divide,
    Operator::LessThan,
    Operator::GreaterThan,
    Operator::Equal,
    Operator::NotEqual,
];
const SCOPES: [Scope; 4] = [Scope::Global, Scope::Local, Scope::Temp, Scope::Constant];

#[test]
fn cube_types_every_triple() {
    let cube = CuboSemantico::new();
    for left in TYPES {
        for op in OPERATORS {
            for right in TYPES {
                let numeric = |t: Type| t == Type::Int || t == Type::Float;
                let arithmetic = matches!(
                    op,
                    Operator::Add | Operator::Subtract | Operator::Multiply | Operator::Divide
                );
                let expected = if !(numeric(left) && numeric(right)) {
                    Type::Error
                } else if !arithmetic {
                    Type::Bool
                } else if left == Type::Int && right == Type::Int {
                    Type::Int
                } else {
                    Type::Float
                };
                assert_eq!(cube.get_type(left, op, right), expected);
            }
        }
    }
}

#[test]
fn cube_examples() {
    let cube = CuboSemantico::new();
    assert_eq!(cube.get_type(Type::Int, Operator::Add, Type::Int), Type::Int);
    assert_eq!(cube.get_type(Type::Int, Operator::Divide, Type::Float), Type::Float);
    assert_eq!(cube.get_type(Type::Float, Operator::Multiply, Type::Int), Type::Float);
    assert_eq!(cube.get_type(Type::Float, Operator::LessThan, Type::Int), Type::Bool);
    assert_eq!(cube.get_type(Type::Int, Operator::Equal, Type::Int), Type::Bool);
    assert_eq!(cube.get_type(Type::Bool, Operator::Add, Type::Int), Type::Error);
    assert_eq!(cube.get_type(Type::Bool, Operator::NotEqual, Type::Bool), Type::Error);
    assert_eq!(cube.get_type(Type::String, Operator::Add, Type::String), Type::Error);
}

#[test]
fn band_limits() {
    assert_eq!(START_INT_VALUES, 1000);
    assert_eq!(START_FLOAT_VALUES, 4000);
    assert_eq!(START_BOOL_VALUES, 8000);
    assert_eq!(START_CONST_INT_VALUES, 9000);
    assert_eq!(START_CONST_FLOAT_VALUES, 10000);
    assert_eq!(START_CONST_STRING_VALUES, 11000);
    assert_eq!((LOCAL_VALUES, TEMP_VALUES, BAND_SIZE), (1000, 2000, 1000));
    assert_eq!(band_of(999), None);
    assert_eq!(band_of(1000), Some((Type::Int, Scope::Global)));
    assert_eq!(band_of(1999), Some((Type::Int, Scope::Global)));
    assert_eq!(band_of(2000), Some((Type::Int, Scope::Local)));
    assert_eq!(band_of(3000), Some((Type::Int, Scope::Temp)));
    assert_eq!(band_of(4000), Some((Type::Float, Scope::Global)));
    assert_eq!(band_of(5000), Some((Type::Float, Scope::Local)));
    assert_eq!(band_of(6999), Some((Type::Float, Scope::Temp)));
    assert_eq!(band_of(7000), None);
    assert_eq!(band_of(7999), None);
    assert_eq!(band_of(8000), Some((Type::Bool, Scope::Temp)));
    assert_eq!(band_of(9000), Some((Type::Int, Scope::Constant)));
    assert_eq!(band_of(10000), Some((Type::Float, Scope::Constant)));
    assert_eq!(band_of(11999), Some((Type::String, Scope::Constant)));
    assert_eq!(band_of(12000), None);
    assert_eq!(band_of(-1), None);
    assert_eq!(band_of(i32::MAX), None);
    assert_eq!(band_of(i32::MIN), None);
}

#[test]
fn every_address_has_at_most_one_band() {
    let mut bands = 0;
    for category in TYPES {
        for scope in SCOPES {
            if let Some(first) = first_address(category, scope) {
                bands += 1;
                for address in [first, first + 1, first + BAND_SIZE - 1] {
                    assert_eq!(band_of(address), Some((category, scope)));
                    assert_eq!(
                        locate(category, address),
                        Some((scope, (address - first) as usize))
                    );
                    for other in TYPES {
                        if other != category {
                            assert_eq!(locate(other, address), None);
                        }
                    }
                }
            }
        }
    }
    assert_eq!(bands, 10);
}

#[test]
fn var_type_follows_the_ranges() {
    let table = ValueTable::new();
    let cases = [
        (i32::MIN, Type::Error),
        (0, Type::Error),
        (999, Type::Error),
        (1000, Type::Int),
        (3999, Type::Int),
        (4000, Type::Float),
        (7500, Type::Float),
        (7999, Type::Float),
        (8000, Type::Bool),
        (8999, Type::Bool),
        (9000, Type::Int),
        (9999, Type::Int),
        (10000, Type::Float),
        (10999, Type::Float),
        (11000, Type::String),
        (i32::MAX, Type::String),
    ];
    for (address, expected) in cases {
        assert_eq!(table.get_var_type(address), expected);
    }
}

#[test]
fn allocator_hands_out_addresses_of_the_band_asked_for() {
    let mut table = ValueTable::new();
    let frame = Memory::new();
    let scopes = [("global", Scope::Global), ("local", Scope::Local), ("temp", Scope::Temp)];
    for (name, scope) in scopes {
        assert_eq!(scope_from_name(name), Some(scope));
        for count in 0..3 {
            let address = table.insert_integer(count, name, Some(&frame)).unwrap();
            assert_eq!(band_of(address), Some((Type::Int, scope)));
            assert_eq!(table.get_var_type(address), Type::Int);
            assert_eq!(address, first_address(Type::Int, scope).unwrap() + count as i32);
            let address = table.insert_float(0, name, None).unwrap();
            assert_eq!(band_of(address), Some((Type::Float, scope)));
            assert_eq!(table.get_var_type(address), Type::Float);
            assert_eq!(address, first_address(Type::Float, scope).unwrap() + count as i32);
        }
    }
    let address = table.insert_bool(true, None).unwrap();
    assert_eq!(address, 8000);
    assert_eq!(band_of(address), Some((Type::Bool, Scope::Temp)));
    assert_eq!(table.get_var_type(address), Type::Bool);
    assert_eq!(table.insert_cte_int(1), Ok(9000));
    assert_eq!(table.insert_cte_int(1), Ok(9001));
    assert_eq!(table.insert_cte_float(1), Ok(10000));
    assert_eq!(table.insert_cte_string("a".to_string()), Ok(11000));
    assert_eq!(table.insert_cte_string("b".to_string()), Ok(11001));
    assert_eq!(band_of(11001), Some((Type::String, Scope::Constant)));
    assert_eq!(table.get_var_type(11001), Type::String);
    assert_eq!(table.counters.int_global, 3);
    assert_eq!(table.counters.float_temp, 3);
    assert_eq!(table.counters.bool_temp, 1);
}

#[test]
fn allocator_refuses_a_full_band_and_a_missing_one() {
    let mut table = ValueTable::new();
    for count in 0..1000 {
        assert_eq!(table.insert_integer(0, "global", None), Ok(1000 + count));
        assert_eq!(table.insert_bool(false, None), Ok(8000 + count));
        assert_eq!(table.insert_cte_float(0), Ok(10000 + count));
        assert_eq!(table.insert_cte_string(String::new()), Ok(11000 + count));
        assert_eq!(table.insert_cte_int(0), Ok(9000 + count));
    }
    let before = table.clone();
    assert_eq!(table.insert_integer(0, "global", None), Err(AllocError::BandFull));
    assert_eq!(table.insert_bool(false, None), Err(AllocError::BandFull));
    assert_eq!(table.insert_cte_float(0), Err(AllocError::BandFull));
    assert_eq!(table.insert_cte_string(String::new()), Err(AllocError::BandFull));
    assert_eq!(table.insert_cte_int(0), Err(AllocError::BandFull));
    for name in ["constant", "", "Global", "temporary", "temp "] {
        assert_eq!(scope_from_name(name), None);
        assert_eq!(table.insert_integer(0, name, None), Err(AllocError::InvalidScope));
        assert_eq!(table.insert_float(0, name, None), Err(AllocError::InvalidScope));
    }
    assert_eq!(table, before);
    assert_eq!(table.insert_integer(0, "local", None), Ok(2000));
    table.counters.int_temp = -1;
    assert_eq!(table.insert_integer(0, "temp", None), Err(AllocError::BandFull));
}

#[test]
fn storage_is_made_for_globals_and_for_the_programs_temporaries() {
    let mut table = ValueTable::new();
    let frame = Memory::new();
    let global = table.insert_integer(7, "global", Some(&frame)).unwrap();
    let local = table.insert_integer(8, "local", None).unwrap();
    let own_temp = table.insert_integer(9, "temp", None).unwrap();
    let call_temp = table.insert_integer(10, "temp", Some(&frame)).unwrap();
    assert_eq!((global, local, own_temp, call_temp), (1000, 2000, 3000, 3001));
    assert_eq!(table.get_int(global, None), Ok(7));
    assert_eq!(table.get_int(local, None), Err(MemoryError::NoFrame));
    assert_eq!(table.get_int(own_temp, None), Ok(9));
    assert_eq!(table.get_int(call_temp, None), Err(MemoryError::OutOfRange));
    let float = table.insert_float(3, "temp", None).unwrap();
    assert_eq!(table.get_float(float, None), Ok(3));
    let flag = table.insert_bool(true, None).unwrap();
    assert_eq!(table.get_bool(flag, None), Ok(true));
    let hidden = table.insert_bool(true, Some(&frame)).unwrap();
    assert_eq!(table.get_bool(hidden, None), Err(MemoryError::OutOfRange));
}

#[test]
fn clearing_keeps_the_globals() {
    let mut table = ValueTable::new();
    table.insert_integer(1, "global", None).unwrap();
    table.insert_float(1, "global", None).unwrap();
    table.insert_integer(1, "local", None).unwrap();
    table.insert_integer(1, "temp", None).unwrap();
    table.insert_float(1, "local", None).unwrap();
    table.insert_float(1, "temp", None).unwrap();
    table.insert_bool(true, None).unwrap();
    table.clear_local_vars();
    let counters = table.counters;
    assert_eq!((counters.int_global, counters.float_global), (1, 1));
    assert_eq!((counters.int_local, counters.int_temp), (0, 0));
    assert_eq!((counters.float_local, counters.float_temp, counters.bool_temp), (0, 0, 0));
    assert_eq!(table.get_int(1000, None), Ok(1));
    assert_eq!(table.get_int(3000, None), Ok(1));
    assert_eq!(table.insert_integer(5, "temp", None), Ok(3000));
    assert_eq!(table.insert_integer(5, "global", None), Ok(1001));
}

#[test]
fn reads_and_writes_go_to_the_frame_inside_a_call() {
    let mut table = ValueTable::new();
    table.insert_integer(1, "global", None).unwrap();
    table.insert_integer(2, "temp", None).unwrap();
    table.insert_float(3, "global", None).unwrap();
    table.insert_float(4, "temp", None).unwrap();
    table.insert_bool(false, None).unwrap();
    table.insert_cte_int(5).unwrap();
    let mut frame = Memory::zeroed(2, 1, 2, 1, 1);
    assert_eq!(frame.ints, vec![0, 0]);
    assert_eq!(frame.int_temps, vec![0]);
    assert_eq!(frame.floats, vec![0, 0]);
    assert_eq!(frame.float_temps, vec![0]);
    assert_eq!(frame.bool_temps, vec![false]);

    assert_eq!(table.set_int(2001, 11, Some(&mut frame)), Ok(()));
    assert_eq!(table.set_int(3000, 12, Some(&mut frame)), Ok(()));
    assert_eq!(table.set_int(1000, 13, Some(&mut frame)), Ok(()));
    assert_eq!(table.set_float(5000, 14, Some(&mut frame)), Ok(()));
    assert_eq!(table.set_float(6000, 15, Some(&mut frame)), Ok(()));
    assert_eq!(table.set_float(4000, 16, Some(&mut frame)), Ok(()));
    assert_eq!(table.set_bool(8000, true, Some(&mut frame)), Ok(()));
    assert_eq!(frame.ints, vec![0, 11]);
    assert_eq!(frame.int_temps, vec![12]);
    assert_eq!(frame.floats, vec![14, 0]);
    assert_eq!(frame.float_temps, vec![15]);
    assert_eq!(frame.bool_temps, vec![true]);

    assert_eq!(table.get_int(2001, Some(&frame)), Ok(11));
    assert_eq!(table.get_int(3000, Some(&frame)), Ok(12));
    assert_eq!(table.get_int(3000, None), Ok(2));
    assert_eq!(table.get_int(1000, Some(&frame)), Ok(13));
    assert_eq!(table.get_int(9000, Some(&frame)), Ok(5));
    assert_eq!(table.get_float(5000, Some(&frame)), Ok(14));
    assert_eq!(table.get_float(6000, Some(&frame)), Ok(15));
    assert_eq!(table.get_float(6000, None), Ok(4));
    assert_eq!(table.get_float(4000, None), Ok(16));
    assert_eq!(table.get_bool(8000, Some(&frame)), Ok(true));
    assert_eq!(table.get_bool(8000, None), Ok(false));
}

#[test]
fn accesses_outside_the_storage_are_refused() {
    let mut table = ValueTable::new();
    table.insert_cte_int(5).unwrap();
    table.insert_cte_float(6).unwrap();
    table.insert_cte_string("seven".to_string()).unwrap();
    let mut frame = Memory::zeroed(1, 0, 0, 0, 0);
    assert_eq!(table.get_int(4000, None), Err(MemoryError::WrongBand));
    assert_eq!(table.get_int(999, None), Err(MemoryError::WrongBand));
    assert_eq!(table.get_float(1000, None), Err(MemoryError::WrongBand));
    assert_eq!(table.get_float(7000, None), Err(MemoryError::WrongBand));
    assert_eq!(table.get_bool(1000, None), Err(MemoryError::WrongBand));
    assert_eq!(table.get_string(9000), Err(MemoryError::WrongBand));
    assert_eq!(table.get_string(12000), Err(MemoryError::WrongBand));
    assert_eq!(table.get_string(11001), Err(MemoryError::OutOfRange));
    assert_eq!(table.get_string(11000), Ok("seven".to_string()));
    assert_eq!(table.get_int(1000, None), Err(MemoryError::OutOfRange));
    assert_eq!(table.get_int(2001, Some(&frame)), Err(MemoryError::OutOfRange));
    assert_eq!(table.get_int(9001, None), Err(MemoryError::OutOfRange));
    assert_eq!(table.set_int(2000, 1, None), Err(MemoryError::NoFrame));
    assert_eq!(table.set_float(5000, 1, None), Err(MemoryError::NoFrame));
    assert_eq!(table.set_int(9000, 1, None), Err(MemoryError::ReadOnly));
    assert_eq!(table.set_float(10000, 1, None), Err(MemoryError::ReadOnly));
    assert_eq!(table.set_int(2001, 1, Some(&mut frame)), Err(MemoryError::OutOfRange));
    assert_eq!(table.set_bool(8000, true, Some(&mut frame)), Err(MemoryError::OutOfRange));
    assert_eq!(table.set_bool(9000, true, None), Err(MemoryError::WrongBand));
    assert_eq!(table.set_int(4000, 1, None), Err(MemoryError::WrongBand));
    assert_eq!(table.get_int(9000, None), Ok(5));
    assert_eq!(table.get_float(10000, None), Ok(6));
    assert_eq!(frame.ints, vec![0]);
}

#[test]
fn operator_codes() {
    let operators = [
        QuadOperator::Goto,
        QuadOperator::GotoV,
        QuadOperator::GotoF,
        QuadOperator::Assign,
        QuadOperator::Add,
        QuadOperator::Subtract,
        QuadOperator::Multiply,
        QuadOperator::Divide,
        QuadOperator::GreaterThan,
        QuadOperator::LessThan,
        QuadOperator::NotEqual,
        QuadOperator::Print,
        QuadOperator::Memory,
        QuadOperator::Param,
        QuadOperator::GoSub,
        QuadOperator::EndFunc,
        QuadOperator::EndProgram,
    ];
    for (position, operator) in operators.iter().enumerate() {
        let code = position as i32 + 1;
        assert_eq!(quad_op_code(*operator), code);
        assert_eq!(convert_quad_op_to_code(code), *operator);
    }
    assert_eq!(convert_semantic_op_to_quad_op(Operator::Add), QuadOperator::Add);
    assert_eq!(convert_semantic_op_to_quad_op(Operator::Subtract), QuadOperator::Subtract);
    assert_eq!(convert_semantic_op_to_quad_op(Operator::Multiply), QuadOperator::Multiply);
    assert_eq!(convert_semantic_op_to_quad_op(Operator::Divide), QuadOperator::Divide);
    assert_eq!(convert_semantic_op_to_quad_op(Operator::GreaterThan), QuadOperator::GreaterThan);
    assert_eq!(convert_semantic_op_to_quad_op(Operator::LessThan), QuadOperator::LessThan);
    assert_eq!(convert_semantic_op_to_quad_op(Operator::NotEqual), QuadOperator::NotEqual);
}

#[test]
fn quadruplets_are_listed_in_columns() {
    assert_eq!(
        Quadruplet::new(1, 7, None, None).to_string(),
        "(GOTO   7     _     _    )"
    );
    assert_eq!(
        Quadruplet::new(5, 1000, Some(9000), Some(3000)).to_string(),
        "(SUM    1000  9000  3000 )"
    );
    assert_eq!(
        Quadruplet::new(17, -5, Some(123456), Some(i32::MIN)).to_string(),
        "(ENDPROGRAM -5    123456 -2147483648)"
    );
    assert_eq!(
        Quadruplet::new(0, i32::MAX, Some(0), Some(-10)).to_string(),
        "(INVALID QUAD OP 2147483647 0     -10  )"
    );
    let names = [
        "GOTO", "GOTOV", "GOTOF", "ASSIGN", "SUM", "MINUS", "TIMES", "DIV", "GT", "LT", "NE",
        "PRINT", "MEMORY", "PARAM", "GOSUB", "ENDFUNC", "ENDPROGRAM",
    ];
    for (position, name) in names.iter().enumerate() {
        let text = Quadruplet::new(position as i32 + 1, 0, None, None).to_string();
        assert_eq!(text, format!("({: <6} {: <5} {: <5} {: <5})", name, 0, "_", "_"));
    }
}

#[test]
fn list_keeps_the_order_of_emission() {
    let mut list = QuadrupletList::new();
    assert_eq!(list.len(), 0);
    assert!(list.get(0).is_none());
    assert!(list.print_elements().is_empty());
    for index in 0..12 {
        list.push(Quadruplet::new(4, index, Some(index + 1), None));
    }
    assert_eq!(list.len(), 12);
    assert_eq!(list.get(3).map(|quad| quad.arg1), Some(3));
    assert!(list.get(12).is_none());
    assert!(list.get(-1).is_none());
    list.set(3, Quadruplet::new(12, 1000, None, None));
    let lines = list.print_elements();
    assert_eq!(lines.len(), 12);
    assert_eq!(lines[0], "0 (ASSIGN 0     1     _    )");
    assert_eq!(lines[3], "3 (PRINT  1000  _     _    )");
    assert_eq!(lines[11], "11 (ASSIGN 11    12    _    )");
    list.pop();
    assert_eq!(list.len(), 11);
    assert_eq!(list.get(0).map(|quad| quad.arg1), Some(1));
    let mut empty = QuadrupletList::new();
    empty.pop();
    assert_eq!(empty.len(), 0);
}

fn variable(name: &str, address: i32) -> VariableInfo {
    VariableInfo {
        name: name.to_string(),
        value: VarValue::Int(0),
        var_type: VarType::Int,
        address,
    }
}

fn function(name: &str, start: i32) -> FunctionInfo {
    FunctionInfo {
        name: name.to_string(),
        params: Vec::new(),
        vars: VariableTable::new(),
        vars_amount: VarsAmount {
            local_ints: 0,
            temp_ints: 0,
            local_floats: 0,
            temp_floats: 0,
            temp_bools: 0,
        },
        start_address: start,
    }
}

#[test]
fn variables_are_found_by_name() {
    let mut table = VariableTable::new();
    assert_eq!(table.len(), 0);
    assert_eq!(table.insert(variable("a", 1000)), 0);
    assert_eq!(table.insert(variable("b", 1001)), 1);
    assert_eq!(table.insert(variable("a", 1002)), 0);
    assert_eq!(table.len(), 2);
    assert_eq!(table.find(&"b".to_string()), Some(1));
    assert_eq!(table.find(&"c".to_string()), None);
    assert_eq!(table.get(&"a".to_string()).map(|info| info.address), Some(1002));
    assert!(table.get(&"c".to_string()).is_none());
    assert!(table.contains_key(&"b".to_string()));
    assert!(!table.contains_key(&"".to_string()));
}

#[test]
fn functions_are_found_by_name_and_by_number() {
    let mut table = FunctionTable::new();
    assert_eq!(table.insert(function("f", 1)), 0);
    assert_eq!(table.insert(function("g", 5)), 1);
    assert_eq!(table.insert(function("f", 9)), 0);
    assert_eq!(table.len(), 2);
    assert_eq!(table.find(&"g".to_string()), Some(1));
    assert_eq!(table.find(&"h".to_string()), None);
    assert_eq!(table.get(&"f".to_string()).map(|info| info.start_address), Some(9));
    assert_eq!(table.at(1).map(|info| info.start_address), Some(5));
    assert!(table.at(2).is_none());
    assert!(table.contains_key(&"f".to_string()));
    assert!(!table.contains_key(&"F".to_string()));
}

#[test]
fn temporaries_of_a_function_get_no_storage_of_the_program() {
    let mut manager = ProgramManager::new();
    assert_eq!(manager.new_temp(Type::Int), Ok(3000));
    assert_eq!(manager.new_temp(Type::Float), Ok(6000));
    assert_eq!(manager.new_temp(Type::Bool), Ok(8000));
    assert_eq!(manager.new_temp(Type::String), Err(AllocError::InvalidScope));
    assert_eq!(manager.new_temp(Type::Error), Err(AllocError::InvalidScope));
    manager.memory_stack.push(Memory::new());
    assert_eq!(manager.new_temp(Type::Int), Ok(3001));
    assert_eq!(manager.new_temp(Type::Float), Ok(6001));
    assert_eq!(manager.new_temp(Type::Bool), Ok(8001));
    manager.memory_stack.pop();
    assert_eq!(manager.value_table.get_int(3000, None), Ok(0));
    assert_eq!(manager.value_table.get_float(6000, None), Ok(0));
    assert_eq!(manager.value_table.get_bool(8000, None), Ok(false));
    assert_eq!(manager.value_table.get_int(3001, None), Err(MemoryError::OutOfRange));
    assert_eq!(manager.value_table.get_float(6001, None), Err(MemoryError::OutOfRange));
    assert_eq!(manager.value_table.get_bool(8001, None), Err(MemoryError::OutOfRange));
}

#[test]
fn emitting_returns_the_index_and_moves_the_pointer() {
    let mut manager = ProgramManager::new();
    assert_eq!(manager.create_quad(QuadOperator::Print, 9000, None, None), Ok(0));
    assert_eq!(manager.create_quad(QuadOperator::GoSub, 0, None, None), Ok(1));
    assert_eq!(manager.instruction_pointer, 2);
    let second = *manager.quadruplets.get(1).unwrap();
    assert_eq!(second, Quadruplet::new(15, 0, None, None));
    manager.instruction_pointer = i32::MAX;
    assert_eq!(
        manager.create_quad(QuadOperator::Print, 9000, None, None),
        Err(CompileError::ProgramTooLong)
    );
    assert_eq!(manager.quadruplets.len(), 2);
}

#[test]
fn a_declared_global_reads_back_its_value() {
    let mut table = ValueTable::new();
    let frame = Memory::new();
    for count in 0..5 {
        let number = table.insert_integer(10 + count, "global", None).unwrap();
        let ratio = table.insert_float(20 + count as u64, "global", Some(&frame)).unwrap();
        let fixed = table.insert_cte_int(30 + count).unwrap();
        let bits = table.insert_cte_float(40 + count as u64).unwrap();
        table.insert_integer(0, "temp", Some(&frame)).unwrap();
        table.insert_float(0, "local", None).unwrap();
        assert_eq!(table.get_int(number, None), Ok(10 + count));
        assert_eq!(table.get_int(number, Some(&frame)), Ok(10 + count));
        assert_eq!(table.get_float(ratio, None), Ok(20 + count as u64));
        assert_eq!(table.get_int(fixed, None), Ok(30 + count));
        assert_eq!(table.get_float(bits, None), Ok(40 + count as u64));
    }
    table.clear_local_vars();
    let number = table.insert_integer(99, "global", None).unwrap();
    assert_eq!(number, 1005);
    assert_eq!(table.get_int(number, None), Ok(99));
    let flag = table.insert_bool(true, None).unwrap();
    assert_eq!(table.get_bool(flag, None), Ok(true));
    let temp = table.insert_integer(7, "temp", None).unwrap();
    assert_eq!(table.get_int(temp, None), Ok(7));
}
