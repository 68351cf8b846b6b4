use std::collections::HashMap;
use vstd::prelude::*;

verus! {

broadcast use vstd::std_specs::hash::group_hash_axioms;

/// The type of an operand or of an expression's result.
#[derive(Debug, Clone, Copy, PartialEq, Eq, Hash, Structural)]
pub enum Type {
    Int,
    Float,
    Bool,
    String,
    Error,
}

/// A binary operator of the source language.
#[derive(Debug, Clone, Copy, PartialEq, Eq, Hash, Structural)]
pub enum Operator {
    Add,
    Subtract,
    Multiply,
    Divide,
    LessThan,
    GreaterThan,
    Equal,
    NotEqual,
}

/// Whether values of type `t` are numbers.
pub open spec fn is_numeric(t: Type) -> bool {
    t == Type::Int || t == Type::Float
}

/// Whether `op` computes a number from two numbers.
pub open spec fn is_arithmetic(op: Operator) -> bool {
    op == Operator::Add || op == Operator::Subtract || op == Operator::Multiply || op
        == Operator::Divide
}

/// The type of `left op right`. Two integers give an integer under an
/// arithmetic operator; an integer and a float, or two floats, give a float;
/// every comparison of two numbers gives a boolean. Anything else is an error.
pub open spec fn result_type(left: Type, op: Operator, right: Type) -> Type {
    if is_numeric(left) && is_numeric(right) {
        if is_arithmetic(op) {
            if left == Type::Int && right == Type::Int {
                Type::Int
            } else {
                Type::Float
            }
        } else {
            Type::Bool
        }
    } else {
        Type::Error
    }
}

/// The digit that stands for a type in a table key.
pub open spec fn type_digit(t: Type) -> int {
    match t {
        Type::Int => 0,
        Type::Float => 1,
        Type::Bool => 2,
        Type::String => 3,
        Type::Error => 4,
    }
}

/// The digit that stands for an operator in a table key.
pub open spec fn operator_digit(op: Operator) -> int {
    match op {
        Operator::Add => 0,
        Operator::Subtract => 1,
        Operator::Multiply => 2,
        Operator::Divide => 3,
        Operator::LessThan => 4,
        Operator::GreaterThan => 5,
        Operator::Equal => 6,
        Operator::NotEqual => 7,
    }
}

/// The table key of a triple: one decimal digit for each of its parts.
pub open spec fn triple_key(left: Type, op: Operator, right: Type) -> int {
    type_digit(left) * 100 + operator_digit(op) * 10 + type_digit(right)
}

/// What a table says of a triple: its entry, or an error where it has none.
pub open spec fn table_verdict(
    table: Map<u32, Type>,
    left: Type,
    op: Operator,
    right: Type,
) -> Type {
    let key = triple_key(left, op, right) as u32;
    if table.contains_key(key) {
        table[key]
    } else {
        Type::Error
    }
}

fn digit_of_type(t: Type) -> (digit: u32)
    ensures
        digit == type_digit(t),
{
    match t {
        Type::Int => 0,
        Type::Float => 1,
        Type::Bool => 2,
        Type::String => 3,
        Type::Error => 4,
    }
}

fn digit_of_operator(op: Operator) -> (digit: u32)
    ensures
        digit == operator_digit(op),
{
    match op {
        Operator::Add => 0,
        Operator::Subtract => 1,
        Operator::Multiply => 2,
        Operator::Divide => 3,
        Operator::LessThan => 4,
        Operator::GreaterThan => 5,
        Operator::Equal => 6,
        Operator::NotEqual => 7,
    }
}

fn key_of(left: Type, op: Operator, right: Type) -> (key: u32)
    ensures
        key == triple_key(left, op, right),
{
    digit_of_type(left) * 100 + digit_of_operator(op) * 10 + digit_of_type(right)
}

/// Records in `table` that `left op right` has type `result`.
fn record(table: &mut HashMap<u32, Type>, left: Type, op: Operator, right: Type, result: Type)
    ensures
        final(table)@ == old(table)@.insert(triple_key(left, op, right) as u32, result),
{
    table.insert(key_of(left, op, right), result);
}

/// The table of operand and result types, built once and then only read.
pub struct CuboSemantico {
    res_operaciones: HashMap<u32, Type>,
}

impl CuboSemantico {
    /// Every triple has in the table the type that the language gives it.
    #[verifier::type_invariant]
    spec fn complete(self) -> bool {
        forall|left: Type, op: Operator, right: Type|
            #[trigger] table_verdict(self.res_operaciones@, left, op, right) == result_type(
                left,
                op,
                right,
            )
    }

    /// What the table says of a triple.
    pub closed spec fn verdict(self, left: Type, op: Operator, right: Type) -> Type {
        table_verdict(self.res_operaciones@, left, op, right)
    }

    /// The table of the language.
    pub fn new() -> (cube: Self)
        ensures
            forall|left: Type, op: Operator, right: Type| #[trigger]
                cube.verdict(left, op, right) == result_type(left, op, right),
    {
        let mut res_operaciones: HashMap<u32, Type> = HashMap::new();

        // Two integers.
        record(&mut res_operaciones, Type::Int, Operator::Add, Type::Int, Type::Int);
        record(&mut res_operaciones, Type::Int, Operator::Subtract, Type::Int, Type::Int);
        record(&mut res_operaciones, Type::Int, Operator::Multiply, Type::Int, Type::Int);
        record(&mut res_operaciones, Type::Int, Operator::Divide, Type::Int, Type::Int);
        record(&mut res_operaciones, Type::Int, Operator::LessThan, Type::Int, Type::Bool);
        record(&mut res_operaciones, Type::Int, Operator::GreaterThan, Type::Int, Type::Bool);
        record(&mut res_operaciones, Type::Int, Operator::Equal, Type::Int, Type::Bool);
        record(&mut res_operaciones, Type::Int, Operator::NotEqual, Type::Int, Type::Bool);

        // Two floats.
        record(&mut res_operaciones, Type::Float, Operator::Add, Type::Float, Type::Float);
        record(&mut res_operaciones, Type::Float, Operator::Subtract, Type::Float, Type::Float);
        record(&mut res_operaciones, Type::Float, Operator::Multiply, Type::Float, Type::Float);
        record(&mut res_operaciones, Type::Float, Operator::Divide, Type::Float, Type::Float);
        record(&mut res_operaciones, Type::Float, Operator::LessThan, Type::Float, Type::Bool);
        record(&mut res_operaciones, Type::Float, Operator::GreaterThan, Type::Float, Type::Bool);
        record(&mut res_operaciones, Type::Float, Operator::Equal, Type::Float, Type::Bool);
        record(&mut res_operaciones, Type::Float, Operator::NotEqual, Type::Float, Type::Bool);

        // An integer and a float, in either order.
        record(&mut res_operaciones, Type::Int, Operator::Add, Type::Float, Type::Float);
        record(&mut res_operaciones, Type::Float, Operator::Add, Type::Int, Type::Float);

        record(&mut res_operaciones, Type::Int, Operator::Subtract, Type::Float, Type::Float);
        record(&mut res_operaciones, Type::Float, Operator::Subtract, Type::Int, Type::Float);

        record(&mut res_operaciones, Type::Int, Operator::Multiply, Type::Float, Type::Float);
        record(&mut res_operaciones, Type::Float, Operator::Multiply, Type::Int, Type::Float);

        record(&mut res_operaciones, Type::Int, Operator::Divide, Type::Float, Type::Float);
        record(&mut res_operaciones, Type::Float, Operator::Divide, Type::Int, Type::Float);

        record(&mut res_operaciones, Type::Int, Operator::LessThan, Type::Float, Type::Bool);
        record(&mut res_operaciones, Type::Float, Operator::LessThan, Type::Int, Type::Bool);

        record(&mut res_operaciones, Type::Int, Operator::GreaterThan, Type::Float, Type::Bool);
        record(&mut res_operaciones, Type::Float, Operator::GreaterThan, Type::Int, Type::Bool);

        record(&mut res_operaciones, Type::Int, Operator::Equal, Type::Float, Type::Bool);
        record(&mut res_operaciones, Type::Float, Operator::Equal, Type::Int, Type::Bool);

        record(&mut res_operaciones, Type::Int, Operator::NotEqual, Type::Float, Type::Bool);
        record(&mut res_operaciones, Type::Float, Operator::NotEqual, Type::Int, Type::Bool);

        // A boolean is no operand of arithmetic.
        record(&mut res_operaciones, Type::Bool, Operator::Add, Type::Int, Type::Error);
        record(&mut res_operaciones, Type::Bool, Operator::Multiply, Type::Int, Type::Error);
        record(&mut res_operaciones, Type::Bool, Operator::Subtract, Type::Int, Type::Error);
        record(&mut res_operaciones, Type::Bool, Operator::Divide, Type::Int, Type::Error);

        record(&mut res_operaciones, Type::Bool, Operator::Add, Type::Float, Type::Error);
        record(&mut res_operaciones, Type::Bool, Operator::Multiply, Type::Float, Type::Error);
        record(&mut res_operaciones, Type::Bool, Operator::Subtract, Type::Float, Type::Error);
        record(&mut res_operaciones, Type::Bool, Operator::Divide, Type::Float, Type::Error);

        record(&mut res_operaciones, Type::Int, Operator::Add, Type::Bool, Type::Error);
        record(&mut res_operaciones, Type::Int, Operator::Multiply, Type::Bool, Type::Error);
        record(&mut res_operaciones, Type::Int, Operator::Subtract, Type::Bool, Type::Error);
        record(&mut res_operaciones, Type::Int, Operator::Divide, Type::Bool, Type::Error);

        record(&mut res_operaciones, Type::Float, Operator::Add, Type::Bool, Type::Error);
        record(&mut res_operaciones, Type::Float, Operator::Multiply, Type::Bool, Type::Error);
        record(&mut res_operaciones, Type::Float, Operator::Subtract, Type::Bool, Type::Error);
        record(&mut res_operaciones, Type::Float, Operator::Divide, Type::Bool, Type::Error);

        Self { res_operaciones }
    }

    /// The type of `t1 op t2`, or `Type::Error` where the language has none.
    pub fn get_type(&self, t1: Type, op: Operator, t2: Type) -> (result: Type)
        ensures
            result == self.verdict(t1, op, t2),
            result == result_type(t1, op, t2),
    {
        proof {
            use_type_invariant(self);
            assert(table_verdict(self.res_operaciones@, t1, op, t2) == result_type(t1, op, t2));
        }
        let key = key_of(t1, op, t2);
        match self.res_operaciones.get(&key) {
            Some(t) => *t,
            None => Type::Error,
        }
    }
}

} // verus!
