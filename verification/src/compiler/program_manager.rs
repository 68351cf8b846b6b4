use vstd::prelude::*;
use crate::compiler::address::{lemma_scope_names, locate, slot_of, var_type_of, Scope};
use crate::compiler::quadruplets::{
    convert_quad_op_to_code, operator_code, operator_of_code, quad_op_code, QuadOperator,
    Quadruplet, QuadrupletList,
};
use crate::compiler::semantic_cube::{CuboSemantico, Operator, Type};
use crate::compiler::semantic_tables::{
    function_position, lemma_function_position, FunctionInfo, FunctionParam, FunctionTable,
    VariableInfo, VariableTable, VarsAmount,
};
use crate::compiler::value_table::{
    frame_view, store, AllocError, Counters, Memory, MemoryError, MemoryView, Value, ValueTable,
    ValueTableView,
};
use crate::utils::stack::Stack;

verus! {

/// What went wrong while the machine ran.
#[derive(Debug, Clone, Copy, PartialEq, Eq, Structural)]
pub enum Fault {
    /// There is no quadruplet to run.
    EmptyProgram,
    /// The instruction pointer is negative, or so large that it cannot advance.
    BadPointer,
    /// The operator code is none that the machine executes.
    InvalidOperator,
    /// The quadruplet lacks an argument or a result that its operator needs.
    MissingOperand,
    /// The operands have types that the operator does not combine.
    TypeMismatch,
    /// An integer result does not exist: a division by zero, or a result
    /// outside the 64 bits of an integer.
    ArithmeticError,
    /// The value to print has a type that cannot be printed.
    UnsupportedPrintType,
    /// An operand could not be read or a result could not be written.
    Memory(MemoryError),
    /// No function has the number given.
    UnknownFunction,
    /// The function asks for a negative number of cells.
    FrameSize,
    /// A parameter or a call comes without a frame prepared for it.
    NoPendingFrame,
    /// A function ends that no call has entered.
    StackUnderflow,
    /// The calls are nested deeper than the machine can count.
    CallDepth,
    /// A result was handed in that the current quadruplet does not wait for.
    UnexpectedReply,
}

/// A fault, with the index of the quadruplet at which it came up.
#[derive(Debug, Clone, Copy, PartialEq, Eq, Structural)]
pub struct RuntimeError {
    pub index: i32,
    pub fault: Fault,
}

/// Why an operation of the code generator was refused.
#[derive(Debug, Clone, Copy, PartialEq, Eq, Structural)]
pub enum CompileError {
    /// The list holds as many quadruplets as an index can number.
    ProgramTooLong,
    /// No quadruplet has the index.
    NoSuchQuadruplet { index: i32 },
    /// The quadruplet at the index is no jump with a target to fill in.
    NotAJump { index: i32, operator: i32 },
    /// The functions are as many, or nested as deep, as can be numbered.
    TooManyFunctions,
    /// No function is being compiled, or the one that is has left the table.
    NoOpenFunction,
}

/// A value that a program prints.
#[derive(Debug, Clone, PartialEq, Eq)]
pub enum Output {
    Int(i64),
    /// A float, as the 64 bits of its encoding.
    Float(u64),
    Text(String),
}

/// An `Output`, with the text as a sequence of characters.
pub enum OutputView {
    Int(i64),
    Float(u64),
    Text(Seq<char>),
}

impl View for Output {
    type V = OutputView;

    open spec fn view(&self) -> OutputView {
        match *self {
            Output::Int(value) => OutputView::Int(value),
            Output::Float(bits) => OutputView::Float(bits),
            Output::Text(text) => OutputView::Text(text@),
        }
    }
}

/// A computation on floats that the machine leaves to its driver: the
/// operator and the two operands in their order. An integer operand is to be
/// converted to a float before the operator is applied. The machine stores
/// the result as it is handed in, so what a division of floats by zero gives
/// is what the driver's arithmetic gives.
#[derive(Debug, Clone, Copy, PartialEq, Eq, Structural)]
pub struct Request {
    pub operator: QuadOperator,
    pub left: Value,
    pub right: Value,
}

/// What the driver of the machine has to do after a step.
#[derive(Debug, Clone, PartialEq, Eq)]
pub enum Action {
    /// Nothing: the quadruplet was executed.
    Continue,
    /// Write the value to the output, followed by a line break: every value
    /// printed stands on a line of its own. The quadruplet was executed.
    Print(Output),
    /// Compute the request and hand the result in with `complete`. The
    /// quadruplet is still the current one.
    Compute(Request),
    /// Stop: the program has ended.
    Finished,
}

/// An `Action`, with a text to print as a sequence of characters.
pub enum ActionView {
    Continue,
    Print(OutputView),
    Compute(Request),
    Finished,
}

impl View for Action {
    type V = ActionView;

    open spec fn view(&self) -> ActionView {
        match *self {
            Action::Continue => ActionView::Continue,
            Action::Print(output) => ActionView::Print(output@),
            Action::Compute(request) => ActionView::Compute(request),
            Action::Finished => ActionView::Finished,
        }
    }
}

/// Whether `operator` takes two numbers and gives a number.
pub open spec fn is_arithmetic(operator: QuadOperator) -> bool {
    operator == QuadOperator::Add || operator == QuadOperator::Subtract || operator
        == QuadOperator::Multiply || operator == QuadOperator::Divide
}

/// Whether `operator` takes two numbers and gives a boolean.
pub open spec fn is_comparison(operator: QuadOperator) -> bool {
    operator == QuadOperator::GreaterThan || operator == QuadOperator::LessThan || operator
        == QuadOperator::NotEqual
}

/// The quotient of two integers, rounded towards zero.
pub open spec fn quotient(dividend: int, divisor: int) -> int
    recommends
        divisor != 0,
{
    if dividend >= 0 && divisor > 0 {
        dividend / divisor
    } else if dividend < 0 && divisor < 0 {
        (-dividend) / (-divisor)
    } else if dividend < 0 {
        -((-dividend) / divisor)
    } else {
        -(dividend / (-divisor))
    }
}

/// The exact result of an arithmetic operator on two integers; a division
/// by zero has none.
pub open spec fn exact_result(operator: QuadOperator, left: int, right: int) -> Option<int> {
    match operator {
        QuadOperator::Add => Some(left + right),
        QuadOperator::Subtract => Some(left - right),
        QuadOperator::Multiply => Some(left * right),
        QuadOperator::Divide => if right == 0 {
            None
        } else {
            Some(quotient(left, right))
        },
        _ => None,
    }
}

/// What an arithmetic operator or a comparison gives for two integers:
/// the exact result where it is an integer of 64 bits, the truth of the
/// comparison, and nothing else.
pub open spec fn integer_result(operator: QuadOperator, left: i64, right: i64) -> Option<Value> {
    match operator {
        QuadOperator::GreaterThan => Some(Value::Bool(left > right)),
        QuadOperator::LessThan => Some(Value::Bool(left < right)),
        QuadOperator::NotEqual => Some(Value::Bool(left != right)),
        _ => match exact_result(operator, left as int, right as int) {
            Some(exact) => if i64::MIN <= exact <= i64::MAX {
                Some(Value::Int(exact as i64))
            } else {
                None
            },
            None => None,
        },
    }
}

/// The value to store for a request once the driver has handed in `reply`:
/// a float for arithmetic, a boolean for a comparison.
pub open spec fn accepted_reply(operator: QuadOperator, reply: Value) -> Option<Value> {
    if is_arithmetic(operator) && reply is Float {
        Some(reply)
    } else if is_comparison(operator) && reply is Bool {
        Some(reply)
    } else {
        None
    }
}

/// The storage that one call of a function needs when the counters stand as
/// given at the end of its code.
pub open spec fn amounts(counters: Counters) -> VarsAmount {
    VarsAmount {
        local_ints: counters.int_local,
        temp_ints: counters.int_temp,
        local_floats: counters.float_local,
        temp_floats: counters.float_temp,
        temp_bools: counters.bool_temp,
    }
}

/// The state of a program manager: the machine's registers and storage, and
/// the work lists of the code generator.
pub struct MachineView {
    /// Index of the quadruplet to execute next; while code is generated, the
    /// number of quadruplets emitted.
    pub pointer: int,
    pub code: Seq<Quadruplet>,
    pub functions: Seq<FunctionInfo>,
    pub table: ValueTableView,
    /// The frames of the calls in progress, the innermost first.
    pub frames: Seq<MemoryView>,
    /// Where each call in progress returns to, the innermost first.
    pub returns: Seq<i32>,
    /// The frame of a call whose parameters are being bound.
    pub pending: Option<MemoryView>,
    pub operands: Seq<i32>,
    pub operators: Seq<Operator>,
    pub polish: Seq<String>,
    pub jumps: Seq<i32>,
    pub scopes: Seq<String>,
    pub cubo: CuboSemantico,
}

/// The result of one step: the state after it and what the driver is to
/// do, or the fault that kept the state as it was.
pub type Stepped = Result<(MachineView, ActionView), Fault>;

impl MachineView {
    /// The frame of the innermost call in progress.
    pub open spec fn frame(self) -> Option<MemoryView> {
        if self.frames.len() > 0 {
            Some(self.frames[0])
        } else {
            None
        }
    }

    /// `fault`, at the current quadruplet.
    pub open spec fn failed(self, fault: Fault) -> RuntimeError {
        RuntimeError { index: self.pointer as i32, fault }
    }

    /// The state with the pointer on the next quadruplet.
    pub open spec fn advanced(self) -> MachineView {
        MachineView { pointer: self.pointer + 1, ..self }
    }

    /// The state with the table and the innermost frame that a write left.
    pub open spec fn stored(self, left: (ValueTableView, Option<MemoryView>)) -> MachineView {
        MachineView {
            table: left.0,
            frames: match left.1 {
                Some(frame) => self.frames.update(0, frame),
                None => self.frames,
            },
            ..self
        }
    }

    /// The number at `address`, read as the type that the address has.
    pub open spec fn read_number(self, address: int) -> Result<Value, Fault> {
        match var_type_of(address) {
            Type::Int => match self.table.read_int(self.frame(), address) {
                Ok(value) => Ok(Value::Int(value)),
                Err(error) => Err(Fault::Memory(error)),
            },
            Type::Float => match self.table.read_float(self.frame(), address) {
                Ok(bits) => Ok(Value::Float(bits)),
                Err(error) => Err(Fault::Memory(error)),
            },
            _ => Err(Fault::TypeMismatch),
        }
    }

    /// The state after `value` is written to `address`, in the storage for
    /// values of its kind.
    pub open spec fn write_value(self, address: int, value: Value) -> Result<MachineView, Fault> {
        let left = match value {
            Value::Int(number) => self.table.write_int(self.frame(), address, number),
            Value::Float(bits) => self.table.write_float(self.frame(), address, bits),
            Value::Bool(truth) => self.table.write_bool(self.frame(), address, truth),
        };
        match left {
            Ok(pair) => Ok(self.stored(pair)),
            Err(error) => Err(Fault::Memory(error)),
        }
    }

    /// The two operands of a quadruplet with two arguments and a result, and
    /// the address of the result.
    pub open spec fn operands_of(self, quad: Quadruplet) -> Result<(Value, Value, i32), Fault> {
        match (quad.arg2, quad.result) {
            (Some(second), Some(target)) => match self.read_number(quad.arg1 as int) {
                Ok(left) => match self.read_number(second as int) {
                    Ok(right) => Ok((left, right, target)),
                    Err(fault) => Err(fault),
                },
                Err(fault) => Err(fault),
            },
            _ => Err(Fault::MissingOperand),
        }
    }

    /// Arithmetic and comparison. Two integers are combined at once and the
    /// result is stored. A pair with a float is handed to the driver as it
    /// was read, and the state stays as it is until the result comes in.
    pub open spec fn binary(self, operator: QuadOperator, quad: Quadruplet) -> Stepped {
        match self.operands_of(quad) {
            Err(fault) => Err(fault),
            Ok((left, right, target)) => match (left, right) {
                (Value::Int(a), Value::Int(b)) => match integer_result(operator, a, b) {
                    None => Err(Fault::ArithmeticError),
                    Some(value) => match self.write_value(target as int, value) {
                        Ok(after) => Ok((after.advanced(), ActionView::Continue)),
                        Err(fault) => Err(fault),
                    },
                },
                _ => Ok((self, ActionView::Compute(Request { operator, left, right }))),
            },
        }
    }

    /// The request that the current quadruplet waits for, and the address
    /// that its result goes to.
    pub open spec fn awaited(self) -> Option<(Request, i32)> {
        if 0 <= self.pointer < self.code.len() && self.pointer < i32::MAX {
            let quad = self.code[self.pointer];
            match operator_of_code(quad.operator as int) {
                Some(operator) => if is_arithmetic(operator) || is_comparison(operator) {
                    match self.operands_of(quad) {
                        Ok((left, right, target)) => if left is Int && right is Int {
                            None
                        } else {
                            Some((Request { operator, left, right }, target))
                        },
                        Err(_) => None,
                    }
                } else {
                    None
                },
                None => None,
            }
        } else {
            None
        }
    }

    /// Conditional jump: to the target where the guard is false, to the next
    /// quadruplet where it is true.
    pub open spec fn branch(self, quad: Quadruplet) -> Stepped {
        match self.table.read_bool(self.frame(), quad.arg1 as int) {
            Err(error) => Err(Fault::Memory(error)),
            Ok(guard) => if guard {
                Ok((self.advanced(), ActionView::Continue))
            } else {
                match quad.arg2 {
                    Some(target) => Ok(
                        (MachineView { pointer: target as int, ..self }, ActionView::Continue),
                    ),
                    None => Err(Fault::MissingOperand),
                }
            },
        }
    }

    /// Assignment of the second argument to the first: both integers, or
    /// both floats.
    pub open spec fn assign(self, quad: Quadruplet) -> Stepped {
        match quad.arg2 {
            None => Err(Fault::MissingOperand),
            Some(source) => {
                let target = quad.arg1 as int;
                if var_type_of(target) == var_type_of(source as int) {
                    match self.read_number(source as int) {
                        Err(fault) => Err(fault),
                        Ok(value) => match self.write_value(target, value) {
                            Ok(after) => Ok((after.advanced(), ActionView::Continue)),
                            Err(fault) => Err(fault),
                        },
                    }
                } else {
                    Err(Fault::TypeMismatch)
                }
            },
        }
    }

    /// Output of an integer, a float or a string constant.
    pub open spec fn print(self, quad: Quadruplet) -> Stepped {
        let address = quad.arg1 as int;
        match var_type_of(address) {
            Type::Int => match self.table.read_int(self.frame(), address) {
                Ok(value) => Ok((self.advanced(), ActionView::Print(OutputView::Int(value)))),
                Err(error) => Err(Fault::Memory(error)),
            },
            Type::Float => match self.table.read_float(self.frame(), address) {
                Ok(bits) => Ok((self.advanced(), ActionView::Print(OutputView::Float(bits)))),
                Err(error) => Err(Fault::Memory(error)),
            },
            Type::String => match self.table.read_string(address) {
                Ok(text) => Ok((self.advanced(), ActionView::Print(OutputView::Text(text)))),
                Err(error) => Err(Fault::Memory(error)),
            },
            _ => Err(Fault::UnsupportedPrintType),
        }
    }

    /// The function that a number names.
    pub open spec fn function(self, id: i32) -> Option<FunctionInfo> {
        if 0 <= id < self.functions.len() {
            Some(self.functions[id as int])
        } else {
            None
        }
    }

    /// Preparation of a call: a frame of the size that the function asks
    /// for, every cell zero or false, becomes the pending frame.
    pub open spec fn prepare(self, quad: Quadruplet) -> Stepped {
        match self.function(quad.arg1) {
            None => Err(Fault::UnknownFunction),
            Some(callee) => {
                let sizes = callee.vars_amount;
                if sizes.local_ints < 0 || sizes.temp_ints < 0 || sizes.local_floats < 0
                    || sizes.temp_floats < 0 || sizes.temp_bools < 0 {
                    Err(Fault::FrameSize)
                } else {
                    Ok(
                        (
                            MachineView {
                                pending: Some(
                                    MemoryView::zeroed(
                                        sizes.local_ints as int,
                                        sizes.temp_ints as int,
                                        sizes.local_floats as int,
                                        sizes.temp_floats as int,
                                        sizes.temp_bools as int,
                                    ),
                                ),
                                ..self
                            }.advanced(),
                            ActionView::Continue,
                        ),
                    )
                }
            },
        }
    }

    /// The pending frame after `value` is written to `target`, which has to
    /// be a local or a temporary of the callee.
    pub open spec fn bound(frame: MemoryView, target: int, value: Value) -> Result<
        MemoryView,
        MemoryError,
    > {
        match value {
            Value::Int(number) => match slot_of(Type::Int, target) {
                Some((Scope::Local, index)) => match store(frame.ints, index, number) {
                    Ok(ints) => Ok(MemoryView { ints, ..frame }),
                    Err(error) => Err(error),
                },
                Some((Scope::Temp, index)) => match store(frame.int_temps, index, number) {
                    Ok(int_temps) => Ok(MemoryView { int_temps, ..frame }),
                    Err(error) => Err(error),
                },
                _ => Err(MemoryError::WrongBand),
            },
            Value::Float(bits) => match slot_of(Type::Float, target) {
                Some((Scope::Local, index)) => match store(frame.floats, index, bits) {
                    Ok(floats) => Ok(MemoryView { floats, ..frame }),
                    Err(error) => Err(error),
                },
                Some((Scope::Temp, index)) => match store(frame.float_temps, index, bits) {
                    Ok(float_temps) => Ok(MemoryView { float_temps, ..frame }),
                    Err(error) => Err(error),
                },
                _ => Err(MemoryError::WrongBand),
            },
            Value::Bool(truth) => match slot_of(Type::Bool, target) {
                Some((Scope::Temp, index)) => match store(frame.bool_temps, index, truth) {
                    Ok(bool_temps) => Ok(MemoryView { bool_temps, ..frame }),
                    Err(error) => Err(error),
                },
                _ => Err(MemoryError::WrongBand),
            },
        }
    }

    /// Binding of a parameter: the value at the first argument, read in the
    /// caller, is written to the second argument in the pending frame. The
    /// type of the second argument says which kind of number is moved.
    pub open spec fn bind(self, quad: Quadruplet) -> Stepped {
        match quad.arg2 {
            None => Err(Fault::MissingOperand),
            Some(target) => match self.pending {
                None => Err(Fault::NoPendingFrame),
                Some(frame) => {
                    let read = match var_type_of(target as int) {
                        Type::Int => match self.table.read_int(self.frame(), quad.arg1 as int) {
                            Ok(value) => Ok(Value::Int(value)),
                            Err(error) => Err(Fault::Memory(error)),
                        },
                        Type::Float => match self.table.read_float(self.frame(), quad.arg1 as int) {
                            Ok(bits) => Ok(Value::Float(bits)),
                            Err(error) => Err(Fault::Memory(error)),
                        },
                        _ => Err(Fault::TypeMismatch),
                    };
                    match read {
                        Err(fault) => Err(fault),
                        Ok(value) => match Self::bound(frame, target as int, value) {
                            Ok(after) => Ok(
                                (
                                    MachineView { pending: Some(after), ..self }.advanced(),
                                    ActionView::Continue,
                                ),
                            ),
                            Err(error) => Err(Fault::Memory(error)),
                        },
                    }
                },
            },
        }
    }

    /// Call: the pending frame becomes the innermost frame, the index of the
    /// next quadruplet becomes the innermost return address, and the pointer
    /// goes to the first quadruplet of the function.
    pub open spec fn call(self, quad: Quadruplet) -> Stepped {
        match self.pending {
            None => Err(Fault::NoPendingFrame),
            Some(frame) => match self.function(quad.arg1) {
                None => Err(Fault::UnknownFunction),
                Some(callee) => if self.frames.len() >= usize::MAX || self.returns.len()
                    >= usize::MAX {
                    Err(Fault::CallDepth)
                } else {
                    Ok(
                        (
                            MachineView {
                                pointer: callee.start_address as int,
                                frames: seq![frame] + self.frames,
                                returns: seq![(self.pointer + 1) as i32] + self.returns,
                                pending: None,
                                ..self
                            },
                            ActionView::Continue,
                        ),
                    )
                },
            },
        }
    }

    /// Return: the innermost frame is dropped and the pointer goes to the
    /// innermost return address, which is dropped too.
    pub open spec fn leave(self) -> Stepped {
        if self.frames.len() == 0 || self.returns.len() == 0 {
            Err(Fault::StackUnderflow)
        } else {
            Ok(
                (
                    MachineView {
                        pointer: self.returns[0] as int,
                        frames: self.frames.skip(1),
                        returns: self.returns.skip(1),
                        ..self
                    },
                    ActionView::Continue,
                ),
            )
        }
    }

    /// What `operator` does with `quad` in this state.
    pub open spec fn execute(self, operator: QuadOperator, quad: Quadruplet) -> Stepped {
        match operator {
            QuadOperator::Goto => Ok(
                (MachineView { pointer: quad.arg1 as int, ..self }, ActionView::Continue),
            ),
            QuadOperator::GotoV => Err(Fault::InvalidOperator),
            QuadOperator::GotoF => self.branch(quad),
            QuadOperator::Assign => self.assign(quad),
            QuadOperator::Add => self.binary(operator, quad),
            QuadOperator::Subtract => self.binary(operator, quad),
            QuadOperator::Multiply => self.binary(operator, quad),
            QuadOperator::Divide => self.binary(operator, quad),
            QuadOperator::GreaterThan => self.binary(operator, quad),
            QuadOperator::LessThan => self.binary(operator, quad),
            QuadOperator::NotEqual => self.binary(operator, quad),
            QuadOperator::Print => self.print(quad),
            QuadOperator::Memory => self.prepare(quad),
            QuadOperator::Param => self.bind(quad),
            QuadOperator::GoSub => self.call(quad),
            QuadOperator::EndFunc => self.leave(),
            QuadOperator::EndProgram => Ok((self, ActionView::Finished)),
        }
    }

    /// One step of the machine. Past the last quadruplet, and at the
    /// quadruplet that ends the program, the machine has finished and stays
    /// as it is. A fault leaves the state as it is.
    pub open spec fn step(self) -> Result<(MachineView, ActionView), RuntimeError> {
        if self.pointer < 0 {
            Err(self.failed(Fault::BadPointer))
        } else if self.pointer >= self.code.len() {
            Ok((self, ActionView::Finished))
        } else if self.pointer >= i32::MAX {
            Err(self.failed(Fault::BadPointer))
        } else {
            let quad = self.code[self.pointer];
            match operator_of_code(quad.operator as int) {
                None => Err(self.failed(Fault::InvalidOperator)),
                Some(operator) => match self.execute(operator, quad) {
                    Ok(done) => Ok(done),
                    Err(fault) => Err(self.failed(fault)),
                },
            }
        }
    }

    /// The state after the result of the awaited request is handed in: the
    /// result is stored where the quadruplet says, and the pointer is on the
    /// next quadruplet. A result that is not awaited, or of the wrong kind,
    /// is a fault.
    pub open spec fn complete(self, reply: Value) -> Result<MachineView, RuntimeError> {
        match self.awaited() {
            None => Err(self.failed(Fault::UnexpectedReply)),
            Some((request, target)) => match accepted_reply(request.operator, reply) {
                None => Err(self.failed(Fault::UnexpectedReply)),
                Some(value) => match self.write_value(target as int, value) {
                    Ok(after) => Ok(after.advanced()),
                    Err(fault) => Err(self.failed(fault)),
                },
            },
        }
    }

    /// The state reached, and what stopped the machine, when it takes up to
    /// `fuel` steps and stops at the first that asks something of the driver,
    /// ends the program or fails.
    pub open spec fn run(self, fuel: nat) -> (MachineView, Result<ActionView, RuntimeError>)
        decreases fuel,
    {
        if fuel == 0 {
            (self, Ok(ActionView::Continue))
        } else {
            match self.step() {
                Ok((next, ActionView::Continue)) => next.run((fuel - 1) as nat),
                Ok((next, action)) => (next, Ok(action)),
                Err(error) => (self, Err(error)),
            }
        }
    }

    /// The state after `quad` is emitted: it is the last of the code, and
    /// the pointer has moved on by one.
    pub open spec fn emitted(self, quad: Quadruplet) -> Result<(MachineView, i32), CompileError> {
        if self.code.len() >= i32::MAX || self.pointer >= i32::MAX {
            Err(CompileError::ProgramTooLong)
        } else {
            Ok(
                (
                    MachineView { code: self.code.push(quad), pointer: self.pointer + 1, ..self },
                    self.code.len() as i32,
                ),
            )
        }
    }

    /// The quadruplet that a jump becomes when its target is filled in: an
    /// unconditional jump takes the target as its first argument, a jump on
    /// false as its second, and every other part stays as it was emitted. No
    /// other quadruplet has a target to fill in.
    pub open spec fn with_target(quad: Quadruplet, target: i32) -> Option<Quadruplet> {
        match operator_of_code(quad.operator as int) {
            Some(QuadOperator::Goto) => Some(Quadruplet { arg1: target, ..quad }),
            Some(QuadOperator::GotoF) => Some(Quadruplet { arg2: Some(target), ..quad }),
            _ => None,
        }
    }

    /// The state after the jump at `index` is given `target`.
    pub open spec fn patched(self, index: i32, target: i32) -> Result<MachineView, CompileError> {
        if 0 <= index < self.code.len() {
            match Self::with_target(self.code[index as int], target) {
                Some(quad) => Ok(
                    MachineView { code: self.code.update(index as int, quad), ..self },
                ),
                None => Err(
                    CompileError::NotAJump { index, operator: self.code[index as int].operator },
                ),
            }
        } else {
            Err(CompileError::NoSuchQuadruplet { index })
        }
    }

    /// The table after a temporary of `category` is given an address, zero
    /// or false; inside a function no storage is made for it.
    pub open spec fn with_temp(self, category: Type) -> ValueTableView {
        let framed = self.frames.len() > 0;
        match category {
            Type::Int => self.table.with_integer(0, Scope::Temp, framed),
            Type::Float => self.table.with_float(0, Scope::Temp, framed),
            Type::Bool => self.table.with_bool(false, framed),
            _ => self.table,
        }
    }

    /// Whether `after` is this state with a function called `name` opened at
    /// `position`: the function stands in the table under its name, with its
    /// parameters, no variables and no storage yet, and the next quadruplet
    /// as its first; its name is the innermost scope; an empty frame marks
    /// that code of a function is generated; the counters of the bands that
    /// belong to one call start from zero.
    pub open spec fn opened(
        self,
        after: MachineView,
        name: String,
        params: Vec<FunctionParam>,
        position: i32,
    ) -> bool {
        let info = after.functions[position as int];
        &&& position == match function_position(self.functions, name@) {
            Some(taken) => taken,
            None => self.functions.len() as int,
        }
        &&& after.functions == match function_position(self.functions, name@) {
            Some(taken) => self.functions.update(taken, info),
            None => self.functions.push(info),
        }
        &&& info.name == name
        &&& info.params == params
        &&& info.vars@ == Seq::<VariableInfo>::empty()
        &&& info.vars_amount == amounts(Counters::zero())
        &&& info.start_address == (if self.code.len() <= i32::MAX {
            self.code.len() as int
        } else {
            i32::MAX as int
        })
        &&& after == MachineView {
            functions: after.functions,
            scopes: seq![name] + self.scopes,
            frames: seq![MemoryView::empty()] + self.frames,
            table: ValueTableView { counters: self.table.counters.cleared(), ..self.table },
            ..self
        }
    }

    /// Whether one more function can be opened.
    pub open spec fn has_room(self) -> bool {
        self.functions.len() < i32::MAX && self.scopes.len() < usize::MAX && self.frames.len()
            < usize::MAX
    }

    /// The state after the innermost open function is closed: the table
    /// records the storage that one call of it needs, which is what the
    /// counters say; its scope and the marking frame are gone; the counters
    /// of the bands that belong to one call start from zero.
    pub open spec fn closed(self) -> Result<MachineView, CompileError> {
        if self.scopes.len() == 0 {
            Err(CompileError::NoOpenFunction)
        } else {
            match function_position(self.functions, self.scopes[0]@) {
                None => Err(CompileError::NoOpenFunction),
                Some(position) => Ok(
                    MachineView {
                        functions: self.functions.update(
                            position,
                            FunctionInfo {
                                vars_amount: amounts(self.table.counters),
                                ..self.functions[position]
                            },
                        ),
                        scopes: self.scopes.skip(1),
                        frames: if self.frames.len() > 0 {
                            self.frames.skip(1)
                        } else {
                            self.frames
                        },
                        table: ValueTableView {
                            counters: self.table.counters.cleared(),
                            ..self.table
                        },
                        ..self
                    },
                ),
            }
        }
    }

    /// Whether the counters of the allocator agree with the storage of the
    /// program, as far as they speak of it: of the temporaries they do only
    /// while no frame is stacked.
    pub open spec fn settled(self) -> bool {
        self.table.stored(self.frames.len() > 0)
    }

    /// Whether as many frames are stacked as return addresses.
    pub open spec fn balanced(self) -> bool {
        self.frames.len() == self.returns.len()
    }
}

/// The views of the frames of a stack, in the stack's order.
pub open spec fn frame_views(frames: Seq<Memory>) -> Seq<MemoryView> {
    frames.map_values(|frame: Memory| frame@)
}

/// The view of a frame that may be missing.
pub open spec fn pending_view(frame: Option<Memory>) -> Option<MemoryView> {
    match frame {
        Some(memory) => Some(memory@),
        None => None,
    }
}

/// Whether a step did what `expected` says: on success the state and the
/// action are the ones given there; on a fault the fault is the one given
/// there and the state is as before.
pub open spec fn delivered(
    expected: Stepped,
    got: Result<Action, Fault>,
    before: MachineView,
    after: MachineView,
) -> bool {
    match expected {
        Ok((state, action)) => got matches Ok(done) && done@ == action && after == state,
        Err(fault) => got matches Err(found) && found == fault && after == before,
    }
}

/// What an arithmetic operator or a comparison gives for two integers.
fn combine(operator: QuadOperator, left: i64, right: i64) -> (value: Option<Value>)
    ensures
        value == integer_result(operator, left, right),
{
    match operator {
        QuadOperator::Add => match left.checked_add(right) {
            Some(sum) => Some(Value::Int(sum)),
            None => None,
        },
        QuadOperator::Subtract => match left.checked_sub(right) {
            Some(difference) => Some(Value::Int(difference)),
            None => None,
        },
        QuadOperator::Multiply => match left.checked_mul(right) {
            Some(product) => Some(Value::Int(product)),
            None => None,
        },
        QuadOperator::Divide => match left.checked_div(right) {
            Some(ratio) => Some(Value::Int(ratio)),
            None => None,
        },
        QuadOperator::GreaterThan => Some(Value::Bool(left > right)),
        QuadOperator::LessThan => Some(Value::Bool(left < right)),
        QuadOperator::NotEqual => Some(Value::Bool(left != right)),
        _ => None,
    }
}

/// The code generator's work lists and the machine that runs what was
/// generated.
pub struct ProgramManager {
    pub cubo: CuboSemantico,
    pub tabla_funciones: FunctionTable,
    pub quadruplets: QuadrupletList,
    pub value_table: ValueTable,
    pub operand_stack: Vec<i32>,
    pub operator_stack: Vec<Operator>,
    pub polish_vector: Vec<String>,
    pub instruction_pointer: i32,
    pub jumps_stack: Vec<i32>,
    pub curr_function: Stack<String>,
    pub memory_stack: Stack<Memory>,
    pub position_before_fcall: Stack<i32>,
    pub upcoming_function: Option<Memory>,
}

impl View for ProgramManager {
    type V = MachineView;

    open spec fn view(&self) -> MachineView {
        MachineView {
            pointer: self.instruction_pointer as int,
            code: self.quadruplets@,
            functions: self.tabla_funciones@,
            table: self.value_table@,
            frames: frame_views(self.memory_stack@),
            returns: self.position_before_fcall@,
            pending: pending_view(self.upcoming_function),
            operands: self.operand_stack@,
            operators: self.operator_stack@,
            polish: self.polish_vector@,
            jumps: self.jumps_stack@,
            scopes: self.curr_function@,
            cubo: self.cubo,
        }
    }
}

impl ProgramManager {
    /// The frame of the innermost call in progress.
    fn frame(&self) -> (frame: Option<&Memory>)
        ensures
            frame_view(frame) == self@.frame(),
    {
        self.memory_stack.top()
    }

    /// The number at `address`, read as the type that the address has.
    fn read_number(&self, address: i32) -> (value: Result<Value, Fault>)
        ensures
            value == self@.read_number(address as int),
    {
        match self.value_table.get_var_type(address) {
            Type::Int => match self.value_table.get_int(address, self.frame()) {
                Ok(number) => Ok(Value::Int(number)),
                Err(error) => Err(Fault::Memory(error)),
            },
            Type::Float => match self.value_table.get_float(address, self.frame()) {
                Ok(bits) => Ok(Value::Float(bits)),
                Err(error) => Err(Fault::Memory(error)),
            },
            _ => Err(Fault::TypeMismatch),
        }
    }

    /// Writes `value` to `address`, in the storage for values of its kind.
    fn write_value(&mut self, address: i32, value: Value) -> (done: Result<(), Fault>)
        ensures
            match old(self)@.write_value(address as int, value) {
                Ok(after) => done is Ok && final(self)@ == after,
                Err(fault) => done == Err::<(), Fault>(fault) && final(self)@ == old(self)@,
            },
    {
        let written = match value {
            Value::Int(number) => self.value_table.set_int(
                address,
                number,
                self.memory_stack.top_mut(),
            ),
            Value::Float(bits) => self.value_table.set_float(
                address,
                bits,
                self.memory_stack.top_mut(),
            ),
            Value::Bool(truth) => self.value_table.set_bool(
                address,
                truth,
                self.memory_stack.top_mut(),
            ),
        };
        proof {
            let before = old(self).memory_stack@;
            let after = self.memory_stack@;
            if before.len() > 0 {
                assert(after =~= before.update(0, after[0]));
                assert(frame_views(after) =~= frame_views(before).update(0, after[0]@));
            } else {
                assert(after == before);
            }
            assert(self@.frames =~= match old(self)@.write_value(address as int, value) {
                Ok(state) => state.frames,
                Err(_) => old(self)@.frames,
            });
        }
        match written {
            Ok(()) => Ok(()),
            Err(error) => Err(Fault::Memory(error)),
        }
    }

    /// Puts the pointer on the next quadruplet.
    fn advance(&mut self)
        requires
            old(self).instruction_pointer < i32::MAX,
        ensures
            final(self)@ == old(self)@.advanced(),
    {
        self.instruction_pointer = self.instruction_pointer + 1;
    }

    /// Arithmetic and comparison.
    fn binary(&mut self, operator: QuadOperator, quad: Quadruplet) -> (done: Result<Action, Fault>)
        requires
            old(self).instruction_pointer < i32::MAX,
        ensures
            delivered(old(self)@.binary(operator, quad), done, old(self)@, final(self)@),
    {
        match (quad.arg2, quad.result) {
            (Some(second), Some(target)) => {
                let left = match self.read_number(quad.arg1) {
                    Ok(value) => value,
                    Err(fault) => {
                        return Err(fault);
                    },
                };
                let right = match self.read_number(second) {
                    Ok(value) => value,
                    Err(fault) => {
                        return Err(fault);
                    },
                };
                match (left, right) {
                    (Value::Int(a), Value::Int(b)) => match combine(operator, a, b) {
                        None => Err(Fault::ArithmeticError),
                        Some(value) => match self.write_value(target, value) {
                            Ok(()) => {
                                self.advance();
                                Ok(Action::Continue)
                            },
                            Err(fault) => Err(fault),
                        },
                    },
                    _ => Ok(Action::Compute(Request { operator, left, right })),
                }
            },
            _ => Err(Fault::MissingOperand),
        }
    }

    /// Conditional jump.
    fn branch(&mut self, quad: Quadruplet) -> (done: Result<Action, Fault>)
        requires
            old(self).instruction_pointer < i32::MAX,
        ensures
            delivered(old(self)@.branch(quad), done, old(self)@, final(self)@),
    {
        match self.value_table.get_bool(quad.arg1, self.frame()) {
            Err(error) => Err(Fault::Memory(error)),
            Ok(guard) => {
                if guard {
                    self.advance();
                    Ok(Action::Continue)
                } else {
                    match quad.arg2 {
                        Some(target) => {
                            self.instruction_pointer = target;
                            Ok(Action::Continue)
                        },
                        None => Err(Fault::MissingOperand),
                    }
                }
            },
        }
    }

    /// Assignment.
    fn assign(&mut self, quad: Quadruplet) -> (done: Result<Action, Fault>)
        requires
            old(self).instruction_pointer < i32::MAX,
        ensures
            delivered(old(self)@.assign(quad), done, old(self)@, final(self)@),
    {
        match quad.arg2 {
            None => Err(Fault::MissingOperand),
            Some(source) => {
                let wanted = self.value_table.get_var_type(quad.arg1);
                let found = self.value_table.get_var_type(source);
                if wanted == found {
                    match self.read_number(source) {
                        Err(fault) => Err(fault),
                        Ok(value) => match self.write_value(quad.arg1, value) {
                            Ok(()) => {
                                self.advance();
                                Ok(Action::Continue)
                            },
                            Err(fault) => Err(fault),
                        },
                    }
                } else {
                    Err(Fault::TypeMismatch)
                }
            },
        }
    }

    /// Output.
    fn print(&mut self, quad: Quadruplet) -> (done: Result<Action, Fault>)
        requires
            old(self).instruction_pointer < i32::MAX,
        ensures
            delivered(old(self)@.print(quad), done, old(self)@, final(self)@),
    {
        let output = match self.value_table.get_var_type(quad.arg1) {
            Type::Int => match self.value_table.get_int(quad.arg1, self.frame()) {
                Ok(value) => Output::Int(value),
                Err(error) => {
                    return Err(Fault::Memory(error));
                },
            },
            Type::Float => match self.value_table.get_float(quad.arg1, self.frame()) {
                Ok(bits) => Output::Float(bits),
                Err(error) => {
                    return Err(Fault::Memory(error));
                },
            },
            Type::String => match self.value_table.get_string(quad.arg1) {
                Ok(text) => Output::Text(text),
                Err(error) => {
                    return Err(Fault::Memory(error));
                },
            },
            _ => {
                return Err(Fault::UnsupportedPrintType);
            },
        };
        self.advance();
        Ok(Action::Print(output))
    }

    /// The function that a number names.
    fn function(&self, id: i32) -> (found: Option<&FunctionInfo>)
        ensures
            found == match self@.function(id) {
                Some(info) => Some(&info),
                None => None,
            },
    {
        if id < 0 {
            None
        } else {
            self.tabla_funciones.at(id as usize)
        }
    }

    /// Preparation of a call.
    fn prepare(&mut self, quad: Quadruplet) -> (done: Result<Action, Fault>)
        requires
            old(self).instruction_pointer < i32::MAX,
        ensures
            delivered(old(self)@.prepare(quad), done, old(self)@, final(self)@),
    {
        let sizes = match self.function(quad.arg1) {
            None => {
                return Err(Fault::UnknownFunction);
            },
            Some(callee) => callee.vars_amount,
        };
        if sizes.local_ints < 0 || sizes.temp_ints < 0 || sizes.local_floats < 0
            || sizes.temp_floats < 0 || sizes.temp_bools < 0 {
            Err(Fault::FrameSize)
        } else {
            let frame = Memory::zeroed(
                sizes.local_ints as usize,
                sizes.temp_ints as usize,
                sizes.local_floats as usize,
                sizes.temp_floats as usize,
                sizes.temp_bools as usize,
            );
            self.upcoming_function = Some(frame);
            self.advance();
            Ok(Action::Continue)
        }
    }

    /// Writes `value` to `target` in the pending frame.
    fn store_parameter(&mut self, target: i32, value: Value) -> (done: Result<(), MemoryError>)
        requires
            old(self).upcoming_function is Some,
        ensures
            match MachineView::bound(old(self)@.pending.unwrap(), target as int, value) {
                Ok(after) => done is Ok && final(self)@ == (MachineView {
                    pending: Some(after),
                    ..old(self)@
                }),
                Err(error) => done == Err::<(), MemoryError>(error) && final(self)@ == old(self)@,
            },
    {
        let category = match value {
            Value::Int(_) => Type::Int,
            Value::Float(_) => Type::Float,
            Value::Bool(_) => Type::Bool,
        };
        match locate(category, target) {
            Some((Scope::Local, _)) | Some((Scope::Temp, _)) => match value {
                Value::Int(number) => self.value_table.set_int(
                    target,
                    number,
                    self.upcoming_function.as_mut(),
                ),
                Value::Float(bits) => self.value_table.set_float(
                    target,
                    bits,
                    self.upcoming_function.as_mut(),
                ),
                Value::Bool(truth) => self.value_table.set_bool(
                    target,
                    truth,
                    self.upcoming_function.as_mut(),
                ),
            },
            _ => Err(MemoryError::WrongBand),
        }
    }

    /// Binding of a parameter.
    fn bind(&mut self, quad: Quadruplet) -> (done: Result<Action, Fault>)
        requires
            old(self).instruction_pointer < i32::MAX,
        ensures
            delivered(old(self)@.bind(quad), done, old(self)@, final(self)@),
    {
        let target = match quad.arg2 {
            None => {
                return Err(Fault::MissingOperand);
            },
            Some(target) => target,
        };
        if self.upcoming_function.is_none() {
            return Err(Fault::NoPendingFrame);
        }
        let value = match self.value_table.get_var_type(target) {
            Type::Int => match self.value_table.get_int(quad.arg1, self.frame()) {
                Ok(number) => Value::Int(number),
                Err(error) => {
                    return Err(Fault::Memory(error));
                },
            },
            Type::Float => match self.value_table.get_float(quad.arg1, self.frame()) {
                Ok(bits) => Value::Float(bits),
                Err(error) => {
                    return Err(Fault::Memory(error));
                },
            },
            _ => {
                return Err(Fault::TypeMismatch);
            },
        };
        match self.store_parameter(target, value) {
            Ok(()) => {
                self.advance();
                Ok(Action::Continue)
            },
            Err(error) => Err(Fault::Memory(error)),
        }
    }

    /// Call.
    fn call(&mut self, quad: Quadruplet) -> (done: Result<Action, Fault>)
        requires
            old(self).instruction_pointer < i32::MAX,
        ensures
            delivered(old(self)@.call(quad), done, old(self)@, final(self)@),
    {
        if self.upcoming_function.is_none() {
            return Err(Fault::NoPendingFrame);
        }
        let start = match self.function(quad.arg1) {
            None => {
                return Err(Fault::UnknownFunction);
            },
            Some(callee) => callee.start_address,
        };
        if self.memory_stack.size() >= usize::MAX || self.position_before_fcall.size()
            >= usize::MAX {
            return Err(Fault::CallDepth);
        }
        match self.upcoming_function.take() {
            Some(frame) => {
                self.memory_stack.push(frame);
                self.position_before_fcall.push(self.instruction_pointer + 1);
                self.instruction_pointer = start;
                proof {
                    assert(frame_views(self.memory_stack@) =~= seq![frame@] + frame_views(
                        old(self).memory_stack@,
                    ));
                }
                Ok(Action::Continue)
            },
            None => Err(Fault::NoPendingFrame),
        }
    }

    /// Return.
    fn leave(&mut self) -> (done: Result<Action, Fault>)
        ensures
            delivered(old(self)@.leave(), done, old(self)@, final(self)@),
    {
        if self.memory_stack.is_empty() || self.position_before_fcall.is_empty() {
            return Err(Fault::StackUnderflow);
        }
        let _ = self.memory_stack.pop();
        proof {
            assert(frame_views(self.memory_stack@) =~= frame_views(old(self).memory_stack@).skip(
                1,
            ));
        }
        match self.position_before_fcall.pop() {
            Some(back) => {
                self.instruction_pointer = back;
                Ok(Action::Continue)
            },
            None => Err(Fault::StackUnderflow),
        }
    }

    /// The request that the current quadruplet waits for, and the address
    /// that its result goes to.
    fn awaited(&self) -> (request: Option<(Request, i32)>)
        ensures
            request == self@.awaited(),
    {
        let index = self.instruction_pointer;
        if index < 0 || index == i32::MAX {
            return None;
        }
        let quad = match self.quadruplets.get(index) {
            None => {
                return None;
            },
            Some(quad) => *quad,
        };
        if quad.operator < 5 || quad.operator > 11 {
            return None;
        }
        let operator = convert_quad_op_to_code(quad.operator);
        match (quad.arg2, quad.result) {
            (Some(second), Some(target)) => {
                let left = match self.read_number(quad.arg1) {
                    Ok(value) => value,
                    Err(_) => {
                        return None;
                    },
                };
                let right = match self.read_number(second) {
                    Ok(value) => value,
                    Err(_) => {
                        return None;
                    },
                };
                match (left, right) {
                    (Value::Int(_), Value::Int(_)) => None,
                    _ => Some((Request { operator, left, right }, target)),
                }
            },
            _ => None,
        }
    }

    /// A manager with nothing compiled and nothing running.
    pub fn new() -> (manager: Self)
        ensures
            manager@ == (MachineView {
                pointer: 0,
                code: Seq::empty(),
                functions: Seq::empty(),
                table: ValueTableView::empty(),
                frames: Seq::empty(),
                returns: Seq::empty(),
                pending: None,
                operands: Seq::empty(),
                operators: Seq::empty(),
                polish: Seq::empty(),
                jumps: Seq::empty(),
                scopes: Seq::empty(),
                cubo: manager.cubo,
            }),
            manager@.settled(),
            manager@.table.stored(false),
            manager@.balanced(),
    {
        let manager = ProgramManager {
            cubo: CuboSemantico::new(),
            tabla_funciones: FunctionTable::new(),
            quadruplets: QuadrupletList::new(),
            value_table: ValueTable::new(),
            operand_stack: Vec::new(),
            operator_stack: Vec::new(),
            polish_vector: Vec::new(),
            instruction_pointer: 0,
            jumps_stack: Vec::new(),
            curr_function: Stack::new(),
            memory_stack: Stack::new(),
            position_before_fcall: Stack::new(),
            upcoming_function: None,
        };
        assert(frame_views(manager.memory_stack@) =~= Seq::empty());
        manager
    }

    /// Gives a temporary of type `var_type` its address. Inside a function,
    /// which is while a frame is stacked, the temporary gets no storage of
    /// the program's.
    pub fn new_temp(&mut self, var_type: Type) -> (result: Result<i32, AllocError>)
        ensures
            result == old(self)@.table.next_variable(var_type, Scope::Temp),
            final(self)@ == (if result is Ok {
                MachineView { table: old(self)@.with_temp(var_type), ..old(self)@ }
            } else {
                old(self)@
            }),
            old(self)@.settled() ==> final(self)@.settled(),
    {
        proof {
            lemma_scope_names();
        }
        match var_type {
            Type::Int => self.value_table.insert_integer(0, "temp", self.memory_stack.top()),
            Type::Float => self.value_table.insert_float(0, "temp", self.memory_stack.top()),
            Type::Bool => self.value_table.insert_bool(false, self.memory_stack.top()),
            _ => Err(AllocError::InvalidScope),
        }
    }

    /// Opens the scope of a function called `name`, whose code starts at
    /// the next quadruplet, and returns the number under which the machine
    /// calls it.
    pub fn open_function(&mut self, name: String, params: Vec<FunctionParam>) -> (id: Result<
        i32,
        CompileError,
    >)
        ensures
            match id {
                Ok(position) => old(self)@.has_room() && old(self)@.opened(
                    final(self)@,
                    name,
                    params,
                    position,
                ),
                Err(error) => error == CompileError::TooManyFunctions && !old(self)@.has_room()
                    && final(self)@ == old(self)@,
            },
            old(self)@.table.stored(true) && id is Ok ==> final(self)@.table.stored(false),
            old(self)@.settled() ==> final(self)@.settled(),
    {
        if self.tabla_funciones.len() >= 0x7fff_ffff || self.curr_function.size() >= usize::MAX
            || self.memory_stack.size() >= usize::MAX {
            return Err(CompileError::TooManyFunctions);
        }
        let info = FunctionInfo {
            name: name.clone(),
            params,
            vars: VariableTable::new(),
            vars_amount: VarsAmount {
                local_ints: 0,
                temp_ints: 0,
                local_floats: 0,
                temp_floats: 0,
                temp_bools: 0,
            },
            start_address: self.quadruplets.len(),
        };
        proof {
            lemma_function_position(self.tabla_funciones@, name@);
        }
        let position = self.tabla_funciones.insert(info);
        self.curr_function.push(name);
        self.memory_stack.push(Memory::new());
        self.value_table.clear_local_vars();
        proof {
            assert(frame_views(self.memory_stack@) =~= seq![MemoryView::empty()] + frame_views(
                old(self).memory_stack@,
            ));
        }
        Ok(position as i32)
    }

    /// Closes the scope of the function that was opened last.
    pub fn close_function(&mut self) -> (done: Result<(), CompileError>)
        ensures
            match old(self)@.closed() {
                Ok(state) => done is Ok && final(self)@ == state,
                Err(error) => done == Err::<(), CompileError>(error) && final(self)@ == old(self)@,
            },
            old(self)@.table.stored(true) && done is Ok ==> final(self)@.table.stored(false),
            old(self)@.settled() ==> final(self)@.settled(),
    {
        let position = match self.curr_function.top() {
            None => {
                return Err(CompileError::NoOpenFunction);
            },
            Some(name) => match self.tabla_funciones.find(name) {
                None => {
                    return Err(CompileError::NoOpenFunction);
                },
                Some(position) => position,
            },
        };
        let counters = self.value_table.counts();
        let needed = VarsAmount {
            local_ints: counters.int_local,
            temp_ints: counters.int_temp,
            local_floats: counters.float_local,
            temp_floats: counters.float_temp,
            temp_bools: counters.bool_temp,
        };
        let _ = self.tabla_funciones.set_vars_amount(position, needed);
        self.value_table.clear_local_vars();
        let _ = self.curr_function.pop();
        let _ = self.memory_stack.pop();
        proof {
            if old(self).memory_stack@.len() > 0 {
                assert(frame_views(self.memory_stack@) =~= frame_views(
                    old(self).memory_stack@,
                ).skip(1));
            }
        }
        Ok(())
    }

    /// The number under which the machine calls the function `name`.
    pub fn function_id(&self, name: &String) -> (id: Option<i32>)
        ensures
            id == match function_position(self@.functions, name@) {
                Some(position) => if position <= i32::MAX {
                    Some(position as i32)
                } else {
                    None
                },
                None => None,
            },
    {
        match self.tabla_funciones.find(name) {
            Some(position) => {
                if position <= 0x7fff_ffff {
                    Some(position as i32)
                } else {
                    None
                }
            },
            None => None,
        }
    }

    /// Emits a quadruplet and returns its index.
    pub fn create_quad(
        &mut self,
        operator: QuadOperator,
        arg1: i32,
        arg2: Option<i32>,
        result: Option<i32>,
    ) -> (index: Result<i32, CompileError>)
        ensures
            match old(self)@.emitted(
                Quadruplet { operator: operator_code(operator) as i32, arg1, arg2, result },
            ) {
                Ok((state, at)) => index == Ok::<i32, CompileError>(at) && final(self)@ == state,
                Err(error) => index == Err::<i32, CompileError>(error) && final(self)@ == old(
                    self,
                )@,
            },
    {
        let at = self.quadruplets.len();
        if at == i32::MAX || self.instruction_pointer == i32::MAX {
            return Err(CompileError::ProgramTooLong);
        }
        let op_code = quad_op_code(operator);
        let quad = Quadruplet::new(op_code, arg1, arg2, result);
        self.quadruplets.push(quad);
        self.instruction_pointer = self.instruction_pointer + 1;
        Ok(at)
    }

    /// Fills in the target of the jump at `index`; nothing else changes, in
    /// that quadruplet or in any other.
    pub fn fill_quad(&mut self, index: i32, result: i32) -> (done: Result<(), CompileError>)
        ensures
            match old(self)@.patched(index, result) {
                Ok(state) => done is Ok && final(self)@ == state,
                Err(error) => done == Err::<(), CompileError>(error) && final(self)@ == old(self)@,
            },
    {
        let quad = match self.quadruplets.get(index) {
            Some(quad) => *quad,
            None => {
                return Err(CompileError::NoSuchQuadruplet { index });
            },
        };
        if quad.operator == 1 {
            self.quadruplets.set(
                index,
                Quadruplet::new(quad.operator, result, quad.arg2, quad.result),
            );
            Ok(())
        } else if quad.operator == 3 {
            self.quadruplets.set(
                index,
                Quadruplet::new(quad.operator, quad.arg1, Some(result), quad.result),
            );
            Ok(())
        } else {
            Err(CompileError::NotAJump { index, operator: quad.operator })
        }
    }

    /// Executes the current quadruplet.
    pub fn step(&mut self) -> (done: Result<Action, RuntimeError>)
        ensures
            match old(self)@.step() {
                Ok((state, action)) => done matches Ok(taken) && taken@ == action && final(self)@
                    == state,
                Err(error) => done matches Err(found) && found == error && final(self)@ == old(
                    self,
                )@,
            },
    {
        let index = self.instruction_pointer;
        if index < 0 {
            return Err(RuntimeError { index, fault: Fault::BadPointer });
        }
        let quad = match self.quadruplets.get(index) {
            None => {
                return Ok(Action::Finished);
            },
            Some(quad) => *quad,
        };
        if index == i32::MAX {
            return Err(RuntimeError { index, fault: Fault::BadPointer });
        }
        if quad.operator < 1 || quad.operator > 17 {
            return Err(RuntimeError { index, fault: Fault::InvalidOperator });
        }
        let done = match convert_quad_op_to_code(quad.operator) {
            QuadOperator::Goto => {
                self.instruction_pointer = quad.arg1;
                Ok(Action::Continue)
            },
            QuadOperator::GotoV => Err(Fault::InvalidOperator),
            QuadOperator::GotoF => self.branch(quad),
            QuadOperator::Assign => self.assign(quad),
            QuadOperator::Add => self.binary(QuadOperator::Add, quad),
            QuadOperator::Subtract => self.binary(QuadOperator::Subtract, quad),
            QuadOperator::Multiply => self.binary(QuadOperator::Multiply, quad),
            QuadOperator::Divide => self.binary(QuadOperator::Divide, quad),
            QuadOperator::GreaterThan => self.binary(QuadOperator::GreaterThan, quad),
            QuadOperator::LessThan => self.binary(QuadOperator::LessThan, quad),
            QuadOperator::NotEqual => self.binary(QuadOperator::NotEqual, quad),
            QuadOperator::Print => self.print(quad),
            QuadOperator::Memory => self.prepare(quad),
            QuadOperator::Param => self.bind(quad),
            QuadOperator::GoSub => self.call(quad),
            QuadOperator::EndFunc => self.leave(),
            QuadOperator::EndProgram => Ok(Action::Finished),
        };
        match done {
            Ok(action) => Ok(action),
            Err(fault) => Err(RuntimeError { index, fault }),
        }
    }

    /// Hands in the result of the computation that the current quadruplet
    /// waits for: the bits of a float for arithmetic, a boolean for a
    /// comparison.
    pub fn complete(&mut self, reply: Value) -> (done: Result<(), RuntimeError>)
        ensures
            match old(self)@.complete(reply) {
                Ok(state) => done is Ok && final(self)@ == state,
                Err(error) => done == Err::<(), RuntimeError>(error) && final(self)@ == old(
                    self,
                )@,
            },
    {
        let index = self.instruction_pointer;
        let (request, target) = match self.awaited() {
            None => {
                return Err(RuntimeError { index, fault: Fault::UnexpectedReply });
            },
            Some(pair) => pair,
        };
        let arithmetic = match request.operator {
            QuadOperator::Add => true,
            QuadOperator::Subtract => true,
            QuadOperator::Multiply => true,
            QuadOperator::Divide => true,
            _ => false,
        };
        let fits = match reply {
            Value::Float(_) => arithmetic,
            Value::Bool(_) => !arithmetic,
            Value::Int(_) => false,
        };
        if !fits {
            return Err(RuntimeError { index, fault: Fault::UnexpectedReply });
        }
        match self.write_value(target, reply) {
            Ok(()) => {
                self.advance();
                Ok(())
            },
            Err(fault) => Err(RuntimeError { index, fault }),
        }
    }

    /// Takes up to `max_steps` steps, and stops early at the first step that
    /// asks something of the driver, ends the program or fails.
    pub fn resume(&mut self, max_steps: usize) -> (done: Result<Action, RuntimeError>)
        ensures
            final(self)@ == old(self)@.run(max_steps as nat).0,
            match old(self)@.run(max_steps as nat).1 {
                Ok(action) => done matches Ok(taken) && taken@ == action,
                Err(error) => done matches Err(found) && found == error,
            },
    {
        let mut left = max_steps;
        while left > 0
            invariant
                old(self)@.run(max_steps as nat) == self@.run(left as nat),
            decreases left,
        {
            match self.step() {
                Ok(Action::Continue) => {
                    left = left - 1;
                },
                Ok(action) => {
                    return Ok(action);
                },
                Err(error) => {
                    return Err(error);
                },
            }
        }
        Ok(Action::Continue)
    }

    /// Runs the program from its first quadruplet, as `resume` does. A
    /// program without quadruplets cannot be run.
    pub fn run_program(&mut self, max_steps: usize) -> (done: Result<Action, RuntimeError>)
        ensures
            old(self)@.code.len() == 0 ==> final(self)@ == old(self)@ && (done matches Err(found)
                && found == (RuntimeError { index: 0, fault: Fault::EmptyProgram })),
            old(self)@.code.len() > 0 ==> {
                let start = MachineView { pointer: 0, ..old(self)@ };
                &&& final(self)@ == start.run(max_steps as nat).0
                &&& match start.run(max_steps as nat).1 {
                    Ok(action) => done matches Ok(taken) && taken@ == action,
                    Err(error) => done matches Err(found) && found == error,
                }
            },
    {
        if self.quadruplets.len() == 0 {
            return Err(RuntimeError { index: 0, fault: Fault::EmptyProgram });
        }
        self.instruction_pointer = 0;
        self.resume(max_steps)
    }
}

} // verus!
