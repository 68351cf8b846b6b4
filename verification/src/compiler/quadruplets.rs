use vstd::prelude::*;
use vstd::string::StringExecFns;
use crate::compiler::semantic_cube::Operator;
use crate::utils::queue::Queue;
use crate::utils::text::{append_decimal, append_digits, append_padded, decimal, digits, padded};

verus! {

/// One instruction of the intermediate code: an operator code, a first
/// argument, and a second argument and a result where the operator has them.
#[derive(Debug, Clone, Copy, PartialEq, Eq, Structural)]
pub struct Quadruplet {
    pub operator: i32,
    pub arg1: i32,
    pub arg2: Option<i32>,
    pub result: Option<i32>,
}

/// The operators of the intermediate code.
#[derive(Debug, Clone, Copy, PartialEq, Eq, Structural)]
pub enum QuadOperator {
    Goto,
    GotoV,
    GotoF,
    Assign,
    Add,
    Subtract,
    Multiply,
    Divide,
    GreaterThan,
    LessThan,
    NotEqual,
    Print,
    Memory,
    GoSub,
    Param,
    EndFunc,
    EndProgram,
}

/// The code under which an operator is written into a quadruplet.
pub open spec fn operator_code(operator: QuadOperator) -> int {
    match operator {
        QuadOperator::Goto => 1,
        QuadOperator::GotoV => 2,
        QuadOperator::GotoF => 3,
        QuadOperator::Assign => 4,
        QuadOperator::Add => 5,
        QuadOperator::Subtract => 6,
        QuadOperator::Multiply => 7,
        QuadOperator::Divide => 8,
        QuadOperator::GreaterThan => 9,
        QuadOperator::LessThan => 10,
        QuadOperator::NotEqual => 11,
        QuadOperator::Print => 12,
        QuadOperator::Memory => 13,
        QuadOperator::Param => 14,
        QuadOperator::GoSub => 15,
        QuadOperator::EndFunc => 16,
        QuadOperator::EndProgram => 17,
    }
}

/// The operator that a code stands for; `None` for a number that is no code.
pub open spec fn operator_of_code(code: int) -> Option<QuadOperator> {
    if code == 1 {
        Some(QuadOperator::Goto)
    } else if code == 2 {
        Some(QuadOperator::GotoV)
    } else if code == 3 {
        Some(QuadOperator::GotoF)
    } else if code == 4 {
        Some(QuadOperator::Assign)
    } else if code == 5 {
        Some(QuadOperator::Add)
    } else if code == 6 {
        Some(QuadOperator::Subtract)
    } else if code == 7 {
        Some(QuadOperator::Multiply)
    } else if code == 8 {
        Some(QuadOperator::Divide)
    } else if code == 9 {
        Some(QuadOperator::GreaterThan)
    } else if code == 10 {
        Some(QuadOperator::LessThan)
    } else if code == 11 {
        Some(QuadOperator::NotEqual)
    } else if code == 12 {
        Some(QuadOperator::Print)
    } else if code == 13 {
        Some(QuadOperator::Memory)
    } else if code == 14 {
        Some(QuadOperator::Param)
    } else if code == 15 {
        Some(QuadOperator::GoSub)
    } else if code == 16 {
        Some(QuadOperator::EndFunc)
    } else if code == 17 {
        Some(QuadOperator::EndProgram)
    } else {
        None
    }
}

/// The intermediate operator that computes what a source operator means;
/// equality has none.
pub open spec fn quad_operator_of(op: Operator) -> Option<QuadOperator> {
    match op {
        Operator::Add => Some(QuadOperator::Add),
        Operator::Subtract => Some(QuadOperator::Subtract),
        Operator::Multiply => Some(QuadOperator::Multiply),
        Operator::Divide => Some(QuadOperator::Divide),
        Operator::GreaterThan => Some(QuadOperator::GreaterThan),
        Operator::LessThan => Some(QuadOperator::LessThan),
        Operator::NotEqual => Some(QuadOperator::NotEqual),
        Operator::Equal => None,
    }
}

/// Writing an operator as a code and reading the code back gives the
/// operator, and the codes are the numbers from 1 to 17.
pub proof fn lemma_operator_codes(operator: QuadOperator, code: int)
    ensures
        operator_of_code(operator_code(operator)) == Some(operator),
        1 <= operator_code(operator) <= 17,
        operator_of_code(code) is Some <==> 1 <= code <= 17,
        operator_of_code(code) matches Some(found) ==> operator_code(found) == code,
{
}

/// The name under which an operator code is listed.
pub open spec fn operator_name(code: int) -> Seq<char> {
    if code == 1 {
        "GOTO"@
    } else if code == 2 {
        "GOTOV"@
    } else if code == 3 {
        "GOTOF"@
    } else if code == 4 {
        "ASSIGN"@
    } else if code == 5 {
        "SUM"@
    } else if code == 6 {
        "MINUS"@
    } else if code == 7 {
        "TIMES"@
    } else if code == 8 {
        "DIV"@
    } else if code == 9 {
        "GT"@
    } else if code == 10 {
        "LT"@
    } else if code == 11 {
        "NE"@
    } else if code == 12 {
        "PRINT"@
    } else if code == 13 {
        "MEMORY"@
    } else if code == 14 {
        "PARAM"@
    } else if code == 15 {
        "GOSUB"@
    } else if code == 16 {
        "ENDFUNC"@
    } else if code == 17 {
        "ENDPROGRAM"@
    } else {
        "INVALID QUAD OP"@
    }
}

/// An argument that may be missing: its number, or an underscore.
pub open spec fn optional_text(value: Option<i32>) -> Seq<char> {
    match value {
        Some(number) => decimal(number as int),
        None => "_"@,
    }
}

/// The line that lists the quadruplet at `index`: the index, a space, and
/// the quadruplet.
pub open spec fn listing_line(index: int, quad: Quadruplet) -> Seq<char> {
    digits(index as nat) + " "@ + quad.text()
}

fn name_of_operator(code: i32) -> (name: &'static str)
    ensures
        name@ == operator_name(code as int),
{
    match code {
        1 => "GOTO",
        2 => "GOTOV",
        3 => "GOTOF",
        4 => "ASSIGN",
        5 => "SUM",
        6 => "MINUS",
        7 => "TIMES",
        8 => "DIV",
        9 => "GT",
        10 => "LT",
        11 => "NE",
        12 => "PRINT",
        13 => "MEMORY",
        14 => "PARAM",
        15 => "GOSUB",
        16 => "ENDFUNC",
        17 => "ENDPROGRAM",
        _ => "INVALID QUAD OP",
    }
}

fn text_of_optional(value: Option<i32>) -> (text: String)
    ensures
        text@ == optional_text(value),
{
    let mut text = String::new();
    match value {
        Some(number) => {
            append_decimal(&mut text, number as i64);
        },
        None => {
            text.append("_");
        },
    }
    assert(text@ =~= optional_text(value));
    text
}

impl Quadruplet {
    /// The quadruplet as it is listed: between brackets the name of the
    /// operator in six columns and the three other parts in five columns
    /// each, a space between one and the next.
    pub open spec fn text(self) -> Seq<char> {
        "("@ + padded(operator_name(self.operator as int), 6) + " "@ + padded(
            decimal(self.arg1 as int),
            5,
        ) + " "@ + padded(optional_text(self.arg2), 5) + " "@ + padded(
            optional_text(self.result),
            5,
        ) + ")"@
    }

    /// The quadruplet as it is listed.
    pub fn to_string(&self) -> (text: String)
        ensures
            text@ == self.text(),
    {
        let mut first = String::new();
        append_decimal(&mut first, self.arg1 as i64);
        assert(first@ =~= decimal(self.arg1 as int));
        let second = text_of_optional(self.arg2);
        let third = text_of_optional(self.result);
        let mut text = String::from_str("(");
        append_padded(&mut text, name_of_operator(self.operator), 6);
        text.append(" ");
        append_padded(&mut text, first.as_str(), 5);
        text.append(" ");
        append_padded(&mut text, second.as_str(), 5);
        text.append(" ");
        append_padded(&mut text, third.as_str(), 5);
        text.append(")");
        text
    }

    /// A quadruplet of the four parts given.
    pub fn new(operator: i32, arg1: i32, arg2: Option<i32>, result: Option<i32>) -> (quad: Self)
        ensures
            quad == (Quadruplet { operator, arg1, arg2, result }),
    {
        Quadruplet { operator, arg1, arg2, result }
    }
}

/// The intermediate code of a program, in the order in which it was emitted.
#[derive(Debug)]
pub struct QuadrupletList {
    quadruplets: Queue<Quadruplet>,
}

impl View for QuadrupletList {
    type V = Seq<Quadruplet>;

    closed spec fn view(&self) -> Seq<Quadruplet> {
        self.quadruplets@
    }
}

impl QuadrupletList {
    /// A list without quadruplets.
    pub fn new() -> (list: Self)
        ensures
            list@ == Seq::<Quadruplet>::empty(),
    {
        QuadrupletList { quadruplets: Queue::new() }
    }

    /// Appends `quadruplet`.
    pub fn push(&mut self, quadruplet: Quadruplet)
        ensures
            final(self)@ == old(self)@.push(quadruplet),
    {
        self.quadruplets.push(quadruplet);
    }

    /// Drops the first quadruplet, if there is one.
    pub fn pop(&mut self)
        ensures
            final(self)@ == (if old(self)@.len() > 0 {
                old(self)@.skip(1)
            } else {
                old(self)@
            }),
    {
        let _ = self.quadruplets.pop();
    }

    /// The number of quadruplets; `i32::MAX` where there are more than that.
    pub fn len(&self) -> (len: i32)
        ensures
            len == (if self@.len() <= i32::MAX {
                self@.len() as int
            } else {
                i32::MAX as int
            }),
    {
        let held = self.quadruplets.len();
        if held <= 0x7fff_ffff {
            held as i32
        } else {
            i32::MAX
        }
    }

    /// The quadruplet at `index`, if there is one.
    pub fn get(&self, index: i32) -> (quad: Option<&Quadruplet>)
        ensures
            quad == (if 0 <= index < self@.len() {
                Some(&self@[index as int])
            } else {
                None
            }),
    {
        if index < 0 {
            None
        } else {
            self.quadruplets.get(index as usize)
        }
    }

    /// The lines that list the code: for each quadruplet, in order, its
    /// index and its text.
    pub fn print_elements(&self) -> (lines: Vec<String>)
        ensures
            lines@.len() == self@.len(),
            forall|i: int|
                0 <= i < self@.len() ==> (#[trigger] lines@[i])@ == listing_line(i, self@[i]),
    {
        let mut lines: Vec<String> = Vec::new();
        let mut index: usize = 0;
        while index < self.quadruplets.len()
            invariant
                index <= self.quadruplets@.len(),
                lines@.len() == index,
                forall|i: int| 0 <= i < index ==> (#[trigger] lines@[i])@ == listing_line(
                    i,
                    self.quadruplets@[i],
                ),
            decreases self.quadruplets@.len() - index,
        {
            let mut line = String::new();
            append_digits(&mut line, index as u64);
            line.append(" ");
            match self.quadruplets.get(index) {
                Some(quad) => {
                    let text = quad.to_string();
                    line.append(text.as_str());
                },
                None => {},
            }
            assert(line@ =~= listing_line(index as int, self.quadruplets@[index as int]));
            lines.push(line);
            index = index + 1;
        }
        lines
    }

    /// Replaces the quadruplet at `index` by `value`.
    pub fn set(&mut self, index: i32, value: Quadruplet)
        requires
            0 <= index < old(self)@.len(),
        ensures
            final(self)@ == old(self)@.update(index as int, value),
    {
        self.quadruplets.set(index as usize, value);
    }
}

/// The intermediate operator for a source operator that has one.
pub fn convert_semantic_op_to_quad_op(op: Operator) -> (operator: QuadOperator)
    requires
        op != Operator::Equal,
    ensures
        quad_operator_of(op) == Some(operator),
{
    match op {
        Operator::Add => QuadOperator::Add,
        Operator::Subtract => QuadOperator::Subtract,
        Operator::Multiply => QuadOperator::Multiply,
        Operator::Divide => QuadOperator::Divide,
        Operator::GreaterThan => QuadOperator::GreaterThan,
        Operator::LessThan => QuadOperator::LessThan,
        _ => QuadOperator::NotEqual,
    }
}

/// The operator that the code `op` stands for.
pub fn convert_quad_op_to_code(op: i32) -> (operator: QuadOperator)
    requires
        1 <= op <= 17,
    ensures
        operator_of_code(op as int) == Some(operator),
        operator_code(operator) == op,
{
    match op {
        1 => QuadOperator::Goto,
        2 => QuadOperator::GotoV,
        3 => QuadOperator::GotoF,
        4 => QuadOperator::Assign,
        5 => QuadOperator::Add,
        6 => QuadOperator::Subtract,
        7 => QuadOperator::Multiply,
        8 => QuadOperator::Divide,
        9 => QuadOperator::GreaterThan,
        10 => QuadOperator::LessThan,
        11 => QuadOperator::NotEqual,
        12 => QuadOperator::Print,
        13 => QuadOperator::Memory,
        14 => QuadOperator::Param,
        15 => QuadOperator::GoSub,
        16 => QuadOperator::EndFunc,
        _ => QuadOperator::EndProgram,
    }
}

/// The code under which `operator` is written into a quadruplet.
pub fn quad_op_code(operator: QuadOperator) -> (code: i32)
    ensures
        code == operator_code(operator),
{
    match operator {
        QuadOperator::Goto => 1,
        QuadOperator::GotoV => 2,
        QuadOperator::GotoF => 3,
        QuadOperator::Assign => 4,
        QuadOperator::Add => 5,
        QuadOperator::Subtract => 6,
        QuadOperator::Multiply => 7,
        QuadOperator::Divide => 8,
        QuadOperator::GreaterThan => 9,
        QuadOperator::LessThan => 10,
        QuadOperator::NotEqual => 11,
        QuadOperator::Print => 12,
        QuadOperator::Memory => 13,
        QuadOperator::Param => 14,
        QuadOperator::GoSub => 15,
        QuadOperator::EndFunc => 16,
        QuadOperator::EndProgram => 17,
    }
}

} // verus!
