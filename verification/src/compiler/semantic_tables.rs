use vstd::prelude::*;

verus! {

/// The value that a variable was declared with. A float is held as the 64
/// bits of its encoding.
#[derive(Debug, Clone, Copy, PartialEq, Eq, Structural)]
pub enum VarValue {
    Int(i64),
    Float(u64),
    Bool(bool),
}

/// The type that a variable or a parameter was declared with.
#[derive(Debug, Clone, Copy, PartialEq, Eq, Structural)]
pub enum VarType {
    Int,
    Float,
}

/// A declared variable.
#[derive(Debug, Clone, PartialEq, Eq)]
pub struct VariableInfo {
    pub name: String,
    pub value: VarValue,
    pub var_type: VarType,
    pub address: i32,
}

/// A parameter of a function.
#[derive(Debug, Clone, PartialEq, Eq)]
pub struct FunctionParam {
    pub var_type: VarType,
    pub name: String,
}

/// How many cells of each kind one call of a function needs.
#[derive(Debug, Clone, Copy, PartialEq, Eq, Structural)]
pub struct VarsAmount {
    pub local_ints: i32,
    pub temp_ints: i32,
    pub local_floats: i32,
    pub temp_floats: i32,
    pub temp_bools: i32,
}

/// A function: its name, its parameters in order, its own variables, the
/// storage one call needs, and the index of its first quadruplet.
#[derive(Debug, Clone, PartialEq, Eq)]
pub struct FunctionInfo {
    pub name: String,
    pub params: Vec<FunctionParam>,
    pub vars: VariableTable,
    pub vars_amount: VarsAmount,
    pub start_address: i32,
}

/// The position of the first variable called `name`, if there is one.
pub open spec fn variable_position(entries: Seq<VariableInfo>, name: Seq<char>) -> Option<int>
    decreases entries.len(),
{
    if entries.len() == 0 {
        None
    } else if entries[0].name@ == name {
        Some(0)
    } else {
        match variable_position(entries.skip(1), name) {
            Some(position) => Some(position + 1),
            None => None,
        }
    }
}

/// The position of the first function called `name`, if there is one.
pub open spec fn function_position(entries: Seq<FunctionInfo>, name: Seq<char>) -> Option<int>
    decreases entries.len(),
{
    if entries.len() == 0 {
        None
    } else if entries[0].name@ == name {
        Some(0)
    } else {
        match function_position(entries.skip(1), name) {
            Some(position) => Some(position + 1),
            None => None,
        }
    }
}

/// Whether no two variables have the same name.
pub open spec fn variable_names_differ(entries: Seq<VariableInfo>) -> bool {
    forall|i: int, j: int|
        0 <= i < j < entries.len() ==> (#[trigger] entries[i]).name@ != (
        #[trigger] entries[j]).name@
}

/// Whether no two functions have the same name.
pub open spec fn function_names_differ(entries: Seq<FunctionInfo>) -> bool {
    forall|i: int, j: int|
        0 <= i < j < entries.len() ==> (#[trigger] entries[i]).name@ != (
        #[trigger] entries[j]).name@
}

/// A position found is that of the first entry with the name; where none is
/// found, no entry has the name.
pub proof fn lemma_variable_position(entries: Seq<VariableInfo>, name: Seq<char>)
    ensures
        match variable_position(entries, name) {
            Some(position) => 0 <= position < entries.len() && entries[position].name@ == name
                && forall|i: int| 0 <= i < position ==> entries[i].name@ != name,
            None => forall|i: int| 0 <= i < entries.len() ==> entries[i].name@ != name,
        },
    decreases entries.len(),
{
    if entries.len() > 0 && entries[0].name@ != name {
        let rest = entries.skip(1);
        lemma_variable_position(rest, name);
        match variable_position(rest, name) {
            Some(position) => {
                assert forall|i: int| 0 <= i < position + 1 implies entries[i].name@ != name by {
                    if i > 0 {
                        assert(entries[i] == rest[i - 1]);
                    }
                }
            },
            None => {
                assert forall|i: int| 0 <= i < entries.len() implies entries[i].name@ != name by {
                    if i > 0 {
                        assert(entries[i] == rest[i - 1]);
                    }
                }
            },
        }
    }
}

/// A position found is that of the first entry with the name; where none is
/// found, no entry has the name.
pub proof fn lemma_function_position(entries: Seq<FunctionInfo>, name: Seq<char>)
    ensures
        match function_position(entries, name) {
            Some(position) => 0 <= position < entries.len() && entries[position].name@ == name
                && forall|i: int| 0 <= i < position ==> entries[i].name@ != name,
            None => forall|i: int| 0 <= i < entries.len() ==> entries[i].name@ != name,
        },
    decreases entries.len(),
{
    if entries.len() > 0 && entries[0].name@ != name {
        let rest = entries.skip(1);
        lemma_function_position(rest, name);
        match function_position(rest, name) {
            Some(position) => {
                assert forall|i: int| 0 <= i < position + 1 implies entries[i].name@ != name by {
                    if i > 0 {
                        assert(entries[i] == rest[i - 1]);
                    }
                }
            },
            None => {
                assert forall|i: int| 0 <= i < entries.len() implies entries[i].name@ != name by {
                    if i > 0 {
                        assert(entries[i] == rest[i - 1]);
                    }
                }
            },
        }
    }
}

/// The variables of one scope, found by name. A name occurs once: inserting
/// a variable under a name that is taken replaces the earlier one.
#[derive(Debug, Clone, PartialEq, Eq)]
pub struct VariableTable {
    entries: Vec<VariableInfo>,
}

impl View for VariableTable {
    type V = Seq<VariableInfo>;

    closed spec fn view(&self) -> Seq<VariableInfo> {
        self.entries@
    }
}

impl VariableTable {
    /// A table without variables.
    pub fn new() -> (table: Self)
        ensures
            table@ == Seq::<VariableInfo>::empty(),
    {
        VariableTable { entries: Vec::new() }
    }

    /// The number of variables.
    pub fn len(&self) -> (len: usize)
        ensures
            len == self@.len(),
    {
        self.entries.len()
    }

    /// The position of the variable called `name`.
    pub fn find(&self, name: &String) -> (found: Option<usize>)
        ensures
            found is Some <==> variable_position(self@, name@) is Some,
            found matches Some(position) ==> variable_position(self@, name@) == Some(
                position as int,
            ) && position < self@.len(),
    {
        let mut position: usize = 0;
        assert(self.entries@.skip(0) =~= self.entries@);
        while position < self.entries.len()
            invariant
                position <= self.entries@.len(),
                variable_position(self.entries@, name@) == match variable_position(
                    self.entries@.skip(position as int),
                    name@,
                ) {
                    Some(further) => Some(further + position),
                    None => None,
                },
            decreases self.entries@.len() - position,
        {
            let ghost rest = self.entries@.skip(position as int);
            assert(rest[0] == self.entries@[position as int]);
            assert(rest.skip(1) =~= self.entries@.skip(position + 1));
            if self.entries[position].name == *name {
                return Some(position);
            }
            position = position + 1;
        }
        None
    }

    /// The variable called `name`, if the table has one.
    pub fn get(&self, name: &String) -> (found: Option<&VariableInfo>)
        ensures
            found == match variable_position(self@, name@) {
                Some(position) => Some(&self@[position]),
                None => None,
            },
    {
        proof {
            lemma_variable_position(self@, name@);
        }
        match self.find(name) {
            Some(position) => Some(&self.entries[position]),
            None => None,
        }
    }

    /// Whether the table has a variable called `name`.
    pub fn contains_key(&self, name: &String) -> (found: bool)
        ensures
            found == variable_position(self@, name@) is Some,
    {
        self.find(name).is_some()
    }

    /// Enters `info` under its name, in place of the variable that had the
    /// name before or, where none had, after the others. Returns the position.
    pub fn insert(&mut self, info: VariableInfo) -> (position: usize)
        ensures
            final(self)@ == match variable_position(old(self)@, info.name@) {
                Some(taken) => old(self)@.update(taken, info),
                None => old(self)@.push(info),
            },
            position == match variable_position(old(self)@, info.name@) {
                Some(taken) => taken,
                None => old(self)@.len() as int,
            },
            variable_names_differ(old(self)@) ==> variable_names_differ(final(self)@),
    {
        proof {
            lemma_variable_position(self@, info.name@);
        }
        match self.find(&info.name) {
            Some(taken) => {
                self.entries[taken] = info;
                taken
            },
            None => {
                let position = self.entries.len();
                self.entries.push(info);
                position
            },
        }
    }
}

/// The functions of a program, found by name or by position. A name occurs
/// once: inserting a function under a name that is taken replaces the
/// earlier one and keeps its position.
#[derive(Debug, Clone, PartialEq, Eq)]
pub struct FunctionTable {
    entries: Vec<FunctionInfo>,
}

impl View for FunctionTable {
    type V = Seq<FunctionInfo>;

    closed spec fn view(&self) -> Seq<FunctionInfo> {
        self.entries@
    }
}

impl FunctionTable {
    /// A table without functions.
    pub fn new() -> (table: Self)
        ensures
            table@ == Seq::<FunctionInfo>::empty(),
    {
        FunctionTable { entries: Vec::new() }
    }

    /// The number of functions.
    pub fn len(&self) -> (len: usize)
        ensures
            len == self@.len(),
    {
        self.entries.len()
    }

    /// The position of the function called `name`.
    pub fn find(&self, name: &String) -> (found: Option<usize>)
        ensures
            found is Some <==> function_position(self@, name@) is Some,
            found matches Some(position) ==> function_position(self@, name@) == Some(
                position as int,
            ) && position < self@.len(),
    {
        let mut position: usize = 0;
        assert(self.entries@.skip(0) =~= self.entries@);
        while position < self.entries.len()
            invariant
                position <= self.entries@.len(),
                function_position(self.entries@, name@) == match function_position(
                    self.entries@.skip(position as int),
                    name@,
                ) {
                    Some(further) => Some(further + position),
                    None => None,
                },
            decreases self.entries@.len() - position,
        {
            let ghost rest = self.entries@.skip(position as int);
            assert(rest[0] == self.entries@[position as int]);
            assert(rest.skip(1) =~= self.entries@.skip(position + 1));
            if self.entries[position].name == *name {
                return Some(position);
            }
            position = position + 1;
        }
        None
    }

    /// The function called `name`, if the table has one.
    pub fn get(&self, name: &String) -> (found: Option<&FunctionInfo>)
        ensures
            found == match function_position(self@, name@) {
                Some(position) => Some(&self@[position]),
                None => None,
            },
    {
        proof {
            lemma_function_position(self@, name@);
        }
        match self.find(name) {
            Some(position) => Some(&self.entries[position]),
            None => None,
        }
    }

    /// The function at `position`, if the table has one there.
    pub fn at(&self, position: usize) -> (found: Option<&FunctionInfo>)
        ensures
            found == (if position < self@.len() {
                Some(&self@[position as int])
            } else {
                None
            }),
    {
        if position < self.entries.len() {
            Some(&self.entries[position])
        } else {
            None
        }
    }

    /// Records how much storage one call of the function at `position`
    /// needs. Returns whether the table has a function there.
    pub fn set_vars_amount(&mut self, position: usize, vars_amount: VarsAmount) -> (done: bool)
        ensures
            done == (position < old(self)@.len()),
            final(self)@ == (if done {
                old(self)@.update(
                    position as int,
                    FunctionInfo { vars_amount, ..old(self)@[position as int] },
                )
            } else {
                old(self)@
            }),
    {
        if position < self.entries.len() {
            self.entries[position].vars_amount = vars_amount;
            assert(self.entries@ =~= old(self)@.update(
                position as int,
                FunctionInfo { vars_amount, ..old(self)@[position as int] },
            ));
            true
        } else {
            false
        }
    }

    /// Whether the table has a function called `name`.
    pub fn contains_key(&self, name: &String) -> (found: bool)
        ensures
            found == function_position(self@, name@) is Some,
    {
        self.find(name).is_some()
    }

    /// Enters `info` under its name, in place of the function that had the
    /// name before or, where none had, after the others. Returns the position.
    pub fn insert(&mut self, info: FunctionInfo) -> (position: usize)
        ensures
            final(self)@ == match function_position(old(self)@, info.name@) {
                Some(taken) => old(self)@.update(taken, info),
                None => old(self)@.push(info),
            },
            position == match function_position(old(self)@, info.name@) {
                Some(taken) => taken,
                None => old(self)@.len() as int,
            },
            function_names_differ(old(self)@) ==> function_names_differ(final(self)@),
    {
        proof {
            lemma_function_position(self@, info.name@);
        }
        match self.find(&info.name) {
            Some(taken) => {
                self.entries[taken] = info;
                taken
            },
            None => {
                let position = self.entries.len();
                self.entries.push(info);
                position
            },
        }
    }
}

} // verus!
