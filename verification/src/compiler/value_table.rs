use vstd::prelude::*;
use crate::compiler::address::{
    band_claims, band_start, first_address, locate, scope_from_name, scope_named, slot_of,
    var_type_of, Scope, BAND_SIZE,
    START_BOOL_VALUES, START_CONST_FLOAT_VALUES, START_CONST_INT_VALUES, START_CONST_STRING_VALUES,
};
use crate::compiler::semantic_cube::Type;

pub use crate::compiler::address::{LOCAL_VALUES, START_FLOAT_VALUES, START_INT_VALUES};

verus! {

/// A value that the machine computes with. A float is held as the 64 bits of
/// its IEEE 754 encoding; the machine moves floats and never looks inside.
#[derive(Debug, Clone, Copy, PartialEq, Eq, Structural)]
pub enum Value {
    Int(i64),
    Float(u64),
    Bool(bool),
}

/// Why an address could not be read or written.
#[derive(Debug, Clone, Copy, PartialEq, Eq, Structural)]
pub enum MemoryError {
    /// The address lies in no band that holds values of the wanted type.
    WrongBand,
    /// The address lies in the right band, beyond the storage that exists.
    OutOfRange,
    /// The address is local to a call and no call is active.
    NoFrame,
    /// The address is that of a constant, and the access is a write.
    ReadOnly,
}

/// Why no address could be handed out.
#[derive(Debug, Clone, Copy, PartialEq, Eq, Structural)]
pub enum AllocError {
    /// Every address of the band is taken.
    BandFull,
    /// The scope asked for has no band for the type, or its name is none
    /// of a scope.
    InvalidScope,
}

/// The storage of one call, or of the program: integer and float variables
/// and temporaries, and boolean temporaries.
#[derive(Debug, Clone, PartialEq, Eq)]
pub struct Memory {
    pub ints: Vec<i64>,
    pub int_temps: Vec<i64>,
    pub floats: Vec<u64>,
    pub float_temps: Vec<u64>,
    pub bool_temps: Vec<bool>,
}

/// What a `Memory` holds, as sequences.
pub struct MemoryView {
    pub ints: Seq<i64>,
    pub int_temps: Seq<i64>,
    pub floats: Seq<u64>,
    pub float_temps: Seq<u64>,
    pub bool_temps: Seq<bool>,
}

impl View for Memory {
    type V = MemoryView;

    open spec fn view(&self) -> MemoryView {
        MemoryView {
            ints: self.ints@,
            int_temps: self.int_temps@,
            floats: self.floats@,
            float_temps: self.float_temps@,
            bool_temps: self.bool_temps@,
        }
    }
}

/// A sequence of `len` copies of `value`.
pub open spec fn filled<T>(len: int, value: T) -> Seq<T> {
    Seq::new(len as nat, |i: int| value)
}

impl MemoryView {
    /// Storage without any cell.
    pub open spec fn empty() -> MemoryView {
        MemoryView {
            ints: Seq::empty(),
            int_temps: Seq::empty(),
            floats: Seq::empty(),
            float_temps: Seq::empty(),
            bool_temps: Seq::empty(),
        }
    }

    /// Storage of the given sizes in which every number is zero and every
    /// boolean false.
    pub open spec fn zeroed(
        ints: int,
        int_temps: int,
        floats: int,
        float_temps: int,
        bool_temps: int,
    ) -> MemoryView {
        MemoryView {
            ints: filled(ints, 0i64),
            int_temps: filled(int_temps, 0i64),
            floats: filled(floats, 0u64),
            float_temps: filled(float_temps, 0u64),
            bool_temps: filled(bool_temps, false),
        }
    }
}

/// `len` copies of `value`.
fn repeated<T: Copy>(value: T, len: usize) -> (cells: Vec<T>)
    ensures
        cells@ == filled(len as int, value),
{
    let mut cells: Vec<T> = Vec::new();
    let mut done: usize = 0;
    while done < len
        invariant
            done <= len,
            cells@ =~= filled(done as int, value),
        decreases len - done,
    {
        cells.push(value);
        done = done + 1;
    }
    cells
}

impl Memory {
    /// Storage without any cell.
    pub fn new() -> (memory: Self)
        ensures
            memory@ == MemoryView::empty(),
    {
        Memory {
            ints: Vec::new(),
            int_temps: Vec::new(),
            floats: Vec::new(),
            float_temps: Vec::new(),
            bool_temps: Vec::new(),
        }
    }

    /// Storage of the given sizes, every number zero and every boolean false.
    pub fn zeroed(
        ints: usize,
        int_temps: usize,
        floats: usize,
        float_temps: usize,
        bool_temps: usize,
    ) -> (memory: Self)
        ensures
            memory@ == MemoryView::zeroed(
                ints as int,
                int_temps as int,
                floats as int,
                float_temps as int,
                bool_temps as int,
            ),
    {
        Memory {
            ints: repeated(0i64, ints),
            int_temps: repeated(0i64, int_temps),
            floats: repeated(0u64, floats),
            float_temps: repeated(0u64, float_temps),
            bool_temps: repeated(false, bool_temps),
        }
    }
}

/// The view of the frame that an access goes through, if it goes through one.
pub open spec fn frame_view(memory: Option<&Memory>) -> Option<MemoryView> {
    match memory {
        Some(frame) => Some(frame@),
        None => None,
    }
}

/// The cell at `index`, where the sequence has one.
pub open spec fn fetch<T>(cells: Seq<T>, index: int) -> Result<T, MemoryError> {
    if 0 <= index < cells.len() {
        Ok(cells[index])
    } else {
        Err(MemoryError::OutOfRange)
    }
}

/// The sequence with `value` at `index`, where it has such a cell.
pub open spec fn store<T>(cells: Seq<T>, index: int, value: T) -> Result<Seq<T>, MemoryError> {
    if 0 <= index < cells.len() {
        Ok(cells.update(index, value))
    } else {
        Err(MemoryError::OutOfRange)
    }
}

fn fetch_cell<T: Copy>(cells: &Vec<T>, index: usize) -> (cell: Result<T, MemoryError>)
    ensures
        cell == fetch(cells@, index as int),
{
    if index < cells.len() {
        Ok(cells[index])
    } else {
        Err(MemoryError::OutOfRange)
    }
}

fn store_cell<T>(cells: &mut Vec<T>, index: usize, value: T) -> (done: Result<(), MemoryError>)
    ensures
        match store(old(cells)@, index as int, value) {
            Ok(after) => done is Ok && final(cells)@ == after,
            Err(error) => done == Err::<(), MemoryError>(error) && final(cells)@ == old(cells)@,
        },
{
    if index < cells.len() {
        cells[index] = value;
        Ok(())
    } else {
        Err(MemoryError::OutOfRange)
    }
}

/// How many addresses have been handed out in each band of variables since
/// the band was last cleared.
#[derive(Debug, Clone, Copy, PartialEq, Eq, Structural)]
pub struct Counters {
    pub int_global: i32,
    pub int_local: i32,
    pub int_temp: i32,
    pub float_global: i32,
    pub float_local: i32,
    pub float_temp: i32,
    pub bool_temp: i32,
}

impl Counters {
    /// The counter of a band of variables; `None` for a pair without one.
    pub open spec fn count(self, category: Type, scope: Scope) -> Option<i32> {
        match (category, scope) {
            (Type::Int, Scope::Global) => Some(self.int_global),
            (Type::Int, Scope::Local) => Some(self.int_local),
            (Type::Int, Scope::Temp) => Some(self.int_temp),
            (Type::Float, Scope::Global) => Some(self.float_global),
            (Type::Float, Scope::Local) => Some(self.float_local),
            (Type::Float, Scope::Temp) => Some(self.float_temp),
            (Type::Bool, Scope::Temp) => Some(self.bool_temp),
            _ => None,
        }
    }

    /// The counters with the one of a band set to `value`.
    pub open spec fn with_count(self, category: Type, scope: Scope, value: i32) -> Counters {
        match (category, scope) {
            (Type::Int, Scope::Global) => Counters { int_global: value, ..self },
            (Type::Int, Scope::Local) => Counters { int_local: value, ..self },
            (Type::Int, Scope::Temp) => Counters { int_temp: value, ..self },
            (Type::Float, Scope::Global) => Counters { float_global: value, ..self },
            (Type::Float, Scope::Local) => Counters { float_local: value, ..self },
            (Type::Float, Scope::Temp) => Counters { float_temp: value, ..self },
            (Type::Bool, Scope::Temp) => Counters { bool_temp: value, ..self },
            _ => self,
        }
    }

    /// The counters when nothing has been handed out.
    pub open spec fn zero() -> Counters {
        Counters {
            int_global: 0,
            int_local: 0,
            int_temp: 0,
            float_global: 0,
            float_local: 0,
            float_temp: 0,
            bool_temp: 0,
        }
    }

    /// The counters after the bands that belong to one call are cleared.
    pub open spec fn cleared(self) -> Counters {
        Counters {
            int_global: self.int_global,
            float_global: self.float_global,
            ..Counters::zero()
        }
    }

    fn get(&self, category: Type, scope: Scope) -> (counter: Option<i32>)
        ensures
            counter == self.count(category, scope),
    {
        match (category, scope) {
            (Type::Int, Scope::Global) => Some(self.int_global),
            (Type::Int, Scope::Local) => Some(self.int_local),
            (Type::Int, Scope::Temp) => Some(self.int_temp),
            (Type::Float, Scope::Global) => Some(self.float_global),
            (Type::Float, Scope::Local) => Some(self.float_local),
            (Type::Float, Scope::Temp) => Some(self.float_temp),
            (Type::Bool, Scope::Temp) => Some(self.bool_temp),
            _ => None,
        }
    }

    fn set(&mut self, category: Type, scope: Scope, value: i32)
        ensures
            *final(self) == old(self).with_count(category, scope, value),
    {
        match (category, scope) {
            (Type::Int, Scope::Global) => {
                self.int_global = value;
            },
            (Type::Int, Scope::Local) => {
                self.int_local = value;
            },
            (Type::Int, Scope::Temp) => {
                self.int_temp = value;
            },
            (Type::Float, Scope::Global) => {
                self.float_global = value;
            },
            (Type::Float, Scope::Local) => {
                self.float_local = value;
            },
            (Type::Float, Scope::Temp) => {
                self.float_temp = value;
            },
            (Type::Bool, Scope::Temp) => {
                self.bool_temp = value;
            },
            _ => {},
        }
    }
}

/// What a `ValueTable` holds: the counters, the storage of the program and
/// the three pools of constants.
pub struct ValueTableView {
    pub counters: Counters,
    pub globals: MemoryView,
    pub const_ints: Seq<i64>,
    pub const_floats: Seq<u64>,
    pub const_strings: Seq<Seq<char>>,
}

impl ValueTableView {
    /// The table that has handed out nothing and stores nothing.
    pub open spec fn empty() -> ValueTableView {
        ValueTableView {
            counters: Counters::zero(),
            globals: MemoryView::empty(),
            const_ints: Seq::empty(),
            const_floats: Seq::empty(),
            const_strings: Seq::empty(),
        }
    }

    /// The address that the next variable of a band gets: the band's first
    /// address plus the number handed out so far, while the band has room.
    pub open spec fn next_variable(self, category: Type, scope: Scope) -> Result<i32, AllocError> {
        match self.counters.count(category, scope) {
            None => Err(AllocError::InvalidScope),
            Some(used) => if 0 <= used < BAND_SIZE {
                Ok((band_start(category, scope).unwrap() + used) as i32)
            } else {
                Err(AllocError::BandFull)
            },
        }
    }

    /// The address that the next variable of `category` gets in the scope
    /// called `name`; a name that stands for no scope gets none.
    pub open spec fn next_named(self, category: Type, name: Seq<char>) -> Result<i32, AllocError> {
        match scope_named(name) {
            Some(scope) => self.next_variable(category, scope),
            None => Err(AllocError::InvalidScope),
        }
    }

    /// The counters after one more address of a band is handed out.
    pub open spec fn counted(self, category: Type, scope: Scope) -> Counters {
        match self.counters.count(category, scope) {
            Some(used) => self.counters.with_count(category, scope, (used + 1) as i32),
            None => self.counters,
        }
    }

    /// The table after an integer variable is given an address. A global gets
    /// a cell with `value` at once, and so does a temporary of the program
    /// itself (`framed` false); storage of a call is made when the call is.
    pub open spec fn with_integer(self, value: i64, scope: Scope, framed: bool) -> ValueTableView {
        let globals = match scope {
            Scope::Global => MemoryView { ints: self.globals.ints.push(value), ..self.globals },
            Scope::Temp => if framed {
                self.globals
            } else {
                MemoryView { int_temps: self.globals.int_temps.push(value), ..self.globals }
            },
            _ => self.globals,
        };
        ValueTableView { counters: self.counted(Type::Int, scope), globals, ..self }
    }

    /// The table after a float variable is given an address; as for integers.
    pub open spec fn with_float(self, value: u64, scope: Scope, framed: bool) -> ValueTableView {
        let globals = match scope {
            Scope::Global => MemoryView { floats: self.globals.floats.push(value), ..self.globals },
            Scope::Temp => if framed {
                self.globals
            } else {
                MemoryView { float_temps: self.globals.float_temps.push(value), ..self.globals }
            },
            _ => self.globals,
        };
        ValueTableView { counters: self.counted(Type::Float, scope), globals, ..self }
    }

    /// The table after a boolean temporary is given an address.
    pub open spec fn with_bool(self, value: bool, framed: bool) -> ValueTableView {
        let globals = if framed {
            self.globals
        } else {
            MemoryView { bool_temps: self.globals.bool_temps.push(value), ..self.globals }
        };
        ValueTableView { counters: self.counted(Type::Bool, Scope::Temp), globals, ..self }
    }

    /// Whether the program's storage has a cell for every global that was
    /// given an address, and no other cell for a global.
    pub open spec fn globals_stored(self) -> bool {
        &&& self.counters.int_global == self.globals.ints.len()
        &&& self.counters.float_global == self.globals.floats.len()
    }

    /// Whether the program's storage has a cell for every temporary that the
    /// counters count. More cells may be there: clearing the counters keeps
    /// the storage.
    pub open spec fn temporaries_stored(self) -> bool {
        &&& self.counters.int_temp <= self.globals.int_temps.len()
        &&& self.counters.float_temp <= self.globals.float_temps.len()
        &&& self.counters.bool_temp <= self.globals.bool_temps.len()
    }

    /// Whether the counters agree with the storage of the program: the
    /// globals are stored, and so are the temporaries unless the code of a
    /// function is being generated (`framed`), whose temporaries are counted
    /// here and stored in the frames of its calls.
    pub open spec fn stored(self, framed: bool) -> bool {
        self.globals_stored() && (framed || self.temporaries_stored())
    }

    /// The address that the next constant of a pool of `held` constants gets.
    pub open spec fn next_constant(category: Type, held: nat) -> Result<i32, AllocError> {
        if held < BAND_SIZE {
            Ok((band_start(category, Scope::Constant).unwrap() + held) as i32)
        } else {
            Err(AllocError::BandFull)
        }
    }

    /// The integer at `address`, as seen from inside `frame` (or from the
    /// program itself, where there is no frame): a global comes from the
    /// program's storage, a local from the frame, a temporary from the frame
    /// if there is one and from the program's storage if not, a constant from
    /// the pool.
    pub open spec fn read_int(self, frame: Option<MemoryView>, address: int) -> Result<
        i64,
        MemoryError,
    > {
        match slot_of(Type::Int, address) {
            None => Err(MemoryError::WrongBand),
            Some((scope, index)) => match scope {
                Scope::Global => fetch(self.globals.ints, index),
                Scope::Local => match frame {
                    Some(own) => fetch(own.ints, index),
                    None => Err(MemoryError::NoFrame),
                },
                Scope::Temp => match frame {
                    Some(own) => fetch(own.int_temps, index),
                    None => fetch(self.globals.int_temps, index),
                },
                Scope::Constant => fetch(self.const_ints, index),
            },
        }
    }

    /// The float at `address`; the places are those of `read_int`.
    pub open spec fn read_float(self, frame: Option<MemoryView>, address: int) -> Result<
        u64,
        MemoryError,
    > {
        match slot_of(Type::Float, address) {
            None => Err(MemoryError::WrongBand),
            Some((scope, index)) => match scope {
                Scope::Global => fetch(self.globals.floats, index),
                Scope::Local => match frame {
                    Some(own) => fetch(own.floats, index),
                    None => Err(MemoryError::NoFrame),
                },
                Scope::Temp => match frame {
                    Some(own) => fetch(own.float_temps, index),
                    None => fetch(self.globals.float_temps, index),
                },
                Scope::Constant => fetch(self.const_floats, index),
            },
        }
    }

    /// The boolean at `address`: a temporary of the frame if there is one, of
    /// the program if not.
    pub open spec fn read_bool(self, frame: Option<MemoryView>, address: int) -> Result<
        bool,
        MemoryError,
    > {
        match slot_of(Type::Bool, address) {
            Some((Scope::Temp, index)) => match frame {
                Some(own) => fetch(own.bool_temps, index),
                None => fetch(self.globals.bool_temps, index),
            },
            _ => Err(MemoryError::WrongBand),
        }
    }

    /// The string constant at `address`.
    pub open spec fn read_string(self, address: int) -> Result<Seq<char>, MemoryError> {
        match slot_of(Type::String, address) {
            Some((Scope::Constant, index)) => fetch(self.const_strings, index),
            _ => Err(MemoryError::WrongBand),
        }
    }

    /// The table and the frame after `value` is written to the integer at
    /// `address`; the places are those of `read_int`, and a constant is never
    /// written.
    pub open spec fn write_int(self, frame: Option<MemoryView>, address: int, value: i64) -> Result<
        (ValueTableView, Option<MemoryView>),
        MemoryError,
    > {
        match slot_of(Type::Int, address) {
            None => Err(MemoryError::WrongBand),
            Some((scope, index)) => match scope {
                Scope::Global => match store(self.globals.ints, index, value) {
                    Ok(ints) => Ok(
                        (
                            ValueTableView {
                                globals: MemoryView { ints, ..self.globals },
                                ..self
                            },
                            frame,
                        ),
                    ),
                    Err(error) => Err(error),
                },
                Scope::Local => match frame {
                    Some(own) => match store(own.ints, index, value) {
                        Ok(ints) => Ok((self, Some(MemoryView { ints, ..own }))),
                        Err(error) => Err(error),
                    },
                    None => Err(MemoryError::NoFrame),
                },
                Scope::Temp => match frame {
                    Some(own) => match store(own.int_temps, index, value) {
                        Ok(int_temps) => Ok((self, Some(MemoryView { int_temps, ..own }))),
                        Err(error) => Err(error),
                    },
                    None => match store(self.globals.int_temps, index, value) {
                        Ok(int_temps) => Ok(
                            (
                                ValueTableView {
                                    globals: MemoryView { int_temps, ..self.globals },
                                    ..self
                                },
                                frame,
                            ),
                        ),
                        Err(error) => Err(error),
                    },
                },
                Scope::Constant => Err(MemoryError::ReadOnly),
            },
        }
    }

    /// The table and the frame after `value` is written to the float at
    /// `address`; as for integers.
    pub open spec fn write_float(
        self,
        frame: Option<MemoryView>,
        address: int,
        value: u64,
    ) -> Result<(ValueTableView, Option<MemoryView>), MemoryError> {
        match slot_of(Type::Float, address) {
            None => Err(MemoryError::WrongBand),
            Some((scope, index)) => match scope {
                Scope::Global => match store(self.globals.floats, index, value) {
                    Ok(floats) => Ok(
                        (
                            ValueTableView {
                                globals: MemoryView { floats, ..self.globals },
                                ..self
                            },
                            frame,
                        ),
                    ),
                    Err(error) => Err(error),
                },
                Scope::Local => match frame {
                    Some(own) => match store(own.floats, index, value) {
                        Ok(floats) => Ok((self, Some(MemoryView { floats, ..own }))),
                        Err(error) => Err(error),
                    },
                    None => Err(MemoryError::NoFrame),
                },
                Scope::Temp => match frame {
                    Some(own) => match store(own.float_temps, index, value) {
                        Ok(float_temps) => Ok((self, Some(MemoryView { float_temps, ..own }))),
                        Err(error) => Err(error),
                    },
                    None => match store(self.globals.float_temps, index, value) {
                        Ok(float_temps) => Ok(
                            (
                                ValueTableView {
                                    globals: MemoryView { float_temps, ..self.globals },
                                    ..self
                                },
                                frame,
                            ),
                        ),
                        Err(error) => Err(error),
                    },
                },
                Scope::Constant => Err(MemoryError::ReadOnly),
            },
        }
    }

    /// The table and the frame after `value` is written to the boolean at
    /// `address`.
    pub open spec fn write_bool(
        self,
        frame: Option<MemoryView>,
        address: int,
        value: bool,
    ) -> Result<(ValueTableView, Option<MemoryView>), MemoryError> {
        match slot_of(Type::Bool, address) {
            Some((Scope::Temp, index)) => match frame {
                Some(own) => match store(own.bool_temps, index, value) {
                    Ok(bool_temps) => Ok((self, Some(MemoryView { bool_temps, ..own }))),
                    Err(error) => Err(error),
                },
                None => match store(self.globals.bool_temps, index, value) {
                    Ok(bool_temps) => Ok(
                        (
                            ValueTableView {
                                globals: MemoryView { bool_temps, ..self.globals },
                                ..self
                            },
                            frame,
                        ),
                    ),
                    Err(error) => Err(error),
                },
            },
            _ => Err(MemoryError::WrongBand),
        }
    }
}

/// An integer that was written is the integer read at the same address, and
/// the integers at all other addresses read as before.
pub proof fn lemma_int_write_then_read(
    table: ValueTableView,
    frame: Option<MemoryView>,
    address: int,
    value: i64,
    other: int,
)
    requires
        table.write_int(frame, address, value) is Ok,
    ensures
        ({
            let (after, inside) = table.write_int(frame, address, value).unwrap();
            &&& after.read_int(inside, address) == Ok::<i64, MemoryError>(value)
            &&& other != address ==> after.read_int(inside, other) == table.read_int(frame, other)
            &&& after.read_float(inside, other) == table.read_float(frame, other)
            &&& after.read_bool(inside, other) == table.read_bool(frame, other)
            &&& after.read_string(other) == table.read_string(other)
            &&& inside is Some <==> frame is Some
        }),
{
}

/// A float that was written is the float read at the same address, and the
/// floats at all other addresses read as before.
pub proof fn lemma_float_write_then_read(
    table: ValueTableView,
    frame: Option<MemoryView>,
    address: int,
    value: u64,
    other: int,
)
    requires
        table.write_float(frame, address, value) is Ok,
    ensures
        ({
            let (after, inside) = table.write_float(frame, address, value).unwrap();
            &&& after.read_float(inside, address) == Ok::<u64, MemoryError>(value)
            &&& other != address ==> after.read_float(inside, other) == table.read_float(
                frame,
                other,
            )
            &&& after.read_int(inside, other) == table.read_int(frame, other)
            &&& after.read_bool(inside, other) == table.read_bool(frame, other)
            &&& after.read_string(other) == table.read_string(other)
            &&& inside is Some <==> frame is Some
        }),
{
}

/// A boolean that was written is the boolean read at the same address, and
/// the booleans at all other addresses read as before.
pub proof fn lemma_bool_write_then_read(
    table: ValueTableView,
    frame: Option<MemoryView>,
    address: int,
    value: bool,
    other: int,
)
    requires
        table.write_bool(frame, address, value) is Ok,
    ensures
        ({
            let (after, inside) = table.write_bool(frame, address, value).unwrap();
            &&& after.read_bool(inside, address) == Ok::<bool, MemoryError>(value)
            &&& other != address ==> after.read_bool(inside, other) == table.read_bool(frame, other)
            &&& after.read_int(inside, other) == table.read_int(frame, other)
            &&& after.read_float(inside, other) == table.read_float(frame, other)
            &&& after.read_string(other) == table.read_string(other)
            &&& inside is Some <==> frame is Some
        }),
{
}

/// A new table stores what its counters say, which is nothing.
pub proof fn lemma_empty_is_stored()
    ensures
        ValueTableView::empty().stored(false),
        ValueTableView::empty().stored(true),
{
}

/// What holds outside a function holds inside one.
pub proof fn lemma_stored_inside(table: ValueTableView)
    requires
        table.stored(false),
    ensures
        table.stored(true),
{
}

/// An integer variable that is given an address leaves the counters in
/// agreement with the storage. A global can be read at its address at once
/// and holds the value it was declared with. So does a temporary of the
/// program where no cleared temporary left its cell behind; where one did,
/// the address has that cell. The next variable of the band gets the next
/// address.
pub proof fn lemma_integer_declared(
    table: ValueTableView,
    value: i64,
    scope: Scope,
    framed: bool,
    frame: Option<MemoryView>,
)
    requires
        table.stored(framed),
        table.next_variable(Type::Int, scope) is Ok,
    ensures
        ({
            let address = table.next_variable(Type::Int, scope).unwrap();
            let after = table.with_integer(value, scope, framed);
            &&& after.stored(framed)
            &&& scope == Scope::Global ==> after.read_int(frame, address as int) == Ok::<
                i64,
                MemoryError,
            >(value)
            &&& scope == Scope::Temp && !framed ==> after.read_int(None, address as int) is Ok
                && after.write_int(None, address as int, value) is Ok
            &&& scope == Scope::Temp && !framed && table.counters.int_temp
                == table.globals.int_temps.len() ==> after.read_int(None, address as int) == Ok::<
                i64,
                MemoryError,
            >(value)
            &&& after.next_variable(Type::Int, scope) matches Ok(next) ==> next == address + 1
        }),
{
}

/// A float variable that is given an address leaves the counters in
/// agreement with the storage, and can be read as an integer variable can.
pub proof fn lemma_float_declared(
    table: ValueTableView,
    value: u64,
    scope: Scope,
    framed: bool,
    frame: Option<MemoryView>,
)
    requires
        table.stored(framed),
        table.next_variable(Type::Float, scope) is Ok,
    ensures
        ({
            let address = table.next_variable(Type::Float, scope).unwrap();
            let after = table.with_float(value, scope, framed);
            &&& after.stored(framed)
            &&& scope == Scope::Global ==> after.read_float(frame, address as int) == Ok::<
                u64,
                MemoryError,
            >(value)
            &&& scope == Scope::Temp && !framed ==> after.read_float(None, address as int) is Ok
                && after.write_float(None, address as int, value) is Ok
            &&& scope == Scope::Temp && !framed && table.counters.float_temp
                == table.globals.float_temps.len() ==> after.read_float(None, address as int)
                == Ok::<u64, MemoryError>(value)
            &&& after.next_variable(Type::Float, scope) matches Ok(next) ==> next == address + 1
        }),
{
}

/// A boolean temporary that is given an address leaves the counters in
/// agreement with the storage, and can be read as an integer temporary can.
pub proof fn lemma_bool_declared(table: ValueTableView, value: bool, framed: bool)
    requires
        table.stored(framed),
        table.next_variable(Type::Bool, Scope::Temp) is Ok,
    ensures
        ({
            let address = table.next_variable(Type::Bool, Scope::Temp).unwrap();
            let after = table.with_bool(value, framed);
            &&& after.stored(framed)
            &&& !framed ==> after.read_bool(None, address as int) is Ok && after.write_bool(
                None,
                address as int,
                value,
            ) is Ok
            &&& !framed && table.counters.bool_temp == table.globals.bool_temps.len()
                ==> after.read_bool(None, address as int) == Ok::<bool, MemoryError>(value)
            &&& after.next_variable(Type::Bool, Scope::Temp) matches Ok(next) ==> next == address
                + 1
        }),
{
}

/// A constant that is added can be read at its address at once, and the
/// counters stay in agreement with the storage.
pub proof fn lemma_constant_declared(table: ValueTableView, number: i64, bits: u64, framed: bool)
    requires
        table.stored(framed),
    ensures
        (ValueTableView { const_ints: table.const_ints.push(number), ..table }).stored(framed),
        (ValueTableView { const_floats: table.const_floats.push(bits), ..table }).stored(framed),
        ValueTableView::next_constant(Type::Int, table.const_ints.len()) matches Ok(address)
            ==> (ValueTableView { const_ints: table.const_ints.push(number), ..table }).read_int(
            None,
            address as int,
        ) == Ok::<i64, MemoryError>(number),
        ValueTableView::next_constant(Type::Float, table.const_floats.len()) matches Ok(address)
            ==> (ValueTableView {
            const_floats: table.const_floats.push(bits),
            ..table
        }).read_float(None, address as int) == Ok::<u64, MemoryError>(bits),
{
}

/// Clearing the counters of one call brings the counters into agreement
/// with the storage of the program, whatever was counted inside a function.
pub proof fn lemma_cleared_is_stored(table: ValueTableView)
    requires
        table.stored(true),
    ensures
        (ValueTableView { counters: table.counters.cleared(), ..table }).stored(false),
{
}

/// A write makes no cell and counts nothing: the counters stay in agreement
/// with the storage.
pub proof fn lemma_write_keeps_stored(
    table: ValueTableView,
    frame: Option<MemoryView>,
    address: int,
    value: Value,
    framed: bool,
)
    requires
        table.stored(framed),
    ensures
        match value {
            Value::Int(number) => table.write_int(frame, address, number) matches Ok(left)
                ==> left.0.stored(framed),
            Value::Float(bits) => table.write_float(frame, address, bits) matches Ok(left)
                ==> left.0.stored(framed),
            Value::Bool(truth) => table.write_bool(frame, address, truth) matches Ok(left)
                ==> left.0.stored(framed),
        },
{
}

/// Whether a write did what `expected` says: on success the table and the
/// frame are the ones given there; on failure the error is the one given
/// there and nothing has changed.
pub open spec fn written(
    expected: Result<(ValueTableView, Option<MemoryView>), MemoryError>,
    done: Result<(), MemoryError>,
    table_before: ValueTableView,
    table_after: ValueTableView,
    frame_before: Option<MemoryView>,
    frame_after: Option<MemoryView>,
) -> bool {
    match expected {
        Ok((table, frame)) => done is Ok && table_after == table && frame_after == frame,
        Err(error) => done == Err::<(), MemoryError>(error) && table_after == table_before
            && frame_after == frame_before,
    }
}

/// The address allocator and the storage it stands for: counters of the
/// variables handed out, the storage of the program, and the constants.
#[derive(Debug, Clone, PartialEq, Eq)]
pub struct ValueTable {
    pub counters: Counters,
    var_values: Memory,
    const_ints: Vec<i64>,
    const_floats: Vec<u64>,
    const_strings: Vec<String>,
}

impl View for ValueTable {
    type V = ValueTableView;

    closed spec fn view(&self) -> ValueTableView {
        ValueTableView {
            counters: self.counters,
            globals: self.var_values@,
            const_ints: self.const_ints@,
            const_floats: self.const_floats@,
            const_strings: self.const_strings@.map_values(|text: String| text@),
        }
    }
}

impl ValueTable {
    /// A table that has handed out nothing and stores nothing.
    pub fn new() -> (table: Self)
        ensures
            table@ == ValueTableView::empty(),
            table@.stored(false),
    {
        let table = ValueTable {
            counters: Counters {
                int_global: 0,
                int_local: 0,
                int_temp: 0,
                float_global: 0,
                float_local: 0,
                float_temp: 0,
                bool_temp: 0,
            },
            var_values: Memory::new(),
            const_ints: Vec::new(),
            const_floats: Vec::new(),
            const_strings: Vec::new(),
        };
        assert(table.const_strings@.map_values(|text: String| text@) =~= Seq::empty());
        table
    }

    /// The counters as they stand.
    pub fn counts(&self) -> (counters: Counters)
        ensures
            counters == self@.counters,
    {
        self.counters
    }

    /// Takes the next address of a band of variables and counts it.
    fn take_address(&mut self, category: Type, scope: Scope) -> (taken: Result<i32, AllocError>)
        ensures
            taken == old(self)@.next_variable(category, scope),
            taken matches Ok(address) ==> band_claims(category, scope, address as int)
                && var_type_of(address as int) == category,
            final(self).var_values == old(self).var_values,
            final(self).const_ints == old(self).const_ints,
            final(self).const_floats == old(self).const_floats,
            final(self).const_strings == old(self).const_strings,
            final(self).counters == (if taken is Ok {
                old(self)@.counted(category, scope)
            } else {
                old(self).counters
            }),
    {
        match self.counters.get(category, scope) {
            None => Err(AllocError::InvalidScope),
            Some(used) => {
                if 0 <= used && used < BAND_SIZE {
                    match first_address(category, scope) {
                        Some(first) => {
                            self.counters.set(category, scope, used + 1);
                            Ok(first + used)
                        },
                        None => Err(AllocError::InvalidScope),
                    }
                } else {
                    Err(AllocError::BandFull)
                }
            },
        }
    }

    /// Gives an integer variable its address in the scope called `scope`,
    /// which is `global`, `local` or `temp`. `memory` tells whether the
    /// variable belongs to a function that is being compiled.
    pub fn insert_integer(&mut self, value: i64, scope: &str, memory: Option<&Memory>) -> (result:
        Result<i32, AllocError>)
        ensures
            result == old(self)@.next_named(Type::Int, scope@),
            result matches Ok(address) ==> scope_named(scope@) is Some && band_claims(
                Type::Int,
                scope_named(scope@).unwrap(),
                address as int,
            ) && var_type_of(address as int) == Type::Int,
            final(self)@ == (if result is Ok {
                old(self)@.with_integer(value, scope_named(scope@).unwrap(), memory is Some)
            } else {
                old(self)@
            }),
            old(self)@.stored(memory is Some) ==> final(self)@.stored(memory is Some),
    {
        let place = match scope_from_name(scope) {
            Some(place) => place,
            None => {
                return Err(AllocError::InvalidScope);
            },
        };
        let taken = self.take_address(Type::Int, place);
        if taken.is_ok() {
            match place {
                Scope::Global => {
                    self.var_values.ints.push(value);
                },
                Scope::Temp => {
                    if memory.is_none() {
                        self.var_values.int_temps.push(value);
                    }
                },
                _ => {},
            }
        }
        taken
    }

    /// Gives a float variable its address in the scope called `scope`;
    /// `value` is the float's bit pattern.
    pub fn insert_float(&mut self, value: u64, scope: &str, memory: Option<&Memory>) -> (result:
        Result<i32, AllocError>)
        ensures
            result == old(self)@.next_named(Type::Float, scope@),
            result matches Ok(address) ==> scope_named(scope@) is Some && band_claims(
                Type::Float,
                scope_named(scope@).unwrap(),
                address as int,
            ) && var_type_of(address as int) == Type::Float,
            final(self)@ == (if result is Ok {
                old(self)@.with_float(value, scope_named(scope@).unwrap(), memory is Some)
            } else {
                old(self)@
            }),
            old(self)@.stored(memory is Some) ==> final(self)@.stored(memory is Some),
    {
        let place = match scope_from_name(scope) {
            Some(place) => place,
            None => {
                return Err(AllocError::InvalidScope);
            },
        };
        let taken = self.take_address(Type::Float, place);
        if taken.is_ok() {
            match place {
                Scope::Global => {
                    self.var_values.floats.push(value);
                },
                Scope::Temp => {
                    if memory.is_none() {
                        self.var_values.float_temps.push(value);
                    }
                },
                _ => {},
            }
        }
        taken
    }

    /// Starts the bands that belong to one call from their first address
    /// again; the globals and the storage are kept.
    pub fn clear_local_vars(&mut self)
        ensures
            final(self)@ == (ValueTableView {
                counters: old(self)@.counters.cleared(),
                ..old(self)@
            }),
            old(self)@.stored(true) ==> final(self)@.stored(false),
    {
        self.counters.int_local = 0;
        self.counters.int_temp = 0;
        self.counters.float_local = 0;
        self.counters.float_temp = 0;
        self.counters.bool_temp = 0;
    }

    /// Gives a boolean temporary its address.
    pub fn insert_bool(&mut self, value: bool, memory: Option<&Memory>) -> (result: Result<
        i32,
        AllocError,
    >)
        ensures
            result == old(self)@.next_variable(Type::Bool, Scope::Temp),
            result matches Ok(address) ==> band_claims(Type::Bool, Scope::Temp, address as int)
                && var_type_of(address as int) == Type::Bool,
            final(self)@ == (if result is Ok {
                old(self)@.with_bool(value, memory is Some)
            } else {
                old(self)@
            }),
            old(self)@.stored(memory is Some) ==> final(self)@.stored(memory is Some),
    {
        let taken = self.take_address(Type::Bool, Scope::Temp);
        if taken.is_ok() && memory.is_none() {
            self.var_values.bool_temps.push(value);
        }
        taken
    }

    /// Adds an integer constant to its pool and returns its address.
    pub fn insert_cte_int(&mut self, value: i64) -> (result: Result<i32, AllocError>)
        ensures
            result == ValueTableView::next_constant(Type::Int, old(self)@.const_ints.len()),
            result matches Ok(address) ==> band_claims(Type::Int, Scope::Constant, address as int)
                && var_type_of(address as int) == Type::Int,
            final(self)@ == (if result is Ok {
                ValueTableView { const_ints: old(self)@.const_ints.push(value), ..old(self)@ }
            } else {
                old(self)@
            }),
            old(self)@.stored(false) ==> final(self)@.stored(false),
            old(self)@.stored(true) ==> final(self)@.stored(true),
    {
        let held = self.const_ints.len();
        if held < 1000 {
            self.const_ints.push(value);
            Ok(START_CONST_INT_VALUES + held as i32)
        } else {
            Err(AllocError::BandFull)
        }
    }

    /// Adds a float constant, given by its bit pattern, to its pool and
    /// returns its address.
    pub fn insert_cte_float(&mut self, value: u64) -> (result: Result<i32, AllocError>)
        ensures
            result == ValueTableView::next_constant(Type::Float, old(self)@.const_floats.len()),
            result matches Ok(address) ==> band_claims(Type::Float, Scope::Constant, address as int)
                && var_type_of(address as int) == Type::Float,
            final(self)@ == (if result is Ok {
                ValueTableView { const_floats: old(self)@.const_floats.push(value), ..old(self)@ }
            } else {
                old(self)@
            }),
            old(self)@.stored(false) ==> final(self)@.stored(false),
            old(self)@.stored(true) ==> final(self)@.stored(true),
    {
        let held = self.const_floats.len();
        if held < 1000 {
            self.const_floats.push(value);
            Ok(START_CONST_FLOAT_VALUES + held as i32)
        } else {
            Err(AllocError::BandFull)
        }
    }

    /// Adds a string constant to its pool and returns its address.
    pub fn insert_cte_string(&mut self, value: String) -> (result: Result<i32, AllocError>)
        ensures
            result == ValueTableView::next_constant(Type::String, old(self)@.const_strings.len()),
            result matches Ok(address) ==> band_claims(
                Type::String,
                Scope::Constant,
                address as int,
            ) && var_type_of(address as int) == Type::String,
            final(self)@ == (if result is Ok {
                ValueTableView {
                    const_strings: old(self)@.const_strings.push(value@),
                    ..old(self)@
                }
            } else {
                old(self)@
            }),
            old(self)@.stored(false) ==> final(self)@.stored(false),
            old(self)@.stored(true) ==> final(self)@.stored(true),
    {
        let held = self.const_strings.len();
        if held < 1000 {
            self.const_strings.push(value);
            assert(self.const_strings@.map_values(|text: String| text@) =~= old(
                self,
            ).const_strings@.map_values(|text: String| text@).push(value@));
            Ok(START_CONST_STRING_VALUES + held as i32)
        } else {
            Err(AllocError::BandFull)
        }
    }

    /// A copy of the string constant at `address`.
    pub fn get_string(&self, address: i32) -> (result: Result<String, MemoryError>)
        ensures
            match self@.read_string(address as int) {
                Ok(text) => result matches Ok(copy) && copy@ == text,
                Err(error) => result matches Err(found) && found == error,
            },
    {
        match locate(Type::String, address) {
            Some((Scope::Constant, index)) => {
                if index < self.const_strings.len() {
                    Ok(self.const_strings[index].clone())
                } else {
                    Err(MemoryError::OutOfRange)
                }
            },
            _ => Err(MemoryError::WrongBand),
        }
    }

    /// The integer at `address`, as seen from inside `memory`.
    pub fn get_int(&self, address: i32, memory: Option<&Memory>) -> (result: Result<
        i64,
        MemoryError,
    >)
        ensures
            result == self@.read_int(frame_view(memory), address as int),
    {
        match locate(Type::Int, address) {
            None => Err(MemoryError::WrongBand),
            Some((scope, index)) => match scope {
                Scope::Global => fetch_cell(&self.var_values.ints, index),
                Scope::Local => match memory {
                    Some(own) => fetch_cell(&own.ints, index),
                    None => Err(MemoryError::NoFrame),
                },
                Scope::Temp => match memory {
                    Some(own) => fetch_cell(&own.int_temps, index),
                    None => fetch_cell(&self.var_values.int_temps, index),
                },
                Scope::Constant => fetch_cell(&self.const_ints, index),
            },
        }
    }

    /// Writes `value` to the integer at `address`, as seen from inside
    /// `memory`.
    pub fn set_int(&mut self, address: i32, value: i64, memory: Option<&mut Memory>) -> (result:
        Result<(), MemoryError>)
        ensures
            written(
                old(self)@.write_int(mut_frame_before(memory), address as int, value),
                result,
                old(self)@,
                final(self)@,
                mut_frame_before(memory),
                match memory {
                    Some(frame) => Some((*final(frame))@),
                    None => None,
                },
            ),
            old(self)@.stored(false) ==> final(self)@.stored(false),
            old(self)@.stored(true) ==> final(self)@.stored(true),
    {
        match locate(Type::Int, address) {
            None => Err(MemoryError::WrongBand),
            Some((scope, index)) => match scope {
                Scope::Global => store_cell(&mut self.var_values.ints, index, value),
                Scope::Local => match memory {
                    Some(own) => store_cell(&mut own.ints, index, value),
                    None => Err(MemoryError::NoFrame),
                },
                Scope::Temp => match memory {
                    Some(own) => store_cell(&mut own.int_temps, index, value),
                    None => store_cell(&mut self.var_values.int_temps, index, value),
                },
                Scope::Constant => Err(MemoryError::ReadOnly),
            },
        }
    }

    /// The float at `address`, as its bit pattern, seen from inside `memory`.
    pub fn get_float(&self, address: i32, memory: Option<&Memory>) -> (result: Result<
        u64,
        MemoryError,
    >)
        ensures
            result == self@.read_float(frame_view(memory), address as int),
    {
        match locate(Type::Float, address) {
            None => Err(MemoryError::WrongBand),
            Some((scope, index)) => match scope {
                Scope::Global => fetch_cell(&self.var_values.floats, index),
                Scope::Local => match memory {
                    Some(own) => fetch_cell(&own.floats, index),
                    None => Err(MemoryError::NoFrame),
                },
                Scope::Temp => match memory {
                    Some(own) => fetch_cell(&own.float_temps, index),
                    None => fetch_cell(&self.var_values.float_temps, index),
                },
                Scope::Constant => fetch_cell(&self.const_floats, index),
            },
        }
    }

    /// Writes the float with bit pattern `value` to `address`, as seen from
    /// inside `memory`.
    pub fn set_float(&mut self, address: i32, value: u64, memory: Option<&mut Memory>) -> (result:
        Result<(), MemoryError>)
        ensures
            written(
                old(self)@.write_float(mut_frame_before(memory), address as int, value),
                result,
                old(self)@,
                final(self)@,
                mut_frame_before(memory),
                match memory {
                    Some(frame) => Some((*final(frame))@),
                    None => None,
                },
            ),
            old(self)@.stored(false) ==> final(self)@.stored(false),
            old(self)@.stored(true) ==> final(self)@.stored(true),
    {
        match locate(Type::Float, address) {
            None => Err(MemoryError::WrongBand),
            Some((scope, index)) => match scope {
                Scope::Global => store_cell(&mut self.var_values.floats, index, value),
                Scope::Local => match memory {
                    Some(own) => store_cell(&mut own.floats, index, value),
                    None => Err(MemoryError::NoFrame),
                },
                Scope::Temp => match memory {
                    Some(own) => store_cell(&mut own.float_temps, index, value),
                    None => store_cell(&mut self.var_values.float_temps, index, value),
                },
                Scope::Constant => Err(MemoryError::ReadOnly),
            },
        }
    }

    /// The boolean at `address`, as seen from inside `memory`.
    pub fn get_bool(&self, address: i32, memory: Option<&Memory>) -> (result: Result<
        bool,
        MemoryError,
    >)
        ensures
            result == self@.read_bool(frame_view(memory), address as int),
    {
        match locate(Type::Bool, address) {
            Some((Scope::Temp, index)) => match memory {
                Some(own) => fetch_cell(&own.bool_temps, index),
                None => fetch_cell(&self.var_values.bool_temps, index),
            },
            _ => Err(MemoryError::WrongBand),
        }
    }

    /// Writes `value` to the boolean at `address`, as seen from inside
    /// `memory`.
    pub fn set_bool(&mut self, address: i32, value: bool, memory: Option<&mut Memory>) -> (result:
        Result<(), MemoryError>)
        ensures
            written(
                old(self)@.write_bool(mut_frame_before(memory), address as int, value),
                result,
                old(self)@,
                final(self)@,
                mut_frame_before(memory),
                match memory {
                    Some(frame) => Some((*final(frame))@),
                    None => None,
                },
            ),
            old(self)@.stored(false) ==> final(self)@.stored(false),
            old(self)@.stored(true) ==> final(self)@.stored(true),
    {
        match locate(Type::Bool, address) {
            Some((Scope::Temp, index)) => match memory {
                Some(own) => store_cell(&mut own.bool_temps, index, value),
                None => store_cell(&mut self.var_values.bool_temps, index, value),
            },
            _ => Err(MemoryError::WrongBand),
        }
    }

    /// The type of the value at `address`, by the range the address lies in.
    pub fn get_var_type(&self, address: i32) -> (category: Type)
        ensures
            category == var_type_of(address as int),
    {
        if address >= START_INT_VALUES && address < START_FLOAT_VALUES {
            Type::Int
        } else if address >= START_FLOAT_VALUES && address < START_BOOL_VALUES {
            Type::Float
        } else if address >= START_BOOL_VALUES && address < START_CONST_INT_VALUES {
            Type::Bool
        } else if address >= START_CONST_INT_VALUES && address < START_CONST_FLOAT_VALUES {
            Type::Int
        } else if address >= START_CONST_FLOAT_VALUES && address < START_CONST_STRING_VALUES {
            Type::Float
        } else if address >= START_CONST_STRING_VALUES {
            Type::String
        } else {
            Type::Error
        }
    }
}

/// The view of the frame handed to a write, before the write.
pub open spec fn mut_frame_before(memory: Option<&mut Memory>) -> Option<MemoryView> {
    match memory {
        Some(frame) => Some((*frame)@),
        None => None,
    }
}

} // verus!
