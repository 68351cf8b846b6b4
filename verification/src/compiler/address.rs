use vstd::prelude::*;
use vstd::string::StringExecFns;
use crate::compiler::semantic_cube::Type;

verus! {

/// First address of the integer variables.
pub const START_INT_VALUES: i32 = 1000;

/// First address of the float variables.
pub const START_FLOAT_VALUES: i32 = 4000;

/// First address of the boolean temporaries.
pub const START_BOOL_VALUES: i32 = 8000;

/// First address of the integer constants.
pub const START_CONST_INT_VALUES: i32 = 9000;

/// First address of the float constants.
pub const START_CONST_FLOAT_VALUES: i32 = 10000;

/// First address of the string constants.
pub const START_CONST_STRING_VALUES: i32 = 11000;

/// Distance from the first global of a category to its first local.
pub const LOCAL_VALUES: i32 = 1000;

/// Distance from the first global of a category to its first temporary.
pub const TEMP_VALUES: i32 = 2000;

/// How many addresses a band holds.
pub const BAND_SIZE: i32 = 1000;

/// Where a value lives: with the program, with one call, with one expression
/// of one call, or in the constant pool.
#[derive(Debug, Clone, Copy, PartialEq, Eq, Hash, Structural)]
pub enum Scope {
    Global,
    Local,
    Temp,
    Constant,
}

/// The scope of variables that a name stands for: `global`, `local` or
/// `temp`. No other name stands for a scope.
pub open spec fn scope_named(name: Seq<char>) -> Option<Scope> {
    if name == "global"@ {
        Some(Scope::Global)
    } else if name == "local"@ {
        Some(Scope::Local)
    } else if name == "temp"@ {
        Some(Scope::Temp)
    } else {
        None
    }
}

/// Each of the three names stands for its own scope.
pub proof fn lemma_scope_names()
    ensures
        scope_named("global"@) == Some(Scope::Global),
        scope_named("local"@) == Some(Scope::Local),
        scope_named("temp"@) == Some(Scope::Temp),
{
    reveal_strlit("global");
    reveal_strlit("local");
    reveal_strlit("temp");
    assert("global"@.len() == 6);
    assert("local"@.len() == 5);
    assert("temp"@.len() == 4);
}

/// The scope of variables that `name` stands for.
pub fn scope_from_name(name: &str) -> (scope: Option<Scope>)
    ensures
        scope == scope_named(name@),
{
    let given = name.to_owned();
    if given == String::from_str("global") {
        Some(Scope::Global)
    } else if given == String::from_str("local") {
        Some(Scope::Local)
    } else if given == String::from_str("temp") {
        Some(Scope::Temp)
    } else {
        None
    }
}

/// The first address of the band of a category and a scope, where the
/// address space has such a band.
pub open spec fn band_start(category: Type, scope: Scope) -> Option<int> {
    match (category, scope) {
        (Type::Int, Scope::Global) => Some(START_INT_VALUES as int),
        (Type::Int, Scope::Local) => Some(START_INT_VALUES + LOCAL_VALUES),
        (Type::Int, Scope::Temp) => Some(START_INT_VALUES + TEMP_VALUES),
        (Type::Float, Scope::Global) => Some(START_FLOAT_VALUES as int),
        (Type::Float, Scope::Local) => Some(START_FLOAT_VALUES + LOCAL_VALUES),
        (Type::Float, Scope::Temp) => Some(START_FLOAT_VALUES + TEMP_VALUES),
        (Type::Bool, Scope::Temp) => Some(START_BOOL_VALUES as int),
        (Type::Int, Scope::Constant) => Some(START_CONST_INT_VALUES as int),
        (Type::Float, Scope::Constant) => Some(START_CONST_FLOAT_VALUES as int),
        (Type::String, Scope::Constant) => Some(START_CONST_STRING_VALUES as int),
        _ => None,
    }
}

/// Whether `address` lies in the band of `category` and `scope`.
pub open spec fn band_claims(category: Type, scope: Scope, address: int) -> bool {
    match band_start(category, scope) {
        Some(start) => start <= address < start + BAND_SIZE,
        None => false,
    }
}

/// The band that an address lies in, found by comparing it with the band
/// limits alone.
pub open spec fn address_band(address: int) -> Option<(Type, Scope)> {
    if address < START_INT_VALUES {
        None
    } else if address < START_INT_VALUES + LOCAL_VALUES {
        Some((Type::Int, Scope::Global))
    } else if address < START_INT_VALUES + TEMP_VALUES {
        Some((Type::Int, Scope::Local))
    } else if address < START_FLOAT_VALUES {
        Some((Type::Int, Scope::Temp))
    } else if address < START_FLOAT_VALUES + LOCAL_VALUES {
        Some((Type::Float, Scope::Global))
    } else if address < START_FLOAT_VALUES + TEMP_VALUES {
        Some((Type::Float, Scope::Local))
    } else if address < START_FLOAT_VALUES + TEMP_VALUES + BAND_SIZE {
        Some((Type::Float, Scope::Temp))
    } else if address < START_BOOL_VALUES {
        None
    } else if address < START_CONST_INT_VALUES {
        Some((Type::Bool, Scope::Temp))
    } else if address < START_CONST_FLOAT_VALUES {
        Some((Type::Int, Scope::Constant))
    } else if address < START_CONST_STRING_VALUES {
        Some((Type::Float, Scope::Constant))
    } else if address < START_CONST_STRING_VALUES + BAND_SIZE {
        Some((Type::String, Scope::Constant))
    } else {
        None
    }
}

/// The type of the value at an address, by the range the address lies in.
/// The ranges cover every band of their category and the gaps above them.
pub open spec fn var_type_of(address: int) -> Type {
    if address >= START_INT_VALUES && address < START_FLOAT_VALUES {
        Type::Int
    } else if address >= START_FLOAT_VALUES && address < START_BOOL_VALUES {
        Type::Float
    } else if address >= START_BOOL_VALUES && address < START_CONST_INT_VALUES {
        Type::Bool
    } else if address >= START_CONST_INT_VALUES && address < START_CONST_FLOAT_VALUES {
        Type::Int
    } else if address >= START_CONST_FLOAT_VALUES && address < START_CONST_STRING_VALUES {
        Type::Float
    } else if address >= START_CONST_STRING_VALUES {
        Type::String
    } else {
        Type::Error
    }
}

/// The scope and the position in its band of an address that holds a value
/// of `category`; `None` where the address lies in no band of that category.
pub open spec fn slot_of(category: Type, address: int) -> Option<(Scope, int)> {
    match address_band(address) {
        Some((found, scope)) => if found == category {
            Some((scope, address - band_start(found, scope).unwrap()))
        } else {
            None
        },
        None => None,
    }
}

/// An address is claimed by the band that its range gives, and by no other:
/// the bands do not overlap.
pub proof fn lemma_band_unique(category: Type, scope: Scope, address: int)
    ensures
        band_claims(category, scope, address) <==> address_band(address) == Some(
            (category, scope),
        ),
{
}

/// Two bands that claim the same address are the same band.
pub proof fn lemma_bands_disjoint(
    first: (Type, Scope),
    second: (Type, Scope),
    address: int,
)
    requires
        band_claims(first.0, first.1, address),
        band_claims(second.0, second.1, address),
    ensures
        first == second,
{
    lemma_band_unique(first.0, first.1, address);
    lemma_band_unique(second.0, second.1, address);
}

/// The type read off an address agrees with the band that claims it.
pub proof fn lemma_band_type(category: Type, scope: Scope, address: int)
    requires
        band_claims(category, scope, address),
    ensures
        var_type_of(address) == category,
{
}

/// The band that `address` lies in, if any.
pub fn band_of(address: i32) -> (band: Option<(Type, Scope)>)
    ensures
        band == address_band(address as int),
        band matches Some((category, scope)) ==> band_claims(category, scope, address as int),
        band is None ==> forall|category: Type, scope: Scope|
            !band_claims(category, scope, address as int),
{
    if address < START_INT_VALUES {
        None
    } else if address < START_INT_VALUES + LOCAL_VALUES {
        Some((Type::Int, Scope::Global))
    } else if address < START_INT_VALUES + TEMP_VALUES {
        Some((Type::Int, Scope::Local))
    } else if address < START_FLOAT_VALUES {
        Some((Type::Int, Scope::Temp))
    } else if address < START_FLOAT_VALUES + LOCAL_VALUES {
        Some((Type::Float, Scope::Global))
    } else if address < START_FLOAT_VALUES + TEMP_VALUES {
        Some((Type::Float, Scope::Local))
    } else if address < START_FLOAT_VALUES + TEMP_VALUES + BAND_SIZE {
        Some((Type::Float, Scope::Temp))
    } else if address < START_BOOL_VALUES {
        None
    } else if address < START_CONST_INT_VALUES {
        Some((Type::Bool, Scope::Temp))
    } else if address < START_CONST_FLOAT_VALUES {
        Some((Type::Int, Scope::Constant))
    } else if address < START_CONST_STRING_VALUES {
        Some((Type::Float, Scope::Constant))
    } else if address < START_CONST_STRING_VALUES + BAND_SIZE {
        Some((Type::String, Scope::Constant))
    } else {
        None
    }
}

/// The first address of a band; `None` where the address space has no band
/// for the pair.
pub fn first_address(category: Type, scope: Scope) -> (start: Option<i32>)
    ensures
        start is Some <==> band_start(category, scope) is Some,
        start matches Some(first) ==> band_start(category, scope) == Some(first as int),
{
    match (category, scope) {
        (Type::Int, Scope::Global) => Some(START_INT_VALUES),
        (Type::Int, Scope::Local) => Some(START_INT_VALUES + LOCAL_VALUES),
        (Type::Int, Scope::Temp) => Some(START_INT_VALUES + TEMP_VALUES),
        (Type::Float, Scope::Global) => Some(START_FLOAT_VALUES),
        (Type::Float, Scope::Local) => Some(START_FLOAT_VALUES + LOCAL_VALUES),
        (Type::Float, Scope::Temp) => Some(START_FLOAT_VALUES + TEMP_VALUES),
        (Type::Bool, Scope::Temp) => Some(START_BOOL_VALUES),
        (Type::Int, Scope::Constant) => Some(START_CONST_INT_VALUES),
        (Type::Float, Scope::Constant) => Some(START_CONST_FLOAT_VALUES),
        (Type::String, Scope::Constant) => Some(START_CONST_STRING_VALUES),
        _ => None,
    }
}

/// The scope of an address that holds a value of `category`, and its
/// position in the band.
pub fn locate(category: Type, address: i32) -> (slot: Option<(Scope, usize)>)
    ensures
        slot is Some <==> slot_of(category, address as int) is Some,
        slot matches Some((scope, index)) ==> slot_of(category, address as int) == Some(
            (scope, index as int),
        ) && index < BAND_SIZE,
{
    match band_of(address) {
        Some((found, scope)) => {
            if found == category {
                match first_address(found, scope) {
                    Some(first) => Some((scope, (address - first) as usize)),
                    None => None,
                }
            } else {
                None
            }
        },
        None => None,
    }
}

} // verus!
