//! A small-language back end: type table, address allocator, intermediate
//! code and the virtual machine that executes it.

pub mod compiler;
pub mod utils;

pub use compiler::program_manager::ProgramManager;
pub use compiler::semantic_cube::{CuboSemantico, Operator, Type};
pub use compiler::semantic_tables::FunctionTable;
pub use utils::stack::Stack;
