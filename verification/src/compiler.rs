//! The back end of the compiler: type table, symbol tables, address
//! allocation, intermediate code and the machine that runs it.

pub mod address;
pub mod machine_laws;
pub mod program_manager;
pub mod quadruplets;
pub mod semantic_cube;
pub mod semantic_tables;
pub mod value_table;
