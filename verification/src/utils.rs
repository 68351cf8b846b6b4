//! Generic containers used by the compiler and the virtual machine, and the
//! writing of numbers as text.

pub mod node;
pub mod queue;
pub mod stack;
pub mod text;
