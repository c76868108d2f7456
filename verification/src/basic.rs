//! Walkthroughs of the basic language features: control flow and loops,
//! primitive and compound data types, functions, and variable bindings.

pub mod control_flow;
pub mod datatypes;
pub mod functions;
pub mod variables;
