//! A small library of verified walkthroughs of core language behaviour:
//! value copying, ownership transfer, borrowing discipline, simple loops,
//! and a first-word slice helper, each with a full functional contract.

pub mod basic;
pub mod ownership;
