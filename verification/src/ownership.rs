//! Walkthroughs of ownership, borrowing, and slices: a scripted tour of
//! move/copy/clone semantics over heap-owning text values, a model of the
//! borrow-exclusivity discipline, and a first-word slice helper.

pub mod discipline;
pub mod intro_to_ownership;
pub mod slice_type;
