//! A stack of bounded capacity laid over a buffer that the caller owns.
//!
//! [`StackVec`] borrows a slice for its whole life, never allocates, and
//! keeps its live elements in the first slots of that slice. `push`, `pop`,
//! `get` and `set` report a refusal through a [`StackVecError`] and leave the
//! stack as it was; indexing with `[]` is for callers who know that the index
//! is live. The `command` and `parse` modules carry out the commands of a
//! line-oriented front end on such a stack.

pub mod command;
pub mod iter;
pub mod laws;
pub mod model;
pub mod parse;
pub mod stack_vec;

pub use iter::StackVecIterator;
pub use stack_vec::{StackVec, StackVecError};
