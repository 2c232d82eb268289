//! Lists with elementwise arithmetic, and a few small containers.
//!
//! `tarray` holds the two lists: `TArray`, whose length is part of its type,
//! and `TVector`, whose length is not. Both take the unary operators `-` and
//! `!` and the binary operators `+ - * / % << >> & | ^`, each with a scalar
//! or with another list on the right, and each also as a compound
//! assignment. `elementwise` says what those operators compute;
//! `tarray_ops` and `tvector_ops` hold the binary operators of the two lists.
//! `teither`, `tenum` and `tstack` hold a two-case union, an association
//! list keyed by an enumerable key set, and a stack.

pub mod elementwise;
pub mod tarray;
pub mod tarray_ops;
pub mod teither;
pub mod tenum;
pub mod tstack;
pub mod tvector_ops;
