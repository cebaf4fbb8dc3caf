//! Object/type-protocol core of a small dynamic-language virtual machine.
//!
//! A uniform tagged value representation with stable identities, a per-type
//! slot table for construction, hashing, comparison and representation, an
//! argument binder, and the slice type with its index-normalization and
//! comparison logic.

pub mod bignum;
pub mod builtins;
pub mod dispatch;
pub mod error;
pub mod function;
pub mod io;
pub mod machine;
pub mod objslice;
pub mod protocol;
pub mod value;
