//! Sans-I/O core of a binding to a native array-storage runtime.
//!
//! The runtime hands out integer identifiers for the resources it keeps.
//! This crate holds what a binding decides about them, and makes no call
//! into the runtime itself: it states the request to send, and takes the
//! reply as a plain value.
//!
//! - `handle`: one identifier with its kind, released at most once.
//! - `space`: shapes of arrays, and the dataspace resource that holds one.
//! - `types`: text and arrays as the runtime's native layouts bound them.
//! - `gen`: random values of those types, well-formed by construction.
//! - `random`: the draws from the random source that `gen` is built from.
//! - `error`: the failures that are handed to the caller.

pub mod error;
pub mod gen;
pub mod handle;
pub mod random;
pub mod space;
pub mod types;
