//! What can go wrong at the boundary to the runtime.

use vstd::prelude::*;

verus! {

/// A native identifier: an integer that means something to the runtime only.
pub type Hid = i64;

/// The calls that cross the boundary to the runtime.
#[derive(Clone, Copy, Debug, PartialEq, Eq, Structural)]
pub enum RuntimeCall {
    /// Creating a dataspace from a rank and extents.
    CreateDataspace,
    /// Asking what kind of resource an identifier names.
    QueryKind,
    /// Asking for the rank of a dataspace.
    QueryRank,
    /// Asking for the extents of a dataspace.
    QueryExtents,
    /// Giving a resource back.
    Release,
}

/// A failure that is handed to the caller.
#[derive(Clone, Copy, Debug, PartialEq, Eq, Structural)]
pub enum Error {
    /// The identifier names no live resource that the runtime recognises, or
    /// one of another kind than the caller expected.
    InvalidResource { id: Hid },
    /// The runtime reported that a call failed.
    RuntimeCallFailure { call: RuntimeCall },
}

impl Error {
    /// Whether this is an `InvalidResource`.
    pub fn is_invalid_resource(&self) -> (yes: bool)
        ensures
            yes == (self is InvalidResource),
    {
        match self {
            Error::InvalidResource { .. } => true,
            Error::RuntimeCallFailure { .. } => false,
        }
    }

    /// The runtime call that failed, if this is a `RuntimeCallFailure`.
    pub fn failed_call(&self) -> (call: Option<RuntimeCall>)
        ensures
            call == match *self {
                Error::InvalidResource { .. } => None::<RuntimeCall>,
                Error::RuntimeCallFailure { call } => Some(call),
            },
    {
        match self {
            Error::InvalidResource { .. } => None,
            Error::RuntimeCallFailure { call } => Some(*call),
        }
    }
}

} // verus!
