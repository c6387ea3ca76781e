//! Resource handles: one identifier, its kind, and who gives it back.
//!
//! A handle never talks to the runtime itself. It is made from what the
//! runtime reported about an identifier, and giving it up yields the release
//! that its owner has to perform, at most once: `release` consumes the
//! handle, and a handle cannot be copied.

use vstd::prelude::*;
use crate::error::{Error, Hid};

verus! {

/// The kinds of resource that the runtime tells apart.
#[derive(Clone, Copy, Debug, PartialEq, Eq, Structural)]
pub enum ResourceKind {
    File,
    Group,
    Datatype,
    Dataspace,
    Dataset,
    Attribute,
    Reference,
    VirtualFileLayer,
    PropertyClass,
    PropertyList,
    ErrorClass,
    ErrorMessage,
    ErrorStack,
}

/// Whether a handle answers for releasing its identifier.
#[derive(Clone, Copy, Debug, PartialEq, Eq, Structural)]
pub enum Ownership {
    /// The handle is the one owner: giving it up releases the resource.
    Owned,
    /// The handle only refers to a resource that another handle owns.
    Borrowed,
}

/// The release that the owner of a handle has to perform.
#[derive(Clone, Copy, Debug, PartialEq, Eq, Structural)]
pub struct Release {
    /// The identifier to give back.
    pub id: Hid,
    /// Its kind, which selects the runtime's release operation.
    pub kind: ResourceKind,
}

/// What is left to say when a release failed: nothing is raised, the
/// resource counts as gone either way.
#[derive(Clone, Copy, Debug, PartialEq, Eq, Structural)]
pub enum Diagnostic {
    /// The runtime could not release the resource.
    ReleaseFailure { id: Hid, kind: ResourceKind },
}

impl Release {
    /// Settles a release once the runtime has answered: a failure becomes a
    /// diagnostic, never an error.
    pub fn concluded(self, succeeded: bool) -> (note: Option<Diagnostic>)
        ensures
            note == if succeeded {
                None::<Diagnostic>
            } else {
                Some(Diagnostic::ReleaseFailure { id: self.id, kind: self.kind })
            },
    {
        if succeeded {
            None
        } else {
            Some(Diagnostic::ReleaseFailure { id: self.id, kind: self.kind })
        }
    }
}

/// An identifier together with its kind and ownership.
#[derive(Debug, PartialEq, Eq)]
pub struct Handle {
    id: Hid,
    kind: ResourceKind,
    mode: Ownership,
}

impl Handle {
    /// The identifier that the handle holds.
    pub closed spec fn spec_identifier(&self) -> Hid {
        self.id
    }

    /// The kind that the runtime reported when the handle was made.
    pub closed spec fn spec_kind(&self) -> ResourceKind {
        self.kind
    }

    /// Whether the handle owns its identifier.
    pub closed spec fn spec_mode(&self) -> Ownership {
        self.mode
    }

    /// Wraps an identifier as its owner, given the kind that the runtime
    /// reported for it. Fails exactly when the runtime recognised no kind.
    pub fn wrap(id: Hid, reported: Option<ResourceKind>) -> (res: Result<Handle, Error>)
        ensures
            match reported {
                Some(kind) => res matches Ok(handle) && handle.spec_identifier() == id
                    && handle.spec_kind() == kind && handle.spec_mode() == Ownership::Owned,
                None => res == Err::<Handle, Error>(Error::InvalidResource { id }),
            },
    {
        match reported {
            Some(kind) => Ok(Handle { id, kind, mode: Ownership::Owned }),
            None => Err(Error::InvalidResource { id }),
        }
    }

    /// Wraps an identifier as its owner for a component that works on one
    /// kind of resource only. Fails exactly when the runtime did not report
    /// that kind.
    pub fn wrap_as(expected: ResourceKind, id: Hid, reported: Option<ResourceKind>) -> (res: Result<
        Handle,
        Error,
    >)
        ensures
            match res {
                Ok(handle) => reported == Some(expected) && handle.spec_identifier() == id
                    && handle.spec_kind() == expected && handle.spec_mode() == Ownership::Owned,
                Err(e) => reported != Some(expected) && e == (Error::InvalidResource { id }),
            },
    {
        match reported {
            Some(kind) => {
                if kind == expected {
                    Handle::wrap(id, reported)
                } else {
                    Err(Error::InvalidResource { id })
                }
            },
            None => Err(Error::InvalidResource { id }),
        }
    }

    /// The kind of the resource.
    pub fn kind(&self) -> (kind: ResourceKind)
        ensures
            kind == self.spec_kind(),
    {
        self.kind
    }

    /// The raw identifier, for calls into the runtime. It is not to be kept
    /// beyond the handle's life.
    pub fn identifier(&self) -> (id: Hid)
        ensures
            id == self.spec_identifier(),
    {
        self.id
    }

    /// Whether the handle owns its identifier.
    pub fn mode(&self) -> (mode: Ownership)
        ensures
            mode == self.spec_mode(),
    {
        self.mode
    }

    /// A second handle on the same resource that does not own it.
    pub fn reference(&self) -> (other: Handle)
        ensures
            other.spec_identifier() == self.spec_identifier(),
            other.spec_kind() == self.spec_kind(),
            other.spec_mode() == Ownership::Borrowed,
    {
        Handle { id: self.id, kind: self.kind, mode: Ownership::Borrowed }
    }

    /// Gives the handle up. An owning handle yields the one release of its
    /// identifier; a borrowed one yields nothing to do.
    pub fn release(self) -> (due: Option<Release>)
        ensures
            due == match self.spec_mode() {
                Ownership::Owned => Some(
                    Release { id: self.spec_identifier(), kind: self.spec_kind() },
                ),
                Ownership::Borrowed => None::<Release>,
            },
    {
        match self.mode {
            Ownership::Owned => Some(Release { id: self.id, kind: self.kind }),
            Ownership::Borrowed => None,
        }
    }
}

} // verus!
