//! The error type shared by every fallible operation of the library.

use vstd::prelude::*;

verus! {

/// What went wrong, as a value contracts can speak about.  The first
/// group are asset-integrity violations raised by the library itself;
/// `Other` covers errors built by collaborators (I/O failures, resource
/// creation failures) whose cause the library only propagates.
#[derive(Clone, Copy, Debug, PartialEq, Eq, Structural)]
pub enum ErrorKind {
    /// A node with this source index was already visited in this load.
    DuplicateNode,
    /// An index referred to an entity the document does not have.
    InvalidReference,
    /// A primitive uses a topology other than triangle list.
    UnsupportedTopology,
    /// A primitive has no position attribute.
    MissingPositions,
    /// A texture-coordinate index above 1 or a color index above 0.
    AttributeIndexOutOfRange,
    /// An index buffer uses a data type other than u16 or u32.
    InvalidIndexType,
    /// A primitive without attributes, so no vertex count can be found.
    MissingVertexCount,
    /// No scene exists with the requested identifier.
    MissingScene,
    /// A cubemap container lacks a requested mip level.
    MissingLevel,
    /// A cubemap level holds fewer bytes than its six faces need, or its
    /// face size does not fit the machine's integers.
    MalformedLevel,
    /// A texture handed in as a cubemap is not a six-layer 2D texture.
    InvalidCubeTexture,
    /// Byte lengths that do not fit the machine's integers.
    SizeOverflow,
    /// An error built by a collaborator and propagated unchanged.
    Other,
}

/// An error raised while building render resources: an asset-integrity
/// violation (duplicate node, missing attribute, unsupported topology),
/// or a failure propagated from a collaborator that resolves bytes or
/// images.
#[derive(Debug)]
pub struct Error {
    kind: ErrorKind,
    message: String,
}

impl Error {
    /// The description this error carries, as a mathematical string.
    pub closed spec fn text(&self) -> Seq<char> {
        self.message@
    }

    /// Which failure this error reports.
    pub closed spec fn spec_kind(&self) -> ErrorKind {
        self.kind
    }

    /// Wraps a human-readable description of what went wrong.
    pub fn new(message: String) -> (r: Error)
        ensures
            r.text() == message@,
            r.spec_kind() == ErrorKind::Other,
    {
        Error { kind: ErrorKind::Other, message }
    }

    /// Builds an error of a given kind with a description.
    pub fn of_kind(kind: ErrorKind, message: String) -> (r: Error)
        ensures
            r.text() == message@,
            r.spec_kind() == kind,
    {
        Error { kind, message }
    }

    /// The human-readable description this error was built from.
    pub fn message(&self) -> (r: &String)
        ensures
            r@ == self.text(),
    {
        &self.message
    }

    /// Which failure this error reports.
    pub fn kind(&self) -> (r: ErrorKind)
        ensures
            r == self.spec_kind(),
    {
        self.kind
    }
}

} // verus!
