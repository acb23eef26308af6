use vstd::prelude::*;

verus! {

/// A structured failure raised by the sector-store or proving-engine
/// collaborators. The boundary keeps failures structured inside the
/// library and only flattens them to text in the adapter that faces the
/// foreign caller, so structured codes can be exposed later without
/// touching the core.
#[derive(Clone, Copy, Debug, PartialEq, Eq, Structural)]
pub enum CollaboratorError {
    /// An access handle did not name a live sector access.
    UnknownSectorAccess,
    /// A staging write or a seal would exceed the configured maximum
    /// number of unsealed bytes per sector.
    SectorSizeExceeded,
    /// A raw read asked for bytes past the end of an access's contents.
    ReadOutOfRange,
}

/// The structured error a response carries. Exactly one of these stands
/// behind every non-success status.
#[derive(Clone, Copy, Debug, PartialEq, Eq, Structural)]
pub enum BoundaryError {
    /// A collaborator failed outright; classified as an unclassified error
    /// at the boundary.
    Collaborator(CollaboratorError),
    /// An unseal delivered fewer bytes than requested because the unsealed
    /// contents ran out. The operation itself succeeded; the counts say how
    /// short it fell. Classified as a receiver error.
    PartialUnseal { requested: u64, unsealed: u64 },
    /// A flattened commitment buffer whose length is not a multiple of the
    /// commitment size cannot be parsed.
    CommitmentBufferNotAligned,
    /// A PoSt over zero commitments is rejected rather than guessed at.
    CommitmentBufferEmpty,
}

} // verus!
