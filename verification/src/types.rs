use vstd::prelude::*;

verus! {

/// Number of bytes in a prover or sector identifier.
pub const ID_BYTES: usize = 31;

/// Number of bytes in a replica or data commitment.
pub const COMMITMENT_BYTES: usize = 32;

/// Number of bytes in a SNARK proof. The proof size is a published part of
/// the boundary contract: callers allocate buffers of exactly this size.
pub const SNARK_BYTES: usize = 192;

/// Identifies the prover. Opaque and caller-supplied; never validated
/// beyond its fixed length, which the type itself enforces.
#[derive(Clone, Copy)]
pub struct ProverId {
    pub bytes: [u8; ID_BYTES],
}

/// Identifies a sector. Opaque and caller-supplied.
#[derive(Clone, Copy)]
pub struct SectorId {
    pub bytes: [u8; ID_BYTES],
}

/// A fixed-size commitment: either a replica commitment (comm_r) or a data
/// commitment (comm_d). Only the proving engine produces these.
#[derive(Clone, Copy)]
pub struct Commitment {
    pub bytes: [u8; COMMITMENT_BYTES],
}

/// An opaque proof blob, produced by sealing or by PoSt generation.
/// No variable-length proof is ever produced.
#[derive(Clone, Copy)]
pub struct SnarkProof {
    pub bytes: [u8; SNARK_BYTES],
}

/// A challenge seed handed to PoSt generation. Carried across the boundary
/// but not yet consumed by the placeholder PoSt rule.
#[derive(Clone, Copy)]
pub struct ChallengeSeed {
    pub bytes: [u8; COMMITMENT_BYTES],
}

} // verus!
