use vstd::prelude::*;
use crate::error::BoundaryError;
use crate::types::{Commitment, SnarkProof};

verus! {

/// The status a response reports to the caller. Exactly one of these three
/// values classifies every outcome; there is no other terminal state.
#[derive(Clone, Copy, Debug, PartialEq, Eq, Structural)]
pub enum ResponseStatus {
    /// The operation ran to completion and its payload fields are meaningful.
    Success,
    /// The operation itself succeeded but could not satisfy the full
    /// request; used only by the unseal family, always together with the
    /// count actually delivered.
    ReceiverError,
    /// The operation failed: a collaborator failure or malformed input.
    UnclassifiedError,
}

/// The status/error discipline every response obeys: an error is present
/// exactly when the status is not success, and the partial-unseal error is
/// reserved for the receiver-error status.
pub open spec fn status_error_consistent(
    status: ResponseStatus,
    error: Option<BoundaryError>,
) -> bool {
    match status {
        ResponseStatus::Success => error is None,
        ResponseStatus::ReceiverError => error matches Some(
            BoundaryError::PartialUnseal { .. },
        ),
        ResponseStatus::UnclassifiedError => error matches Some(e)
            && !(e matches BoundaryError::PartialUnseal { .. }),
    }
}

/// Outcome of a seal operation. The commitments and the proof are
/// meaningful only when the status is success.
pub struct SealResponse {
    pub status: ResponseStatus,
    pub error: Option<BoundaryError>,
    pub comm_r: Commitment,
    pub comm_d: Commitment,
    pub proof: SnarkProof,
}

impl SealResponse {
    pub open spec fn wf(self) -> bool {
        status_error_consistent(self.status, self.error)
            && !(self.status is ReceiverError)
    }
}

/// Outcome of verifying a seal. A clean negative verification is a success
/// whose validity flag is false; only an engine failure is an error.
pub struct VerifySealResponse {
    pub status: ResponseStatus,
    pub error: Option<BoundaryError>,
    pub is_valid: bool,
}

impl VerifySealResponse {
    pub open spec fn wf(self) -> bool {
        status_error_consistent(self.status, self.error)
            && !(self.status is ReceiverError)
    }
}

/// Outcome of a ranged unseal. The count of bytes written is reported both
/// on success and on the receiver-error path that signals a short read.
pub struct GetUnsealedRangeResponse {
    pub status: ResponseStatus,
    pub error: Option<BoundaryError>,
    pub num_bytes_written: u64,
}

impl GetUnsealedRangeResponse {
    pub open spec fn wf(self) -> bool {
        status_error_consistent(self.status, self.error)
    }
}

/// Outcome of a whole-sector unseal.
pub struct GetUnsealedResponse {
    pub status: ResponseStatus,
    pub error: Option<BoundaryError>,
}

impl GetUnsealedResponse {
    pub open spec fn wf(self) -> bool {
        status_error_consistent(self.status, self.error)
    }
}

/// Outcome of PoSt generation: an aggregate proof and the indices of the
/// commitments flagged as faulty. Every fault index is a valid index into
/// the commitment list the caller supplied.
pub struct GeneratePostResponse {
    pub status: ResponseStatus,
    pub error: Option<BoundaryError>,
    pub proof: SnarkProof,
    pub faults: Vec<u8>,
}

impl GeneratePostResponse {
    pub open spec fn wf(self) -> bool {
        status_error_consistent(self.status, self.error)
            && !(self.status is ReceiverError)
    }
}

/// Outcome of verifying a PoSt proof.
pub struct VerifyPostResponse {
    pub status: ResponseStatus,
    pub error: Option<BoundaryError>,
    pub is_valid: bool,
}

impl VerifyPostResponse {
    pub open spec fn wf(self) -> bool {
        status_error_consistent(self.status, self.error)
            && !(self.status is ReceiverError)
    }
}

} // verus!
