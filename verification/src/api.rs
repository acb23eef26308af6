use vstd::prelude::*;
use crate::engine::{
    spec_comm_d, spec_comm_r, spec_encode, spec_has_record, spec_pad, spec_seal_proof,
    spec_unseal_count, spec_unseal_output, ProvingEngine, SealRecord, REPLICA_MASK,
};
use crate::error::{BoundaryError, CollaboratorError};
use crate::post;
use crate::responses::{
    GeneratePostResponse, GetUnsealedRangeResponse, GetUnsealedResponse, ResponseStatus,
    SealResponse, VerifyPostResponse, VerifySealResponse,
};
use crate::store::SectorStore;
use crate::types::{ChallengeSeed, Commitment, ProverId, SectorId, SnarkProof};

verus! {

/// Seals the staged bytes at `unsealed_access` into a replica written to
/// `sealed_access`, and classifies the outcome: on success the response
/// carries the replica commitment, the data commitment and the seal
/// proof; on any engine failure the response carries an unclassified
/// error with the engine's structured failure.
pub fn seal(
    store: &mut SectorStore,
    engine: &mut ProvingEngine,
    unsealed_access: usize,
    sealed_access: usize,
    prover_id: &ProverId,
    sector_id: &SectorId,
) -> (r: SealResponse)
    ensures
        r.wf(),
        final(store).config == old(store).config,
        !old(store).is_live(unsealed_access) || !old(store).is_live(sealed_access) ==> r.status
            == ResponseStatus::UnclassifiedError && r.error == Some(
            BoundaryError::Collaborator(CollaboratorError::UnknownSectorAccess),
        ) && final(store).contents() =~= old(store).contents() && *final(engine) == *old(engine),
        old(store).is_live(unsealed_access) && old(store).is_live(sealed_access) && old(
            store,
        ).contents()[unsealed_access as int].len() > old(store).config.spec_max_unsealed_bytes()
            ==> r.status == ResponseStatus::UnclassifiedError && r.error == Some(
            BoundaryError::Collaborator(CollaboratorError::SectorSizeExceeded),
        ) && final(store).contents() =~= old(store).contents() && *final(engine) == *old(engine),
        ProvingEngine::spec_seal_accepted(*old(store), unsealed_access, sealed_access) ==> ({
            let k = old(engine).records@.len();
            &&& r.status == ResponseStatus::Success
            &&& r.error is None
            &&& r.comm_r.bytes@ == spec_comm_r(k)
            &&& r.comm_d.bytes@ == spec_comm_d(k)
            &&& r.proof.bytes@ == spec_seal_proof(k)
            &&& final(store).contents() =~= old(store).contents().update(
                sealed_access as int,
                ProvingEngine::spec_replica_of(*old(store), unsealed_access),
            )
            &&& final(engine).records@.len() == k + 1
            &&& final(engine).records@.subrange(0, k as int) =~= old(engine).records@
            &&& final(engine).records@[k as int].attests(
                spec_comm_r(k),
                spec_comm_d(k),
                prover_id.bytes@,
                sector_id.bytes@,
                spec_seal_proof(k),
            )
        }),
{
    match engine.seal(store, unsealed_access, sealed_access, prover_id, sector_id) {
        Ok(out) => SealResponse {
            status: ResponseStatus::Success,
            error: None,
            comm_r: out.comm_r,
            comm_d: out.comm_d,
            proof: out.proof,
        },
        Err(e) => SealResponse {
            status: ResponseStatus::UnclassifiedError,
            error: Some(BoundaryError::Collaborator(e)),
            comm_r: Commitment { bytes: [0; 32] },
            comm_d: Commitment { bytes: [0; 32] },
            proof: SnarkProof { bytes: [0; 192] },
        },
    }
}

/// Verifies the output of a seal. A clean negative verification is a
/// success whose validity flag is false; it is never conflated with an
/// engine failure.
pub fn verify_seal(
    engine: &ProvingEngine,
    comm_r: &Commitment,
    comm_d: &Commitment,
    prover_id: &ProverId,
    sector_id: &SectorId,
    seal_proof: &SnarkProof,
) -> (r: VerifySealResponse)
    ensures
        r.wf(),
        r.status == ResponseStatus::Success,
        r.error is None,
        r.is_valid == spec_has_record(
            engine.records@,
            comm_r.bytes@,
            comm_d.bytes@,
            prover_id.bytes@,
            sector_id.bytes@,
            seal_proof.bytes@,
        ),
{
    match engine.verify_seal(comm_r, comm_d, prover_id, sector_id, seal_proof) {
        Ok(valid) => VerifySealResponse {
            status: ResponseStatus::Success,
            error: None,
            is_valid: valid,
        },
        Err(e) => VerifySealResponse {
            status: ResponseStatus::UnclassifiedError,
            error: Some(BoundaryError::Collaborator(e)),
            is_valid: false,
        },
    }
}

/// Unseals `num_bytes` bytes of original data starting at `start_offset`
/// from a sealed access into an output access, reporting how many bytes
/// were written. Delivering fewer bytes than requested is a receiver
/// error that still reports the count delivered; only a collaborator
/// failure is an unclassified error.
pub fn get_unsealed_range(
    store: &mut SectorStore,
    engine: &ProvingEngine,
    sealed_access: usize,
    output_access: usize,
    prover_id: &ProverId,
    sector_id: &SectorId,
    start_offset: u64,
    num_bytes: u64,
) -> (r: GetUnsealedRangeResponse)
    ensures
        r.wf(),
        final(store).config == old(store).config,
        !old(store).is_live(sealed_access) || !old(store).is_live(output_access) ==> r.status
            == ResponseStatus::UnclassifiedError && r.error == Some(
            BoundaryError::Collaborator(CollaboratorError::UnknownSectorAccess),
        ) && r.num_bytes_written == 0 && final(store).contents() =~= old(store).contents(),
        old(store).is_live(sealed_access) && old(store).is_live(output_access) ==> ({
            let replica = old(store).contents()[sealed_access as int];
            let count = spec_unseal_count(
                replica.len() as int,
                start_offset as int,
                num_bytes as int,
            );
            &&& r.num_bytes_written as int == count
            &&& final(store).contents() =~= old(store).contents().update(
                output_access as int,
                spec_unseal_output(replica, start_offset as int, num_bytes as int),
            )
            &&& count == num_bytes as int ==> r.status == ResponseStatus::Success && r.error
                is None
            &&& count != num_bytes as int ==> r.status == ResponseStatus::ReceiverError
                && r.error == Some(
                BoundaryError::PartialUnseal { requested: num_bytes, unsealed: count as u64 },
            )
        }),
{
    match engine.unseal_range(
        store,
        sealed_access,
        output_access,
        prover_id,
        sector_id,
        start_offset,
        num_bytes,
    ) {
        Ok(n) => {
            if n == num_bytes {
                GetUnsealedRangeResponse {
                    status: ResponseStatus::Success,
                    error: None,
                    num_bytes_written: n,
                }
            } else {
                GetUnsealedRangeResponse {
                    status: ResponseStatus::ReceiverError,
                    error: Some(BoundaryError::PartialUnseal { requested: num_bytes, unsealed: n }),
                    num_bytes_written: n,
                }
            }
        },
        Err(e) => GetUnsealedRangeResponse {
            status: ResponseStatus::UnclassifiedError,
            error: Some(BoundaryError::Collaborator(e)),
            num_bytes_written: 0,
        },
    }
}

/// Unseals a whole sector: requests exactly the configured maximum number
/// of unsealed bytes per sector, starting at offset zero, and applies the
/// same success/receiver-error policy as the ranged unseal.
pub fn get_unsealed(
    store: &mut SectorStore,
    engine: &ProvingEngine,
    sealed_access: usize,
    output_access: usize,
    prover_id: &ProverId,
    sector_id: &SectorId,
) -> (r: GetUnsealedResponse)
    ensures
        r.wf(),
        final(store).config == old(store).config,
        !old(store).is_live(sealed_access) || !old(store).is_live(output_access) ==> r.status
            == ResponseStatus::UnclassifiedError && r.error == Some(
            BoundaryError::Collaborator(CollaboratorError::UnknownSectorAccess),
        ) && final(store).contents() =~= old(store).contents(),
        old(store).is_live(sealed_access) && old(store).is_live(output_access) ==> ({
            let sector_bytes = old(store).config.spec_max_unsealed_bytes();
            let replica = old(store).contents()[sealed_access as int];
            let count = spec_unseal_count(replica.len() as int, 0, sector_bytes as int);
            &&& final(store).contents() =~= old(store).contents().update(
                output_access as int,
                spec_unseal_output(replica, 0, sector_bytes as int),
            )
            &&& count == sector_bytes as int ==> r.status == ResponseStatus::Success && r.error
                is None
            &&& count != sector_bytes as int ==> r.status == ResponseStatus::ReceiverError
                && r.error == Some(
                BoundaryError::PartialUnseal { requested: sector_bytes, unsealed: count as u64 },
            )
        }),
{
    let sector_bytes = store.max_unsealed_bytes_per_sector();
    match engine.unseal_range(
        store,
        sealed_access,
        output_access,
        prover_id,
        sector_id,
        0,
        sector_bytes,
    ) {
        Ok(n) => {
            if n == sector_bytes {
                GetUnsealedResponse { status: ResponseStatus::Success, error: None }
            } else {
                GetUnsealedResponse {
                    status: ResponseStatus::ReceiverError,
                    error: Some(
                        BoundaryError::PartialUnseal { requested: sector_bytes, unsealed: n },
                    ),
                }
            }
        },
        Err(e) => GetUnsealedResponse {
            status: ResponseStatus::UnclassifiedError,
            error: Some(BoundaryError::Collaborator(e)),
        },
    }
}

/// Generates a proof-of-spacetime over a flattened buffer of consecutive
/// commitment-sized blocks. The buffer length must be a positive multiple
/// of the commitment size; the challenge seed is carried across the
/// boundary but not yet consumed by the placeholder rule.
pub fn generate_post(
    flattened_comm_rs: &Vec<u8>,
    _challenge_seed: &ChallengeSeed,
) -> (r: GeneratePostResponse)
    ensures
        r.wf(),
        flattened_comm_rs@.len() % 32 != 0 ==> r.status == ResponseStatus::UnclassifiedError
            && r.error == Some(BoundaryError::CommitmentBufferNotAligned) && r.faults@
            =~= Seq::<u8>::empty(),
        flattened_comm_rs@.len() % 32 == 0 && flattened_comm_rs@.len() == 0 ==> r.status
            == ResponseStatus::UnclassifiedError && r.error == Some(
            BoundaryError::CommitmentBufferEmpty,
        ) && r.faults@ =~= Seq::<u8>::empty(),
        flattened_comm_rs@.len() % 32 == 0 && flattened_comm_rs@.len() > 0 ==> ({
            let count = flattened_comm_rs@.len() / 32;
            &&& r.status == ResponseStatus::Success
            &&& r.error is None
            &&& r.proof.bytes@ =~= post::spec_post_proof()
            &&& r.faults@ =~= post::spec_fault_indices(count as int)
            &&& forall|i: int| 0 <= i < r.faults@.len() ==> r.faults@[i] < count
        }),
{
    let comms = match post::parse_commitments(flattened_comm_rs) {
        Some(comms) => comms,
        None => {
            return GeneratePostResponse {
                status: ResponseStatus::UnclassifiedError,
                error: Some(BoundaryError::CommitmentBufferNotAligned),
                proof: SnarkProof { bytes: [0; 192] },
                faults: Vec::new(),
            };
        },
    };
    if comms.len() == 0 {
        return GeneratePostResponse {
            status: ResponseStatus::UnclassifiedError,
            error: Some(BoundaryError::CommitmentBufferEmpty),
            proof: SnarkProof { bytes: [0; 192] },
            faults: Vec::new(),
        };
    }
    let faults = post::fault_indices(comms.len());
    GeneratePostResponse {
        status: ResponseStatus::Success,
        error: None,
        proof: post::post_proof(),
        faults,
    }
}

/// Verifies a proof-of-spacetime with the placeholder verdict paired to
/// the placeholder rule of PoSt generation.
pub fn verify_post(post_proof: &SnarkProof) -> (r: VerifyPostResponse)
    ensures
        r.wf(),
        r.status == ResponseStatus::Success,
        r.error is None,
        r.is_valid == post::spec_post_valid(post_proof.bytes@),
{
    let valid = post::is_post_proof(post_proof);
    VerifyPostResponse { status: ResponseStatus::Success, error: None, is_valid: valid }
}

/// Seal/verify roundtrip law: the record a successful seal appends is
/// recognised, so verifying with exactly the commitments, identifiers and
/// proof that the seal returned reports the seal valid.
pub proof fn lemma_seal_then_verify(records: Seq<SealRecord>, rec: SealRecord)
    ensures
        spec_has_record(
            records.push(rec),
            rec.comm_r.bytes@,
            rec.comm_d.bytes@,
            rec.prover_id.bytes@,
            rec.sector_id.bytes@,
            rec.proof.bytes@,
        ),
{
    let pushed = records.push(rec);
    assert(pushed[records.len() as int].attests(
        rec.comm_r.bytes@,
        rec.comm_d.bytes@,
        rec.prover_id.bytes@,
        rec.sector_id.bytes@,
        rec.proof.bytes@,
    ));
}

/// A recognised seal stays recognised: later seals only append records,
/// so verification of an earlier seal's outputs still succeeds.
pub proof fn lemma_verify_stable(
    records: Seq<SealRecord>,
    rec: SealRecord,
    comm_r: Seq<u8>,
    comm_d: Seq<u8>,
    prover: Seq<u8>,
    sector: Seq<u8>,
    proof_bytes: Seq<u8>,
)
    requires
        spec_has_record(records, comm_r, comm_d, prover, sector, proof_bytes),
    ensures
        spec_has_record(records.push(rec), comm_r, comm_d, prover, sector, proof_bytes),
{
    let i = choose|i: int|
        0 <= i < records.len() && records[i].attests(comm_r, comm_d, prover, sector, proof_bytes);
    assert(records.push(rec)[i].attests(comm_r, comm_d, prover, sector, proof_bytes));
}

/// Full unseal roundtrip law: unsealing the whole sector out of the
/// replica a seal wrote delivers exactly the configured number of bytes,
/// and the bytes delivered are the staged bytes followed by zero padding,
/// so the prefix is bit-identical to the original input.
pub proof fn lemma_seal_then_unseal_all(staged: Seq<u8>, sector_bytes: int)
    requires
        0 <= staged.len() <= sector_bytes,
    ensures
        ({
            let replica = spec_encode(spec_pad(staged, sector_bytes));
            &&& spec_unseal_count(replica.len() as int, 0, sector_bytes) == sector_bytes
            &&& spec_unseal_output(replica, 0, sector_bytes) =~= spec_pad(staged, sector_bytes)
            &&& spec_pad(staged, sector_bytes).subrange(0, staged.len() as int) =~= staged
        }),
{
    let padded = spec_pad(staged, sector_bytes);
    let replica = spec_encode(padded);
    assert forall|i: int| 0 <= i < sector_bytes implies spec_encode(replica)[i] == padded[i] by {
        let b = padded[i];
        assert(((b ^ REPLICA_MASK) ^ REPLICA_MASK) == b) by (bit_vector);
    }
    assert(spec_unseal_output(replica, 0, sector_bytes) =~= padded);
}

/// Ranged unseal law: for an offset and length within the unsealed
/// contents, the range delivered is exactly the requested slice of the
/// padded original data and the count equals the request; past the end,
/// the count is clamped to the bytes actually available.
pub proof fn lemma_seal_then_unseal_range(
    staged: Seq<u8>,
    sector_bytes: int,
    offset: int,
    num: int,
)
    requires
        0 <= staged.len() <= sector_bytes,
        0 <= offset,
        0 <= num,
    ensures
        ({
            let padded = spec_pad(staged, sector_bytes);
            let replica = spec_encode(padded);
            &&& offset + num <= sector_bytes ==> spec_unseal_count(
                replica.len() as int,
                offset,
                num,
            ) == num && spec_unseal_output(replica, offset, num) =~= padded.subrange(
                offset,
                offset + num,
            )
            &&& offset + num > sector_bytes ==> spec_unseal_count(
                replica.len() as int,
                offset,
                num,
            ) == (if offset >= sector_bytes {
                0
            } else {
                sector_bytes - offset
            })
        }),
{
    let padded = spec_pad(staged, sector_bytes);
    let replica = spec_encode(padded);
    assert forall|i: int| 0 <= i < sector_bytes implies spec_encode(replica)[i] == padded[i] by {
        let b = padded[i];
        assert(((b ^ REPLICA_MASK) ^ REPLICA_MASK) == b) by (bit_vector);
    }
    if offset + num <= sector_bytes {
        assert(spec_unseal_output(replica, offset, num) =~= padded.subrange(offset, offset + num));
    }
}

} // verus!
