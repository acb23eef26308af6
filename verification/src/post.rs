use vstd::prelude::*;
use crate::types::{Commitment, SnarkProof};

verus! {

/// The sentinel byte filling the placeholder PoSt proof. The proof
/// produced by PoSt generation is a documented stand-in for a real
/// aggregate-proof algorithm, and the verifier below is its paired
/// placeholder: the two must be replaced together.
pub const POST_PROOF_BYTE: u8 = 42;

/// The placeholder PoSt proof: every byte is the sentinel.
pub open spec fn spec_post_proof() -> Seq<u8> {
    Seq::new(192, |i: int| POST_PROOF_BYTE)
}

/// The placeholder PoSt rule for checking: a proof passes exactly when
/// its first byte is the sentinel written while making the proof.
pub open spec fn spec_post_valid(proof_bytes: Seq<u8>) -> bool {
    proof_bytes.len() == 192 && proof_bytes[0] == POST_PROOF_BYTE
}

/// The placeholder fault-attribution rule: with more than one commitment,
/// exactly the first index is flagged as faulty; otherwise none is. This
/// is not a cryptographic fault detector.
pub open spec fn spec_fault_indices(count: int) -> Seq<u8> {
    if count > 1 {
        seq![0u8]
    } else {
        Seq::<u8>::empty()
    }
}

/// The `i`-th consecutive commitment-sized block of a flattened buffer.
pub open spec fn spec_comm_chunk(buf: Seq<u8>, i: int) -> Seq<u8> {
    buf.subrange(32 * i, 32 * i + 32)
}

/// Splits a flattened buffer into consecutive commitment-sized blocks.
/// Parsing succeeds exactly when the buffer length is a multiple of the
/// commitment size; an empty buffer parses into an empty list.
pub fn parse_commitments(flattened: &Vec<u8>) -> (r: Option<Vec<Commitment>>)
    ensures
        flattened@.len() % 32 != 0 ==> r is None,
        flattened@.len() % 32 == 0 ==> (r matches Some(comms) && comms@.len() == flattened@.len()
            / 32 && forall|i: int|
            0 <= i < comms@.len() ==> comms@[i].bytes@ =~= spec_comm_chunk(flattened@, i)),
{
    if flattened.len() % 32 != 0 {
        return None;
    }
    let len = flattened.len();
    let count = len / 32;
    assert(32 * count <= len);
    let mut comms: Vec<Commitment> = Vec::new();
    let mut i: usize = 0;
    while i < count
        invariant
            i <= count,
            32 * count <= len,
            len == flattened@.len(),
            comms@.len() == i,
            forall|t: int| 0 <= t < i ==> comms@[t].bytes@ =~= spec_comm_chunk(flattened@, t),
        decreases count - i,
    {
        let mut chunk: [u8; 32] = [0; 32];
        let mut j: usize = 0;
        while j < 32
            invariant
                j <= 32,
                i < count,
                32 * count <= len,
                len == flattened@.len(),
                forall|t: int| 0 <= t < j ==> chunk@[t] == flattened@[32 * i + t],
            decreases 32 - j,
        {
            chunk[j] = flattened[32 * i + j];
            j = j + 1;
        }
        proof {
            assert(chunk@ =~= spec_comm_chunk(flattened@, i as int));
        }
        comms.push(Commitment { bytes: chunk });
        i = i + 1;
    }
    Some(comms)
}

/// Builds the fault list the placeholder rule prescribes for `count`
/// commitments.
pub fn fault_indices(count: usize) -> (v: Vec<u8>)
    ensures
        v@ =~= spec_fault_indices(count as int),
{
    let mut v: Vec<u8> = Vec::new();
    if count > 1 {
        v.push(0);
    }
    v
}

/// Builds the placeholder PoSt proof.
pub fn post_proof() -> (p: SnarkProof)
    ensures
        p.bytes@ =~= spec_post_proof(),
{
    let p = SnarkProof { bytes: [POST_PROOF_BYTE; 192] };
    proof {
        assert(p.bytes@ =~= spec_post_proof());
    }
    p
}

/// Applies the placeholder PoSt verdict to a proof.
pub fn is_post_proof(candidate: &SnarkProof) -> (r: bool)
    ensures
        r == spec_post_valid(candidate.bytes@),
{
    candidate.bytes[0] == POST_PROOF_BYTE
}

/// PoSt roundtrip law: for one or more commitments, the proof that PoSt
/// generation hands out is exactly what the paired verifier accepts, and
/// the fault list is empty for a single commitment, contains exactly the
/// first index for more than one, and never names an index outside the
/// commitment list.
pub proof fn lemma_post_roundtrip(count: int)
    requires
        count >= 1,
    ensures
        spec_post_valid(spec_post_proof()),
        count == 1 ==> spec_fault_indices(count) =~= Seq::<u8>::empty(),
        count > 1 ==> spec_fault_indices(count) =~= seq![0u8],
        forall|i: int|
            0 <= i < spec_fault_indices(count).len() ==> spec_fault_indices(count)[i] < count,
{
    assert(spec_post_proof()[0] == POST_PROOF_BYTE);
}

} // verus!
