use vstd::prelude::*;
use crate::error::CollaboratorError;
use crate::store::SectorStore;
use crate::types::{Commitment, ProverId, SectorId, SnarkProof};

verus! {

/// The byte every replica byte is XORed with. The production replica
/// encoding is a cryptographic transform owned by the proving engine and
/// out of scope here; the model uses a self-inverse byte cipher so that
/// sealing visibly transforms the data and unsealing provably restores it.
pub const REPLICA_MASK: u8 = 0x5A;

/// Tag byte filling a model replica commitment.
pub const COMM_R_TAG: u8 = 1;

/// Tag byte filling a model data commitment.
pub const COMM_D_TAG: u8 = 2;

/// Tag byte filling a model seal proof.
pub const SEAL_PROOF_TAG: u8 = 3;

/// One byte of the model replica encoding.
pub open spec fn encode_byte(b: u8) -> u8 {
    b ^ REPLICA_MASK
}

/// The model replica encoding of a whole byte sequence. The cipher is its
/// own inverse, so the same map also decodes.
pub open spec fn spec_encode(data: Seq<u8>) -> Seq<u8> {
    Seq::new(data.len(), |i: int| encode_byte(data[i]))
}

/// `data` extended with zero bytes up to `size` bytes. Meaningful when
/// `data` is no longer than `size`.
pub open spec fn spec_pad(data: Seq<u8>, size: int) -> Seq<u8> {
    Seq::new(size as nat, |i: int| if i < data.len() { data[i] } else { 0u8 })
}

/// A fixed-size blob whose first byte carries the seal counter and whose
/// remaining bytes carry a tag. The model derives commitments and seal
/// proofs this way; real commitment construction is the engine's own
/// cryptography and out of scope.
pub open spec fn spec_stamped_bytes(len: nat, tag: u8, k: nat) -> Seq<u8> {
    Seq::new(len, |i: int| if i == 0 { (k % 256) as u8 } else { tag })
}

/// The replica commitment the model returns for the `k`-th seal.
pub open spec fn spec_comm_r(k: nat) -> Seq<u8> {
    spec_stamped_bytes(32, COMM_R_TAG, k)
}

/// The data commitment the model returns for the `k`-th seal.
pub open spec fn spec_comm_d(k: nat) -> Seq<u8> {
    spec_stamped_bytes(32, COMM_D_TAG, k)
}

/// The seal proof the model returns for the `k`-th seal.
pub open spec fn spec_seal_proof(k: nat) -> Seq<u8> {
    spec_stamped_bytes(192, SEAL_PROOF_TAG, k)
}

/// How far into the unsealed data a ranged unseal starts: the requested
/// offset, clamped to the available length.
pub open spec fn spec_unseal_start(avail: int, offset: int) -> int {
    if offset >= avail {
        avail
    } else {
        offset
    }
}

/// How many bytes a ranged unseal delivers: the requested count, clamped
/// to what remains past the offset.
pub open spec fn spec_unseal_count(avail: int, offset: int, num: int) -> int {
    if num >= avail - spec_unseal_start(avail, offset) {
        avail - spec_unseal_start(avail, offset)
    } else {
        num
    }
}

/// The bytes a ranged unseal writes to the output access: the decoded
/// replica, restricted to the delivered range.
pub open spec fn spec_unseal_output(replica: Seq<u8>, offset: int, num: int) -> Seq<u8> {
    let start = spec_unseal_start(replica.len() as int, offset);
    let count = spec_unseal_count(replica.len() as int, offset, num);
    spec_encode(replica).subrange(start, start + count)
}

/// What one successful seal leaves behind inside the engine: enough to
/// recognise exactly the commitments and proof it handed out.
pub struct SealRecord {
    pub comm_r: Commitment,
    pub comm_d: Commitment,
    pub prover_id: ProverId,
    pub sector_id: SectorId,
    pub proof: SnarkProof,
}

impl SealRecord {
    /// The record attests precisely these five values.
    pub open spec fn attests(
        self,
        comm_r: Seq<u8>,
        comm_d: Seq<u8>,
        prover: Seq<u8>,
        sector: Seq<u8>,
        proof_bytes: Seq<u8>,
    ) -> bool {
        self.comm_r.bytes@ == comm_r && self.comm_d.bytes@ == comm_d && self.prover_id.bytes@
            == prover && self.sector_id.bytes@ == sector && self.proof.bytes@ == proof_bytes
    }
}

/// Some record in the list attests these five values.
pub open spec fn spec_has_record(
    records: Seq<SealRecord>,
    comm_r: Seq<u8>,
    comm_d: Seq<u8>,
    prover: Seq<u8>,
    sector: Seq<u8>,
    proof_bytes: Seq<u8>,
) -> bool {
    exists|i: int|
        0 <= i < records.len() && records[i].attests(comm_r, comm_d, prover, sector, proof_bytes)
}

/// What a successful seal returns across the boundary.
pub struct SealOutput {
    pub comm_r: Commitment,
    pub comm_d: Commitment,
    pub proof: SnarkProof,
}

/// In-memory model of the proving-engine collaborator. Sealing encodes the
/// staged bytes of a sector access into a replica, records the commitments
/// it handed out, and verification recognises exactly the recorded
/// outputs. The cryptographic proof system a production engine implements
/// is out of scope; the model keeps the engine's visible behaviour exact.
pub struct ProvingEngine {
    pub records: Vec<SealRecord>,
}

impl ProvingEngine {
    /// Sealing succeeds exactly when both accesses are live and the staged
    /// bytes fit in a sector.
    pub open spec fn spec_seal_accepted(store: SectorStore, unsealed: usize, sealed: usize) -> bool {
        store.is_live(unsealed) && store.is_live(sealed) && store.contents()[
            unsealed as int
        ].len() <= store.config.spec_max_unsealed_bytes()
    }

    /// The replica a seal writes: the staged bytes, zero-padded to the
    /// configured sector size, under the replica encoding.
    pub open spec fn spec_replica_of(store: SectorStore, unsealed: usize) -> Seq<u8> {
        spec_encode(
            spec_pad(
                store.contents()[unsealed as int],
                store.config.spec_max_unsealed_bytes() as int,
            ),
        )
    }

    pub fn new() -> (engine: ProvingEngine)
        ensures
            engine.records@ =~= Seq::<SealRecord>::empty(),
    {
        ProvingEngine { records: Vec::new() }
    }

    /// Seals the staged bytes at `unsealed_access` into a replica written
    /// to `sealed_access`, returning the two commitments and the proof.
    pub fn seal(
        &mut self,
        store: &mut SectorStore,
        unsealed_access: usize,
        sealed_access: usize,
        prover_id: &ProverId,
        sector_id: &SectorId,
    ) -> (r: Result<SealOutput, CollaboratorError>)
        ensures
            final(store).config == old(store).config,
            !old(store).is_live(unsealed_access) || !old(store).is_live(sealed_access) ==> r
                == Err::<SealOutput, CollaboratorError>(CollaboratorError::UnknownSectorAccess)
                && final(store).contents() =~= old(store).contents() && *final(self) == *old(self),
            old(store).is_live(unsealed_access) && old(store).is_live(sealed_access) && old(
                store,
            ).contents()[unsealed_access as int].len() > old(
                store,
            ).config.spec_max_unsealed_bytes() ==> r == Err::<SealOutput, CollaboratorError>(
                CollaboratorError::SectorSizeExceeded,
            ) && final(store).contents() =~= old(store).contents() && *final(self) == *old(self),
            Self::spec_seal_accepted(*old(store), unsealed_access, sealed_access) ==> ({
                let k = old(self).records@.len();
                let replica = Self::spec_replica_of(*old(store), unsealed_access);
                &&& (r matches Ok(out) && out.comm_r.bytes@ == spec_comm_r(k)
                    && out.comm_d.bytes@ == spec_comm_d(k) && out.proof.bytes@ == spec_seal_proof(
                    k,
                ))
                &&& final(store).contents() =~= old(store).contents().update(
                    sealed_access as int,
                    replica,
                )
                &&& final(self).records@.len() == k + 1
                &&& final(self).records@.subrange(0, k as int) =~= old(self).records@
                &&& final(self).records@[k as int].attests(
                    spec_comm_r(k),
                    spec_comm_d(k),
                    prover_id.bytes@,
                    sector_id.bytes@,
                    spec_seal_proof(k),
                )
            }),
    {
        if unsealed_access >= store.accesses.len() || sealed_access >= store.accesses.len() {
            return Err(CollaboratorError::UnknownSectorAccess);
        }
        let max = store.max_unsealed_bytes_per_sector();
        let staged_len = store.accesses[unsealed_access].len();
        if staged_len as u128 > max as u128 {
            return Err(CollaboratorError::SectorSizeExceeded);
        }
        let ghost staged_view = store.accesses@[unsealed_access as int]@;
        let mut replica: Vec<u8> = Vec::new();
        let mut i: usize = 0;
        while i < staged_len
            invariant
                i <= staged_len,
                unsealed_access < store.accesses@.len(),
                staged_view == store.accesses@[unsealed_access as int]@,
                staged_len == staged_view.len(),
                replica@.len() == i,
                forall|t: int| 0 <= t < i ==> replica@[t] == encode_byte(staged_view[t]),
            decreases staged_len - i,
        {
            let b = store.accesses[unsealed_access][i];
            replica.push(b ^ REPLICA_MASK);
            i = i + 1;
        }
        while (replica.len() as u64) < max
            invariant
                staged_len <= replica@.len(),
                replica@.len() <= max,
                staged_len == staged_view.len(),
                forall|t: int| 0 <= t < staged_len ==> replica@[t] == encode_byte(staged_view[t]),
                forall|t: int|
                    staged_len <= t < replica@.len() ==> replica@[t] == encode_byte(0u8),
            decreases max - replica@.len(),
        {
            proof {
                assert((0u8 ^ REPLICA_MASK) == REPLICA_MASK) by (bit_vector);
            }
            replica.push(REPLICA_MASK);
        }
        proof {
            assert(replica@ =~= Self::spec_replica_of(*old(store), unsealed_access));
        }
        store.accesses.set(sealed_access, replica);
        let k = self.records.len();
        let comm_r = Commitment { bytes: stamped_bytes::<32>(COMM_R_TAG, k) };
        let comm_d = Commitment { bytes: stamped_bytes::<32>(COMM_D_TAG, k) };
        let seal_proof = SnarkProof { bytes: stamped_bytes::<192>(SEAL_PROOF_TAG, k) };
        self.records.push(
            SealRecord {
                comm_r,
                comm_d,
                prover_id: *prover_id,
                sector_id: *sector_id,
                proof: seal_proof,
            },
        );
        proof {
            assert(self.records@.subrange(0, k as int) =~= old(self).records@);
        }
        Ok(SealOutput { comm_r, comm_d, proof: seal_proof })
    }

    /// Reports whether a seal with exactly these commitments, identifiers
    /// and proof was produced by this engine.
    pub fn verify_seal(
        &self,
        comm_r: &Commitment,
        comm_d: &Commitment,
        prover_id: &ProverId,
        sector_id: &SectorId,
        seal_proof: &SnarkProof,
    ) -> (r: Result<bool, CollaboratorError>)
        ensures
            r == Ok::<bool, CollaboratorError>(
                spec_has_record(
                    self.records@,
                    comm_r.bytes@,
                    comm_d.bytes@,
                    prover_id.bytes@,
                    sector_id.bytes@,
                    seal_proof.bytes@,
                ),
            ),
    {
        let mut i: usize = 0;
        while i < self.records.len()
            invariant
                i <= self.records@.len(),
                forall|t: int|
                    0 <= t < i ==> !self.records@[t].attests(
                        comm_r.bytes@,
                        comm_d.bytes@,
                        prover_id.bytes@,
                        sector_id.bytes@,
                        seal_proof.bytes@,
                    ),
            decreases self.records@.len() - i,
        {
            let rec = &self.records[i];
            if bytes_eq::<32>(&rec.comm_r.bytes, &comm_r.bytes) && bytes_eq::<32>(
                &rec.comm_d.bytes,
                &comm_d.bytes,
            ) && bytes_eq::<31>(&rec.prover_id.bytes, &prover_id.bytes) && bytes_eq::<31>(
                &rec.sector_id.bytes,
                &sector_id.bytes,
            ) && bytes_eq::<192>(&rec.proof.bytes, &seal_proof.bytes) {
                return Ok(true);
            }
            i = i + 1;
        }
        Ok(false)
    }

    /// Unseals up to `num_bytes` bytes of original data starting at
    /// `start_offset`, writing them to `output_access` and returning how
    /// many bytes were delivered. The count falls short of the request
    /// exactly when the unsealed contents run out.
    pub fn unseal_range(
        &self,
        store: &mut SectorStore,
        sealed_access: usize,
        output_access: usize,
        prover_id: &ProverId,
        sector_id: &SectorId,
        start_offset: u64,
        num_bytes: u64,
    ) -> (r: Result<u64, CollaboratorError>)
        ensures
            final(store).config == old(store).config,
            !old(store).is_live(sealed_access) || !old(store).is_live(output_access) ==> r
                == Err::<u64, CollaboratorError>(CollaboratorError::UnknownSectorAccess)
                && final(store).contents() =~= old(store).contents(),
            old(store).is_live(sealed_access) && old(store).is_live(output_access) ==> ({
                let replica = old(store).contents()[sealed_access as int];
                let count = spec_unseal_count(
                    replica.len() as int,
                    start_offset as int,
                    num_bytes as int,
                );
                &&& (r matches Ok(n) && n as int == count)
                &&& final(store).contents() =~= old(store).contents().update(
                    output_access as int,
                    spec_unseal_output(replica, start_offset as int, num_bytes as int),
                )
            }),
    {
        if sealed_access >= store.accesses.len() || output_access >= store.accesses.len() {
            return Err(CollaboratorError::UnknownSectorAccess);
        }
        let avail: usize = store.accesses[sealed_access].len();
        let start_us: usize = if start_offset >= avail as u64 {
            avail
        } else {
            start_offset as usize
        };
        let rem: usize = avail - start_us;
        let n_us: usize = if num_bytes >= rem as u64 {
            rem
        } else {
            num_bytes as usize
        };
        let ghost replica_view = store.accesses@[sealed_access as int]@;
        let mut out: Vec<u8> = Vec::new();
        let mut j: usize = 0;
        while j < n_us
            invariant
                j <= n_us,
                sealed_access < store.accesses@.len(),
                replica_view == store.accesses@[sealed_access as int]@,
                avail == replica_view.len(),
                start_us + n_us <= avail,
                out@.len() == j,
                forall|t: int|
                    0 <= t < j ==> out@[t] == encode_byte(replica_view[start_us + t]),
            decreases n_us - j,
        {
            let b = store.accesses[sealed_access][start_us + j];
            out.push(b ^ REPLICA_MASK);
            j = j + 1;
        }
        proof {
            assert(out@ =~= spec_unseal_output(
                replica_view,
                start_offset as int,
                num_bytes as int,
            ));
        }
        store.accesses.set(output_access, out);
        Ok(n_us as u64)
    }
}

/// Compares two fixed-size byte blocks for equality of their contents.
fn bytes_eq<const N: usize>(a: &[u8; N], b: &[u8; N]) -> (r: bool)
    ensures
        r <==> a@ == b@,
{
    let mut i: usize = 0;
    while i < N
        invariant
            i <= N,
            forall|t: int| 0 <= t < i ==> a@[t] == b@[t],
        decreases N - i,
    {
        if a[i] != b[i] {
            return false;
        }
        i = i + 1;
    }
    proof {
        assert(a@ =~= b@);
    }
    true
}

/// Builds a fixed-size blob whose first byte carries the seal counter and
/// whose remaining bytes carry a tag.
fn stamped_bytes<const N: usize>(tag: u8, k: usize) -> (r: [u8; N])
    requires
        N >= 1,
    ensures
        r@ =~= spec_stamped_bytes(N as nat, tag, k as nat),
{
    let mut bytes: [u8; N] = [tag; N];
    bytes[0] = (k % 256) as u8;
    proof {
        assert(bytes@ =~= spec_stamped_bytes(N as nat, tag, k as nat));
    }
    bytes
}

} // verus!
