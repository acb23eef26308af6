use vstd::prelude::*;
use crate::error::CollaboratorError;

verus! {

/// The three supported store configurations. Each fixes how many unsealed
/// bytes one sector holds.
#[derive(Clone, Copy, Debug, PartialEq, Eq, Structural)]
pub enum ConfiguredStore {
    Live,
    Test,
    ProofTest,
}

impl ConfiguredStore {
    /// The configured maximum number of unsealed bytes per sector. These
    /// literal values are part of the boundary contract.
    pub open spec fn spec_max_unsealed_bytes(self) -> u64 {
        match self {
            ConfiguredStore::Live => 1065353216u64,
            ConfiguredStore::Test => 1016u64,
            ConfiguredStore::ProofTest => 127u64,
        }
    }

    /// Reports the configured sector size, byte for byte the literal the
    /// configuration was set up with.
    pub fn max_unsealed_bytes_per_sector(&self) -> (r: u64)
        ensures
            r == self.spec_max_unsealed_bytes(),
    {
        match self {
            ConfiguredStore::Live => 1065353216,
            ConfiguredStore::Test => 1016,
            ConfiguredStore::ProofTest => 127,
        }
    }
}

/// In-memory model of the sector-store collaborator. A sector access is an
/// opaque handle issued by the store; the handle indexes the bytes the
/// store holds for that access. The on-disk layout a production store
/// would manage is out of scope here: the model keeps the bytes directly,
/// so that every operation against the store has an exact contract.
pub struct SectorStore {
    pub config: ConfiguredStore,
    pub accesses: Vec<Vec<u8>>,
}

impl SectorStore {
    /// The bytes currently held at each live access, as one mathematical
    /// sequence per access handle.
    pub open spec fn contents(self) -> Seq<Seq<u8>> {
        Seq::new(self.accesses@.len(), |i: int| self.accesses@[i]@)
    }

    /// A handle names a live access.
    pub open spec fn is_live(self, access: usize) -> bool {
        access < self.contents().len()
    }

    pub fn new(config: ConfiguredStore) -> (store: SectorStore)
        ensures
            store.config == config,
            store.contents() =~= Seq::<Seq<u8>>::empty(),
    {
        SectorStore { config, accesses: Vec::new() }
    }

    /// The active configuration's sector size.
    pub fn max_unsealed_bytes_per_sector(&self) -> (r: u64)
        ensures
            r == self.config.spec_max_unsealed_bytes(),
    {
        self.config.max_unsealed_bytes_per_sector()
    }

    /// Issues a fresh, empty sector access and returns its handle. Handles
    /// already issued keep their contents.
    pub fn new_sector_access(&mut self) -> (access: usize)
        ensures
            access == old(self).contents().len(),
            final(self).config == old(self).config,
            final(self).contents() =~= old(self).contents().push(Seq::<u8>::empty()),
    {
        let access = self.accesses.len();
        self.accesses.push(Vec::new());
        proof {
            assert(final(self).contents() =~= old(self).contents().push(Seq::<u8>::empty()));
        }
        access
    }

    /// Appends raw bytes to a staging access, refusing a write that would
    /// grow the access past the configured sector size. Returns the number
    /// of bytes written. (The bit-level preprocessing a production store
    /// performs while staging is out of scope; the model stages the bytes
    /// verbatim.)
    pub fn write_and_preprocess(&mut self, access: usize, data: &Vec<u8>) -> (r: Result<
        u64,
        CollaboratorError,
    >)
        ensures
            final(self).config == old(self).config,
            !old(self).is_live(access) ==> r == Err::<u64, CollaboratorError>(
                CollaboratorError::UnknownSectorAccess,
            ) && final(self).contents() =~= old(self).contents(),
            old(self).is_live(access) && old(self).contents()[access as int].len() + data@.len()
                > old(self).config.spec_max_unsealed_bytes() ==> r == Err::<
                u64,
                CollaboratorError,
            >(CollaboratorError::SectorSizeExceeded) && final(self).contents() =~= old(
                self,
            ).contents(),
            old(self).is_live(access) && old(self).contents()[access as int].len() + data@.len()
                <= old(self).config.spec_max_unsealed_bytes() ==> r == Ok::<
                u64,
                CollaboratorError,
            >(data@.len() as u64) && final(self).contents() =~= old(self).contents().update(
                access as int,
                old(self).contents()[access as int] + data@,
            ),
    {
        if access >= self.accesses.len() {
            return Err(CollaboratorError::UnknownSectorAccess);
        }
        let max = self.config.max_unsealed_bytes_per_sector();
        let cur_len = self.accesses[access].len();
        if cur_len as u128 + data.len() as u128 > max as u128 {
            return Err(CollaboratorError::SectorSizeExceeded);
        }
        let mut updated: Vec<u8> = Vec::new();
        let mut i: usize = 0;
        while i < cur_len
            invariant
                i <= cur_len,
                cur_len == self.accesses@[access as int]@.len(),
                access < self.accesses@.len(),
                updated@ =~= self.accesses@[access as int]@.subrange(0, i as int),
            decreases cur_len - i,
        {
            updated.push(self.accesses[access][i]);
            i = i + 1;
        }
        proof {
            assert(updated@ =~= self.accesses@[access as int]@ + data@.subrange(0, 0));
        }
        let mut j: usize = 0;
        while j < data.len()
            invariant
                j <= data@.len(),
                access < self.accesses@.len(),
                updated@ =~= self.accesses@[access as int]@ + data@.subrange(0, j as int),
            decreases data@.len() - j,
        {
            updated.push(data[j]);
            j = j + 1;
        }
        self.accesses.set(access, updated);
        proof {
            assert(data@.subrange(0, data@.len() as int) =~= data@);
            assert(self.contents() =~= old(self).contents().update(
                access as int,
                old(self).contents()[access as int] + data@,
            ));
        }
        Ok(data.len() as u64)
    }

    /// Reads `num_bytes` raw bytes starting at `start` from an access,
    /// refusing a read past the end of the access's contents.
    pub fn read_raw(&self, access: usize, start: u64, num_bytes: u64) -> (r: Result<
        Vec<u8>,
        CollaboratorError,
    >)
        ensures
            !self.is_live(access) ==> r == Err::<Vec<u8>, CollaboratorError>(
                CollaboratorError::UnknownSectorAccess,
            ),
            self.is_live(access) && start + num_bytes > self.contents()[access as int].len() ==> r
                == Err::<Vec<u8>, CollaboratorError>(CollaboratorError::ReadOutOfRange),
            self.is_live(access) && start + num_bytes <= self.contents()[access as int].len()
                ==> (r matches Ok(v) && v@ =~= self.contents()[access as int].subrange(
                start as int,
                start as int + num_bytes as int,
            )),
    {
        if access >= self.accesses.len() {
            return Err(CollaboratorError::UnknownSectorAccess);
        }
        let len = self.accesses[access].len();
        if start as u128 + num_bytes as u128 > len as u128 {
            return Err(CollaboratorError::ReadOutOfRange);
        }
        assert(start + num_bytes <= len);
        let start_us: usize = start as usize;
        let num_us: usize = num_bytes as usize;
        let mut out: Vec<u8> = Vec::new();
        let mut j: usize = 0;
        while j < num_us
            invariant
                j <= num_us,
                access < self.accesses@.len(),
                len == self.accesses@[access as int]@.len(),
                start_us + num_us <= len,
                start_us as int == start as int,
                num_us as int == num_bytes as int,
                out@ =~= self.accesses@[access as int]@.subrange(
                    start_us as int,
                    start_us as int + j as int,
                ),
            decreases num_us - j,
        {
            out.push(self.accesses[access][start_us + j]);
            j = j + 1;
        }
        Ok(out)
    }
}

} // verus!
