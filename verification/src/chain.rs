//! Plain-value model of the collaborators the driver reads and writes: the
//! chain store (block headers, state headers, the `StateParts` column, flat
//! storage and finalization marks) and the epoch manager (per-epoch shard
//! layouts and heights).
//!
//! Writes that can fail in the real store are driven by injectable fault
//! flags, so every caller is verified for both outcomes of each write.

use vstd::prelude::*;

use crate::assoc::{AssocMap, MapKey};
use crate::types::{Action, CryptoHash, PartId, ShardUId, StateHeaderInfo, SyncError};

verus! {

impl MapKey for CryptoHash {
    fn key_eq(&self, other: &Self) -> (r: bool)
        ensures
            r == (*self == *other),
    {
        *self == *other
    }
}

impl MapKey for ShardUId {
    fn key_eq(&self, other: &Self) -> (r: bool)
        ensures
            r == (*self == *other),
    {
        *self == *other
    }
}

/// Key of a stored shard state header: the shard and the sync anchor.
#[derive(Clone, Copy, PartialEq, Eq, Structural, Debug)]
pub struct StateHeaderKey {
    pub shard_id: u64,
    pub sync_hash: CryptoHash,
}

impl MapKey for StateHeaderKey {
    fn key_eq(&self, other: &Self) -> (r: bool)
        ensures
            r == (*self == *other),
    {
        *self == *other
    }
}

/// Logical key of one `StateParts` row.
#[derive(Clone, Copy, PartialEq, Eq, Structural, Debug)]
pub struct StatePartKey {
    pub sync_hash: CryptoHash,
    pub shard_id: u64,
    pub part_idx: u64,
}

impl MapKey for StatePartKey {
    fn key_eq(&self, other: &Self) -> (r: bool)
        ensures
            r == (*self == *other),
    {
        *self == *other
    }
}

/// The little-endian bytes of a 64-bit integer.
pub open spec fn u64_le_bytes(x: u64) -> Seq<u8> {
    seq![
        (x & 0xff) as u8,
        ((x >> 8) & 0xff) as u8,
        ((x >> 16) & 0xff) as u8,
        ((x >> 24) & 0xff) as u8,
        ((x >> 32) & 0xff) as u8,
        ((x >> 40) & 0xff) as u8,
        ((x >> 48) & 0xff) as u8,
        ((x >> 56) & 0xff) as u8,
    ]
}

/// The 32 bytes of a hash, word by word.
pub open spec fn hash_bytes(h: CryptoHash) -> Seq<u8> {
    u64_le_bytes(h.w0) + u64_le_bytes(h.w1) + u64_le_bytes(h.w2) + u64_le_bytes(h.w3)
}

/// The serialized key under which one part is written to the `StateParts`
/// column: the 32 hash bytes followed by the shard and part index, each as
/// eight little-endian bytes.
pub open spec fn part_row_key_bytes(sync_hash: CryptoHash, shard_id: u64, part_idx: u64) -> Seq<
    u8,
> {
    hash_bytes(sync_hash) + u64_le_bytes(shard_id) + u64_le_bytes(part_idx)
}

/// Relies on borsh::to_vec: fixed-width integers serialize to their
/// little-endian bytes, tuple fields are concatenated in order, and writing
/// into a fresh vector cannot fail.
#[verifier::external_body]
fn borsh_part_key(sync_hash: &CryptoHash, shard_id: u64, part_idx: u64) -> (r: Vec<u8>)
    ensures
        r@ == part_row_key_bytes(*sync_hash, shard_id, part_idx),
{
    let t = (sync_hash.w0, sync_hash.w1, sync_hash.w2, sync_hash.w3, shard_id, part_idx);
    match borsh::to_vec(&t) {
        Ok(v) => v,
        Err(_) => Vec::new(),
    }
}

/// What the driver reads from a block header: the parent link, the epoch the
/// block belongs to, and its height (which makes walks toward genesis
/// terminate).
#[derive(Clone, Copy, PartialEq, Eq, Structural, Debug)]
pub struct BlockHeaderInfo {
    pub prev_hash: CryptoHash,
    pub epoch_id: CryptoHash,
    pub height: u64,
}

/// Every stored header's parent is either absent (genesis boundary, written
/// as the zero hash) or stored with a strictly smaller height.
pub open spec fn headers_wf(m: Map<CryptoHash, BlockHeaderInfo>) -> bool {
    forall|h: CryptoHash|
        #[trigger] m.contains_key(h) ==> (m[h].prev_hash != CryptoHash::zero_spec() ==> (
        m.contains_key(m[h].prev_hash) && m[m[h].prev_hash].height < m[h].height))
}

/// Stored state headers always report a representable part count.
pub open spec fn state_headers_wf(m: Map<StateHeaderKey, StateHeaderInfo>) -> bool {
    forall|k: StateHeaderKey|
        #[trigger] m.contains_key(k) ==> 1 <= m[k].num_parts <= 0xffff_ffff
}

/// One row of the `StateParts` column: the serialized key it was written
/// under and the part bytes.
#[derive(Clone, PartialEq, Eq, Debug)]
pub struct StatePartRow {
    pub key_bytes: Vec<u8>,
    pub data: Vec<u8>,
}

/// Injectable failure switches for the fallible chain-store writes.  The real
/// store fails for reasons outside this model (disk faults, a corrupt header,
/// a part that does not match the state root); each flag stands for one such
/// reason.
#[derive(Clone, Copy, PartialEq, Eq, Structural, Debug)]
pub struct ChainFaults {
    pub set_state_header: bool,
    pub validate_part: bool,
    pub set_state_part: bool,
    pub schedule_apply: bool,
    pub create_flat_storage: bool,
    pub set_state_finalize: bool,
    pub clear_parts: bool,
}

impl ChainFaults {
    /// No injected failures: every write succeeds.
    pub fn none() -> (r: ChainFaults)
        ensures
            r == ChainFaults::none_spec(),
    {
        ChainFaults {
            set_state_header: false,
            validate_part: false,
            set_state_part: false,
            schedule_apply: false,
            create_flat_storage: false,
            set_state_finalize: false,
            clear_parts: false,
        }
    }

    pub open spec fn none_spec() -> ChainFaults {
        ChainFaults {
            set_state_header: false,
            validate_part: false,
            set_state_part: false,
            schedule_apply: false,
            create_flat_storage: false,
            set_state_finalize: false,
            clear_parts: false,
        }
    }
}

/// The chain store as the driver sees it.
pub struct ChainEnv {
    pub headers: AssocMap<CryptoHash, BlockHeaderInfo>,
    pub state_headers: AssocMap<StateHeaderKey, StateHeaderInfo>,
    pub parts: AssocMap<StatePartKey, StatePartRow>,
    pub flat_storage: AssocMap<ShardUId, bool>,
    pub finalized: AssocMap<u64, CryptoHash>,
    pub faults: ChainFaults,
}

impl ChainEnv {
    pub open spec fn wf(self) -> bool {
        &&& headers_wf(self.headers@)
        &&& state_headers_wf(self.state_headers@)
    }

    pub fn new() -> (r: ChainEnv)
        ensures
            r.wf(),
            r.headers@ == Map::<CryptoHash, BlockHeaderInfo>::empty(),
            r.state_headers@ == Map::<StateHeaderKey, StateHeaderInfo>::empty(),
            r.parts@ == Map::<StatePartKey, StatePartRow>::empty(),
            r.flat_storage@ == Map::<ShardUId, bool>::empty(),
            r.finalized@ == Map::<u64, CryptoHash>::empty(),
            r.faults == ChainFaults::none_spec(),
    {
        ChainEnv {
            headers: AssocMap::new(),
            state_headers: AssocMap::new(),
            parts: AssocMap::new(),
            flat_storage: AssocMap::new(),
            finalized: AssocMap::new(),
            faults: ChainFaults::none(),
        }
    }

    /// Adds a block header, keeping the store well formed.  Returns false —
    /// and stores nothing — when the hash is already present, or the parent
    /// link is neither the zero hash nor a stored header of smaller height.
    pub fn insert_block_header(&mut self, hash: CryptoHash, info: BlockHeaderInfo) -> (r: bool)
        requires
            old(self).wf(),
        ensures
            final(self).wf(),
            r ==> final(self).headers@ == old(self).headers@.insert(hash, info),
            !r ==> final(self).headers@ == old(self).headers@,
            r == (!old(self).headers@.contains_key(hash) && (info.prev_hash
                == CryptoHash::zero_spec() || (old(self).headers@.contains_key(info.prev_hash)
                && old(self).headers@[info.prev_hash].height < info.height))),
            final(self).state_headers == old(self).state_headers,
            final(self).parts == old(self).parts,
            final(self).flat_storage == old(self).flat_storage,
            final(self).finalized == old(self).finalized,
            final(self).faults == old(self).faults,
    {
        if self.headers.contains_key(&hash) {
            return false;
        }
        let ok = if hash_eq(&info.prev_hash, &CryptoHash::zero()) {
            true
        } else {
            match self.headers.get(&info.prev_hash) {
                Some(prev) => prev.height < info.height,
                None => false,
            }
        };
        if !ok {
            return false;
        }
        self.headers.insert(hash, info);
        true
    }

    /// Looks a block header up.
    pub fn get_block_header(&self, hash: &CryptoHash) -> (r: Result<BlockHeaderInfo, SyncError>)
        ensures
            match r {
                Ok(info) => self.headers@.contains_key(*hash) && info == self.headers@[*hash],
                Err(e) => !self.headers@.contains_key(*hash) && e == SyncError::BlockHeaderMissing,
            },
    {
        match self.headers.get(hash) {
            Some(info) => Ok(*info),
            None => Err(SyncError::BlockHeaderMissing),
        }
    }

    /// Looks the stored state header of a shard up.
    pub fn get_state_header(&self, shard_id: u64, sync_hash: CryptoHash) -> (r: Result<
        StateHeaderInfo,
        SyncError,
    >)
        ensures
            match r {
                Ok(info) => self.state_headers@.contains_key(
                    StateHeaderKey { shard_id, sync_hash },
                ) && info == self.state_headers@[StateHeaderKey { shard_id, sync_hash }],
                Err(e) => !self.state_headers@.contains_key(StateHeaderKey { shard_id, sync_hash })
                    && e == SyncError::StateHeaderMissing,
            },
    {
        match self.state_headers.get(&StateHeaderKey { shard_id, sync_hash }) {
            Some(info) => Ok(*info),
            None => Err(SyncError::StateHeaderMissing),
        }
    }

    /// Validates and persists a shard's state header.  Fails — storing
    /// nothing — when the write is faulted or the header reports an
    /// unrepresentable part count.
    pub fn set_state_header(
        &mut self,
        shard_id: u64,
        sync_hash: CryptoHash,
        header: StateHeaderInfo,
    ) -> (r: Result<(), SyncError>)
        requires
            old(self).wf(),
        ensures
            final(self).wf(),
            match r {
                Ok(()) => !old(self).faults.set_state_header && 1 <= header.num_parts
                    <= 0xffff_ffff && final(self).state_headers@ == old(self).state_headers@.insert(StateHeaderKey { shard_id, sync_hash }, header),
                Err(e) => {
                    &&& final(self).state_headers == old(self).state_headers
                    &&& (old(self).faults.set_state_header ==> e == SyncError::StorageFault)
                    &&& (!old(self).faults.set_state_header ==> e == SyncError::HeaderInvalid && !(
                    1 <= header.num_parts <= 0xffff_ffff))
                },
            },
            final(self).headers == old(self).headers,
            final(self).parts == old(self).parts,
            final(self).flat_storage == old(self).flat_storage,
            final(self).finalized == old(self).finalized,
            final(self).faults == old(self).faults,
    {
        if self.faults.set_state_header {
            return Err(SyncError::StorageFault);
        }
        if header.num_parts < 1 || header.num_parts > 0xffff_ffff {
            return Err(SyncError::HeaderInvalid);
        }
        self.state_headers.insert(StateHeaderKey { shard_id, sync_hash }, header);
        Ok(())
    }

    /// Validates a part received from a peer against the state root and
    /// persists it as one `StateParts` row.  Fails — storing nothing — when
    /// validation or the write is faulted.
    pub fn set_state_part(
        &mut self,
        shard_id: u64,
        sync_hash: CryptoHash,
        part_id: PartId,
        data: &Vec<u8>,
    ) -> (r: Result<(), SyncError>)
        ensures
            match r {
                Ok(()) => !old(self).faults.validate_part && !old(self).faults.set_state_part
                    && part_stored(old(self).parts@, final(self).parts@, sync_hash, shard_id,
                part_id.idx, data@),
                Err(e) => {
                    &&& final(self).parts == old(self).parts
                    &&& (old(self).faults.validate_part ==> e == SyncError::PartInvalid)
                    &&& (!old(self).faults.validate_part ==> old(self).faults.set_state_part && e
                        == SyncError::StorageFault)
                },
            },
            final(self).headers == old(self).headers,
            final(self).state_headers == old(self).state_headers,
            final(self).flat_storage == old(self).flat_storage,
            final(self).finalized == old(self).finalized,
            final(self).faults == old(self).faults,
    {
        if self.faults.validate_part {
            return Err(SyncError::PartInvalid);
        }
        if self.faults.set_state_part {
            return Err(SyncError::StorageFault);
        }
        self.store_part_row(shard_id, sync_hash, part_id.idx, data);
        Ok(())
    }

    /// Validates an externally fetched part and persists it, returning its
    /// byte length; the entry point for fetch tasks.
    pub fn store_external_part(
        &mut self,
        shard_id: u64,
        sync_hash: CryptoHash,
        part_idx: u64,
        data: &Vec<u8>,
    ) -> (r: Result<u64, SyncError>)
        requires
            data@.len() <= 0xffff_ffff_ffff_ffff,
        ensures
            match r {
                Ok(n) => !old(self).faults.validate_part && !old(self).faults.set_state_part && n
                    == data@.len() && part_stored(old(self).parts@, final(self).parts@, sync_hash,
                shard_id, part_idx, data@),
                Err(e) => {
                    &&& final(self).parts == old(self).parts
                    &&& (old(self).faults.validate_part ==> e == SyncError::PartInvalid)
                    &&& (!old(self).faults.validate_part ==> old(self).faults.set_state_part && e
                        == SyncError::StorageFault)
                },
            },
            final(self).headers == old(self).headers,
            final(self).state_headers == old(self).state_headers,
            final(self).flat_storage == old(self).flat_storage,
            final(self).finalized == old(self).finalized,
            final(self).faults == old(self).faults,
    {
        if self.faults.validate_part {
            return Err(SyncError::PartInvalid);
        }
        if self.faults.set_state_part {
            return Err(SyncError::StorageFault);
        }
        self.store_part_row(shard_id, sync_hash, part_idx, data);
        Ok(data.len() as u64)
    }

    /// Writes one `StateParts` row under its serialized key.
    fn store_part_row(&mut self, shard_id: u64, sync_hash: CryptoHash, part_idx: u64, data: &Vec<u8>)
        ensures
            part_stored(old(self).parts@, final(self).parts@, sync_hash, shard_id, part_idx,
            data@),
            final(self).headers == old(self).headers,
            final(self).state_headers == old(self).state_headers,
            final(self).flat_storage == old(self).flat_storage,
            final(self).finalized == old(self).finalized,
            final(self).faults == old(self).faults,
    {
        let key_bytes = borsh_part_key(&sync_hash, shard_id, part_idx);
        let row = StatePartRow { key_bytes, data: data.clone() };
        self.parts.insert(StatePartKey { sync_hash, shard_id, part_idx }, row);
    }

    /// The stored row of one part, if present.
    pub fn get_state_part_row(&self, shard_id: u64, sync_hash: CryptoHash, part_idx: u64) -> (r:
        Option<&StatePartRow>)
        ensures
            match r {
                Some(row) => self.parts@.contains_key(StatePartKey { sync_hash, shard_id, part_idx })
                    && *row == self.parts@[StatePartKey { sync_hash, shard_id, part_idx }],
                None => !self.parts@.contains_key(StatePartKey { sync_hash, shard_id, part_idx }),
            },
    {
        self.parts.get(&StatePartKey { sync_hash, shard_id, part_idx })
    }

    /// Creates the flat-storage view for a shard.
    pub fn create_flat_storage_for_shard(&mut self, shard_uid: ShardUId) -> (r: Result<
        (),
        SyncError,
    >)
        ensures
            match r {
                Ok(()) => !old(self).faults.create_flat_storage && final(self).flat_storage@ == old(self).flat_storage@.insert(shard_uid, true),
                Err(e) => old(self).faults.create_flat_storage && e == SyncError::StorageFault
                    && final(self).flat_storage == old(self).flat_storage,
            },
            final(self).headers == old(self).headers,
            final(self).state_headers == old(self).state_headers,
            final(self).parts == old(self).parts,
            final(self).finalized == old(self).finalized,
            final(self).faults == old(self).faults,
    {
        if self.faults.create_flat_storage {
            return Err(SyncError::StorageFault);
        }
        self.flat_storage.insert(shard_uid, true);
        Ok(())
    }

    /// Marks a shard's synced state final.
    pub fn set_state_finalize(&mut self, shard_id: u64, sync_hash: CryptoHash) -> (r: Result<
        (),
        SyncError,
    >)
        ensures
            match r {
                Ok(()) => !old(self).faults.set_state_finalize && final(self).finalized@ == old(self).finalized@.insert(shard_id, sync_hash),
                Err(e) => old(self).faults.set_state_finalize && e == SyncError::StorageFault
                    && final(self).finalized == old(self).finalized,
            },
            final(self).headers == old(self).headers,
            final(self).state_headers == old(self).state_headers,
            final(self).parts == old(self).parts,
            final(self).flat_storage == old(self).flat_storage,
            final(self).faults == old(self).faults,
    {
        if self.faults.set_state_finalize {
            return Err(SyncError::StorageFault);
        }
        self.finalized.insert(shard_id, sync_hash);
        Ok(())
    }

    /// Asks for the apply-parts task to be enqueued; on success the returned
    /// action carries the request.
    pub fn schedule_apply_state_parts(
        &self,
        shard_id: u64,
        sync_hash: CryptoHash,
        num_parts: u64,
    ) -> (r: Result<Action, SyncError>)
        ensures
            match r {
                Ok(a) => !self.faults.schedule_apply && a == (Action::ScheduleApplyStateParts {
                    shard_id,
                    sync_hash,
                    num_parts,
                }),
                Err(e) => self.faults.schedule_apply && e == SyncError::ApplySchedulingFault,
            },
    {
        if self.faults.schedule_apply {
            return Err(SyncError::ApplySchedulingFault);
        }
        Ok(Action::ScheduleApplyStateParts { shard_id, sync_hash, num_parts })
    }

    /// Asks for the memtrie load to be enqueued; never fails.
    pub fn schedule_load_memtrie(
        &self,
        shard_uid: ShardUId,
        sync_hash: CryptoHash,
        chunk_prev_block_hash: CryptoHash,
    ) -> (r: Action)
        ensures
            r == (Action::ScheduleLoadMemtrie { shard_uid, sync_hash, chunk_prev_block_hash }),
    {
        Action::ScheduleLoadMemtrie { shard_uid, sync_hash, chunk_prev_block_hash }
    }

    /// Removes every `StateParts` row of the shard for this sync anchor, used
    /// when a failed finalization forces the download to start over.
    pub fn clear_downloaded_parts(
        &mut self,
        shard_id: u64,
        sync_hash: CryptoHash,
        num_parts: u64,
    ) -> (r: Result<(), SyncError>)
        ensures
            match r {
                Ok(()) => !old(self).faults.clear_parts && final(self).parts@ == old(self).parts@.remove_keys(cleared_keys(sync_hash, shard_id, num_parts)),
                Err(e) => old(self).faults.clear_parts && e == SyncError::StorageFault && final(self).parts == old(self).parts,
            },
            final(self).headers == old(self).headers,
            final(self).state_headers == old(self).state_headers,
            final(self).flat_storage == old(self).flat_storage,
            final(self).finalized == old(self).finalized,
            final(self).faults == old(self).faults,
    {
        if self.faults.clear_parts {
            return Err(SyncError::StorageFault);
        }
        let mut i: u64 = 0;
        while i < num_parts
            invariant
                i <= num_parts,
                self.parts@ == old(self).parts@.remove_keys(
                    cleared_keys(sync_hash, shard_id, i),
                ),
                self.headers == old(self).headers,
                self.state_headers == old(self).state_headers,
                self.flat_storage == old(self).flat_storage,
                self.finalized == old(self).finalized,
                self.faults == old(self).faults,
            decreases num_parts - i,
        {
            self.parts.remove(&StatePartKey { sync_hash, shard_id, part_idx: i });
            proof {
                assert(self.parts@ =~= old(self).parts@.remove_keys(
                    cleared_keys(sync_hash, shard_id, (i + 1) as u64),
                ));
            }
            i = i + 1;
        }
        proof {
            assert(self.parts@ =~= old(self).parts@.remove_keys(
                cleared_keys(sync_hash, shard_id, num_parts),
            ));
        }
        Ok(())
    }
}

/// The row keys removed when the first `n` parts of a shard are cleared.
pub open spec fn cleared_keys(sync_hash: CryptoHash, shard_id: u64, n: u64) -> Set<StatePartKey> {
    Set::new(
        |k: StatePartKey| k.sync_hash == sync_hash && k.shard_id == shard_id && k.part_idx < n,
    )
}

/// The parts column after one row was written: exactly the row for
/// `(sync_hash, shard_id, part_idx)` was inserted, holding its serialized key
/// and the part bytes.
pub open spec fn part_stored(
    before: Map<StatePartKey, StatePartRow>,
    after: Map<StatePartKey, StatePartRow>,
    sync_hash: CryptoHash,
    shard_id: u64,
    part_idx: u64,
    data: Seq<u8>,
) -> bool {
    &&& after.contains_key(StatePartKey { sync_hash, shard_id, part_idx })
    &&& after[StatePartKey { sync_hash, shard_id, part_idx }].key_bytes@ == part_row_key_bytes(
        sync_hash,
        shard_id,
        part_idx,
    )
    &&& after[StatePartKey { sync_hash, shard_id, part_idx }].data@ == data
    &&& forall|k: StatePartKey|
        k != (StatePartKey { sync_hash, shard_id, part_idx }) ==> (after.contains_key(k)
            == before.contains_key(k) && (#[trigger] after.contains_key(k) ==> after[k]
            == before[k]))
}

/// Executable hash equality; agrees with logical equality.
pub fn hash_eq(a: &CryptoHash, b: &CryptoHash) -> (r: bool)
    ensures
        r == (*a == *b),
{
    *a == *b
}

/// Per-epoch data the driver reads from the epoch manager.
#[derive(Clone, PartialEq, Eq, Debug)]
pub struct ShardLayout {
    pub version: u32,
    pub shard_ids: Vec<u64>,
}

impl ShardLayout {
    /// Executable layout equality; agrees with equality of version and shard
    /// list.
    pub fn same_as(&self, other: &ShardLayout) -> (r: bool)
        ensures
            r == (self.version == other.version && self.shard_ids@ == other.shard_ids@),
    {
        if self.version != other.version {
            return false;
        }
        if self.shard_ids.len() != other.shard_ids.len() {
            assert(self.shard_ids@.len() != other.shard_ids@.len());
            return false;
        }
        let n = self.shard_ids.len();
        let mut i: usize = 0;
        while i < n
            invariant
                i <= n,
                n == self.shard_ids@.len(),
                n == other.shard_ids@.len(),
                forall|j: int| 0 <= j < i ==> self.shard_ids@[j] == other.shard_ids@[j],
            decreases n - i,
        {
            if self.shard_ids[i] != other.shard_ids[i] {
                return false;
            }
            i = i + 1;
        }
        proof {
            assert(self.shard_ids@ =~= other.shard_ids@);
        }
        true
    }
}

/// The layout and ordinal height of one epoch.
#[derive(Clone, PartialEq, Eq, Debug)]
pub struct EpochData {
    pub layout: ShardLayout,
    pub epoch_height: u64,
}

/// The epoch manager as the driver sees it: per-epoch data keyed by epoch
/// identifier, and whether the layout will change after the epoch being
/// synced.
pub struct EpochManagerEnv {
    pub epochs: AssocMap<CryptoHash, EpochData>,
    pub will_reshard: bool,
}

impl EpochManagerEnv {
    pub fn new() -> (r: EpochManagerEnv)
        ensures
            r.epochs@ == Map::<CryptoHash, EpochData>::empty(),
            !r.will_reshard,
    {
        EpochManagerEnv { epochs: AssocMap::new(), will_reshard: false }
    }

    /// The data of one epoch.
    pub fn get_epoch_data(&self, epoch_id: &CryptoHash) -> (r: Result<&EpochData, SyncError>)
        ensures
            match r {
                Ok(d) => self.epochs@.contains_key(*epoch_id) && *d == self.epochs@[*epoch_id],
                Err(e) => !self.epochs@.contains_key(*epoch_id) && e == SyncError::EpochInfoMissing,
            },
    {
        match self.epochs.get(epoch_id) {
            Some(d) => Ok(d),
            None => Err(SyncError::EpochInfoMissing),
        }
    }

    /// The shard-with-version identifier a shard has in the given epoch.
    pub fn shard_id_to_uid(&self, shard_id: u64, epoch_id: &CryptoHash) -> (r: Result<
        ShardUId,
        SyncError,
    >)
        requires
            shard_id <= 0xffff_ffff,
        ensures
            match r {
                Ok(u) => self.epochs@.contains_key(*epoch_id) && u == (ShardUId {
                    version: self.epochs@[*epoch_id].layout.version,
                    shard_id: shard_id as u32,
                }),
                Err(e) => !self.epochs@.contains_key(*epoch_id) && e == SyncError::EpochInfoMissing,
            },
    {
        match self.epochs.get(epoch_id) {
            Some(d) => Ok(ShardUId { version: d.layout.version, shard_id: shard_id as u32 }),
            None => Err(SyncError::EpochInfoMissing),
        }
    }
}

/// The first block of the epoch `hash` belongs to, found by walking parent
/// links while the epoch stays the same; `None` when a needed header is not
/// stored.
pub open spec fn epoch_start_from(m: Map<CryptoHash, BlockHeaderInfo>, hash: CryptoHash) -> Option<
    CryptoHash,
>
    decreases (if m.contains_key(hash) {
        m[hash].height
    } else {
        0
    }) when headers_wf(m)
{
    if !m.contains_key(hash) {
        None
    } else if m[hash].prev_hash == CryptoHash::zero_spec() {
        Some(hash)
    } else if !m.contains_key(m[hash].prev_hash) {
        None
    } else if m[m[hash].prev_hash].epoch_id != m[hash].epoch_id {
        Some(hash)
    } else {
        epoch_start_from(m, m[hash].prev_hash)
    }
}

/// Walking to the epoch start twice gives the same block as walking once.
pub proof fn lemma_epoch_start_idempotent(m: Map<CryptoHash, BlockHeaderInfo>, hash: CryptoHash)
    requires
        headers_wf(m),
        epoch_start_from(m, hash) is Some,
    ensures
        epoch_start_from(m, epoch_start_from(m, hash)->Some_0) == epoch_start_from(m, hash),
    decreases m[hash].height,
{
    let prev = m[hash].prev_hash;
    if prev == CryptoHash::zero_spec() {
    } else if m[prev].epoch_id != m[hash].epoch_id {
    } else {
        lemma_epoch_start_idempotent(m, prev);
    }
}

/// The epoch start lies in the same epoch as the block it was computed from.
pub proof fn lemma_epoch_start_same_epoch(m: Map<CryptoHash, BlockHeaderInfo>, hash: CryptoHash)
    requires
        headers_wf(m),
        epoch_start_from(m, hash) is Some,
    ensures
        m.contains_key(epoch_start_from(m, hash)->Some_0),
        m[epoch_start_from(m, hash)->Some_0].epoch_id == m[hash].epoch_id,
        m.contains_key(hash),
    decreases m[hash].height,
{
    let prev = m[hash].prev_hash;
    if prev == CryptoHash::zero_spec() {
    } else if m[prev].epoch_id != m[hash].epoch_id {
    } else {
        lemma_epoch_start_same_epoch(m, prev);
    }
}

} // verus!
