//! The library's standing laws, stated as proof functions over the spec
//! relations its public functions ensure.

use vstd::prelude::*;

use crate::chain::{part_stored, ChainEnv, StateHeaderKey, StatePartKey, StatePartRow};
use crate::state::{completion_applied, marked_done, statuses_wf, StateSync};
use crate::types::{
    CryptoHash, ShardSyncDownload, ShardSyncStatus, StateSyncFileDownloadResult,
    StateSyncGetFileResult,
};

verus! {

/// After any tick, every slot of every shard is internally consistent — a
/// finished slot is neither armed nor in error — and a shard downloading
/// parts has one slot per part the stored header reports.
pub proof fn lemma_slots_consistent(
    chain: ChainEnv,
    sync_hash: CryptoHash,
    m: Map<u64, ShardSyncDownload>,
    shard_id: u64,
)
    requires
        statuses_wf(chain, sync_hash, m),
        m.contains_key(shard_id),
    ensures
        forall|i: int|
            0 <= i < m[shard_id].downloads@.len() ==> ((#[trigger] m[shard_id].downloads@[i]).done
                ==> !m[shard_id].downloads@[i].run_me && !m[shard_id].downloads@[i].error),
        m[shard_id].status == ShardSyncStatus::StateDownloadParts
            ==> chain.state_headers@.contains_key(StateHeaderKey { shard_id, sync_hash })
            && m[shard_id].downloads@.len() == chain.state_headers@[
            StateHeaderKey { shard_id, sync_hash }
        ].num_parts,
{
}

/// The number of external fetch tasks holding a permit never exceeds the
/// semaphore's capacity.
pub proof fn lemma_permits_bounded(s: StateSync)
    requires
        s.wf(),
    ensures
        s.external matches Some(e) ==> e.semaphore.in_flight <= e.semaphore.capacity,
{
}

/// Persisting the same part twice yields the same `StateParts` row: the same
/// serialized key and the same bytes, with every other row as it was after
/// the first write.
pub proof fn lemma_part_store_idempotent(
    m0: Map<StatePartKey, StatePartRow>,
    m1: Map<StatePartKey, StatePartRow>,
    m2: Map<StatePartKey, StatePartRow>,
    sync_hash: CryptoHash,
    shard_id: u64,
    part_idx: u64,
    data: Seq<u8>,
)
    requires
        part_stored(m0, m1, sync_hash, shard_id, part_idx, data),
        part_stored(m1, m2, sync_hash, shard_id, part_idx, data),
    ensures
        m2[StatePartKey { sync_hash, shard_id, part_idx }].key_bytes@ == m1[
            StatePartKey { sync_hash, shard_id, part_idx }
        ].key_bytes@,
        m2[StatePartKey { sync_hash, shard_id, part_idx }].data@ == m1[
            StatePartKey { sync_hash, shard_id, part_idx }
        ].data@,
        forall|k: StatePartKey| m2.contains_key(k) == m1.contains_key(k),
{
    assert forall|k: StatePartKey| m2.contains_key(k) == m1.contains_key(k) by {
        if k != (StatePartKey { sync_hash, shard_id, part_idx }) {
        }
    }
}

/// Delivering a completion for a slot that is already done changes neither
/// the shard's record nor the chain store.
pub proof fn lemma_duplicate_completion_noop(
    self0: StateSync,
    self1: StateSync,
    chain0: ChainEnv,
    chain1: ChainEnv,
    s0: ShardSyncDownload,
    s1: ShardSyncDownload,
    sync_hash: CryptoHash,
    msg: StateSyncGetFileResult,
)
    requires
        completion_applied(self0, self1, chain0, chain1, s0, s1, sync_hash, msg),
        s0.wf(),
        match msg.result {
            Ok(StateSyncFileDownloadResult::StateHeader { .. }) => s0.status
                == ShardSyncStatus::StateDownloadHeader ==> s0.downloads@[0].done,
            Ok(StateSyncFileDownloadResult::StatePart { .. }) => s0.status
                == ShardSyncStatus::StateDownloadParts ==> (match msg.part_id {
                Some(pid) => pid.idx < s0.downloads@.len() ==> s0.downloads@[pid.idx as int].done,
                None => true,
            }),
            Err(_) => true,
        },
    ensures
        s1.status == s0.status,
        s1.downloads@ == s0.downloads@,
        chain1.state_headers == chain0.state_headers,
{
    match msg.result {
        Ok(StateSyncFileDownloadResult::StatePart { .. }) => {
            if s0.status == ShardSyncStatus::StateDownloadParts {
                match msg.part_id {
                    Some(pid) => {
                        if pid.idx < s0.downloads@.len() {
                            let i = pid.idx as int;
                            assert(marked_done(s0.downloads@[i]) == s0.downloads@[i]);
                            assert(s1.downloads@ =~= s0.downloads@);
                        }
                    },
                    None => {},
                }
            }
        },
        Ok(StateSyncFileDownloadResult::StateHeader { .. }) => {},
        Err(_) => {},
    }
}

} // verus!
