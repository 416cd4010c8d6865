//! The state-sync driver: per-shard state machine, request dispatcher,
//! completion intake and result aggregation.
//!
//! One call of [`StateSync::run`] is one tick: it drains the completion
//! queue, advances every tracked shard one step, and appends the outbound
//! work it wants performed to an action list.

use vstd::prelude::*;

use rand::seq::IndexedRandom;

use crate::assoc::AssocMap;
use crate::chain::{ChainEnv, EpochManagerEnv, StateHeaderKey, epoch_start_from};
use crate::metrics::Metrics;
use crate::types::{
    bump, bump_count, timed_out, check_timed_out, Action, CryptoHash, DownloadStatus, PartId,
    PeerId, ShardStateSyncResponse, ShardSyncDownload, ShardSyncStatus, ShardUId, StateHeaderInfo,
    StateSyncFileDownloadResult, StateSyncGetFileResult, StateSyncResult, SyncConfig, SyncError,
    ExternalStorageLocation, MAX_STATE_PART_REQUEST,
};

verus! {

/// A slot after its artifact was durably persisted: finished, disarmed, the
/// error flag cleared.
pub open spec fn marked_done(d: DownloadStatus) -> DownloadStatus {
    DownloadStatus { run_me: false, error: false, done: true, ..d }
}

/// Marks a slot finished.
pub fn mark_done(d: &mut DownloadStatus)
    ensures
        *final(d) == marked_done(*old(d)),
        final(d).wf(),
{
    d.run_me = false;
    d.error = false;
    d.done = true;
}

/// A shard record is consistent with the chain store: its slots are well
/// formed, and in the parts phase the shard's state header is stored and the
/// slot count equals the part count it reports.
pub open spec fn shard_record_wf(
    chain: ChainEnv,
    sync_hash: CryptoHash,
    shard_id: u64,
    ssd: ShardSyncDownload,
) -> bool {
    &&& ssd.wf()
    &&& ssd.status == ShardSyncStatus::StateDownloadParts ==> {
        &&& chain.state_headers@.contains_key(StateHeaderKey { shard_id, sync_hash })
        &&& ssd.downloads@.len() == chain.state_headers@[
            StateHeaderKey { shard_id, sync_hash }
        ].num_parts
    }
}

/// Every shard record in the status map is consistent with the chain store.
pub open spec fn statuses_wf(
    chain: ChainEnv,
    sync_hash: CryptoHash,
    m: Map<u64, ShardSyncDownload>,
) -> bool {
    forall|s: u64| #[trigger] m.contains_key(s) ==> shard_record_wf(chain, sync_hash, s, m[s])
}

/// One header slot after the retry check of a tick: re-armed when timed out
/// or in error, untouched otherwise.
pub open spec fn header_slot_step(d: DownloadStatus, now: u64, timeout: u64) -> DownloadStatus {
    if timed_out(now, d.prev_update_time, timeout) || d.error {
        DownloadStatus { run_me: true, error: false, prev_update_time: now, ..d }
    } else {
        d
    }
}

/// Whether a part slot is re-armed this tick: it is unfinished and either
/// timed out, or in error from a request that had a peer target.  An error
/// from external storage (no target) is not retried before its timeout:
/// most often the part is not there yet, and only waiting helps.
pub open spec fn part_rearm_cond(d: DownloadStatus, now: u64, timeout: u64) -> bool {
    &&& !d.done
    &&& (timed_out(now, d.prev_update_time, timeout) || d.error)
    &&& (timed_out(now, d.prev_update_time, timeout) || d.last_target is Some)
}

/// One part slot after the retry check of a tick.
pub open spec fn part_slot_step(d: DownloadStatus, now: u64, timeout: u64) -> DownloadStatus {
    if part_rearm_cond(d, now, timeout) {
        DownloadStatus { run_me: true, error: false, prev_update_time: now, ..d }
    } else {
        d
    }
}

/// How many of the first `i` slots are done.
pub open spec fn n_parts_done(s: Seq<DownloadStatus>, i: int) -> int
    decreases i,
{
    if i <= 0 {
        0
    } else {
        n_parts_done(s, i - 1) + if s[i - 1].done {
            1int
        } else {
            0
        }
    }
}

/// How many of the first `i` slots are re-armed this tick.
pub open spec fn n_rearmed(s: Seq<DownloadStatus>, now: u64, timeout: u64, i: int) -> int
    decreases i,
{
    if i <= 0 {
        0
    } else {
        n_rearmed(s, now, timeout, i - 1) + if part_rearm_cond(s[i - 1], now, timeout) {
            1int
        } else {
            0
        }
    }
}

pub proof fn lemma_n_parts_done_bounds(s: Seq<DownloadStatus>, i: int)
    requires
        0 <= i <= s.len(),
    ensures
        0 <= n_parts_done(s, i) <= i,
    decreases i,
{
    if i > 0 {
        lemma_n_parts_done_bounds(s, i - 1);
    }
}

pub proof fn lemma_n_rearmed_bounds(s: Seq<DownloadStatus>, now: u64, timeout: u64, i: int)
    requires
        0 <= i <= s.len(),
    ensures
        0 <= n_rearmed(s, now, timeout, i) <= i,
    decreases i,
{
    if i > 0 {
        lemma_n_rearmed_bounds(s, now, timeout, i - 1);
    }
}

/// `a + n`, held at the top of the range.
pub open spec fn sat_add_int(a: u64, n: int) -> u64 {
    if a + n > 0xffff_ffff_ffff_ffff {
        0xffff_ffff_ffff_ffff as u64
    } else {
        (a + n) as u64
    }
}

/// A slot just dispatched to external storage: disarmed, the attempt
/// counted, no peer target.
pub open spec fn armed_external_slot(d: DownloadStatus) -> DownloadStatus {
    DownloadStatus {
        run_me: false,
        state_requests_count: bump(d.state_requests_count),
        last_target: None,
        ..d
    }
}

/// A header slot just dispatched to the given peer.
pub open spec fn armed_peer_header_slot(d: DownloadStatus, p: PeerId) -> DownloadStatus {
    DownloadStatus {
        run_me: false,
        state_requests_count: bump(d.state_requests_count),
        last_target: Some(p),
        ..d
    }
}

/// A part slot just dispatched to the peer network; the network layer picks
/// the peer, so no target is recorded.
pub open spec fn armed_peer_part_slot(d: DownloadStatus) -> DownloadStatus {
    DownloadStatus { run_me: false, state_requests_count: bump(d.state_requests_count), ..d }
}

/// An armed part slot routed to external storage: the fallback threshold of
/// peer attempts was reached.
pub open spec fn ext_routed(d: DownloadStatus, has_ext: bool, thr: u64) -> bool {
    d.run_me && has_ext && d.state_requests_count >= thr
}

/// An armed part slot routed to the peer network.
pub open spec fn peer_routed(d: DownloadStatus, has_ext: bool, thr: u64) -> bool {
    d.run_me && !(has_ext && d.state_requests_count >= thr)
}

/// How many of the first `i` slots are routed to external storage.
pub open spec fn n_ext_routed(s: Seq<DownloadStatus>, has_ext: bool, thr: u64, i: int) -> int
    decreases i,
{
    if i <= 0 {
        0
    } else {
        n_ext_routed(s, has_ext, thr, i - 1) + if ext_routed(s[i - 1], has_ext, thr) {
            1int
        } else {
            0
        }
    }
}

/// How many of the first `i` slots are routed to the peer network.
pub open spec fn n_peer_routed(s: Seq<DownloadStatus>, has_ext: bool, thr: u64, i: int) -> int
    decreases i,
{
    if i <= 0 {
        0
    } else {
        n_peer_routed(s, has_ext, thr, i - 1) + if peer_routed(s[i - 1], has_ext, thr) {
            1int
        } else {
            0
        }
    }
}

pub proof fn lemma_n_routed_bounds(s: Seq<DownloadStatus>, has_ext: bool, thr: u64, i: int)
    requires
        0 <= i <= s.len(),
    ensures
        0 <= n_ext_routed(s, has_ext, thr, i) <= i,
        0 <= n_peer_routed(s, has_ext, thr, i) <= i,
    decreases i,
{
    if i > 0 {
        lemma_n_routed_bounds(s, has_ext, thr, i - 1);
    }
}

pub open spec fn min_int(a: int, b: int) -> int {
    if a < b {
        a
    } else {
        b
    }
}

/// What the dispatcher does to one part slot, given how many earlier slots
/// took each route: an external-routed slot is dispatched while permits
/// remain, a peer-routed slot while the per-tick budget of
/// [`MAX_STATE_PART_REQUEST`] remains and the snapshot anchor could be read.
pub open spec fn part_dispatch_slot(
    d: DownloadStatus,
    has_ext: bool,
    thr: u64,
    n_ext_before: int,
    avail0: int,
    pp_ok: bool,
    n_peer_before: int,
) -> DownloadStatus {
    if ext_routed(d, has_ext, thr) {
        if n_ext_before < avail0 {
            armed_external_slot(d)
        } else {
            d
        }
    } else if peer_routed(d, has_ext, thr) {
        if pp_ok && n_peer_before < MAX_STATE_PART_REQUEST {
            armed_peer_part_slot(d)
        } else {
            d
        }
    } else {
        d
    }
}

/// An armed slot the dispatcher sends to external storage this tick: it is
/// external-routed and a permit is left at its turn.
pub open spec fn ext_dispatched(
    s: Seq<DownloadStatus>,
    has_ext: bool,
    thr: u64,
    avail0: int,
    i: int,
) -> bool {
    ext_routed(s[i], has_ext, thr) && n_ext_routed(s, has_ext, thr, i) < avail0
}

/// An armed slot the dispatcher asks from the peers this tick: it is
/// peer-routed, the snapshot anchor could be read, and the per-tick budget
/// is left at its turn.
pub open spec fn peer_dispatched(
    s: Seq<DownloadStatus>,
    has_ext: bool,
    thr: u64,
    pp_ok: bool,
    i: int,
) -> bool {
    peer_routed(s[i], has_ext, thr) && pp_ok && n_peer_routed(s, has_ext, thr, i)
        < MAX_STATE_PART_REQUEST
}

/// The external fetch the dispatcher emits for part `i` of the shard.
pub open spec fn ext_fetch_action(
    chain: ChainEnv,
    shard_id: u64,
    sync_hash: CryptoHash,
    epoch_id: CryptoHash,
    epoch_height: u64,
    i: int,
) -> Action {
    Action::FetchPartFromExternal {
        shard_id,
        sync_hash,
        epoch_id,
        epoch_height,
        part_id: i as u64,
        num_parts: chain.state_headers@[StateHeaderKey { shard_id, sync_hash }].num_parts,
        state_root: chain.state_headers@[StateHeaderKey { shard_id, sync_hash }].state_root,
    }
}

/// The peer request the dispatcher emits for part `i` of the shard.
pub open spec fn peer_fetch_action(
    chain: ChainEnv,
    shard_id: u64,
    sync_hash: CryptoHash,
    i: int,
) -> Action {
    Action::StateRequestPart {
        shard_id,
        sync_hash,
        sync_prev_prev_hash: prev_prev_hash(chain, sync_hash),
        part_id: i as u64,
    }
}

/// The part a dispatcher action asks for.
pub open spec fn action_part_id(a: Action) -> u64 {
    match a {
        Action::StateRequestPart { part_id, .. } => part_id,
        Action::FetchPartFromExternal { part_id, .. } => part_id,
        _ => 0,
    }
}

/// Whether the block two before `sync_hash` can be read, so that peer part
/// requests can carry the snapshot anchor.
pub open spec fn prev_prev_ok(chain: ChainEnv, sync_hash: CryptoHash) -> bool {
    &&& chain.headers@.contains_key(sync_hash)
    &&& chain.headers@.contains_key(chain.headers@[sync_hash].prev_hash)
}

/// The hash of the block two before `sync_hash`.
pub open spec fn prev_prev_hash(chain: ChainEnv, sync_hash: CryptoHash) -> CryptoHash {
    chain.headers@[chain.headers@[sync_hash].prev_hash].prev_hash
}

/// How many of the first `i` actions are peer part requests.
pub open spec fn n_peer_part_actions(s: Seq<Action>, i: int) -> int
    decreases i,
{
    if i <= 0 {
        0
    } else {
        n_peer_part_actions(s, i - 1) + if s[i - 1] is StateRequestPart {
            1int
        } else {
            0
        }
    }
}

/// How many of the first `i` actions are external part fetches.
pub open spec fn n_ext_part_actions(s: Seq<Action>, i: int) -> int
    decreases i,
{
    if i <= 0 {
        0
    } else {
        n_ext_part_actions(s, i - 1) + if s[i - 1] is FetchPartFromExternal {
            1int
        } else {
            0
        }
    }
}

/// A record as created on first observation of a shard: the header phase
/// with one fresh slot.
pub open spec fn is_fresh_header_record(ssd: ShardSyncDownload, now: u64) -> bool {
    &&& ssd.status == ShardSyncStatus::StateDownloadHeader
    &&& ssd.downloads@.len() == 1
    &&& ssd.downloads@[0] == DownloadStatus::new_spec(now)
}

/// Relies on rand's `IndexedRandom::choose`: `None` exactly when the slice is
/// empty, otherwise one of its elements, sampled uniformly.
#[verifier::external_body]
fn choose_peer(peers: &Vec<PeerId>) -> (r: Option<PeerId>)
    ensures
        r is Some <==> peers@.len() > 0,
        r matches Some(p) ==> peers@.contains(p),
{
    peers.as_slice().choose(&mut rand::rng()).copied()
}

/// Bookkeeping for the cap on concurrent external fetches: `in_flight`
/// permits are held by running fetch tasks.
#[derive(Clone, Copy, PartialEq, Eq, Structural, Debug)]
pub struct ExternalSemaphore {
    pub capacity: u64,
    pub in_flight: u64,
}

impl ExternalSemaphore {
    /// Permits still available.
    pub open spec fn available_spec(self) -> u64 {
        if self.in_flight < self.capacity {
            (self.capacity - self.in_flight) as u64
        } else {
            0
        }
    }

    pub fn available(&self) -> (r: u64)
        ensures
            r == self.available_spec(),
    {
        if self.in_flight < self.capacity {
            self.capacity - self.in_flight
        } else {
            0
        }
    }
}

/// External-storage side of the sync, present when so configured.
#[derive(Clone, PartialEq, Eq, Debug)]
pub struct StateSyncExternal {
    /// Chain identity, part of every external object location.
    pub chain_id: String,
    /// Where the external objects live; read by the task runner.
    pub location: ExternalStorageLocation,
    /// Cap on simultaneous external fetches.
    pub semaphore: ExternalSemaphore,
    /// Peer attempts per part before the part is fetched externally.
    pub peer_attempts_threshold: u64,
}

/// Helper to track state sync.
pub struct StateSync {
    /// External storage, if configured.
    pub external: Option<StateSyncExternal>,
    /// How long a slot may sit unanswered before it is re-armed.
    pub timeout: u64,
    /// Result of applying downloaded state, by shard.
    pub state_parts_apply_results: AssocMap<u64, Result<(), SyncError>>,
    /// Result of loading the in-memory trie, by shard and layout version.
    pub load_memtrie_results: AssocMap<ShardUId, Result<(), SyncError>>,
    /// Result of resharding, held for handoff to the resharding workflow.
    pub resharding_state_roots: AssocMap<u64, Result<(), SyncError>>,
    /// Completion messages not yet drained by a tick.
    pub inbox: Vec<StateSyncGetFileResult>,
    /// Per-shard gauges and counters.
    pub metrics: Metrics,
}

impl StateSync {
    /// The semaphore never hands out more permits than its capacity.
    pub open spec fn wf(self) -> bool {
        match self.external {
            Some(e) => e.semaphore.in_flight <= e.semaphore.capacity,
            None => true,
        }
    }

    /// Threshold of peer attempts after which a part is routed to external
    /// storage; meaningful only when external storage is configured.
    pub open spec fn ext_threshold(self) -> u64 {
        match self.external {
            Some(e) => e.peer_attempts_threshold,
            None => 0,
        }
    }

    pub open spec fn has_external(self) -> bool {
        self.external is Some
    }

    pub fn new(timeout: u64, chain_id: String, sync_config: SyncConfig, catchup: bool) -> (r:
        StateSync)
        ensures
            r.wf(),
            r.timeout == timeout,
            match sync_config {
                SyncConfig::Peers => r.external is None,
                SyncConfig::ExternalStorage(c) => r.external matches Some(e) && e.chain_id
                    == chain_id && e.location == c.location && e.peer_attempts_threshold
                    == c.external_storage_fallback_threshold && e.semaphore.in_flight == 0
                    && e.semaphore.capacity == (if catchup {
                    c.num_concurrent_requests_during_catchup
                } else {
                    c.num_concurrent_requests
                }),
            },
            r.state_parts_apply_results@ == Map::<u64, Result<(), SyncError>>::empty(),
            r.load_memtrie_results@ == Map::<ShardUId, Result<(), SyncError>>::empty(),
            r.resharding_state_roots@ == Map::<u64, Result<(), SyncError>>::empty(),
            r.inbox@ =~= Seq::<StateSyncGetFileResult>::empty(),
    {
        let external = match sync_config {
            SyncConfig::Peers => None,
            SyncConfig::ExternalStorage(c) => {
                let num_permits = if catchup {
                    c.num_concurrent_requests_during_catchup
                } else {
                    c.num_concurrent_requests
                };
                Some(
                    StateSyncExternal {
                        chain_id,
                        location: c.location,
                        semaphore: ExternalSemaphore { capacity: num_permits, in_flight: 0 },
                        peer_attempts_threshold: c.external_storage_fallback_threshold,
                    },
                )
            },
        };
        StateSync {
            external,
            timeout,
            state_parts_apply_results: AssocMap::new(),
            load_memtrie_results: AssocMap::new(),
            resharding_state_roots: AssocMap::new(),
            inbox: Vec::new(),
            metrics: Metrics::new(),
        }
    }

    /// Posts one fetch completion for the next tick; the queue side of the
    /// fetch tasks.
    pub fn push_completion(&mut self, msg: StateSyncGetFileResult)
        ensures
            final(self).inbox@ == old(self).inbox@.push(msg),
            final(self).external == old(self).external,
            final(self).timeout == old(self).timeout,
            final(self).state_parts_apply_results == old(self).state_parts_apply_results,
            final(self).load_memtrie_results == old(self).load_memtrie_results,
            final(self).resharding_state_roots == old(self).resharding_state_roots,
            final(self).metrics == old(self).metrics,
    {
        self.inbox.push(msg);
    }

    /// Returns the permit of one finished external fetch task.
    pub fn release_external_permit(&mut self)
        requires
            old(self).wf(),
        ensures
            final(self).wf(),
            match old(self).external {
                Some(e) => final(self).external matches Some(f) && f.chain_id == e.chain_id
                    && f.location == e.location && f.peer_attempts_threshold
                    == e.peer_attempts_threshold && f.semaphore.capacity == e.semaphore.capacity
                    && f.semaphore.in_flight == (if e.semaphore.in_flight > 0 {
                    (e.semaphore.in_flight - 1) as u64
                } else {
                    0
                }),
                None => final(self).external is None,
            },
            final(self).timeout == old(self).timeout,
            final(self).state_parts_apply_results == old(self).state_parts_apply_results,
            final(self).load_memtrie_results == old(self).load_memtrie_results,
            final(self).resharding_state_roots == old(self).resharding_state_roots,
            final(self).inbox == old(self).inbox,
            final(self).metrics == old(self).metrics,
    {
        match &mut self.external {
            Some(e) => {
                if e.semaphore.in_flight > 0 {
                    e.semaphore.in_flight = e.semaphore.in_flight - 1;
                }
            },
            None => {},
        }
    }

    /// Called by the client, when it finished applying all the downloaded
    /// parts.
    pub fn set_apply_result(&mut self, shard_id: u64, apply_result: Result<(), SyncError>)
        ensures
            final(self).state_parts_apply_results@ == old(self).state_parts_apply_results@.insert(shard_id, apply_result),
            final(self).external == old(self).external,
            final(self).timeout == old(self).timeout,
            final(self).load_memtrie_results == old(self).load_memtrie_results,
            final(self).resharding_state_roots == old(self).resharding_state_roots,
            final(self).inbox == old(self).inbox,
            final(self).metrics == old(self).metrics,
    {
        self.state_parts_apply_results.insert(shard_id, apply_result);
    }

    /// Called by the client, when it finished resharding.
    pub fn set_resharding_result(&mut self, shard_id: u64, result: Result<(), SyncError>)
        ensures
            final(self).resharding_state_roots@ == old(self).resharding_state_roots@.insert(
                shard_id,
                result,
            ),
            final(self).external == old(self).external,
            final(self).timeout == old(self).timeout,
            final(self).state_parts_apply_results == old(self).state_parts_apply_results,
            final(self).load_memtrie_results == old(self).load_memtrie_results,
            final(self).inbox == old(self).inbox,
            final(self).metrics == old(self).metrics,
    {
        self.resharding_state_roots.insert(shard_id, result);
    }

    /// Called by the client, when it finished loading the memtrie.
    pub fn set_load_memtrie_result(&mut self, shard_uid: ShardUId, result: Result<(), SyncError>)
        ensures
            final(self).load_memtrie_results@ == old(self).load_memtrie_results@.insert(
                shard_uid,
                result,
            ),
            final(self).external == old(self).external,
            final(self).timeout == old(self).timeout,
            final(self).state_parts_apply_results == old(self).state_parts_apply_results,
            final(self).resharding_state_roots == old(self).resharding_state_roots,
            final(self).inbox == old(self).inbox,
            final(self).metrics == old(self).metrics,
    {
        self.load_memtrie_results.insert(shard_uid, result);
    }

    /// Find the hash of the first block on the same epoch (and chain) of
    /// block with hash `sync_hash`.
    pub fn get_epoch_start_sync_hash(chain: &ChainEnv, sync_hash: &CryptoHash) -> (r: Result<
        CryptoHash,
        SyncError,
    >)
        requires
            chain.wf(),
        ensures
            match r {
                Ok(h) => epoch_start_from(chain.headers@, *sync_hash) == Some(h),
                Err(e) => epoch_start_from(chain.headers@, *sync_hash) is None && e
                    == SyncError::BlockHeaderMissing,
            },
    {
        let header = match chain.get_block_header(sync_hash) {
            Ok(h) => h,
            Err(e) => {
                return Err(e);
            },
        };
        let epoch_id = header.epoch_id;
        let mut hash: CryptoHash = *sync_hash;
        let mut prev_hash: CryptoHash = header.prev_hash;
        loop
            invariant
                chain.wf(),
                chain.headers@.contains_key(hash),
                chain.headers@[hash].epoch_id == epoch_id,
                prev_hash == chain.headers@[hash].prev_hash,
                epoch_start_from(chain.headers@, hash) == epoch_start_from(
                    chain.headers@,
                    *sync_hash,
                ),
            decreases chain.headers@[hash].height,
        {
            if crate::chain::hash_eq(&prev_hash, &CryptoHash::zero()) {
                return Ok(hash);
            }
            let header = match chain.get_block_header(&prev_hash) {
                Ok(h) => h,
                Err(e) => {
                    return Err(e);
                },
            };
            if !crate::chain::hash_eq(&header.epoch_id, &epoch_id) {
                return Ok(hash);
            }
            hash = prev_hash;
            prev_hash = header.prev_hash;
        }
    }

    /// Applies one fetch completion to the shard map: a message for another
    /// sync anchor or an unknown shard is dropped untouched; a header
    /// completion persists the header and closes the slot; a part completion
    /// (already persisted by the fetch task) closes its slot.  A completion
    /// for a slot that is already done changes no state.
    pub fn apply_completion_message(
        &mut self,
        chain: &mut ChainEnv,
        sync_hash: CryptoHash,
        shard_sync: &mut AssocMap<u64, ShardSyncDownload>,
        msg: StateSyncGetFileResult,
    )
        requires
            old(chain).wf(),
            statuses_wf(*old(chain), sync_hash, old(shard_sync)@),
        ensures
            final(chain).wf(),
            statuses_wf(*final(chain), sync_hash, final(shard_sync)@),
            // frame: the driver's own state, except the external-fetch metrics
            final(self).external == old(self).external,
            final(self).timeout == old(self).timeout,
            final(self).state_parts_apply_results == old(self).state_parts_apply_results,
            final(self).load_memtrie_results == old(self).load_memtrie_results,
            final(self).resharding_state_roots == old(self).resharding_state_roots,
            final(self).inbox == old(self).inbox,
            final(self).metrics.stage == old(self).metrics.stage,
            final(self).metrics.header_timeout == old(self).metrics.header_timeout,
            final(self).metrics.header_error == old(self).metrics.header_error,
            final(self).metrics.retry_part == old(self).metrics.retry_part,
            final(self).metrics.parts_done == old(self).metrics.parts_done,
            final(self).metrics.parts_total == old(self).metrics.parts_total,
            final(self).metrics.discard_parts == old(self).metrics.discard_parts,
            // frame: the chain, except stored state headers
            final(chain).headers == old(chain).headers,
            final(chain).parts == old(chain).parts,
            final(chain).flat_storage == old(chain).flat_storage,
            final(chain).finalized == old(chain).finalized,
            final(chain).faults == old(chain).faults,
            // frame: every other shard's record
            forall|k: u64|
                k != msg.shard_id ==> (final(shard_sync)@.contains_key(k) == old(shard_sync)@.contains_key(k) && (old(shard_sync)@.contains_key(k)
                    ==> final(shard_sync)@[k] == old(shard_sync)@[k])),
            other_shards_preserved(old(shard_sync)@, final(shard_sync)@, msg.shard_id),
            final(shard_sync)@.contains_key(msg.shard_id) == old(shard_sync)@.contains_key(
                msg.shard_id,
            ),
            // a message for another sync anchor mutates nothing
            msg.sync_hash != sync_hash ==> untouched(
                *old(self),
                *final(self),
                *old(chain),
                *final(chain),
                old(shard_sync)@,
                final(shard_sync)@,
            ),
            // a message for an unknown shard mutates nothing
            msg.sync_hash == sync_hash && !old(shard_sync)@.contains_key(msg.shard_id)
                ==> untouched(
                *old(self),
                *final(self),
                *old(chain),
                *final(chain),
                old(shard_sync)@,
                final(shard_sync)@,
            ),
            // the acted-upon cases
            msg.sync_hash == sync_hash && old(shard_sync)@.contains_key(msg.shard_id)
                ==> completion_applied(
                *old(self),
                *final(self),
                *old(chain),
                *final(chain),
                old(shard_sync)@[msg.shard_id],
                final(shard_sync)@[msg.shard_id],
                sync_hash,
                msg,
            ),
    {
        if !crate::chain::hash_eq(&msg.sync_hash, &sync_hash) {
            return ;
        }
        let mut ssd = match shard_sync.remove(&msg.shard_id) {
            Some(s) => s,
            None => {
                proof {
                    assert(shard_sync@ =~= old(shard_sync)@);
                }
                return ;
            },
        };
        let ghost m0 = old(shard_sync)@;
        let ghost s0 = ssd;
        match msg.result {
            Err(_e) => {
                // the fetch task never reached or could not read the store;
                // the slot waits for its timeout
                self.metrics.external_parts_failed.inc(msg.shard_id);
                shard_sync.insert(msg.shard_id, ssd);
                proof {
                    assert(shard_sync@ =~= m0);
                }
            },
            Ok(StateSyncFileDownloadResult::StateHeader { header_length, header }) => {
                if !matches!(ssd.status, ShardSyncStatus::StateDownloadHeader) {
                    shard_sync.insert(msg.shard_id, ssd);
                    proof {
                        assert(shard_sync@ =~= m0);
                    }
                    return ;
                }
                assert(ssd.downloads@.len() == 1);
                if ssd.downloads[0].done {
                    shard_sync.insert(msg.shard_id, ssd);
                    proof {
                        assert(shard_sync@ =~= m0);
                    }
                    return ;
                }
                match chain.set_state_header(msg.shard_id, sync_hash, header) {
                    Ok(()) => {
                        self.metrics.external_parts_done.inc(msg.shard_id);
                        self.metrics.external_parts_size_downloaded.add(
                            msg.shard_id,
                            header_length,
                        );
                        let mut d = ssd.downloads[0];
                        mark_done(&mut d);
                        ssd.downloads[0] = d;
                        shard_sync.insert(msg.shard_id, ssd);
                    },
                    Err(_) => {
                        self.metrics.external_parts_failed.inc(msg.shard_id);
                        shard_sync.insert(msg.shard_id, ssd);
                        proof {
                            assert(shard_sync@ =~= m0);
                        }
                    },
                }
            },
            Ok(StateSyncFileDownloadResult::StatePart { part_length }) => {
                if !matches!(ssd.status, ShardSyncStatus::StateDownloadParts) {
                    shard_sync.insert(msg.shard_id, ssd);
                    proof {
                        assert(shard_sync@ =~= m0);
                    }
                    return ;
                }
                // the part itself was persisted by the fetch task
                self.metrics.external_parts_done.inc(msg.shard_id);
                self.metrics.external_parts_size_downloaded.add(msg.shard_id, part_length);
                match msg.part_id {
                    Some(pid) if pid.idx < ssd.downloads.len() as u64 => {
                        let i: usize = pid.idx as usize;
                        let mut d = ssd.downloads[i];
                        mark_done(&mut d);
                        ssd.downloads[i] = d;
                        shard_sync.insert(msg.shard_id, ssd);
                    },
                    _ => {
                        shard_sync.insert(msg.shard_id, ssd);
                        proof {
                            assert(shard_sync@ =~= m0);
                        }
                    },
                }
            },
        }
    }
    /// Checks if the header is downloaded.  If it is, moves the shard
    /// forward to the parts phase, sized by the part count the header
    /// reports; otherwise re-arms the slot on timeout or error.  Returns
    /// `(download_timeout, run_download)`: whether the header request timed
    /// out, and whether a request should be dispatched this tick.
    pub fn sync_shards_download_header_status(
        &mut self,
        shard_id: u64,
        shard_sync_download: &mut ShardSyncDownload,
        sync_hash: CryptoHash,
        chain: &ChainEnv,
        now: u64,
    ) -> (r: Result<(bool, bool), SyncError>)
        requires
            old(shard_sync_download).wf(),
            old(shard_sync_download).status == ShardSyncStatus::StateDownloadHeader,
            chain.wf(),
        ensures
            final(self).external == old(self).external,
            final(self).timeout == old(self).timeout,
            final(self).state_parts_apply_results == old(self).state_parts_apply_results,
            final(self).load_memtrie_results == old(self).load_memtrie_results,
            final(self).resharding_state_roots == old(self).resharding_state_roots,
            final(self).inbox == old(self).inbox,
            final(self).metrics.stage == old(self).metrics.stage,
            final(self).metrics.retry_part == old(self).metrics.retry_part,
            final(self).metrics.parts_done == old(self).metrics.parts_done,
            final(self).metrics.parts_total == old(self).metrics.parts_total,
            final(self).metrics.discard_parts == old(self).metrics.discard_parts,
            final(self).metrics.external_parts_done == old(self).metrics.external_parts_done,
            final(self).metrics.external_parts_failed == old(self).metrics.external_parts_failed,
            final(self).metrics.external_parts_size_downloaded == old(self).metrics.external_parts_size_downloaded,
            old(shard_sync_download).downloads@[0].done ==> (match r {
                Ok(flags) => {
                    &&& chain.state_headers@.contains_key(StateHeaderKey { shard_id, sync_hash })
                    &&& flags == (false, true)
                    &&& final(shard_sync_download).status == ShardSyncStatus::StateDownloadParts
                    &&& final(shard_sync_download).downloads@.len() == chain.state_headers@[
                        StateHeaderKey { shard_id, sync_hash }
                    ].num_parts
                    &&& forall|i: int|
                        0 <= i < final(shard_sync_download).downloads@.len() ==> final(shard_sync_download).downloads@[i] == DownloadStatus::new_spec(now)
                    &&& final(self).metrics.header_timeout == old(self).metrics.header_timeout
                    &&& final(self).metrics.header_error == old(self).metrics.header_error
                },
                Err(e) => {
                    &&& !chain.state_headers@.contains_key(StateHeaderKey { shard_id, sync_hash })
                    &&& e == SyncError::StateHeaderMissing
                    &&& *final(shard_sync_download) == *old(shard_sync_download)
                    &&& final(self).metrics.header_timeout == old(self).metrics.header_timeout
                    &&& final(self).metrics.header_error == old(self).metrics.header_error
                },
            }),
            !old(shard_sync_download).downloads@[0].done ==> {
                let d0 = old(shard_sync_download).downloads@[0];
                let to = timed_out(now, d0.prev_update_time, old(self).timeout);
                &&& r == Ok::<(bool, bool), SyncError>(
                    (to, header_slot_step(d0, now, old(self).timeout).run_me),
                )
                &&& final(shard_sync_download).status == ShardSyncStatus::StateDownloadHeader
                &&& final(shard_sync_download).downloads@ == old(shard_sync_download).downloads@.update(0, header_slot_step(d0, now, old(self).timeout))
                &&& (to ==> counter_bumped(
                    old(self).metrics.header_timeout,
                    final(self).metrics.header_timeout,
                    shard_id,
                ))
                &&& (!to ==> final(self).metrics.header_timeout == old(self).metrics.header_timeout)
                &&& (d0.error ==> counter_bumped(
                    old(self).metrics.header_error,
                    final(self).metrics.header_error,
                    shard_id,
                ))
                &&& (!d0.error ==> final(self).metrics.header_error == old(self).metrics.header_error)
            },
            old(shard_sync_download).wf() && final(shard_sync_download).wf(),
            header_status_step(*old(self), *final(self), *chain, *old(shard_sync_download), *final(shard_sync_download), shard_id, sync_hash, now, r),
    {
        let download_done = shard_sync_download.downloads[0].done;
        if download_done {
            let shard_state_header = match chain.get_state_header(shard_id, sync_hash) {
                Ok(h) => h,
                Err(e) => {
                    return Err(e);
                },
            };
            let state_num_parts = shard_state_header.num_parts;
            *shard_sync_download = ShardSyncDownload::new_download_state_parts(
                now,
                state_num_parts,
            );
            Ok((false, true))
        } else {
            let d0 = shard_sync_download.downloads[0];
            let download_timeout = check_timed_out(now, d0.prev_update_time, self.timeout);
            if download_timeout {
                self.metrics.header_timeout.inc(shard_id);
            }
            if d0.error {
                self.metrics.header_error.inc(shard_id);
            }
            let mut d = d0;
            if download_timeout || d.error {
                d.run_me = true;
                d.error = false;
                d.prev_update_time = now;
            }
            shard_sync_download.downloads[0] = d;
            Ok((download_timeout, d.run_me))
        }
    }

    /// Checks the parts.  Re-arms unfinished slots per [`part_rearm_cond`],
    /// publishes the done/total gauges, and moves the shard forward to apply
    /// scheduling exactly when every slot is done.  Returns
    /// `(download_timeout, run_download)` as the header check does.
    pub fn sync_shards_download_parts_status(
        &mut self,
        shard_id: u64,
        shard_sync_download: &mut ShardSyncDownload,
        now: u64,
    ) -> (r: (bool, bool))
        requires
            old(shard_sync_download).wf(),
            old(shard_sync_download).status == ShardSyncStatus::StateDownloadParts,
        ensures
            final(self).external == old(self).external,
            final(self).timeout == old(self).timeout,
            final(self).state_parts_apply_results == old(self).state_parts_apply_results,
            final(self).load_memtrie_results == old(self).load_memtrie_results,
            final(self).resharding_state_roots == old(self).resharding_state_roots,
            final(self).inbox == old(self).inbox,
            final(self).metrics.stage == old(self).metrics.stage,
            final(self).metrics.header_timeout == old(self).metrics.header_timeout,
            final(self).metrics.header_error == old(self).metrics.header_error,
            final(self).metrics.discard_parts == old(self).metrics.discard_parts,
            final(self).metrics.external_parts_done == old(self).metrics.external_parts_done,
            final(self).metrics.external_parts_failed == old(self).metrics.external_parts_failed,
            final(self).metrics.external_parts_size_downloaded == old(self).metrics.external_parts_size_downloaded,
            // the shard moves to apply scheduling exactly when every slot is
            // done
            (forall|i: int|
                0 <= i < old(shard_sync_download).downloads@.len() ==> (#[trigger] old(shard_sync_download).downloads@[i]).done) <==> final(shard_sync_download).status
                == ShardSyncStatus::StateApplyScheduling,
            final(shard_sync_download).status == ShardSyncStatus::StateApplyScheduling ==> final(shard_sync_download).downloads@.len() == 0,
            final(shard_sync_download).status != ShardSyncStatus::StateApplyScheduling ==> {
                &&& final(shard_sync_download).status == ShardSyncStatus::StateDownloadParts
                &&& final(shard_sync_download).downloads@.len() == old(shard_sync_download).downloads@.len()
                &&& forall|i: int|
                    0 <= i < old(shard_sync_download).downloads@.len() ==> final(shard_sync_download).downloads@[i] == part_slot_step(
                        old(shard_sync_download).downloads@[i],
                        now,
                        old(self).timeout,
                    )
            },
            r.0 == exists|i: int|
                0 <= i < old(shard_sync_download).downloads@.len() && !(#[trigger] old(shard_sync_download).downloads@[i]).done && timed_out(
                    now,
                    old(shard_sync_download).downloads@[i].prev_update_time,
                    old(self).timeout,
                ),
            r.1 == exists|i: int|
                0 <= i < old(shard_sync_download).downloads@.len() && !(#[trigger] old(shard_sync_download).downloads@[i]).done && part_slot_step(
                    old(shard_sync_download).downloads@[i],
                    now,
                    old(self).timeout,
                ).run_me,
            final(self).metrics.parts_done.value(shard_id) == n_parts_done(
                old(shard_sync_download).downloads@,
                old(shard_sync_download).downloads@.len() as int,
            ),
            final(self).metrics.parts_total.value(shard_id) == old(shard_sync_download).downloads@.len(),
            forall|k: u64|
                k != shard_id ==> #[trigger] final(self).metrics.parts_done.value(k) == old(self).metrics.parts_done.value(k),
            forall|k: u64|
                k != shard_id ==> #[trigger] final(self).metrics.parts_total.value(k) == old(self).metrics.parts_total.value(k),
            final(self).metrics.retry_part.value(shard_id) == sat_add_int(
                old(self).metrics.retry_part.value(shard_id),
                n_rearmed(
                    old(shard_sync_download).downloads@,
                    now,
                    old(self).timeout,
                    old(shard_sync_download).downloads@.len() as int,
                ),
            ),
            forall|k: u64|
                k != shard_id ==> #[trigger] final(self).metrics.retry_part.value(k) == old(self).metrics.retry_part.value(k),
            final(shard_sync_download).wf(),
            parts_status_step(*old(self), *final(self), *old(shard_sync_download), *final(shard_sync_download), shard_id, now, r),
    {
        let ghost s0 = shard_sync_download.downloads@;
        let ghost base_retry = self.metrics.retry_part.value(shard_id);
        let mut download_timeout = false;
        let mut run_shard_state_download = false;
        let mut parts_done = true;
        let num_parts = shard_sync_download.downloads.len();
        let mut num_parts_done: u64 = 0;
        let mut i: usize = 0;
        while i < num_parts
            invariant
                i <= num_parts,
                num_parts == shard_sync_download.downloads@.len(),
                s0.len() == num_parts,
                shard_sync_download.status == ShardSyncStatus::StateDownloadParts,
                forall|j: int|
                    i <= j < num_parts ==> shard_sync_download.downloads@[j] == s0[j],
                forall|j: int|
                    0 <= j < i ==> shard_sync_download.downloads@[j] == part_slot_step(
                        s0[j],
                        now,
                        old(self).timeout,
                    ),
                forall|j: int| 0 <= j < s0.len() ==> (#[trigger] s0[j]).wf(),
                self.timeout == old(self).timeout,
                parts_done == (forall|j: int| 0 <= j < i ==> (#[trigger] s0[j]).done),
                num_parts_done == n_parts_done(s0, i as int),
                download_timeout == exists|j: int|
                    0 <= j < i && !(#[trigger] s0[j]).done && timed_out(
                        now,
                        s0[j].prev_update_time,
                        old(self).timeout,
                    ),
                run_shard_state_download == exists|j: int|
                    0 <= j < i && !(#[trigger] s0[j]).done && part_slot_step(
                        s0[j],
                        now,
                        old(self).timeout,
                    ).run_me,
                self.metrics.retry_part.value(shard_id) == sat_add_int(
                    base_retry,
                    n_rearmed(s0, now, old(self).timeout, i as int),
                ),
                forall|k: u64|
                    k != shard_id ==> #[trigger] self.metrics.retry_part.value(k) == old(self).metrics.retry_part.value(k),
                self.external == old(self).external,
                self.state_parts_apply_results == old(self).state_parts_apply_results,
                self.load_memtrie_results == old(self).load_memtrie_results,
                self.resharding_state_roots == old(self).resharding_state_roots,
                self.inbox == old(self).inbox,
                self.metrics.stage == old(self).metrics.stage,
                self.metrics.header_timeout == old(self).metrics.header_timeout,
                self.metrics.header_error == old(self).metrics.header_error,
                self.metrics.parts_done == old(self).metrics.parts_done,
                self.metrics.parts_total == old(self).metrics.parts_total,
                self.metrics.discard_parts == old(self).metrics.discard_parts,
                self.metrics.external_parts_done == old(self).metrics.external_parts_done,
                self.metrics.external_parts_failed == old(self).metrics.external_parts_failed,
                self.metrics.external_parts_size_downloaded == old(self).metrics.external_parts_size_downloaded,
            decreases num_parts - i,
        {
            proof {
                lemma_n_rearmed_bounds(s0, now, old(self).timeout, i as int);
                lemma_n_rearmed_bounds(s0, now, old(self).timeout, i as int + 1);
                lemma_n_parts_done_bounds(s0, i as int);
                assert(n_parts_done(s0, i as int + 1) == n_parts_done(s0, i as int) + (
                if s0[i as int].done {
                    1int
                } else {
                    0
                }));
                assert(n_rearmed(s0, now, old(self).timeout, i as int + 1) == n_rearmed(
                    s0,
                    now,
                    old(self).timeout,
                    i as int,
                ) + (if part_rearm_cond(s0[i as int], now, old(self).timeout) {
                    1int
                } else {
                    0
                }));
            }
            let d = shard_sync_download.downloads[i];
            if !d.done {
                parts_done = false;
                let part_timeout = check_timed_out(now, d.prev_update_time, self.timeout);
                let mut d2 = d;
                if part_timeout || d.error {
                    download_timeout = download_timeout || part_timeout;
                    if part_timeout || d.last_target.is_some() {
                        // an external-storage failure (no target) waits for
                        // its timeout instead of an immediate retry
                        self.metrics.retry_part.inc(shard_id);
                        d2.run_me = true;
                        d2.error = false;
                        d2.prev_update_time = now;
                    }
                }
                shard_sync_download.downloads[i] = d2;
                if d2.run_me {
                    run_shard_state_download = true;
                }
            } else {
                num_parts_done = num_parts_done + 1;
                proof {
                    assert(shard_sync_download.downloads@[i as int] == part_slot_step(
                        s0[i as int],
                        now,
                        old(self).timeout,
                    ));
                }
            }
            i = i + 1;
        }
        self.metrics.parts_done.set(shard_id, num_parts_done);
        self.metrics.parts_total.set(shard_id, num_parts as u64);
        if parts_done {
            *shard_sync_download = ShardSyncDownload {
                downloads: Vec::new(),
                status: ShardSyncStatus::StateApplyScheduling,
            };
        }
        (download_timeout, run_shard_state_download)
    }

    /// Enqueues the apply-parts task, sized by the stored state header, and
    /// moves the shard to apply-in-progress.  When the enqueue fails, the
    /// downloaded parts cannot be finalized: the shard starts over from the
    /// header phase, its parts rows are cleared, and the discard counter
    /// moves.
    pub fn sync_shards_apply_scheduling_status(
        &mut self,
        shard_id: u64,
        shard_sync_download: &mut ShardSyncDownload,
        sync_hash: CryptoHash,
        chain: &mut ChainEnv,
        now: u64,
        actions: &mut Vec<Action>,
    ) -> (r: Result<(), SyncError>)
        requires
            old(shard_sync_download).wf(),
            old(shard_sync_download).status == ShardSyncStatus::StateApplyScheduling,
            old(chain).wf(),
        ensures
            final(chain).wf(),
            final(self).external == old(self).external,
            final(self).timeout == old(self).timeout,
            final(self).state_parts_apply_results == old(self).state_parts_apply_results,
            final(self).load_memtrie_results == old(self).load_memtrie_results,
            final(self).resharding_state_roots == old(self).resharding_state_roots,
            final(self).inbox == old(self).inbox,
            final(self).metrics.stage == old(self).metrics.stage,
            final(self).metrics.header_timeout == old(self).metrics.header_timeout,
            final(self).metrics.header_error == old(self).metrics.header_error,
            final(self).metrics.retry_part == old(self).metrics.retry_part,
            final(self).metrics.parts_done == old(self).metrics.parts_done,
            final(self).metrics.parts_total == old(self).metrics.parts_total,
            final(self).metrics.external_parts_done == old(self).metrics.external_parts_done,
            final(self).metrics.external_parts_failed == old(self).metrics.external_parts_failed,
            final(self).metrics.external_parts_size_downloaded == old(self).metrics.external_parts_size_downloaded,
            final(chain).headers == old(chain).headers,
            final(chain).state_headers == old(chain).state_headers,
            final(chain).flat_storage == old(chain).flat_storage,
            final(chain).finalized == old(chain).finalized,
            final(chain).faults == old(chain).faults,
            !old(chain).state_headers@.contains_key(StateHeaderKey { shard_id, sync_hash })
                ==> r == Err::<(), SyncError>(SyncError::StateHeaderMissing) && *final(shard_sync_download) == *old(shard_sync_download) && final(chain).parts == old(chain).parts && final(actions)@
                == old(actions)@ && final(self).metrics.discard_parts == old(self).metrics.discard_parts,
            old(chain).state_headers@.contains_key(StateHeaderKey { shard_id, sync_hash }) && !old(chain).faults.schedule_apply ==> r == Ok::<(), SyncError>(()) && final(shard_sync_download).status == ShardSyncStatus::StateApplyInProgress && final(shard_sync_download).downloads@.len() == 0 && final(actions)@ == old(actions)@.push(
                Action::ScheduleApplyStateParts {
                    shard_id,
                    sync_hash,
                    num_parts: old(chain).state_headers@[
                        StateHeaderKey { shard_id, sync_hash }
                    ].num_parts,
                },
            ) && final(chain).parts == old(chain).parts && final(self).metrics.discard_parts
                == old(self).metrics.discard_parts,
            old(chain).state_headers@.contains_key(StateHeaderKey { shard_id, sync_hash }) && old(chain).faults.schedule_apply ==> is_fresh_header_record(*final(shard_sync_download), now)
                && counter_bumped(
                old(self).metrics.discard_parts,
                final(self).metrics.discard_parts,
                shard_id,
            ) && final(actions)@ == old(actions)@ && (if old(chain).faults.clear_parts {
                r == Err::<(), SyncError>(SyncError::StorageFault) && final(chain).parts == old(chain).parts
            } else {
                r == Ok::<(), SyncError>(()) && final(chain).parts@ == old(chain).parts@.remove_keys(
                    crate::chain::cleared_keys(
                        sync_hash,
                        shard_id,
                        old(chain).state_headers@[
                            StateHeaderKey { shard_id, sync_hash }
                        ].num_parts,
                    ),
                )
            }),
            final(shard_sync_download).wf(),
            scheduling_step(*old(self), *final(self), *old(chain), *final(chain), *old(shard_sync_download), *final(shard_sync_download), old(actions)@, final(actions)@, shard_id, sync_hash, now, r),
    {
        let shard_state_header = match chain.get_state_header(shard_id, sync_hash) {
            Ok(h) => h,
            Err(e) => {
                return Err(e);
            },
        };
        let state_num_parts = shard_state_header.num_parts;
        match chain.schedule_apply_state_parts(shard_id, sync_hash, state_num_parts) {
            Ok(a) => {
                actions.push(a);
                *shard_sync_download = ShardSyncDownload {
                    downloads: Vec::new(),
                    status: ShardSyncStatus::StateApplyInProgress,
                };
            },
            Err(_err) => {
                // cannot finalize the downloaded state; the reasonable
                // behavior is to start from the very beginning
                self.metrics.discard_parts.inc(shard_id);
                *shard_sync_download = ShardSyncDownload::new_download_state_header(now);
                match chain.clear_downloaded_parts(shard_id, sync_hash, state_num_parts) {
                    Ok(()) => {},
                    Err(e) => {
                        return Err(e);
                    },
                }
            },
        }
        Ok(())
    }

    /// Waits for the apply result; when it arrives, propagates its error or
    /// builds flat storage (unless the chunk sits at genesis), enqueues the
    /// memtrie load and moves the shard to finalizing.
    pub fn sync_shards_apply_status(
        &mut self,
        shard_id: u64,
        shard_sync_download: &mut ShardSyncDownload,
        sync_hash: CryptoHash,
        chain: &mut ChainEnv,
        epoch_manager: &EpochManagerEnv,
        actions: &mut Vec<Action>,
    ) -> (r: Result<(), SyncError>)
        requires
            old(shard_sync_download).wf(),
            old(shard_sync_download).status == ShardSyncStatus::StateApplyInProgress,
            old(chain).wf(),
            shard_id <= 0xffff_ffff,
        ensures
            final(chain).wf(),
            final(self).external == old(self).external,
            final(self).timeout == old(self).timeout,
            final(self).load_memtrie_results == old(self).load_memtrie_results,
            final(self).resharding_state_roots == old(self).resharding_state_roots,
            final(self).inbox == old(self).inbox,
            final(self).metrics == old(self).metrics,
            final(chain).headers == old(chain).headers,
            final(chain).state_headers == old(chain).state_headers,
            final(chain).parts == old(chain).parts,
            final(chain).finalized == old(chain).finalized,
            final(chain).faults == old(chain).faults,
            !old(self).state_parts_apply_results@.contains_key(shard_id) ==> r == Ok::<
                (),
                SyncError,
            >(()) && *final(shard_sync_download) == *old(shard_sync_download) && final(self).state_parts_apply_results@ == old(self).state_parts_apply_results@ && final(chain).flat_storage == old(chain).flat_storage && final(actions)@ == old(actions)@,
            old(self).state_parts_apply_results@.contains_key(shard_id) ==> final(self).state_parts_apply_results@ == old(self).state_parts_apply_results@.remove(shard_id)
                && apply_result_processed(
                *old(chain),
                *final(chain),
                *epoch_manager,
                *old(shard_sync_download),
                *final(shard_sync_download),
                old(self).state_parts_apply_results@[shard_id],
                old(actions)@,
                final(actions)@,
                shard_id,
                sync_hash,
                r,
            ),
            final(shard_sync_download).wf(),
            apply_status_step(*old(self), *final(self), *old(chain), *final(chain), *epoch_manager, *old(shard_sync_download), *final(shard_sync_download), old(actions)@, final(actions)@, shard_id, sync_hash, r),
    {
        // keep waiting until our shard is on the list of results (set via
        // callback from the client, both for sync and catchup)
        let result = match self.state_parts_apply_results.remove(&shard_id) {
            Some(res) => res,
            None => {
                proof {
                    assert(self.state_parts_apply_results@ =~= old(self).state_parts_apply_results@);
                }
                return Ok(());
            },
        };
        match result {
            Ok(()) => {},
            Err(e) => {
                return Err(e);
            },
        }
        let header = match chain.get_block_header(&sync_hash) {
            Ok(h) => h,
            Err(e) => {
                return Err(e);
            },
        };
        let shard_uid = match epoch_manager.shard_id_to_uid(shard_id, &header.epoch_id) {
            Ok(u) => u,
            Err(e) => {
                return Err(e);
            },
        };
        let shard_state_header = match chain.get_state_header(shard_id, sync_hash) {
            Ok(h) => h,
            Err(e) => {
                return Err(e);
            },
        };
        let block_hash = shard_state_header.chunk_prev_block_hash;
        // the state was synced on top of the block before the chunk; at
        // genesis (zero parent) there is no flat storage to create
        if !crate::chain::hash_eq(&block_hash, &CryptoHash::zero()) {
            match chain.create_flat_storage_for_shard(shard_uid) {
                Ok(()) => {},
                Err(e) => {
                    return Err(e);
                },
            }
        }
        // the memtrie load is scheduled once flat storage (if any) is ready
        let a = chain.schedule_load_memtrie(shard_uid, sync_hash, block_hash);
        actions.push(a);
        *shard_sync_download = ShardSyncDownload {
            downloads: Vec::new(),
            status: ShardSyncStatus::StateApplyFinalizing,
        };
        Ok(())
    }

    /// Waits for the memtrie result; on success finalizes the shard's state
    /// and ends in `StateSyncDone`, or in `ReshardingScheduling` when the
    /// layout is about to change.  On any failure the shard starts over from
    /// the header phase, its parts rows are cleared, the discard counter
    /// moves, and the error is propagated.  Returns true exactly when the
    /// shard finished.
    pub fn sync_shards_apply_finalizing_status(
        &mut self,
        shard_uid: ShardUId,
        chain: &mut ChainEnv,
        sync_hash: CryptoHash,
        now: u64,
        need_to_reshard: bool,
        shard_sync_download: &mut ShardSyncDownload,
    ) -> (r: Result<bool, SyncError>)
        requires
            old(shard_sync_download).wf(),
            old(shard_sync_download).status == ShardSyncStatus::StateApplyFinalizing,
            old(chain).wf(),
        ensures
            final(chain).wf(),
            final(self).external == old(self).external,
            final(self).timeout == old(self).timeout,
            final(self).state_parts_apply_results == old(self).state_parts_apply_results,
            final(self).resharding_state_roots == old(self).resharding_state_roots,
            final(self).inbox == old(self).inbox,
            final(self).metrics.stage == old(self).metrics.stage,
            final(self).metrics.header_timeout == old(self).metrics.header_timeout,
            final(self).metrics.header_error == old(self).metrics.header_error,
            final(self).metrics.retry_part == old(self).metrics.retry_part,
            final(self).metrics.parts_done == old(self).metrics.parts_done,
            final(self).metrics.parts_total == old(self).metrics.parts_total,
            final(self).metrics.external_parts_done == old(self).metrics.external_parts_done,
            final(self).metrics.external_parts_failed == old(self).metrics.external_parts_failed,
            final(self).metrics.external_parts_size_downloaded == old(self).metrics.external_parts_size_downloaded,
            final(chain).headers == old(chain).headers,
            final(chain).state_headers == old(chain).state_headers,
            final(chain).flat_storage == old(chain).flat_storage,
            final(chain).faults == old(chain).faults,
            !old(self).load_memtrie_results@.contains_key(shard_uid) ==> r == Ok::<
                bool,
                SyncError,
            >(false) && *final(shard_sync_download) == *old(shard_sync_download) && final(self).load_memtrie_results@ == old(self).load_memtrie_results@ && final(chain).parts == old(chain).parts && final(chain).finalized == old(chain).finalized && final(self).metrics.discard_parts == old(self).metrics.discard_parts,
            old(self).load_memtrie_results@.contains_key(shard_uid) ==> final(self).load_memtrie_results@ == old(self).load_memtrie_results@.remove(shard_uid)
                && finalizing_processed(
                *old(chain),
                *final(chain),
                *old(shard_sync_download),
                *final(shard_sync_download),
                old(self).metrics.discard_parts,
                final(self).metrics.discard_parts,
                old(self).load_memtrie_results@[shard_uid],
                shard_uid,
                sync_hash,
                now,
                need_to_reshard,
                r,
            ),
            final(shard_sync_download).wf(),
            finalizing_status_step(*old(self), *final(self), *old(chain), *final(chain), shard_uid, *old(shard_sync_download), *final(shard_sync_download), sync_hash, now, need_to_reshard, r),
    {
        let shard_id: u64 = shard_uid.shard_id as u64;
        let result = self.sync_shards_apply_finalizing_status_impl(
            shard_uid,
            chain,
            sync_hash,
            need_to_reshard,
            shard_sync_download,
        );
        if let Err(err) = result {
            // cannot finalize the downloaded state; the reasonable behavior
            // is to start from the very beginning
            self.metrics.discard_parts.inc(shard_id);
            *shard_sync_download = ShardSyncDownload::new_download_state_header(now);
            let shard_state_header = match chain.get_state_header(shard_id, sync_hash) {
                Ok(h) => h,
                Err(e) => {
                    return Err(e);
                },
            };
            let state_num_parts = shard_state_header.num_parts;
            match chain.clear_downloaded_parts(shard_id, sync_hash, state_num_parts) {
                Ok(()) => {},
                Err(e) => {
                    return Err(e);
                },
            }
            return Err(err);
        }
        result
    }

    /// The waiting and finalizing step itself, without the reset that its
    /// caller performs on failure.
    fn sync_shards_apply_finalizing_status_impl(
        &mut self,
        shard_uid: ShardUId,
        chain: &mut ChainEnv,
        sync_hash: CryptoHash,
        need_to_reshard: bool,
        shard_sync_download: &mut ShardSyncDownload,
    ) -> (r: Result<bool, SyncError>)
        requires
            old(shard_sync_download).wf(),
            old(shard_sync_download).status == ShardSyncStatus::StateApplyFinalizing,
            old(chain).wf(),
        ensures
            final(chain).wf(),
            final(self).external == old(self).external,
            final(self).timeout == old(self).timeout,
            final(self).state_parts_apply_results == old(self).state_parts_apply_results,
            final(self).resharding_state_roots == old(self).resharding_state_roots,
            final(self).inbox == old(self).inbox,
            final(self).metrics == old(self).metrics,
            final(chain).headers == old(chain).headers,
            final(chain).state_headers == old(chain).state_headers,
            final(chain).parts == old(chain).parts,
            final(chain).flat_storage == old(chain).flat_storage,
            final(chain).faults == old(chain).faults,
            !old(self).load_memtrie_results@.contains_key(shard_uid) ==> r == Ok::<
                bool,
                SyncError,
            >(false) && *final(shard_sync_download) == *old(shard_sync_download) && final(self).load_memtrie_results@ == old(self).load_memtrie_results@ && final(chain).finalized
                == old(chain).finalized,
            old(self).load_memtrie_results@.contains_key(shard_uid) ==> final(self).load_memtrie_results@ == old(self).load_memtrie_results@.remove(shard_uid) && (match
                old(self).load_memtrie_results@[shard_uid] {
                Err(e) => r == Err::<bool, SyncError>(e) && *final(shard_sync_download) == *old(shard_sync_download) && final(chain).finalized == old(chain).finalized,
                Ok(()) => {
                    if old(chain).faults.set_state_finalize {
                        r == Err::<bool, SyncError>(SyncError::StorageFault) && *final(shard_sync_download) == *old(shard_sync_download) && final(chain).finalized == old(chain).finalized
                    } else {
                        &&& final(chain).finalized@ == old(chain).finalized@.insert(
                            shard_uid.shard_id as u64,
                            sync_hash,
                        )
                        &&& final(shard_sync_download).downloads@.len() == 0
                        &&& (if need_to_reshard {
                            r == Ok::<bool, SyncError>(false) && final(shard_sync_download).status
                                == ShardSyncStatus::ReshardingScheduling
                        } else {
                            r == Ok::<bool, SyncError>(true) && final(shard_sync_download).status
                                == ShardSyncStatus::StateSyncDone
                        })
                    }
                },
            }),
            final(shard_sync_download).wf(),
    {
        // keep waiting until our shard is on the list of results (set via
        // callback from the client, both for sync and catchup)
        let mut shard_sync_done = false;
        let result = match self.load_memtrie_results.remove(&shard_uid) {
            Some(res) => res,
            None => {
                proof {
                    assert(self.load_memtrie_results@ =~= old(self).load_memtrie_results@);
                }
                return Ok(shard_sync_done);
            },
        };
        match result {
            Ok(()) => {},
            Err(e) => {
                return Err(e);
            },
        }
        match chain.set_state_finalize(shard_uid.shard_id as u64, sync_hash) {
            Ok(()) => {},
            Err(e) => {
                return Err(e);
            },
        }
        if need_to_reshard {
            // the layout changes in this epoch: resharding takes over
            *shard_sync_download = ShardSyncDownload {
                downloads: Vec::new(),
                status: ShardSyncStatus::ReshardingScheduling,
            };
        } else {
            // no layout change: this shard is done
            *shard_sync_download = ShardSyncDownload {
                downloads: Vec::new(),
                status: ShardSyncStatus::StateSyncDone,
            };
            shard_sync_done = true;
        }
        Ok(shard_sync_done)
    }

    /// Makes a header request to one of the peers, or starts the header
    /// fetch from external storage when that is configured.
    pub fn request_shard_header(
        &self,
        shard_id: u64,
        sync_hash: CryptoHash,
        possible_targets: &Vec<PeerId>,
        new_shard_sync_download: &mut ShardSyncDownload,
        epoch_id: CryptoHash,
        epoch_height: u64,
        actions: &mut Vec<Action>,
    )
        requires
            old(new_shard_sync_download).wf(),
            old(new_shard_sync_download).status == ShardSyncStatus::StateDownloadHeader,
            self.external is None ==> possible_targets@.len() > 0 && old(new_shard_sync_download).downloads@[0].run_me,
        ensures
            final(new_shard_sync_download).status == ShardSyncStatus::StateDownloadHeader,
            final(new_shard_sync_download).wf(),
            self.external is Some ==> (if old(new_shard_sync_download).downloads@[0].run_me {
                &&& final(new_shard_sync_download).downloads@ == old(new_shard_sync_download).downloads@.update(
                    0,
                    armed_external_slot(old(new_shard_sync_download).downloads@[0]),
                )
                &&& final(actions)@ == old(actions)@.push(
                    Action::FetchHeaderFromExternal { shard_id, sync_hash, epoch_id, epoch_height },
                )
            } else {
                &&& *final(new_shard_sync_download) == *old(new_shard_sync_download)
                &&& final(actions)@ == old(actions)@
            }),
            self.external is None ==> exists|p: PeerId|
                #[trigger] possible_targets@.contains(p) && final(new_shard_sync_download).downloads@ == old(new_shard_sync_download).downloads@.update(
                    0,
                    armed_peer_header_slot(old(new_shard_sync_download).downloads@[0], p),
                ) && final(actions)@ == old(actions)@.push(
                    Action::StateRequestHeader { shard_id, sync_hash, peer_id: p },
                ),
    {
        if self.external.is_some() {
            // external storage serves headers while it is configured
            if !new_shard_sync_download.downloads[0].run_me {
                return ;
            }
            let mut d = new_shard_sync_download.downloads[0];
            d.run_me = false;
            d.state_requests_count = bump_count(d.state_requests_count);
            d.last_target = None;
            new_shard_sync_download.downloads[0] = d;
            actions.push(
                Action::FetchHeaderFromExternal { shard_id, sync_hash, epoch_id, epoch_height },
            );
        } else {
            let peer_id = match choose_peer(possible_targets) {
                Some(p) => p,
                None => {
                    // unreachable: the caller supplies at least one peer
                    proof {
                        assert(false);
                    }
                    return ;
                },
            };
            let mut d = new_shard_sync_download.downloads[0];
            d.run_me = false;
            d.state_requests_count = bump_count(d.state_requests_count);
            d.last_target = Some(peer_id);
            new_shard_sync_download.downloads[0] = d;
            actions.push(Action::StateRequestHeader { shard_id, sync_hash, peer_id });
        }
    }

    /// Makes requests to download the armed parts of the shard.  A part past
    /// the fallback threshold goes to external storage while semaphore
    /// permits remain; the rest go to the peer network, at most
    /// [`MAX_STATE_PART_REQUEST`] of them per tick, and only when the
    /// snapshot anchor two blocks before `sync_hash` could be read.
    pub fn request_shard_parts(
        &mut self,
        shard_id: u64,
        sync_hash: CryptoHash,
        new_shard_sync_download: &mut ShardSyncDownload,
        chain: &ChainEnv,
        epoch_id: CryptoHash,
        epoch_height: u64,
        actions: &mut Vec<Action>,
    )
        requires
            old(self).wf(),
            old(new_shard_sync_download).wf(),
            old(new_shard_sync_download).status == ShardSyncStatus::StateDownloadParts,
            old(self).has_external() ==> chain.state_headers@.contains_key(
                StateHeaderKey { shard_id, sync_hash },
            ),
        ensures
            final(self).wf(),
            final(self).timeout == old(self).timeout,
            final(self).state_parts_apply_results == old(self).state_parts_apply_results,
            final(self).load_memtrie_results == old(self).load_memtrie_results,
            final(self).resharding_state_roots == old(self).resharding_state_roots,
            final(self).inbox == old(self).inbox,
            final(self).metrics == old(self).metrics,
            final(new_shard_sync_download).status == ShardSyncStatus::StateDownloadParts,
            final(new_shard_sync_download).wf(),
            final(new_shard_sync_download).downloads@.len() == old(new_shard_sync_download).downloads@.len(),
            // each slot took its route, budget permitting
            forall|i: int|
                0 <= i < old(new_shard_sync_download).downloads@.len() ==> final(new_shard_sync_download).downloads@[i] == part_dispatch_slot(
                    old(new_shard_sync_download).downloads@[i],
                    old(self).has_external(),
                    old(self).ext_threshold(),
                    n_ext_routed(
                        old(new_shard_sync_download).downloads@,
                        old(self).has_external(),
                        old(self).ext_threshold(),
                        i,
                    ),
                    avail0_of(*old(self)) as int,
                    prev_prev_ok(*chain, sync_hash),
                    n_peer_routed(
                        old(new_shard_sync_download).downloads@,
                        old(self).has_external(),
                        old(self).ext_threshold(),
                        i,
                    ),
                ),
            // exactly the dispatched external fetches hold permits now
            match old(self).external {
                Some(e) => final(self).external matches Some(f) && f.chain_id == e.chain_id
                    && f.location == e.location && f.peer_attempts_threshold
                    == e.peer_attempts_threshold && f.semaphore.capacity == e.semaphore.capacity
                    && f.semaphore.in_flight == e.semaphore.in_flight + min_int(
                    n_ext_routed(
                        old(new_shard_sync_download).downloads@,
                        true,
                        e.peer_attempts_threshold,
                        old(new_shard_sync_download).downloads@.len() as int,
                    ),
                    e.semaphore.available_spec() as int,
                ),
                None => final(self).external is None,
            },
            // the appended actions: one per dispatched slot
            old(actions)@.len() <= final(actions)@.len(),
            final(actions)@.subrange(0, old(actions)@.len() as int) == old(actions)@,
            final(actions)@.len() - old(actions)@.len() == min_int(
                n_ext_routed(
                    old(new_shard_sync_download).downloads@,
                    old(self).has_external(),
                    old(self).ext_threshold(),
                    old(new_shard_sync_download).downloads@.len() as int,
                ),
                avail0_of(*old(self)) as int,
            ) + (if prev_prev_ok(*chain, sync_hash) {
                min_int(
                    n_peer_routed(
                        old(new_shard_sync_download).downloads@,
                        old(self).has_external(),
                        old(self).ext_threshold(),
                        old(new_shard_sync_download).downloads@.len() as int,
                    ),
                    MAX_STATE_PART_REQUEST as int,
                )
            } else {
                0
            }),
            // at most sixteen peer part requests were issued this tick
            n_peer_part_actions(
                final(actions)@.skip(old(actions)@.len() as int),
                final(actions)@.len() - old(actions)@.len(),
            ) <= MAX_STATE_PART_REQUEST,
            // the external fetches issued equal the permits taken
            n_ext_part_actions(
                final(actions)@.skip(old(actions)@.len() as int),
                final(actions)@.len() - old(actions)@.len(),
            ) == min_int(
                n_ext_routed(
                    old(new_shard_sync_download).downloads@,
                    old(self).has_external(),
                    old(self).ext_threshold(),
                    old(new_shard_sync_download).downloads@.len() as int,
                ),
                avail0_of(*old(self)) as int,
            ),
            // every appended action asks for one armed part of this shard
            forall|k: int|
                old(actions)@.len() <= k < final(actions)@.len() ==> appended_part_action_ok(
                    #[trigger] final(actions)@[k],
                    *old(self),
                    *chain,
                    old(new_shard_sync_download).downloads@,
                    shard_id,
                    sync_hash,
                    epoch_id,
                    epoch_height,
                ),
            // no part is asked for twice
            forall|k1: int, k2: int|
                old(actions)@.len() <= k1 < k2 < final(actions)@.len() ==> action_part_id(
                    #[trigger] final(actions)@[k1],
                ) != action_part_id(#[trigger] final(actions)@[k2]),
            // each slot sent to external storage has exactly its fetch
            // appended
            forall|i: int|
                0 <= i < old(new_shard_sync_download).downloads@.len() && #[trigger] ext_dispatched(
                    old(new_shard_sync_download).downloads@,
                    old(self).has_external(),
                    old(self).ext_threshold(),
                    avail0_of(*old(self)) as int,
                    i,
                ) ==> exists|k: int|
                    #![auto]
                    old(actions)@.len() <= k < final(actions)@.len() && final(actions)@[k]
                        == ext_fetch_action(*chain, shard_id, sync_hash, epoch_id, epoch_height, i),
            // and each slot asked from the peers, its request
            forall|i: int|
                0 <= i < old(new_shard_sync_download).downloads@.len()
                    && #[trigger] peer_dispatched(
                    old(new_shard_sync_download).downloads@,
                    old(self).has_external(),
                    old(self).ext_threshold(),
                    prev_prev_ok(*chain, sync_hash),
                    i,
                ) ==> exists|k: int|
                    #![auto]
                    old(actions)@.len() <= k < final(actions)@.len() && final(actions)@[k]
                        == peer_fetch_action(*chain, shard_id, sync_hash, i),
    {
        let ghost s0 = new_shard_sync_download.downloads@;
        let ghost he = self.has_external();
        let ghost thr = self.ext_threshold();
        let ghost avail0 = avail0_of(*self) as int;
        let ghost a0 = actions@;
        let ghost in_flight0: u64 = match &self.external {
            Some(e) => e.semaphore.in_flight,
            None => 0,
        };
        // the anchor for peer part requests: the hash of the block two
        // before the sync block, so the network layer can pick a peer
        // holding the matching snapshot
        let sync_prev_prev: Option<CryptoHash> = match chain.get_block_header(&sync_hash) {
            Ok(h) => match chain.get_block_header(&h.prev_hash) {
                Ok(p) => Some(p.prev_hash),
                Err(_) => None,
            },
            Err(_) => None,
        };
        let ghost pp_ok = prev_prev_ok(*chain, sync_hash);
        // the state root and part count, read from the stored header, are
        // only needed for external fetches
        let header_info = if self.external.is_some() {
            match chain.get_state_header(shard_id, sync_hash) {
                Ok(h) => Some(h),
                Err(_) => {
                    // unreachable: a shard downloading parts has its state
                    // header stored
                    proof {
                        assert(false);
                    }
                    None
                },
            }
        } else {
            None
        };
        let n = new_shard_sync_download.downloads.len();
        let mut peer_requests_sent: u64 = 0;
        let mut i: usize = 0;
        while i < n
            invariant
                i <= n,
                n == new_shard_sync_download.downloads@.len(),
                s0.len() == n,
                new_shard_sync_download.status == ShardSyncStatus::StateDownloadParts,
                forall|j: int| 0 <= j < s0.len() ==> (#[trigger] s0[j]).wf(),
                self.timeout == old(self).timeout,
                self.state_parts_apply_results == old(self).state_parts_apply_results,
                self.load_memtrie_results == old(self).load_memtrie_results,
                self.resharding_state_roots == old(self).resharding_state_roots,
                self.inbox == old(self).inbox,
                self.metrics == old(self).metrics,
                he == old(self).has_external(),
                thr == old(self).ext_threshold(),
                avail0 == avail0_of(*old(self)) as int,
                pp_ok == prev_prev_ok(*chain, sync_hash),
                sync_prev_prev is Some <==> pp_ok,
                sync_prev_prev matches Some(pp) ==> pp == prev_prev_hash(*chain, sync_hash),
                he ==> chain.state_headers@.contains_key(StateHeaderKey { shard_id, sync_hash }),
                he ==> (header_info matches Some(hi) && hi == chain.state_headers@[
                    StateHeaderKey { shard_id, sync_hash }
                ]),
                !he ==> self.external is None && old(self).external is None,
                forall|j: int|
                    i <= j < n ==> new_shard_sync_download.downloads@[j] == s0[j],
                forall|j: int|
                    0 <= j < i ==> new_shard_sync_download.downloads@[j] == part_dispatch_slot(
                        s0[j],
                        he,
                        thr,
                        n_ext_routed(s0, he, thr, j),
                        avail0,
                        pp_ok,
                        n_peer_routed(s0, he, thr, j),
                    ),
                match old(self).external {
                    Some(e) => self.external matches Some(f) && f.chain_id == e.chain_id
                        && f.location == e.location && f.peer_attempts_threshold
                        == e.peer_attempts_threshold && f.semaphore.capacity
                        == e.semaphore.capacity && f.semaphore.in_flight == e.semaphore.in_flight
                        + min_int(n_ext_routed(s0, he, thr, i as int), avail0),
                    None => self.external is None,
                },
                self.wf(),
                peer_requests_sent == (if pp_ok {
                    min_int(n_peer_routed(s0, he, thr, i as int), MAX_STATE_PART_REQUEST as int)
                } else {
                    0
                }),
                a0.len() <= actions@.len(),
                actions@.subrange(0, a0.len() as int) == a0,
                actions@.len() - a0.len() == min_int(n_ext_routed(s0, he, thr, i as int), avail0)
                    + (if pp_ok {
                    min_int(n_peer_routed(s0, he, thr, i as int), MAX_STATE_PART_REQUEST as int)
                } else {
                    0
                }),
                n_peer_part_actions(actions@.skip(a0.len() as int), actions@.len() - a0.len())
                    == (if pp_ok {
                    min_int(n_peer_routed(s0, he, thr, i as int), MAX_STATE_PART_REQUEST as int)
                } else {
                    0
                }),
                n_ext_part_actions(actions@.skip(a0.len() as int), actions@.len() - a0.len())
                    == min_int(n_ext_routed(s0, he, thr, i as int), avail0),
                forall|k: int|
                    a0.len() <= k < actions@.len() ==> appended_part_action_ok(
                        #[trigger] actions@[k],
                        *old(self),
                        *chain,
                        s0,
                        shard_id,
                        sync_hash,
                        epoch_id,
                        epoch_height,
                    ),
                forall|k: int|
                    a0.len() <= k < actions@.len() ==> action_part_id(#[trigger] actions@[k])
                        < i as int,
                forall|k1: int, k2: int|
                    a0.len() <= k1 < k2 < actions@.len() ==> action_part_id(
                        #[trigger] actions@[k1],
                    ) != action_part_id(#[trigger] actions@[k2]),
                forall|j: int|
                    0 <= j < i as int && #[trigger] ext_dispatched(s0, he, thr, avail0, j)
                        ==> exists|k: int|
                        #![auto]
                        a0.len() <= k < actions@.len() && actions@[k] == ext_fetch_action(
                            *chain,
                            shard_id,
                            sync_hash,
                            epoch_id,
                            epoch_height,
                            j,
                        ),
                forall|j: int|
                    0 <= j < i as int && #[trigger] peer_dispatched(s0, he, thr, pp_ok, j)
                        ==> exists|k: int|
                        #![auto]
                        a0.len() <= k < actions@.len() && actions@[k] == peer_fetch_action(
                            *chain,
                            shard_id,
                            sync_hash,
                            j,
                        ),
            decreases n - i,
        {
            proof {
                lemma_n_routed_bounds(s0, he, thr, i as int);
                lemma_n_routed_bounds(s0, he, thr, i as int + 1);
                assert(n_ext_routed(s0, he, thr, i as int + 1) == n_ext_routed(
                    s0,
                    he,
                    thr,
                    i as int,
                ) + (if ext_routed(s0[i as int], he, thr) {
                    1int
                } else {
                    0
                }));
                assert(n_peer_routed(s0, he, thr, i as int + 1) == n_peer_routed(
                    s0,
                    he,
                    thr,
                    i as int,
                ) + (if peer_routed(s0[i as int], he, thr) {
                    1int
                } else {
                    0
                }));
            }
            let d = new_shard_sync_download.downloads[i];
            if d.run_me {
                let route_ext = match &self.external {
                    Some(e) => d.state_requests_count >= e.peer_attempts_threshold,
                    None => false,
                };
                if route_ext {
                    let avail_now = match &self.external {
                        Some(e) => e.semaphore.available(),
                        None => 0,
                    };
                    if avail_now > 0 {
                        let hi = match header_info {
                            Some(h) => h,
                            None => {
                                // unreachable: the external route reads the
                                // header before the loop
                                proof {
                                    assert(false);
                                }
                                return ;
                            },
                        };
                        let mut d2 = d;
                        d2.run_me = false;
                        d2.state_requests_count = bump_count(d2.state_requests_count);
                        d2.last_target = None;
                        new_shard_sync_download.downloads[i] = d2;
                        match &mut self.external {
                            Some(e) => {
                                e.semaphore.in_flight = e.semaphore.in_flight + 1;
                            },
                            None => {},
                        }
                        let ghost a_before = actions@;
                        actions.push(
                            Action::FetchPartFromExternal {
                                shard_id,
                                sync_hash,
                                epoch_id,
                                epoch_height,
                                part_id: i as u64,
                                num_parts: hi.num_parts,
                                state_root: hi.state_root,
                            },
                        );
                        proof {
                            lemma_n_peer_part_actions_push(
                                a_before.skip(a0.len() as int),
                                actions@[actions@.len() - 1],
                            );
                            assert(actions@.skip(a0.len() as int) =~= a_before.skip(
                                a0.len() as int,
                            ).push(actions@[actions@.len() - 1]));
                            assert(actions@.subrange(0, a0.len() as int) =~= a0);
                            assert(old(self).external is Some);
                            assert(he);
                            assert(chain.state_headers@.contains_key(
                                StateHeaderKey { shard_id, sync_hash },
                            ));
                            assert(actions@[actions@.len() - 1] == ext_fetch_action(
                                *chain,
                                shard_id,
                                sync_hash,
                                epoch_id,
                                epoch_height,
                                i as int,
                            ));
                            assert forall|j: int|
                                0 <= j < i as int + 1 && #[trigger] ext_dispatched(
                                    s0,
                                    he,
                                    thr,
                                    avail0,
                                    j,
                                ) implies exists|k: int|
                                #![auto]
                                a0.len() <= k < actions@.len() && actions@[k] == ext_fetch_action(
                                    *chain,
                                    shard_id,
                                    sync_hash,
                                    epoch_id,
                                    epoch_height,
                                    j,
                                ) by {
                                if j < i as int {
                                    let k0 = choose|k0: int|
                                        a0.len() <= k0 < a_before.len() && a_before[k0]
                                            == ext_fetch_action(
                                            *chain,
                                            shard_id,
                                            sync_hash,
                                            epoch_id,
                                            epoch_height,
                                            j,
                                        );
                                    assert(actions@[k0] == a_before[k0]);
                                } else {
                                    assert(actions@[actions@.len() - 1] == ext_fetch_action(
                                        *chain,
                                        shard_id,
                                        sync_hash,
                                        epoch_id,
                                        epoch_height,
                                        j,
                                    ));
                                }
                            }
                            assert forall|j: int|
                                0 <= j < i as int + 1 && #[trigger] peer_dispatched(
                                    s0,
                                    he,
                                    thr,
                                    pp_ok,
                                    j,
                                ) implies exists|k: int|
                                #![auto]
                                a0.len() <= k < actions@.len() && actions@[k] == peer_fetch_action(
                                    *chain,
                                    shard_id,
                                    sync_hash,
                                    j,
                                ) by {
                                assert(j < i as int);
                                let k0 = choose|k0: int|
                                    a0.len() <= k0 < a_before.len() && a_before[k0]
                                        == peer_fetch_action(*chain, shard_id, sync_hash, j);
                                assert(actions@[k0] == a_before[k0]);
                            }
                            assert(appended_part_action_ok(
                                actions@[actions@.len() - 1],
                                *old(self),
                                *chain,
                                s0,
                                shard_id,
                                sync_hash,
                                epoch_id,
                                epoch_height,
                            ));
                        }
                    }
                    if avail_now == 0 {
                        proof {
                            assert(!ext_dispatched(s0, he, thr, avail0, i as int));
                        }
                    }
                    // no permits: the slot stays armed for the next tick
                } else {
                    proof {
                        if peer_requests_sent >= MAX_STATE_PART_REQUEST || sync_prev_prev is None {
                            assert(!peer_dispatched(s0, he, thr, pp_ok, i as int));
                        }
                    }
                    if peer_requests_sent < MAX_STATE_PART_REQUEST {
                        match sync_prev_prev {
                            Some(pp) => {
                                let mut d2 = d;
                                d2.run_me = false;
                                d2.state_requests_count = bump_count(d2.state_requests_count);
                                new_shard_sync_download.downloads[i] = d2;
                                let ghost a_before = actions@;
                                actions.push(
                                    Action::StateRequestPart {
                                        shard_id,
                                        sync_hash,
                                        sync_prev_prev_hash: pp,
                                        part_id: i as u64,
                                    },
                                );
                                peer_requests_sent = peer_requests_sent + 1;
                                proof {
                                    lemma_n_peer_part_actions_push(
                                        a_before.skip(a0.len() as int),
                                        actions@[actions@.len() - 1],
                                    );
                                    assert(actions@.skip(a0.len() as int) =~= a_before.skip(
                                        a0.len() as int,
                                    ).push(actions@[actions@.len() - 1]));
                                    assert(actions@.subrange(0, a0.len() as int) =~= a0);
                                    assert(actions@[actions@.len() - 1] == peer_fetch_action(
                                        *chain,
                                        shard_id,
                                        sync_hash,
                                        i as int,
                                    ));
                                    assert forall|j: int|
                                        0 <= j < i as int + 1 && #[trigger] peer_dispatched(
                                            s0,
                                            he,
                                            thr,
                                            pp_ok,
                                            j,
                                        ) implies exists|k: int|
                                        #![auto]
                                        a0.len() <= k < actions@.len() && actions@[k]
                                            == peer_fetch_action(*chain, shard_id, sync_hash, j) by {
                                        if j < i as int {
                                            let k0 = choose|k0: int|
                                                a0.len() <= k0 < a_before.len() && a_before[k0]
                                                    == peer_fetch_action(
                                                    *chain,
                                                    shard_id,
                                                    sync_hash,
                                                    j,
                                                );
                                            assert(actions@[k0] == a_before[k0]);
                                        } else {
                                            assert(actions@[actions@.len() - 1]
                                                == peer_fetch_action(
                                                *chain,
                                                shard_id,
                                                sync_hash,
                                                j,
                                            ));
                                        }
                                    }
                                    assert forall|j: int|
                                        0 <= j < i as int + 1 && #[trigger] ext_dispatched(
                                            s0,
                                            he,
                                            thr,
                                            avail0,
                                            j,
                                        ) implies exists|k: int|
                                        #![auto]
                                        a0.len() <= k < actions@.len() && actions@[k]
                                            == ext_fetch_action(
                                            *chain,
                                            shard_id,
                                            sync_hash,
                                            epoch_id,
                                            epoch_height,
                                            j,
                                        ) by {
                                        assert(j < i as int);
                                        let k0 = choose|k0: int|
                                            a0.len() <= k0 < a_before.len() && a_before[k0]
                                                == ext_fetch_action(
                                                *chain,
                                                shard_id,
                                                sync_hash,
                                                epoch_id,
                                                epoch_height,
                                                j,
                                            );
                                        assert(actions@[k0] == a_before[k0]);
                                    }
                                    assert(appended_part_action_ok(
                                        actions@[actions@.len() - 1],
                                        *old(self),
                                        *chain,
                                        s0,
                                        shard_id,
                                        sync_hash,
                                        epoch_id,
                                        epoch_height,
                                    ));
                                }
                            },
                            None => {},
                        }
                    }
                }
            }
            i = i + 1;
        }
        proof {
            lemma_n_peer_part_actions_nonneg(
                actions@.skip(a0.len() as int),
                actions@.len() - a0.len(),
            );
        }
    }

    /// Checks the message queue for completed downloads and applies each
    /// message against the shard map.  Messages whose sync anchor is not the
    /// current one are dropped without touching any state: re-entering state
    /// sync with a new anchor voids all prior in-flight work.
    pub fn process_downloaded_parts(
        &mut self,
        chain: &mut ChainEnv,
        sync_hash: CryptoHash,
        shard_sync: &mut AssocMap<u64, ShardSyncDownload>,
    )
        requires
            old(chain).wf(),
            statuses_wf(*old(chain), sync_hash, old(shard_sync)@),
        ensures
            final(chain).wf(),
            statuses_wf(*final(chain), sync_hash, final(shard_sync)@),
            final(self).inbox@.len() == 0,
            final(self).external == old(self).external,
            final(self).timeout == old(self).timeout,
            final(self).state_parts_apply_results == old(self).state_parts_apply_results,
            final(self).load_memtrie_results == old(self).load_memtrie_results,
            final(self).resharding_state_roots == old(self).resharding_state_roots,
            final(self).metrics.stage == old(self).metrics.stage,
            final(self).metrics.header_timeout == old(self).metrics.header_timeout,
            final(self).metrics.header_error == old(self).metrics.header_error,
            final(self).metrics.retry_part == old(self).metrics.retry_part,
            final(self).metrics.parts_done == old(self).metrics.parts_done,
            final(self).metrics.parts_total == old(self).metrics.parts_total,
            final(self).metrics.discard_parts == old(self).metrics.discard_parts,
            final(chain).headers == old(chain).headers,
            final(chain).flat_storage == old(chain).flat_storage,
            final(chain).finalized == old(chain).finalized,
            final(chain).faults == old(chain).faults,
            final(chain).parts == old(chain).parts,
            forall|k: u64|
                (#[trigger] final(shard_sync)@.contains_key(k)) == old(shard_sync)@.contains_key(k),
            forall|k: u64|
                old(shard_sync)@.contains_key(k) ==> (#[trigger] final(shard_sync)@[k]).status
                    == old(shard_sync)@[k].status && final(shard_sync)@[k].downloads@.len() == old(shard_sync)@[k].downloads@.len(),
            // the drain is exactly the per-message relation, folded over the
            // queue in order
            intake_applied(
                *old(self),
                *final(self),
                *old(chain),
                *final(chain),
                old(shard_sync)@,
                final(shard_sync)@,
                sync_hash,
                old(self).inbox@,
            ),
            // a drain whose whole queue carries another sync anchor changes
            // nothing
            (forall|j: int|
                0 <= j < old(self).inbox@.len() ==> (#[trigger] old(self).inbox@[j]).sync_hash
                    != sync_hash) ==> final(chain).state_headers == old(chain).state_headers
                && final(shard_sync)@ == old(shard_sync)@ && final(self).metrics == old(self).metrics,
    {
        let mut msgs: Vec<StateSyncGetFileResult> = Vec::new();
        std::mem::swap(&mut msgs, &mut self.inbox);
        let n = msgs.len();
        let mut i: usize = 0;
        while i < n
            invariant
                i <= n,
                n == msgs@.len(),
                msgs@ == old(self).inbox@,
                self.inbox@.len() == 0,
                chain.wf(),
                statuses_wf(*chain, sync_hash, shard_sync@),
                self.external == old(self).external,
                self.timeout == old(self).timeout,
                self.state_parts_apply_results == old(self).state_parts_apply_results,
                self.load_memtrie_results == old(self).load_memtrie_results,
                self.resharding_state_roots == old(self).resharding_state_roots,
                self.metrics.stage == old(self).metrics.stage,
                self.metrics.header_timeout == old(self).metrics.header_timeout,
                self.metrics.header_error == old(self).metrics.header_error,
                self.metrics.retry_part == old(self).metrics.retry_part,
                self.metrics.parts_done == old(self).metrics.parts_done,
                self.metrics.parts_total == old(self).metrics.parts_total,
                self.metrics.discard_parts == old(self).metrics.discard_parts,
                chain.headers == old(chain).headers,
                chain.flat_storage == old(chain).flat_storage,
                chain.finalized == old(chain).finalized,
                chain.faults == old(chain).faults,
                chain.parts == old(chain).parts,
                forall|k: u64|
                    (#[trigger] shard_sync@.contains_key(k)) == old(shard_sync)@.contains_key(k),
                forall|k: u64|
                    old(shard_sync)@.contains_key(k) ==> (#[trigger] shard_sync@[k]).status == old(shard_sync)@[k].status && shard_sync@[k].downloads@.len() == old(shard_sync)@[k].downloads@.len(),
                (forall|j: int|
                    0 <= j < msgs@.len() ==> (#[trigger] msgs@[j]).sync_hash != sync_hash)
                    ==> chain.state_headers == old(chain).state_headers && shard_sync@ == old(shard_sync)@ && self.metrics == old(self).metrics,
                intake_applied(
                    *old(self),
                    *self,
                    *old(chain),
                    *chain,
                    old(shard_sync)@,
                    shard_sync@,
                    sync_hash,
                    msgs@.take(i as int),
                ),
            decreases n - i,
        {
            let ghost prev_sync = *self;
            let ghost prev_chain = *chain;
            let ghost prev_map = shard_sync@;
            let msg = msgs[i];
            self.apply_completion_message(chain, sync_hash, shard_sync, msg);
            proof {
                assert(completion_step(
                    prev_sync,
                    *self,
                    prev_chain,
                    *chain,
                    prev_map,
                    shard_sync@,
                    sync_hash,
                    msg,
                ));
                lemma_intake_applied_snoc(
                    *old(self),
                    prev_sync,
                    *self,
                    *old(chain),
                    prev_chain,
                    *chain,
                    old(shard_sync)@,
                    prev_map,
                    shard_sync@,
                    sync_hash,
                    msgs@.take(i as int),
                    msg,
                );
                assert(msgs@.take(i as int + 1) =~= msgs@.take(i as int).push(msgs@[i as int]));
            }
            i = i + 1;
        }
        proof {
            assert(msgs@.take(n as int) =~= msgs@);
        }
    }

    /// Advances every tracked shard one step.  Checks first that the shard
    /// layout did not change across the epoch boundary being synced — such a
    /// sync cannot succeed and is reported as [`SyncError::ShardLayoutChanged`]
    /// — then runs each shard's state handler and dispatches the requests it
    /// asked for.  Returns whether every tracked shard finished this tick.
    fn sync_shards_status(
        &mut self,
        sync_hash: CryptoHash,
        sync_status: &mut AssocMap<u64, ShardSyncDownload>,
        chain: &mut ChainEnv,
        epoch_manager: &EpochManagerEnv,
        highest_height_peers: &Vec<PeerId>,
        tracking_shards: &Vec<u64>,
        now: u64,
        actions: &mut Vec<Action>,
    ) -> (r: Result<bool, SyncError>)
        requires
            old(self).wf(),
            old(chain).wf(),
            statuses_wf(*old(chain), sync_hash, old(sync_status)@),
            forall|j: int|
                0 <= j < tracking_shards@.len() ==> #[trigger] tracking_shards@[j] <= 0xffff_ffff,
        ensures
            final(self).wf(),
            final(chain).wf(),
            statuses_wf(*final(chain), sync_hash, final(sync_status)@),
            final(self).timeout == old(self).timeout,
            final(self).inbox == old(self).inbox,
            final(self).resharding_state_roots == old(self).resharding_state_roots,
            final(chain).headers == old(chain).headers,
            final(chain).state_headers == old(chain).state_headers,
            // shards outside the tracked set keep their records
            forall|k: u64|
                old(sync_status)@.contains_key(k) ==> #[trigger] final(sync_status)@.contains_key(k),
            forall|k: u64|
                #[trigger] final(sync_status)@.contains_key(k) ==> old(sync_status)@.contains_key(k) || tracking_shards@.contains(k),
            forall|k: u64|
                !tracking_shards@.contains(k) && old(sync_status)@.contains_key(k)
                    ==> #[trigger] final(sync_status)@[k] == old(sync_status)@[k],
            // a shard only moves forward, except for the reset to the header
            // phase after a failed finalization
            seq_distinct(tracking_shards@) ==> forall|k: u64|
                old(sync_status)@.contains_key(k) && final(sync_status)@.contains_key(k) ==> (
                #[trigger] final(sync_status)@[k]).status.rank() >= old(sync_status)@[k].status.rank() || final(sync_status)@[k].status
                    == ShardSyncStatus::StateDownloadHeader,
            // a failed pre-check reports the failure and changes nothing
            precheck_error(*old(chain), *epoch_manager, sync_hash) matches Some(e) ==> r == Err::<
                bool,
                SyncError,
            >(e) && final(sync_status)@ == old(sync_status)@ && *final(chain) == *old(chain)
                && *final(self) == *old(self) && final(actions)@ == old(actions)@,
            r is Ok ==> forall|j: int|
                0 <= j < tracking_shards@.len() ==> final(sync_status)@.contains_key(
                    #[trigger] tracking_shards@[j],
                ),
            // every tracked shard is done when the tick reports done
            r == Ok::<bool, SyncError>(true) ==> forall|j: int|
                0 <= j < tracking_shards@.len() ==> final(sync_status)@[
                    #[trigger] tracking_shards@[j]
                ].status == ShardSyncStatus::StateSyncDone,
            // and, tracking no shard twice, exactly then
            seq_distinct(tracking_shards@) && r is Ok ==> (r == Ok::<bool, SyncError>(true)
                <==> forall|j: int|
                0 <= j < tracking_shards@.len() ==> final(sync_status)@.contains_key(
                    #[trigger] tracking_shards@[j],
                ) && final(sync_status)@[tracking_shards@[j]].status
                    == ShardSyncStatus::StateSyncDone),
            // what the tick did: the per-shard step relation, folded over
            // the tracked list in order
            r matches Ok(b) ==> shards_prefix(*old(self), *final(self), *old(chain), *final(chain), *epoch_manager, old(sync_status)@, final(sync_status)@, old(actions)@, final(actions)@, highest_height_peers@, sync_hash, tick_epoch_id(*old(chain), sync_hash), tick_epoch_height(*old(chain), *epoch_manager, sync_hash), tick_layout_version(*old(chain), *epoch_manager, sync_hash), epoch_manager.will_reshard, now, tracking_shards@, true, b),
            // a failing tick did the work of the shards before the failing
            // one, whose own step raised exactly this error
            r matches Err(e) ==> precheck_error(*old(chain), *epoch_manager, sync_hash) is Some || exists|i: int, acc: bool, mid_sync: StateSync, mid_chain: ChainEnv, mid_map: Map<u64, ShardSyncDownload>, mid_a: Seq<Action>|
                0 <= i < tracking_shards@.len() && #[trigger] shards_prefix(*old(self), mid_sync, *old(chain), mid_chain, *epoch_manager, old(sync_status)@, mid_map, old(actions)@, mid_a, highest_height_peers@, sync_hash, tick_epoch_id(*old(chain), sync_hash), tick_epoch_height(*old(chain), *epoch_manager, sync_hash), tick_layout_version(*old(chain), *epoch_manager, sync_hash), epoch_manager.will_reshard, now, tracking_shards@.take(i), true, acc) && shard_tick(mid_sync, *final(self), mid_chain, *final(chain), *epoch_manager, mid_map, final(sync_status)@, mid_a, final(actions)@, highest_height_peers@, sync_hash, tick_epoch_id(*old(chain), sync_hash), tick_epoch_height(*old(chain), *epoch_manager, sync_hash), tick_layout_version(*old(chain), *epoch_manager, sync_hash), epoch_manager.will_reshard, now, tracking_shards@[i], Some(e), false),
    {
        let mut all_done = true;
        let header = match chain.get_block_header(&sync_hash) {
            Ok(h) => h,
            Err(e) => {
                return Err(e);
            },
        };
        let prev_header = match chain.get_block_header(&header.prev_hash) {
            Ok(h) => h,
            Err(e) => {
                return Err(e);
            },
        };
        let prev_epoch_id = prev_header.epoch_id;
        let epoch_id = header.epoch_id;
        let prev_epoch_data = match epoch_manager.get_epoch_data(&prev_epoch_id) {
            Ok(d) => d,
            Err(e) => {
                return Err(e);
            },
        };
        let epoch_data = match epoch_manager.get_epoch_data(&epoch_id) {
            Ok(d) => d,
            Err(e) => {
                return Err(e);
            },
        };
        if !prev_epoch_data.layout.same_as(&epoch_data.layout) {
            // syncing into the first epoch after a layout change cannot work;
            // the caller must wait for the next epoch or find peers that are
            // more up to date
            return Err(SyncError::ShardLayoutChanged);
        }
        let epoch_height = epoch_data.epoch_height;
        let need_to_reshard = epoch_manager.will_reshard;
        let version = prev_epoch_data.layout.version;
        proof {
            assert(precheck_error(*old(chain), *epoch_manager, sync_hash) is None);
        }
        let n = tracking_shards.len();
        let mut idx: usize = 0;
        while idx < n
            invariant
                idx <= n,
                n == tracking_shards@.len(),
                forall|j: int|
                    0 <= j < tracking_shards@.len() ==> #[trigger] tracking_shards@[j]
                        <= 0xffff_ffff,
                self.wf(),
                chain.wf(),
                statuses_wf(*chain, sync_hash, sync_status@),
                self.timeout == old(self).timeout,
                self.inbox == old(self).inbox,
                self.resharding_state_roots == old(self).resharding_state_roots,
                chain.headers == old(chain).headers,
                chain.state_headers == old(chain).state_headers,
                precheck_error(*old(chain), *epoch_manager, sync_hash) is None,
                chain.headers@.contains_key(sync_hash),
                epoch_id == chain.headers@[sync_hash].epoch_id,
                epoch_manager.epochs@.contains_key(epoch_id),
                epoch_height == epoch_manager.epochs@[epoch_id].epoch_height,
                epoch_id == tick_epoch_id(*old(chain), sync_hash),
                epoch_height == tick_epoch_height(*old(chain), *epoch_manager, sync_hash),
                version == tick_layout_version(*old(chain), *epoch_manager, sync_hash),
                need_to_reshard == epoch_manager.will_reshard,
                shards_prefix(*old(self), *self, *old(chain), *chain, *epoch_manager, old(sync_status)@, sync_status@, old(actions)@, actions@, highest_height_peers@, sync_hash, epoch_id, epoch_height, version, need_to_reshard, now, tracking_shards@.take(idx as int), true, all_done),
                forall|k: u64|
                    old(sync_status)@.contains_key(k) ==> #[trigger] sync_status@.contains_key(k),
                forall|k: u64|
                    #[trigger] sync_status@.contains_key(k) ==> old(sync_status)@.contains_key(k)
                        || tracking_shards@.contains(k),
                forall|k: u64|
                    !tracking_shards@.contains(k) && old(sync_status)@.contains_key(k)
                        ==> #[trigger] sync_status@[k] == old(sync_status)@[k],
                seq_distinct(tracking_shards@) ==> forall|k: u64|
                    old(sync_status)@.contains_key(k) && sync_status@.contains_key(k) ==> (
                    #[trigger] sync_status@[k]).status.rank() >= old(sync_status)@[k].status.rank() || sync_status@[k].status
                        == ShardSyncStatus::StateDownloadHeader,
                seq_distinct(tracking_shards@) ==> forall|j: int|
                    idx <= j < n ==> (sync_status@.contains_key(#[trigger] tracking_shards@[j])
                        == old(sync_status)@.contains_key(tracking_shards@[j]) && (old(
                        sync_status,
                    )@.contains_key(tracking_shards@[j]) ==> sync_status@[tracking_shards@[j]]
                        == old(sync_status)@[tracking_shards@[j]])),
                forall|j: int|
                    0 <= j < idx ==> sync_status@.contains_key(#[trigger] tracking_shards@[j]),
                all_done ==> forall|j: int|
                    0 <= j < idx ==> sync_status@[#[trigger] tracking_shards@[j]].status
                        == ShardSyncStatus::StateSyncDone,
                seq_distinct(tracking_shards@) ==> (all_done <==> forall|j: int|
                    0 <= j < idx ==> sync_status@.contains_key(#[trigger] tracking_shards@[j])
                        && sync_status@[tracking_shards@[j]].status
                        == ShardSyncStatus::StateSyncDone),
            decreases n - idx,
        {
            let shard_id = tracking_shards[idx];
            proof {
                assert(tracking_shards@[idx as int] == shard_id);
                assert(tracking_shards@.contains(shard_id));
            }
            let ghost it_sync = *self;
            let ghost it_chain = *chain;
            let ghost it_map = sync_status@;
            let ghost it_a = actions@;
            let ghost acc_before = all_done;
            // the timeout flag only feeds the embedder's warning log
            let mut _download_timeout = false;
            let mut run_shard_state_download = false;
            let mut shard_sync_done = false;
            let mut shard_sync_download = match sync_status.remove(&shard_id) {
                Some(s) => s,
                None => {
                    run_shard_state_download = true;
                    ShardSyncDownload::new_download_state_header(now)
                },
            };
            let ghost rec_in0 = shard_sync_download;
            let ghost mut g_header_r: Result<(bool, bool), SyncError> = Ok((false, false));
            let ghost mut g_parts_flags: (bool, bool) = (false, false);
            let ghost mut g_fin_r: Result<bool, SyncError> = Ok(false);
            match shard_sync_download.status {
                ShardSyncStatus::StateDownloadHeader => {
                    let flags = match self.sync_shards_download_header_status(
                        shard_id,
                        &mut shard_sync_download,
                        sync_hash,
                        chain,
                        now,
                    ) {
                        Ok(f) => f,
                        Err(e) => {
                            let ghost g_rec = shard_sync_download;
                            sync_status.insert(shard_id, shard_sync_download);
                            proof {
                                assert(sync_status@ =~= it_map.insert(shard_id, g_rec));
                                assert(rec_in0.wf());
                                assert(header_status_step(
                                    it_sync,
                                    *self,
                                    it_chain,
                                    rec_in0,
                                    g_rec,
                                    shard_id,
                                    sync_hash,
                                    now,
                                    Err::<(bool, bool), SyncError>(e),
                                ));
                                assert(shard_tick(
                                    it_sync,
                                    *self,
                                    it_chain,
                                    *chain,
                                    *epoch_manager,
                                    it_map,
                                    sync_status@,
                                    it_a,
                                    actions@,
                                    highest_height_peers@,
                                    sync_hash,
                                    epoch_id,
                                    epoch_height,
                                    version,
                                    need_to_reshard,
                                    now,
                                    shard_id,
                                    Some(e),
                                    false,
                                ));
                            }
                            return Err(e);
                        },
                    };
                    proof {
                        g_header_r = Ok(flags);
                    }
                    _download_timeout = flags.0;
                    run_shard_state_download = flags.1;
                },
                ShardSyncStatus::StateDownloadParts => {
                    let flags = self.sync_shards_download_parts_status(
                        shard_id,
                        &mut shard_sync_download,
                        now,
                    );
                    proof {
                        g_parts_flags = flags;
                    }
                    _download_timeout = flags.0;
                    run_shard_state_download = flags.1;
                },
                ShardSyncStatus::StateApplyScheduling => {
                    match self.sync_shards_apply_scheduling_status(
                        shard_id,
                        &mut shard_sync_download,
                        sync_hash,
                        chain,
                        now,
                        actions,
                    ) {
                        Ok(()) => {},
                        Err(e) => {
                            let ghost g_rec = shard_sync_download;
                            sync_status.insert(shard_id, shard_sync_download);
                            proof {
                                assert(sync_status@ =~= it_map.insert(shard_id, g_rec));
                                assert(rec_in0.wf());
                                assert(scheduling_step(
                                    it_sync,
                                    *self,
                                    it_chain,
                                    *chain,
                                    rec_in0,
                                    g_rec,
                                    it_a,
                                    actions@,
                                    shard_id,
                                    sync_hash,
                                    now,
                                    Err::<(), SyncError>(e),
                                ));
                                assert(shard_tick(
                                    it_sync,
                                    *self,
                                    it_chain,
                                    *chain,
                                    *epoch_manager,
                                    it_map,
                                    sync_status@,
                                    it_a,
                                    actions@,
                                    highest_height_peers@,
                                    sync_hash,
                                    epoch_id,
                                    epoch_height,
                                    version,
                                    need_to_reshard,
                                    now,
                                    shard_id,
                                    Some(e),
                                    false,
                                ));
                            }
                            return Err(e);
                        },
                    }
                },
                ShardSyncStatus::StateApplyInProgress => {
                    match self.sync_shards_apply_status(
                        shard_id,
                        &mut shard_sync_download,
                        sync_hash,
                        chain,
                        epoch_manager,
                        actions,
                    ) {
                        Ok(()) => {},
                        Err(e) => {
                            let ghost g_rec = shard_sync_download;
                            sync_status.insert(shard_id, shard_sync_download);
                            proof {
                                assert(sync_status@ =~= it_map.insert(shard_id, g_rec));
                                assert(rec_in0.wf());
                                assert(apply_status_step(
                                    it_sync,
                                    *self,
                                    it_chain,
                                    *chain,
                                    *epoch_manager,
                                    rec_in0,
                                    g_rec,
                                    it_a,
                                    actions@,
                                    shard_id,
                                    sync_hash,
                                    Err::<(), SyncError>(e),
                                ));
                                assert(shard_tick(
                                    it_sync,
                                    *self,
                                    it_chain,
                                    *chain,
                                    *epoch_manager,
                                    it_map,
                                    sync_status@,
                                    it_a,
                                    actions@,
                                    highest_height_peers@,
                                    sync_hash,
                                    epoch_id,
                                    epoch_height,
                                    version,
                                    need_to_reshard,
                                    now,
                                    shard_id,
                                    Some(e),
                                    false,
                                ));
                            }
                            return Err(e);
                        },
                    }
                },
                ShardSyncStatus::StateApplyFinalizing => {
                    let shard_uid = ShardUId { version, shard_id: shard_id as u32 };
                    match self.sync_shards_apply_finalizing_status(
                        shard_uid,
                        chain,
                        sync_hash,
                        now,
                        need_to_reshard,
                        &mut shard_sync_download,
                    ) {
                        Ok(done) => {
                            proof {
                                g_fin_r = Ok(done);
                            }
                            shard_sync_done = done;
                        },
                        Err(e) => {
                            let ghost g_rec = shard_sync_download;
                            sync_status.insert(shard_id, shard_sync_download);
                            proof {
                                assert(sync_status@ =~= it_map.insert(shard_id, g_rec));
                                assert(rec_in0.wf());
                                assert(finalizing_status_step(
                                    it_sync,
                                    *self,
                                    it_chain,
                                    *chain,
                                    ShardUId { version, shard_id: shard_id as u32 },
                                    rec_in0,
                                    g_rec,
                                    sync_hash,
                                    now,
                                    need_to_reshard,
                                    Err::<bool, SyncError>(e),
                                ));
                                assert(shard_tick(
                                    it_sync,
                                    *self,
                                    it_chain,
                                    *chain,
                                    *epoch_manager,
                                    it_map,
                                    sync_status@,
                                    it_a,
                                    actions@,
                                    highest_height_peers@,
                                    sync_hash,
                                    epoch_id,
                                    epoch_height,
                                    version,
                                    need_to_reshard,
                                    now,
                                    shard_id,
                                    Some(e),
                                    false,
                                ));
                            }
                            return Err(e);
                        },
                    }
                },
                ShardSyncStatus::ReshardingScheduling => {
                    // the old resharding code path is no longer supported
                    let ghost g_rec = shard_sync_download;
                    sync_status.insert(shard_id, shard_sync_download);
                    proof {
                        assert(sync_status@ =~= it_map.insert(shard_id, g_rec));
                        assert(rec_in0.wf());
                        assert(shard_tick(
                            it_sync,
                            *self,
                            it_chain,
                            *chain,
                            *epoch_manager,
                            it_map,
                            sync_status@,
                            it_a,
                            actions@,
                            highest_height_peers@,
                            sync_hash,
                            epoch_id,
                            epoch_height,
                            version,
                            need_to_reshard,
                            now,
                            shard_id,
                            Some(SyncError::ReshardingUnsupported),
                            false,
                        ));
                    }
                    return Err(SyncError::ReshardingUnsupported);
                },
                ShardSyncStatus::ReshardingApplying => {
                    let ghost g_rec = shard_sync_download;
                    sync_status.insert(shard_id, shard_sync_download);
                    proof {
                        assert(sync_status@ =~= it_map.insert(shard_id, g_rec));
                        assert(rec_in0.wf());
                        assert(shard_tick(
                            it_sync,
                            *self,
                            it_chain,
                            *chain,
                            *epoch_manager,
                            it_map,
                            sync_status@,
                            it_a,
                            actions@,
                            highest_height_peers@,
                            sync_hash,
                            epoch_id,
                            epoch_height,
                            version,
                            need_to_reshard,
                            now,
                            shard_id,
                            Some(SyncError::ReshardingUnsupported),
                            false,
                        ));
                    }
                    return Err(SyncError::ReshardingUnsupported);
                },
                ShardSyncStatus::StateSyncDone => {
                    shard_sync_done = true;
                },
            }
            let ghost h_sync = *self;
            let ghost h_chain = *chain;
            let ghost h_rec = shard_sync_download;
            let ghost h_a = actions@;
            let stage = if shard_sync_done {
                // report the final stage even if this tick is the last
                ShardSyncStatus::StateSyncDone.repr()
            } else {
                shard_sync_download.status.repr()
            };
            self.metrics.stage.set(shard_id, stage);
            let ghost s_sync = *self;
            all_done = all_done && shard_sync_done;
            if run_shard_state_download {
                match self.request_shard(
                    shard_id,
                    chain,
                    sync_hash,
                    &mut shard_sync_download,
                    highest_height_peers,
                    epoch_id,
                    epoch_height,
                    actions,
                ) {
                    Ok(()) => {},
                    Err(_e) => {
                        // unreachable: dispatching itself cannot fail
                        proof {
                            assert(false);
                        }
                        sync_status.insert(shard_id, shard_sync_download);
                        return Err(_e);
                    },
                }
            }
            let ghost d_sync = *self;
            let ghost d_rec = shard_sync_download;
            let ghost d_a = actions@;
            sync_status.insert(shard_id, shard_sync_download);
            proof {
                assert(sync_status@ =~= it_map.insert(shard_id, d_rec));
                assert(counter_set(
                    h_sync.metrics.stage,
                    s_sync.metrics.stage,
                    shard_id,
                    stage_rank(h_rec.status, shard_sync_done),
                ));
                assert(d_rec.wf());
                if run_shard_state_download {
                    assert(dispatch_step(
                        s_sync,
                        d_sync,
                        h_chain,
                        h_rec,
                        d_rec,
                        h_a,
                        d_a,
                        highest_height_peers@,
                        shard_id,
                        sync_hash,
                        epoch_id,
                        epoch_height,
                    ));
                }
                assert(tick_finish(
                    h_sync,
                    d_sync,
                    h_chain,
                    h_chain,
                    h_rec,
                    it_map,
                    sync_status@,
                    h_a,
                    d_a,
                    highest_height_peers@,
                    sync_hash,
                    epoch_id,
                    epoch_height,
                    shard_id,
                    run_shard_state_download,
                    shard_sync_done,
                ));
                if rec_in0.status == ShardSyncStatus::StateDownloadHeader {
                    assert(header_status_step(
                        it_sync,
                        h_sync,
                        it_chain,
                        rec_in0,
                        h_rec,
                        shard_id,
                        sync_hash,
                        now,
                        g_header_r,
                    ));
                } else if rec_in0.status == ShardSyncStatus::StateDownloadParts {
                    assert(parts_status_step(
                        it_sync,
                        h_sync,
                        rec_in0,
                        h_rec,
                        shard_id,
                        now,
                        g_parts_flags,
                    ));
                } else if rec_in0.status == ShardSyncStatus::StateApplyScheduling {
                    assert(scheduling_step(
                        it_sync,
                        h_sync,
                        it_chain,
                        h_chain,
                        rec_in0,
                        h_rec,
                        it_a,
                        h_a,
                        shard_id,
                        sync_hash,
                        now,
                        Ok::<(), SyncError>(()),
                    ));
                } else if rec_in0.status == ShardSyncStatus::StateApplyInProgress {
                    assert(apply_status_step(
                        it_sync,
                        h_sync,
                        it_chain,
                        h_chain,
                        *epoch_manager,
                        rec_in0,
                        h_rec,
                        it_a,
                        h_a,
                        shard_id,
                        sync_hash,
                        Ok::<(), SyncError>(()),
                    ));
                } else if rec_in0.status == ShardSyncStatus::StateApplyFinalizing {
                    assert(finalizing_status_step(
                        it_sync,
                        h_sync,
                        it_chain,
                        h_chain,
                        ShardUId { version, shard_id: shard_id as u32 },
                        rec_in0,
                        h_rec,
                        sync_hash,
                        now,
                        need_to_reshard,
                        g_fin_r,
                    ));
                }
                assert(rec_in0.wf());
                assert(shard_tick(
                    it_sync,
                    d_sync,
                    it_chain,
                    h_chain,
                    *epoch_manager,
                    it_map,
                    sync_status@,
                    it_a,
                    d_a,
                    highest_height_peers@,
                    sync_hash,
                    epoch_id,
                    epoch_height,
                    version,
                    need_to_reshard,
                    now,
                    shard_id,
                    None::<SyncError>,
                    shard_sync_done,
                ));
                lemma_shards_prefix_snoc(
                    *old(self),
                    it_sync,
                    d_sync,
                    *old(chain),
                    it_chain,
                    h_chain,
                    *epoch_manager,
                    old(sync_status)@,
                    it_map,
                    sync_status@,
                    old(actions)@,
                    it_a,
                    d_a,
                    highest_height_peers@,
                    sync_hash,
                    epoch_id,
                    epoch_height,
                    version,
                    need_to_reshard,
                    now,
                    tracking_shards@.take(idx as int),
                    shard_id,
                    true,
                    acc_before,
                    shard_sync_done,
                );
                assert(tracking_shards@.take(idx as int + 1) =~= tracking_shards@.take(
                    idx as int,
                ).push(tracking_shards@[idx as int]));
            }
            idx = idx + 1;
        }
        proof {
            assert(tracking_shards@.take(n as int) =~= tracking_shards@);
        }
        Ok(all_done)
    }

    /// The main step function, called periodically: drains the completion
    /// queue, advances every tracked shard, dispatches the requests they
    /// need, and reports whether the whole sync is complete.  Completion
    /// means that the tracked set is empty, or that every tracked shard
    /// reached the terminal state this tick.
    pub fn run(
        &mut self,
        sync_hash: CryptoHash,
        sync_status: &mut AssocMap<u64, ShardSyncDownload>,
        chain: &mut ChainEnv,
        epoch_manager: &EpochManagerEnv,
        highest_height_peers: &Vec<PeerId>,
        tracking_shards: &Vec<u64>,
        now: u64,
        actions: &mut Vec<Action>,
    ) -> (r: Result<StateSyncResult, SyncError>)
        requires
            old(self).wf(),
            old(chain).wf(),
            statuses_wf(*old(chain), sync_hash, old(sync_status)@),
            forall|j: int|
                0 <= j < tracking_shards@.len() ==> #[trigger] tracking_shards@[j] <= 0xffff_ffff,
        ensures
            final(self).wf(),
            final(chain).wf(),
            statuses_wf(*final(chain), sync_hash, final(sync_status)@),
            // a caller that tracks nothing is complete right away, untouched
            tracking_shards@.len() == 0 ==> r == Ok::<StateSyncResult, SyncError>(
                StateSyncResult::Completed,
            ) && *final(self) == *old(self) && *final(chain) == *old(chain) && final(sync_status)@ == old(sync_status)@ && final(actions)@ == old(actions)@,
            tracking_shards@.len() > 0 ==> final(self).inbox@.len() == 0,
            // a shard only moves forward, except for the reset to the header
            // phase after a failed finalization
            seq_distinct(tracking_shards@) ==> forall|k: u64|
                old(sync_status)@.contains_key(k) && final(sync_status)@.contains_key(k) ==> (
                #[trigger] final(sync_status)@[k]).status.rank() >= old(sync_status)@[k].status.rank() || final(sync_status)@[k].status
                    == ShardSyncStatus::StateDownloadHeader,
            forall|k: u64|
                old(sync_status)@.contains_key(k) ==> #[trigger] final(sync_status)@.contains_key(k),
            forall|k: u64|
                #[trigger] final(sync_status)@.contains_key(k) ==> old(sync_status)@.contains_key(k) || tracking_shards@.contains(k),
            // every tracked shard is done when the tick reports completion
            r == Ok::<StateSyncResult, SyncError>(StateSyncResult::Completed)
                && tracking_shards@.len() > 0 ==> forall|j: int|
                0 <= j < tracking_shards@.len() ==> final(sync_status)@.contains_key(
                    #[trigger] tracking_shards@[j],
                ) && final(sync_status)@[tracking_shards@[j]].status
                    == ShardSyncStatus::StateSyncDone,
            // and, tracking no shard twice, exactly then
            seq_distinct(tracking_shards@) && tracking_shards@.len() > 0 && r is Ok ==> (r
                == Ok::<StateSyncResult, SyncError>(StateSyncResult::Completed) <==> forall|j: int|
                0 <= j < tracking_shards@.len() ==> final(sync_status)@.contains_key(
                    #[trigger] tracking_shards@[j],
                ) && final(sync_status)@[tracking_shards@[j]].status
                    == ShardSyncStatus::StateSyncDone),
            // the tick in full: the drain relation over the whole queue,
            // then — unless the pre-check failed — one step per tracked
            // shard, the failing step naming the error returned
            tracking_shards@.len() > 0 ==> exists|mid_sync: StateSync, mid_chain: ChainEnv, mid_map: Map<u64, ShardSyncDownload>|
                #![auto]
                intake_applied(*old(self), mid_sync, *old(chain), mid_chain, old(sync_status)@, mid_map, sync_hash, old(self).inbox@)
                && (match precheck_error(mid_chain, *epoch_manager, sync_hash) {
                    Some(pe) => r == Err::<StateSyncResult, SyncError>(pe) && final(sync_status)@ == mid_map && *final(chain) == mid_chain && final(actions)@ == old(actions)@,
                    None => (match r {
                        Ok(res) => exists|b: bool|
                            #![auto]
                            shards_prefix(mid_sync, *final(self), mid_chain, *final(chain), *epoch_manager, mid_map, final(sync_status)@, old(actions)@, final(actions)@, highest_height_peers@, sync_hash, tick_epoch_id(mid_chain, sync_hash), tick_epoch_height(mid_chain, *epoch_manager, sync_hash), tick_layout_version(mid_chain, *epoch_manager, sync_hash), epoch_manager.will_reshard, now, tracking_shards@, true, b) && res == (if b { StateSyncResult::Completed } else { StateSyncResult::InProgress }),
                        Err(e) => exists|i: int, acc: bool, mid2_sync: StateSync, mid2_chain: ChainEnv, mid2_map: Map<u64, ShardSyncDownload>, mid2_a: Seq<Action>|
                            0 <= i < tracking_shards@.len() && #[trigger] shards_prefix(mid_sync, mid2_sync, mid_chain, mid2_chain, *epoch_manager, mid_map, mid2_map, old(actions)@, mid2_a, highest_height_peers@, sync_hash, tick_epoch_id(mid_chain, sync_hash), tick_epoch_height(mid_chain, *epoch_manager, sync_hash), tick_layout_version(mid_chain, *epoch_manager, sync_hash), epoch_manager.will_reshard, now, tracking_shards@.take(i), true, acc) && shard_tick(mid2_sync, *final(self), mid2_chain, *final(chain), *epoch_manager, mid2_map, final(sync_status)@, mid2_a, final(actions)@, highest_height_peers@, sync_hash, tick_epoch_id(mid_chain, sync_hash), tick_epoch_height(mid_chain, *epoch_manager, sync_hash), tick_layout_version(mid_chain, *epoch_manager, sync_hash), epoch_manager.will_reshard, now, tracking_shards@[i], Some(e), false),
                    }),
                }),
    {
        if tracking_shards.len() == 0 {
            // a validator can care about the same shards in the new epoch as
            // in the previous one: success right away
            return Ok(StateSyncResult::Completed);
        }
        self.process_downloaded_parts(chain, sync_hash, sync_status);
        let ghost mid_map = sync_status@;
        let ghost mid_sync = *self;
        let ghost mid_chain = *chain;
        let all_done = match self.sync_shards_status(
            sync_hash,
            sync_status,
            chain,
            epoch_manager,
            highest_height_peers,
            tracking_shards,
            now,
            actions,
        ) {
            Ok(b) => b,
            Err(e) => {
                proof {
                    assert forall|k: u64| old(sync_status)@.contains_key(k) implies #[trigger] sync_status@.contains_key(k) by {
                        assert(mid_map.contains_key(k) == old(sync_status)@.contains_key(k));
                    }
                    assert forall|k: u64| #[trigger] sync_status@.contains_key(k) implies old(
                        sync_status,
                    )@.contains_key(k) || tracking_shards@.contains(k) by {
                        assert(mid_map.contains_key(k) == old(sync_status)@.contains_key(k));
                    }
                    if seq_distinct(tracking_shards@) {
                        assert forall|k: u64|
                            old(sync_status)@.contains_key(k) && sync_status@.contains_key(k) implies (
                        #[trigger] sync_status@[k]).status.rank() >= old(sync_status)@[k].status.rank()
                            || sync_status@[k].status == ShardSyncStatus::StateDownloadHeader by {
                            assert(mid_map.contains_key(k) == old(sync_status)@.contains_key(k));
                            if old(sync_status)@.contains_key(k) {
                                assert(mid_map[k].status == old(sync_status)@[k].status);
                            }
                        }
                    }
                }
                return Err(e);
            },
        };
        proof {
            assert forall|k: u64| old(sync_status)@.contains_key(k) implies #[trigger] sync_status@.contains_key(k) by {
                assert(mid_map.contains_key(k) == old(sync_status)@.contains_key(k));
            }
            assert forall|k: u64| #[trigger] sync_status@.contains_key(k) implies old(
                sync_status,
            )@.contains_key(k) || tracking_shards@.contains(k) by {
                assert(mid_map.contains_key(k) == old(sync_status)@.contains_key(k));
            }
            if seq_distinct(tracking_shards@) {
                assert forall|k: u64|
                    old(sync_status)@.contains_key(k) && sync_status@.contains_key(k) implies (
                #[trigger] sync_status@[k]).status.rank() >= old(sync_status)@[k].status.rank()
                    || sync_status@[k].status == ShardSyncStatus::StateDownloadHeader by {
                    assert(mid_map.contains_key(k) == old(sync_status)@.contains_key(k));
                    if old(sync_status)@.contains_key(k) {
                        assert(mid_map[k].status == old(sync_status)@[k].status);
                    }
                }
            }
        }
        if all_done {
            Ok(StateSyncResult::Completed)
        } else {
            Ok(StateSyncResult::InProgress)
        }
    }

    /// Dispatches the downloads a shard needs this tick: a header request in
    /// the header phase, part requests in the parts phase, nothing in any
    /// later state.
    pub fn request_shard(
        &mut self,
        shard_id: u64,
        chain: &ChainEnv,
        sync_hash: CryptoHash,
        shard_sync_download: &mut ShardSyncDownload,
        highest_height_peers: &Vec<PeerId>,
        epoch_id: CryptoHash,
        epoch_height: u64,
        actions: &mut Vec<Action>,
    ) -> (r: Result<(), SyncError>)
        requires
            old(self).wf(),
            old(shard_sync_download).wf(),
            (old(shard_sync_download).status == ShardSyncStatus::StateDownloadHeader && old(self).external is None && highest_height_peers@.len() > 0) ==> old(shard_sync_download).downloads@[0].run_me,
            (old(shard_sync_download).status == ShardSyncStatus::StateDownloadParts && old(self).has_external()) ==> chain.state_headers@.contains_key(
                StateHeaderKey { shard_id, sync_hash },
            ),
        ensures
            r == Ok::<(), SyncError>(()),
            final(self).wf(),
            final(self).timeout == old(self).timeout,
            final(self).state_parts_apply_results == old(self).state_parts_apply_results,
            final(self).load_memtrie_results == old(self).load_memtrie_results,
            final(self).resharding_state_roots == old(self).resharding_state_roots,
            final(self).inbox == old(self).inbox,
            final(self).metrics == old(self).metrics,
            final(shard_sync_download).wf(),
            old(shard_sync_download).status == ShardSyncStatus::StateDownloadHeader ==> final(self).external == old(self).external && header_request_dispatched(
                *old(self),
                *old(shard_sync_download),
                *final(shard_sync_download),
                old(actions)@,
                final(actions)@,
                highest_height_peers@,
                shard_id,
                sync_hash,
                epoch_id,
                epoch_height,
            ),
            old(shard_sync_download).status == ShardSyncStatus::StateDownloadParts
                ==> parts_request_dispatched(
                *old(self),
                *final(self),
                *chain,
                *old(shard_sync_download),
                *final(shard_sync_download),
                old(actions)@,
                final(actions)@,
                shard_id,
                sync_hash,
                epoch_id,
                epoch_height,
            ),
            (old(shard_sync_download).status != ShardSyncStatus::StateDownloadHeader && old(shard_sync_download).status != ShardSyncStatus::StateDownloadParts) ==> *final(shard_sync_download)
                == *old(shard_sync_download) && final(actions)@ == old(actions)@ && final(self).external == old(self).external,
            dispatch_step(*old(self), *final(self), *chain, *old(shard_sync_download), *final(shard_sync_download), old(actions)@, final(actions)@, highest_height_peers@, shard_id, sync_hash, epoch_id, epoch_height),
    {
        match shard_sync_download.status {
            ShardSyncStatus::StateDownloadHeader => {
                // with no external storage, headers come from our peers
                let possible_targets: Vec<PeerId> = if self.external.is_some() {
                    Vec::new()
                } else {
                    if highest_height_peers.len() == 0 {
                        // no possible targets: nothing to dispatch this tick
                        return Ok(());
                    }
                    highest_height_peers.clone()
                };
                self.request_shard_header(
                    shard_id,
                    sync_hash,
                    &possible_targets,
                    shard_sync_download,
                    epoch_id,
                    epoch_height,
                    actions,
                );
            },
            ShardSyncStatus::StateDownloadParts => {
                self.request_shard_parts(
                    shard_id,
                    sync_hash,
                    shard_sync_download,
                    chain,
                    epoch_id,
                    epoch_height,
                    actions,
                );
            },
            _ => {},
        }
        Ok(())
    }

    /// Applies a peer's reply to a state request.  A header reply persists
    /// the header and closes the slot, or raises the slot's error flag; a
    /// part reply validates and persists the part, closes its slot and
    /// notifies the network layer.  A part index out of range is a potential
    /// malicious peer: logged and dropped without touching any state, and a
    /// reply for a slot that is already done is dropped the same way.
    pub fn update_download_on_state_response_message(
        &self,
        shard_sync_download: &mut ShardSyncDownload,
        hash: CryptoHash,
        shard_id: u64,
        state_response: ShardStateSyncResponse,
        chain: &mut ChainEnv,
        actions: &mut Vec<Action>,
    )
        requires
            old(shard_sync_download).wf(),
            old(chain).wf(),
        ensures
            final(chain).wf(),
            final(shard_sync_download).wf(),
            final(chain).headers == old(chain).headers,
            final(chain).flat_storage == old(chain).flat_storage,
            final(chain).finalized == old(chain).finalized,
            final(chain).faults == old(chain).faults,
            final(shard_sync_download).status == old(shard_sync_download).status,
            final(shard_sync_download).downloads@.len() == old(shard_sync_download).downloads@.len(),
            response_applied(
                *old(chain),
                *final(chain),
                *old(shard_sync_download),
                *final(shard_sync_download),
                old(actions)@,
                final(actions)@,
                hash,
                shard_id,
                state_response,
            ),
    {
        match shard_sync_download.status {
            ShardSyncStatus::StateDownloadHeader => {
                match state_response.header {
                    Some(header) => {
                        if !shard_sync_download.downloads[0].done {
                            match chain.set_state_header(shard_id, hash, header) {
                                Ok(()) => {
                                    let mut d = shard_sync_download.downloads[0];
                                    mark_done(&mut d);
                                    shard_sync_download.downloads[0] = d;
                                },
                                Err(_err) => {
                                    let mut d = shard_sync_download.downloads[0];
                                    d.error = true;
                                    shard_sync_download.downloads[0] = d;
                                },
                            }
                        }
                    },
                    None => {
                        // the peer could not build a state response; ask again
                        if !shard_sync_download.downloads[0].done {
                            let mut d = shard_sync_download.downloads[0];
                            d.error = true;
                            shard_sync_download.downloads[0] = d;
                        }
                    },
                }
            },
            ShardSyncStatus::StateDownloadParts => {
                match state_response.part {
                    Some((part_id, data)) => {
                        let num_parts = shard_sync_download.downloads.len() as u64;
                        if part_id >= num_parts {
                            // a part index past the shard's count can only
                            // come from a broken or malicious peer
                            return ;
                        }
                        let i = part_id as usize;
                        if !shard_sync_download.downloads[i].done {
                            match chain.set_state_part(
                                shard_id,
                                hash,
                                PartId { idx: part_id, total: num_parts },
                                &data,
                            ) {
                                Ok(()) => {
                                    actions.push(Action::StatePartReceived { shard_id, part_id });
                                    let mut d = shard_sync_download.downloads[i];
                                    mark_done(&mut d);
                                    shard_sync_download.downloads[i] = d;
                                },
                                Err(_err) => {
                                    let mut d = shard_sync_download.downloads[i];
                                    d.error = true;
                                    shard_sync_download.downloads[i] = d;
                                },
                            }
                        }
                    },
                    None => {},
                }
            },
            _ => {},
        }
    }
}

/// A slot re-armed after the transport reported its request unroutable.
pub open spec fn slot_rearmed(d: DownloadStatus) -> DownloadStatus {
    DownloadStatus { run_me: true, ..d }
}

/// What reporting an unroutable request does to the shard record: the
/// addressed slot is re-armed unless it is already done; anything else —
/// a header report outside the header phase, a part report outside the
/// parts phase or out of range — is dropped untouched.
pub open spec fn route_not_found_applied(
    s0: ShardSyncDownload,
    s1: ShardSyncDownload,
    part_id: Option<u64>,
) -> bool {
    match part_id {
        None => {
            if s0.status == ShardSyncStatus::StateDownloadHeader && s0.downloads@.len() > 0
                && !s0.downloads@[0].done {
                s1.downloads@ == s0.downloads@.update(0, slot_rearmed(s0.downloads@[0]))
            } else {
                s1 == s0
            }
        },
        Some(i) => {
            if s0.status == ShardSyncStatus::StateDownloadParts && i < s0.downloads@.len()
                && !s0.downloads@[i as int].done {
                s1.downloads@ == s0.downloads@.update(i as int, slot_rearmed(s0.downloads@[i as int]))
            } else {
                s1 == s0
            }
        },
    }
}

/// Re-arms the slot whose outbound request the network layer reported it
/// could not route, so the next tick asks again; `part_id` is `None` for a
/// header request.  The transport reply of an undelivered request — not a
/// state response — so a slot that is already done is left alone.
pub fn update_download_on_route_not_found(
    shard_sync_download: &mut ShardSyncDownload,
    part_id: Option<u64>,
)
    requires
        old(shard_sync_download).wf(),
    ensures
        final(shard_sync_download).wf(),
        final(shard_sync_download).status == old(shard_sync_download).status,
        final(shard_sync_download).downloads@.len() == old(shard_sync_download).downloads@.len(),
        route_not_found_applied(*old(shard_sync_download), *final(shard_sync_download), part_id),
{
    match part_id {
        None => {
            if matches!(shard_sync_download.status, ShardSyncStatus::StateDownloadHeader)
                && shard_sync_download.downloads.len() > 0
                && !shard_sync_download.downloads[0].done {
                let mut d = shard_sync_download.downloads[0];
                d.run_me = true;
                shard_sync_download.downloads[0] = d;
            }
        },
        Some(i) => {
            if matches!(shard_sync_download.status, ShardSyncStatus::StateDownloadParts)
                && i < shard_sync_download.downloads.len() as u64
                && !shard_sync_download.downloads[i as usize].done {
                let idx: usize = i as usize;
                let mut d = shard_sync_download.downloads[idx];
                d.run_me = true;
                shard_sync_download.downloads[idx] = d;
            }
        },
    }
}

/// What applying one peer reply does, as a relation between the shard's
/// record, the chain and the emitted notifications before and after.
pub open spec fn response_applied(
    chain0: ChainEnv,
    chain1: ChainEnv,
    s0: ShardSyncDownload,
    s1: ShardSyncDownload,
    a0: Seq<Action>,
    a1: Seq<Action>,
    hash: CryptoHash,
    shard_id: u64,
    resp: ShardStateSyncResponse,
) -> bool {
    if s0.status == ShardSyncStatus::StateDownloadHeader {
        match resp.header {
            Some(header) => {
                if s0.downloads@[0].done {
                    s1 == s0 && chain1 == chain0 && a1 == a0
                } else if !chain0.faults.set_state_header && 1 <= header.num_parts <= 0xffff_ffff {
                    &&& s1.downloads@ == s0.downloads@.update(0, marked_done(s0.downloads@[0]))
                    &&& chain1.state_headers@ == chain0.state_headers@.insert(
                        StateHeaderKey { shard_id, sync_hash: hash },
                        header,
                    )
                    &&& chain1.parts == chain0.parts
                    &&& a1 == a0
                } else {
                    &&& s1.downloads@ == s0.downloads@.update(0, slot_with_error(s0.downloads@[0]))
                    &&& chain1 == chain0
                    &&& a1 == a0
                }
            },
            None => {
                if s0.downloads@[0].done {
                    s1 == s0 && chain1 == chain0 && a1 == a0
                } else {
                    &&& s1.downloads@ == s0.downloads@.update(0, slot_with_error(s0.downloads@[0]))
                    &&& chain1 == chain0
                    &&& a1 == a0
                }
            },
        }
    } else if s0.status == ShardSyncStatus::StateDownloadParts {
        match resp.part {
            Some((part_id, data)) => {
                if part_id >= s0.downloads@.len() {
                    s1 == s0 && chain1 == chain0 && a1 == a0
                } else if s0.downloads@[part_id as int].done {
                    s1 == s0 && chain1 == chain0 && a1 == a0
                } else if !chain0.faults.validate_part && !chain0.faults.set_state_part {
                    &&& s1.downloads@ == s0.downloads@.update(
                        part_id as int,
                        marked_done(s0.downloads@[part_id as int]),
                    )
                    &&& crate::chain::part_stored(
                        chain0.parts@,
                        chain1.parts@,
                        hash,
                        shard_id,
                        part_id,
                        data@,
                    )
                    &&& chain1.state_headers == chain0.state_headers
                    &&& a1 == a0.push(Action::StatePartReceived { shard_id, part_id })
                } else {
                    &&& s1.downloads@ == s0.downloads@.update(
                        part_id as int,
                        slot_with_error(s0.downloads@[part_id as int]),
                    )
                    &&& chain1 == chain0
                    &&& a1 == a0
                }
            },
            None => s1 == s0 && chain1 == chain0 && a1 == a0,
        }
    } else {
        s1 == s0 && chain1 == chain0 && a1 == a0
    }
}

/// No shard appears twice.
pub open spec fn seq_distinct(s: Seq<u64>) -> bool {
    forall|a: int, b: int| 0 <= a < b < s.len() ==> s[a] != s[b]
}

/// The fatal condition a tick checks before advancing any shard: the needed
/// block headers and epoch records must be readable, and the shard layout
/// must not change across the epoch boundary being synced.
pub open spec fn precheck_error(
    chain: ChainEnv,
    epoch_manager: EpochManagerEnv,
    sync_hash: CryptoHash,
) -> Option<SyncError> {
    if !chain.headers@.contains_key(sync_hash) {
        Some(SyncError::BlockHeaderMissing)
    } else if !chain.headers@.contains_key(chain.headers@[sync_hash].prev_hash) {
        Some(SyncError::BlockHeaderMissing)
    } else if !epoch_manager.epochs@.contains_key(
        chain.headers@[chain.headers@[sync_hash].prev_hash].epoch_id,
    ) {
        Some(SyncError::EpochInfoMissing)
    } else if !epoch_manager.epochs@.contains_key(chain.headers@[sync_hash].epoch_id) {
        Some(SyncError::EpochInfoMissing)
    } else if !(epoch_manager.epochs@[chain.headers@[chain.headers@[sync_hash].prev_hash].epoch_id
    ].layout.version == epoch_manager.epochs@[chain.headers@[sync_hash].epoch_id].layout.version
        && epoch_manager.epochs@[chain.headers@[chain.headers@[sync_hash].prev_hash].epoch_id
    ].layout.shard_ids@ == epoch_manager.epochs@[
        chain.headers@[sync_hash].epoch_id
    ].layout.shard_ids@) {
        Some(SyncError::ShardLayoutChanged)
    } else {
        None
    }
}

/// A slot with the transient-error flag raised.
pub open spec fn slot_with_error(d: DownloadStatus) -> DownloadStatus {
    DownloadStatus { error: true, ..d }
}

/// What one header dispatch does: with external storage configured the slot
/// goes there if armed; otherwise a random peer is asked, unless there is
/// none to ask.
pub open spec fn header_request_dispatched(
    self0: StateSync,
    s0: ShardSyncDownload,
    s1: ShardSyncDownload,
    a0: Seq<Action>,
    a1: Seq<Action>,
    peers: Seq<PeerId>,
    shard_id: u64,
    sync_hash: CryptoHash,
    epoch_id: CryptoHash,
    epoch_height: u64,
) -> bool {
    &&& s1.status == ShardSyncStatus::StateDownloadHeader
    &&& (if self0.external is Some {
        if s0.downloads[0].run_me {
            &&& s1.downloads@ == s0.downloads@.update(0, armed_external_slot(s0.downloads@[0]))
            &&& a1 == a0.push(
                Action::FetchHeaderFromExternal { shard_id, sync_hash, epoch_id, epoch_height },
            )
        } else {
            s1 == s0 && a1 == a0
        }
    } else if peers.len() == 0 {
        s1 == s0 && a1 == a0
    } else {
        exists|p: PeerId|
            #[trigger] peers.contains(p) && s1.downloads@ == s0.downloads@.update(
                0,
                armed_peer_header_slot(s0.downloads@[0], p),
            ) && a1 == a0.push(Action::StateRequestHeader { shard_id, sync_hash, peer_id: p })
    })
}

/// What one parts dispatch does; see
/// [`StateSync::request_shard_parts`] for the route and budget rules.
pub open spec fn parts_request_dispatched(
    self0: StateSync,
    self1: StateSync,
    chain: ChainEnv,
    s0: ShardSyncDownload,
    s1: ShardSyncDownload,
    a0: Seq<Action>,
    a1: Seq<Action>,
    shard_id: u64,
    sync_hash: CryptoHash,
    epoch_id: CryptoHash,
    epoch_height: u64,
) -> bool {
    &&& s1.status == ShardSyncStatus::StateDownloadParts
    &&& s1.downloads@.len() == s0.downloads@.len()
    &&& forall|i: int|
        0 <= i < s0.downloads@.len() ==> s1.downloads@[i] == part_dispatch_slot(
            s0.downloads@[i],
            self0.has_external(),
            self0.ext_threshold(),
            n_ext_routed(s0.downloads@, self0.has_external(), self0.ext_threshold(), i),
            avail0_of(self0) as int,
            prev_prev_ok(chain, sync_hash),
            n_peer_routed(s0.downloads@, self0.has_external(), self0.ext_threshold(), i),
        )
    &&& (match self0.external {
        Some(e) => self1.external matches Some(f) && f.chain_id == e.chain_id && f.location
            == e.location && f.peer_attempts_threshold == e.peer_attempts_threshold
            && f.semaphore.capacity == e.semaphore.capacity && f.semaphore.in_flight
            == e.semaphore.in_flight + min_int(
            n_ext_routed(
                s0.downloads@,
                true,
                e.peer_attempts_threshold,
                s0.downloads@.len() as int,
            ),
            e.semaphore.available_spec() as int,
        ),
        None => self1.external is None,
    })
    &&& a0.len() <= a1.len()
    &&& a1.subrange(0, a0.len() as int) == a0
    &&& a1.len() - a0.len() == min_int(
        n_ext_routed(
            s0.downloads@,
            self0.has_external(),
            self0.ext_threshold(),
            s0.downloads@.len() as int,
        ),
        avail0_of(self0) as int,
    ) + (if prev_prev_ok(chain, sync_hash) {
        min_int(
            n_peer_routed(
                s0.downloads@,
                self0.has_external(),
                self0.ext_threshold(),
                s0.downloads@.len() as int,
            ),
            MAX_STATE_PART_REQUEST as int,
        )
    } else {
        0
    })
    &&& n_peer_part_actions(a1.skip(a0.len() as int), a1.len() - a0.len())
        <= MAX_STATE_PART_REQUEST
    &&& n_ext_part_actions(a1.skip(a0.len() as int), a1.len() - a0.len()) == min_int(
        n_ext_routed(
            s0.downloads@,
            self0.has_external(),
            self0.ext_threshold(),
            s0.downloads@.len() as int,
        ),
        avail0_of(self0) as int,
    )
    &&& forall|k: int|
        a0.len() <= k < a1.len() ==> appended_part_action_ok(
            #[trigger] a1[k],
            self0,
            chain,
            s0.downloads@,
            shard_id,
            sync_hash,
            epoch_id,
            epoch_height,
        )
    &&& forall|k1: int, k2: int|
        a0.len() <= k1 < k2 < a1.len() ==> action_part_id(#[trigger] a1[k1]) != action_part_id(
            #[trigger] a1[k2],
        )
    &&& forall|i: int|
        0 <= i < s0.downloads@.len() && #[trigger] ext_dispatched(
            s0.downloads@,
            self0.has_external(),
            self0.ext_threshold(),
            avail0_of(self0) as int,
            i,
        ) ==> exists|k: int|
            #![auto]
            a0.len() <= k < a1.len() && a1[k] == ext_fetch_action(
                chain,
                shard_id,
                sync_hash,
                epoch_id,
                epoch_height,
                i,
            )
    &&& forall|i: int|
        0 <= i < s0.downloads@.len() && #[trigger] peer_dispatched(
            s0.downloads@,
            self0.has_external(),
            self0.ext_threshold(),
            prev_prev_ok(chain, sync_hash),
            i,
        ) ==> exists|k: int|
            #![auto]
            a0.len() <= k < a1.len() && a1[k] == peer_fetch_action(chain, shard_id, sync_hash, i)
}

/// Available permits at the start of a tick; zero when no external storage
/// is configured.
pub open spec fn avail0_of(s: StateSync) -> u64 {
    match s.external {
        Some(e) => e.semaphore.available_spec(),
        None => 0,
    }
}

/// One action appended by the part dispatcher: a peer part request carrying
/// the snapshot anchor, or an external fetch carrying the epoch coordinates
/// and the stored header's root and part count — in both cases for an armed
/// part of this shard that took that route.
pub open spec fn appended_part_action_ok(
    a: Action,
    s: StateSync,
    chain: ChainEnv,
    slots: Seq<DownloadStatus>,
    shard_id: u64,
    sync_hash: CryptoHash,
    epoch_id: CryptoHash,
    epoch_height: u64,
) -> bool {
    match a {
        Action::StateRequestPart {
            shard_id: sid,
            sync_hash: h,
            sync_prev_prev_hash: pp,
            part_id,
        } => {
            &&& sid == shard_id
            &&& h == sync_hash
            &&& pp == prev_prev_hash(chain, sync_hash)
            &&& 0 <= part_id < slots.len()
            &&& peer_routed(slots[part_id as int], s.has_external(), s.ext_threshold())
        },
        Action::FetchPartFromExternal {
            shard_id: sid,
            sync_hash: h,
            epoch_id: eid,
            epoch_height: eh,
            part_id,
            num_parts,
            state_root,
        } => {
            &&& sid == shard_id
            &&& h == sync_hash
            &&& eid == epoch_id
            &&& eh == epoch_height
            &&& 0 <= part_id < slots.len()
            &&& ext_routed(slots[part_id as int], s.has_external(), s.ext_threshold())
            &&& chain.state_headers@.contains_key(StateHeaderKey { shard_id, sync_hash })
            &&& num_parts == chain.state_headers@[StateHeaderKey { shard_id, sync_hash }].num_parts
            &&& state_root == chain.state_headers@[
                StateHeaderKey { shard_id, sync_hash }
            ].state_root
        },
        _ => false,
    }
}

pub proof fn lemma_n_peer_part_actions_nonneg(s: Seq<Action>, i: int)
    requires
        0 <= i <= s.len(),
    ensures
        0 <= n_peer_part_actions(s, i) <= i,
        0 <= n_ext_part_actions(s, i) <= i,
    decreases i,
{
    if i > 0 {
        lemma_n_peer_part_actions_nonneg(s, i - 1);
    }
}

/// Appending one action extends the counts by whether it is of each kind.
pub proof fn lemma_n_peer_part_actions_push(s: Seq<Action>, a: Action)
    ensures
        n_peer_part_actions(s.push(a), s.len() as int + 1) == n_peer_part_actions(
            s,
            s.len() as int,
        ) + (if a is StateRequestPart {
            1int
        } else {
            0
        }),
        n_ext_part_actions(s.push(a), s.len() as int + 1) == n_ext_part_actions(
            s,
            s.len() as int,
        ) + (if a is FetchPartFromExternal {
            1int
        } else {
            0
        }),
    decreases s.len(),
{
    lemma_n_peer_part_actions_prefix(s.push(a), s, s.len() as int);
}

/// Counting a prefix gives the same answer on the longer sequence.
pub proof fn lemma_n_peer_part_actions_prefix(t: Seq<Action>, s: Seq<Action>, i: int)
    requires
        0 <= i <= s.len(),
        s.len() <= t.len(),
        forall|j: int| 0 <= j < s.len() ==> t[j] == s[j],
    ensures
        n_peer_part_actions(t, i) == n_peer_part_actions(s, i),
        n_ext_part_actions(t, i) == n_ext_part_actions(s, i),
    decreases i,
{
    if i > 0 {
        lemma_n_peer_part_actions_prefix(t, s, i - 1);
    }
}

/// What processing a present apply result does, given the chain's answers.
pub open spec fn apply_result_processed(
    chain0: ChainEnv,
    chain1: ChainEnv,
    epoch_manager: EpochManagerEnv,
    s0: ShardSyncDownload,
    s1: ShardSyncDownload,
    apply_result: Result<(), SyncError>,
    actions0: Seq<Action>,
    actions1: Seq<Action>,
    shard_id: u64,
    sync_hash: CryptoHash,
    r: Result<(), SyncError>,
) -> bool {
    match apply_result {
        Err(e) => r == Err::<(), SyncError>(e) && s1 == s0 && chain1.flat_storage
            == chain0.flat_storage && actions1 == actions0,
        Ok(()) => {
            if !chain0.headers@.contains_key(sync_hash) {
                r == Err::<(), SyncError>(SyncError::BlockHeaderMissing) && s1 == s0
                    && chain1.flat_storage == chain0.flat_storage && actions1 == actions0
            } else if !epoch_manager.epochs@.contains_key(chain0.headers@[sync_hash].epoch_id) {
                r == Err::<(), SyncError>(SyncError::EpochInfoMissing) && s1 == s0
                    && chain1.flat_storage == chain0.flat_storage && actions1 == actions0
            } else if !chain0.state_headers@.contains_key(StateHeaderKey { shard_id, sync_hash }) {
                r == Err::<(), SyncError>(SyncError::StateHeaderMissing) && s1 == s0
                    && chain1.flat_storage == chain0.flat_storage && actions1 == actions0
            } else {
                let uid = ShardUId {
                    version: epoch_manager.epochs@[chain0.headers@[sync_hash].epoch_id
                    ].layout.version,
                    shard_id: shard_id as u32,
                };
                let chunk_prev = chain0.state_headers@[
                    StateHeaderKey { shard_id, sync_hash }
                ].chunk_prev_block_hash;
                if chunk_prev != CryptoHash::zero_spec() && chain0.faults.create_flat_storage {
                    r == Err::<(), SyncError>(SyncError::StorageFault) && s1 == s0
                        && chain1.flat_storage == chain0.flat_storage && actions1 == actions0
                } else {
                    &&& r == Ok::<(), SyncError>(())
                    &&& (if chunk_prev != CryptoHash::zero_spec() {
                        chain1.flat_storage@ == chain0.flat_storage@.insert(uid, true)
                    } else {
                        chain1.flat_storage == chain0.flat_storage
                    })
                    &&& actions1 == actions0.push(
                        Action::ScheduleLoadMemtrie {
                            shard_uid: uid,
                            sync_hash,
                            chunk_prev_block_hash: chunk_prev,
                        },
                    )
                    &&& s1.status == ShardSyncStatus::StateApplyFinalizing
                    &&& s1.downloads@.len() == 0
                }
            }
        },
    }
}

/// What processing a present memtrie result does, reset on failure included.
pub open spec fn finalizing_processed(
    chain0: ChainEnv,
    chain1: ChainEnv,
    s0: ShardSyncDownload,
    s1: ShardSyncDownload,
    discard0: crate::metrics::CounterMap,
    discard1: crate::metrics::CounterMap,
    memtrie_result: Result<(), SyncError>,
    shard_uid: ShardUId,
    sync_hash: CryptoHash,
    now: u64,
    need_to_reshard: bool,
    r: Result<bool, SyncError>,
) -> bool {
    let shard_id = shard_uid.shard_id as u64;
    let failed = match memtrie_result {
        Err(_) => true,
        Ok(()) => chain0.faults.set_state_finalize,
    };
    let impl_err = match memtrie_result {
        Err(e) => e,
        Ok(()) => SyncError::StorageFault,
    };
    if !failed {
        &&& discard1 == discard0
        &&& chain1.parts == chain0.parts
        &&& chain1.finalized@ == chain0.finalized@.insert(shard_id, sync_hash)
        &&& s1.downloads@.len() == 0
        &&& (if need_to_reshard {
            r == Ok::<bool, SyncError>(false) && s1.status == ShardSyncStatus::ReshardingScheduling
        } else {
            r == Ok::<bool, SyncError>(true) && s1.status == ShardSyncStatus::StateSyncDone
        })
    } else {
        &&& chain1.finalized == chain0.finalized
        &&& counter_bumped(discard0, discard1, shard_id)
        &&& is_fresh_header_record(s1, now)
        &&& (if !chain0.state_headers@.contains_key(StateHeaderKey { shard_id, sync_hash }) {
            r == Err::<bool, SyncError>(SyncError::StateHeaderMissing) && chain1.parts
                == chain0.parts
        } else if chain0.faults.clear_parts {
            r == Err::<bool, SyncError>(SyncError::StorageFault) && chain1.parts == chain0.parts
        } else {
            r == Err::<bool, SyncError>(impl_err) && chain1.parts@ == chain0.parts@.remove_keys(
                crate::chain::cleared_keys(
                    sync_hash,
                    shard_id,
                    chain0.state_headers@[StateHeaderKey { shard_id, sync_hash }].num_parts,
                ),
            )
        })
    }
}

/// The stage gauge at `k` was set to `v`; every other shard's reading is as
/// it was.
pub open spec fn counter_set(
    old_c: crate::metrics::CounterMap,
    new_c: crate::metrics::CounterMap,
    k: u64,
    v: u64,
) -> bool {
    &&& new_c.value(k) == v
    &&& forall|j: u64| j != k ==> #[trigger] new_c.value(j) == old_c.value(j)
}

/// What one header-phase check does: the behavior of
/// [`StateSync::sync_shards_download_header_status`] as a relation.
pub open spec fn header_status_step(
    self0: StateSync,
    self1: StateSync,
    chain: ChainEnv,
    s0: ShardSyncDownload,
    s1: ShardSyncDownload,
    shard_id: u64,
    sync_hash: CryptoHash,
    now: u64,
    r: Result<(bool, bool), SyncError>,
) -> bool {
    &&& self1.external == self0.external
    &&& self1.timeout == self0.timeout
    &&& self1.state_parts_apply_results == self0.state_parts_apply_results
    &&& self1.load_memtrie_results == self0.load_memtrie_results
    &&& self1.resharding_state_roots == self0.resharding_state_roots
    &&& self1.inbox == self0.inbox
    &&& self1.metrics.stage == self0.metrics.stage
    &&& self1.metrics.retry_part == self0.metrics.retry_part
    &&& self1.metrics.parts_done == self0.metrics.parts_done
    &&& self1.metrics.parts_total == self0.metrics.parts_total
    &&& self1.metrics.discard_parts == self0.metrics.discard_parts
    &&& self1.metrics.external_parts_done == self0.metrics.external_parts_done
    &&& self1.metrics.external_parts_failed == self0.metrics.external_parts_failed
    &&& self1.metrics.external_parts_size_downloaded
        == self0.metrics.external_parts_size_downloaded
    &&& (s0.downloads@[0].done ==> (match r {
        Ok(flags) => {
            &&& chain.state_headers@.contains_key(StateHeaderKey { shard_id, sync_hash })
            &&& flags == (false, true)
            &&& s1.status == ShardSyncStatus::StateDownloadParts
            &&& s1.downloads@.len() == chain.state_headers@[
                StateHeaderKey { shard_id, sync_hash }
            ].num_parts
            &&& forall|i: int|
                0 <= i < s1.downloads@.len() ==> s1.downloads@[i] == DownloadStatus::new_spec(now)
            &&& self1.metrics.header_timeout == self0.metrics.header_timeout
            &&& self1.metrics.header_error == self0.metrics.header_error
        },
        Err(e) => {
            &&& !chain.state_headers@.contains_key(StateHeaderKey { shard_id, sync_hash })
            &&& e == SyncError::StateHeaderMissing
            &&& s1 == s0
            &&& self1.metrics.header_timeout == self0.metrics.header_timeout
            &&& self1.metrics.header_error == self0.metrics.header_error
        },
    }))
    &&& (!s0.downloads@[0].done ==> {
        let d0 = s0.downloads@[0];
        let to = timed_out(now, d0.prev_update_time, self0.timeout);
        &&& r == Ok::<(bool, bool), SyncError>(
            (to, header_slot_step(d0, now, self0.timeout).run_me),
        )
        &&& s1.status == ShardSyncStatus::StateDownloadHeader
        &&& s1.downloads@ == s0.downloads@.update(0, header_slot_step(d0, now, self0.timeout))
        &&& (to ==> counter_bumped(
            self0.metrics.header_timeout,
            self1.metrics.header_timeout,
            shard_id,
        ))
        &&& (!to ==> self1.metrics.header_timeout == self0.metrics.header_timeout)
        &&& (d0.error ==> counter_bumped(
            self0.metrics.header_error,
            self1.metrics.header_error,
            shard_id,
        ))
        &&& (!d0.error ==> self1.metrics.header_error == self0.metrics.header_error)
    })
    &&& s1.wf()
}

/// What one parts-phase check does: the behavior of
/// [`StateSync::sync_shards_download_parts_status`] as a relation.
pub open spec fn parts_status_step(
    self0: StateSync,
    self1: StateSync,
    s0: ShardSyncDownload,
    s1: ShardSyncDownload,
    shard_id: u64,
    now: u64,
    r: (bool, bool),
) -> bool {
    &&& self1.external == self0.external
    &&& self1.timeout == self0.timeout
    &&& self1.state_parts_apply_results == self0.state_parts_apply_results
    &&& self1.load_memtrie_results == self0.load_memtrie_results
    &&& self1.resharding_state_roots == self0.resharding_state_roots
    &&& self1.inbox == self0.inbox
    &&& self1.metrics.stage == self0.metrics.stage
    &&& self1.metrics.header_timeout == self0.metrics.header_timeout
    &&& self1.metrics.header_error == self0.metrics.header_error
    &&& self1.metrics.discard_parts == self0.metrics.discard_parts
    &&& self1.metrics.external_parts_done == self0.metrics.external_parts_done
    &&& self1.metrics.external_parts_failed == self0.metrics.external_parts_failed
    &&& self1.metrics.external_parts_size_downloaded
        == self0.metrics.external_parts_size_downloaded
    &&& ((forall|i: int|
        0 <= i < s0.downloads@.len() ==> (#[trigger] s0.downloads@[i]).done) <==> s1.status
        == ShardSyncStatus::StateApplyScheduling)
    &&& (s1.status == ShardSyncStatus::StateApplyScheduling ==> s1.downloads@.len() == 0)
    &&& (s1.status != ShardSyncStatus::StateApplyScheduling ==> {
        &&& s1.status == ShardSyncStatus::StateDownloadParts
        &&& s1.downloads@.len() == s0.downloads@.len()
        &&& forall|i: int|
            0 <= i < s0.downloads@.len() ==> s1.downloads@[i] == part_slot_step(
                s0.downloads@[i],
                now,
                self0.timeout,
            )
    })
    &&& r.0 == exists|i: int|
        0 <= i < s0.downloads@.len() && !(#[trigger] s0.downloads@[i]).done && timed_out(
            now,
            s0.downloads@[i].prev_update_time,
            self0.timeout,
        )
    &&& r.1 == exists|i: int|
        0 <= i < s0.downloads@.len() && !(#[trigger] s0.downloads@[i]).done && part_slot_step(
            s0.downloads@[i],
            now,
            self0.timeout,
        ).run_me
    &&& self1.metrics.parts_done.value(shard_id) == n_parts_done(
        s0.downloads@,
        s0.downloads@.len() as int,
    )
    &&& self1.metrics.parts_total.value(shard_id) == s0.downloads@.len()
    &&& forall|k: u64|
        k != shard_id ==> #[trigger] self1.metrics.parts_done.value(k)
            == self0.metrics.parts_done.value(k)
    &&& forall|k: u64|
        k != shard_id ==> #[trigger] self1.metrics.parts_total.value(k)
            == self0.metrics.parts_total.value(k)
    &&& self1.metrics.retry_part.value(shard_id) == sat_add_int(
        self0.metrics.retry_part.value(shard_id),
        n_rearmed(s0.downloads@, now, self0.timeout, s0.downloads@.len() as int),
    )
    &&& forall|k: u64|
        k != shard_id ==> #[trigger] self1.metrics.retry_part.value(k)
            == self0.metrics.retry_part.value(k)
    &&& s1.wf()
}

/// What one apply-scheduling step does: the behavior of
/// [`StateSync::sync_shards_apply_scheduling_status`] as a relation.
pub open spec fn scheduling_step(
    self0: StateSync,
    self1: StateSync,
    chain0: ChainEnv,
    chain1: ChainEnv,
    s0: ShardSyncDownload,
    s1: ShardSyncDownload,
    a0: Seq<Action>,
    a1: Seq<Action>,
    shard_id: u64,
    sync_hash: CryptoHash,
    now: u64,
    r: Result<(), SyncError>,
) -> bool {
    &&& self1.external == self0.external
    &&& self1.timeout == self0.timeout
    &&& self1.state_parts_apply_results == self0.state_parts_apply_results
    &&& self1.load_memtrie_results == self0.load_memtrie_results
    &&& self1.resharding_state_roots == self0.resharding_state_roots
    &&& self1.inbox == self0.inbox
    &&& self1.metrics.stage == self0.metrics.stage
    &&& self1.metrics.header_timeout == self0.metrics.header_timeout
    &&& self1.metrics.header_error == self0.metrics.header_error
    &&& self1.metrics.retry_part == self0.metrics.retry_part
    &&& self1.metrics.parts_done == self0.metrics.parts_done
    &&& self1.metrics.parts_total == self0.metrics.parts_total
    &&& self1.metrics.external_parts_done == self0.metrics.external_parts_done
    &&& self1.metrics.external_parts_failed == self0.metrics.external_parts_failed
    &&& self1.metrics.external_parts_size_downloaded
        == self0.metrics.external_parts_size_downloaded
    &&& chain1.headers == chain0.headers
    &&& chain1.state_headers == chain0.state_headers
    &&& chain1.flat_storage == chain0.flat_storage
    &&& chain1.finalized == chain0.finalized
    &&& chain1.faults == chain0.faults
    &&& (!chain0.state_headers@.contains_key(StateHeaderKey { shard_id, sync_hash }) ==> r
        == Err::<(), SyncError>(SyncError::StateHeaderMissing) && s1 == s0 && chain1.parts
        == chain0.parts && a1 == a0 && self1.metrics.discard_parts == self0.metrics.discard_parts)
    &&& (chain0.state_headers@.contains_key(StateHeaderKey { shard_id, sync_hash })
        && !chain0.faults.schedule_apply ==> r == Ok::<(), SyncError>(()) && s1.status
        == ShardSyncStatus::StateApplyInProgress && s1.downloads@.len() == 0 && a1 == a0.push(
        Action::ScheduleApplyStateParts {
            shard_id,
            sync_hash,
            num_parts: chain0.state_headers@[StateHeaderKey { shard_id, sync_hash }].num_parts,
        },
    ) && chain1.parts == chain0.parts && self1.metrics.discard_parts
        == self0.metrics.discard_parts)
    &&& (chain0.state_headers@.contains_key(StateHeaderKey { shard_id, sync_hash })
        && chain0.faults.schedule_apply ==> is_fresh_header_record(s1, now) && counter_bumped(
        self0.metrics.discard_parts,
        self1.metrics.discard_parts,
        shard_id,
    ) && a1 == a0 && (if chain0.faults.clear_parts {
        r == Err::<(), SyncError>(SyncError::StorageFault) && chain1.parts == chain0.parts
    } else {
        r == Ok::<(), SyncError>(()) && chain1.parts@ == chain0.parts@.remove_keys(
            crate::chain::cleared_keys(
                sync_hash,
                shard_id,
                chain0.state_headers@[StateHeaderKey { shard_id, sync_hash }].num_parts,
            ),
        )
    }))
    &&& s1.wf()
}

/// What one apply-in-progress step does: the behavior of
/// [`StateSync::sync_shards_apply_status`] as a relation.
pub open spec fn apply_status_step(
    self0: StateSync,
    self1: StateSync,
    chain0: ChainEnv,
    chain1: ChainEnv,
    epoch_manager: EpochManagerEnv,
    s0: ShardSyncDownload,
    s1: ShardSyncDownload,
    a0: Seq<Action>,
    a1: Seq<Action>,
    shard_id: u64,
    sync_hash: CryptoHash,
    r: Result<(), SyncError>,
) -> bool {
    &&& self1.external == self0.external
    &&& self1.timeout == self0.timeout
    &&& self1.load_memtrie_results == self0.load_memtrie_results
    &&& self1.resharding_state_roots == self0.resharding_state_roots
    &&& self1.inbox == self0.inbox
    &&& self1.metrics == self0.metrics
    &&& chain1.headers == chain0.headers
    &&& chain1.state_headers == chain0.state_headers
    &&& chain1.parts == chain0.parts
    &&& chain1.finalized == chain0.finalized
    &&& chain1.faults == chain0.faults
    &&& (!self0.state_parts_apply_results@.contains_key(shard_id) ==> r == Ok::<(), SyncError>(())
        && s1 == s0 && self1.state_parts_apply_results@ == self0.state_parts_apply_results@
        && chain1.flat_storage == chain0.flat_storage && a1 == a0)
    &&& (self0.state_parts_apply_results@.contains_key(shard_id)
        ==> self1.state_parts_apply_results@ == self0.state_parts_apply_results@.remove(shard_id)
        && apply_result_processed(
        chain0,
        chain1,
        epoch_manager,
        s0,
        s1,
        self0.state_parts_apply_results@[shard_id],
        a0,
        a1,
        shard_id,
        sync_hash,
        r,
    ))
    &&& s1.wf()
}

/// What one finalizing step does: the behavior of
/// [`StateSync::sync_shards_apply_finalizing_status`] as a relation.
pub open spec fn finalizing_status_step(
    self0: StateSync,
    self1: StateSync,
    chain0: ChainEnv,
    chain1: ChainEnv,
    shard_uid: ShardUId,
    s0: ShardSyncDownload,
    s1: ShardSyncDownload,
    sync_hash: CryptoHash,
    now: u64,
    need_to_reshard: bool,
    r: Result<bool, SyncError>,
) -> bool {
    &&& self1.external == self0.external
    &&& self1.timeout == self0.timeout
    &&& self1.state_parts_apply_results == self0.state_parts_apply_results
    &&& self1.resharding_state_roots == self0.resharding_state_roots
    &&& self1.inbox == self0.inbox
    &&& self1.metrics.stage == self0.metrics.stage
    &&& self1.metrics.header_timeout == self0.metrics.header_timeout
    &&& self1.metrics.header_error == self0.metrics.header_error
    &&& self1.metrics.retry_part == self0.metrics.retry_part
    &&& self1.metrics.parts_done == self0.metrics.parts_done
    &&& self1.metrics.parts_total == self0.metrics.parts_total
    &&& self1.metrics.external_parts_done == self0.metrics.external_parts_done
    &&& self1.metrics.external_parts_failed == self0.metrics.external_parts_failed
    &&& self1.metrics.external_parts_size_downloaded
        == self0.metrics.external_parts_size_downloaded
    &&& chain1.headers == chain0.headers
    &&& chain1.state_headers == chain0.state_headers
    &&& chain1.flat_storage == chain0.flat_storage
    &&& chain1.faults == chain0.faults
    &&& (!self0.load_memtrie_results@.contains_key(shard_uid) ==> r == Ok::<bool, SyncError>(false)
        && s1 == s0 && self1.load_memtrie_results@ == self0.load_memtrie_results@ && chain1.parts
        == chain0.parts && chain1.finalized == chain0.finalized && self1.metrics.discard_parts
        == self0.metrics.discard_parts)
    &&& (self0.load_memtrie_results@.contains_key(shard_uid) ==> self1.load_memtrie_results@
        == self0.load_memtrie_results@.remove(shard_uid) && finalizing_processed(
        chain0,
        chain1,
        s0,
        s1,
        self0.metrics.discard_parts,
        self1.metrics.discard_parts,
        self0.load_memtrie_results@[shard_uid],
        shard_uid,
        sync_hash,
        now,
        need_to_reshard,
        r,
    ))
    &&& s1.wf()
}

/// What dispatching requests for one shard does: the behavior of
/// [`StateSync::request_shard`] as a relation.
pub open spec fn dispatch_step(
    self0: StateSync,
    self1: StateSync,
    chain: ChainEnv,
    s0: ShardSyncDownload,
    s1: ShardSyncDownload,
    a0: Seq<Action>,
    a1: Seq<Action>,
    peers: Seq<PeerId>,
    shard_id: u64,
    sync_hash: CryptoHash,
    epoch_id: CryptoHash,
    epoch_height: u64,
) -> bool {
    &&& self1.timeout == self0.timeout
    &&& self1.state_parts_apply_results == self0.state_parts_apply_results
    &&& self1.load_memtrie_results == self0.load_memtrie_results
    &&& self1.resharding_state_roots == self0.resharding_state_roots
    &&& self1.inbox == self0.inbox
    &&& self1.metrics == self0.metrics
    &&& s1.wf()
    &&& (s0.status == ShardSyncStatus::StateDownloadHeader ==> self1.external == self0.external
        && header_request_dispatched(
        self0,
        s0,
        s1,
        a0,
        a1,
        peers,
        shard_id,
        sync_hash,
        epoch_id,
        epoch_height,
    ))
    &&& (s0.status == ShardSyncStatus::StateDownloadParts ==> parts_request_dispatched(
        self0,
        self1,
        chain,
        s0,
        s1,
        a0,
        a1,
        shard_id,
        sync_hash,
        epoch_id,
        epoch_height,
    ))
    &&& (s0.status != ShardSyncStatus::StateDownloadHeader && s0.status
        != ShardSyncStatus::StateDownloadParts ==> s1 == s0 && a1 == a0 && self1.external
        == self0.external)
}

/// The stage number a shard reports this tick: the terminal stage when it
/// finished, else the rank of the state it reached.
pub open spec fn stage_rank(status: ShardSyncStatus, done: bool) -> u64 {
    (if done {
        7int
    } else {
        status.rank()
    }) as u64
}

/// The tail of one shard's tick once its handler succeeded: the stage gauge
/// reports the stage reached, the requests the handler asked for are
/// dispatched, and the record goes back into the map.
pub open spec fn tick_finish(
    self_h: StateSync,
    self1: StateSync,
    chain_h: ChainEnv,
    chain1: ChainEnv,
    rec_h: ShardSyncDownload,
    m0: Map<u64, ShardSyncDownload>,
    m1: Map<u64, ShardSyncDownload>,
    a_h: Seq<Action>,
    a1: Seq<Action>,
    peers: Seq<PeerId>,
    sync_hash: CryptoHash,
    epoch_id: CryptoHash,
    epoch_height: u64,
    shard_id: u64,
    run_flag: bool,
    done: bool,
) -> bool {
    exists|self_s: StateSync, rec_d: ShardSyncDownload|
        #![trigger counter_set(self_h.metrics.stage, self_s.metrics.stage, shard_id, stage_rank(rec_h.status, done)), rec_d.wf()]
        {
            &&& counter_set(
                self_h.metrics.stage,
                self_s.metrics.stage,
                shard_id,
                stage_rank(rec_h.status, done),
            )
            &&& rec_d.wf()
            &&& self_s.external == self_h.external
            &&& self_s.timeout == self_h.timeout
            &&& self_s.state_parts_apply_results == self_h.state_parts_apply_results
            &&& self_s.load_memtrie_results == self_h.load_memtrie_results
            &&& self_s.resharding_state_roots == self_h.resharding_state_roots
            &&& self_s.inbox == self_h.inbox
            &&& self_s.metrics.header_timeout == self_h.metrics.header_timeout
            &&& self_s.metrics.header_error == self_h.metrics.header_error
            &&& self_s.metrics.retry_part == self_h.metrics.retry_part
            &&& self_s.metrics.parts_done == self_h.metrics.parts_done
            &&& self_s.metrics.parts_total == self_h.metrics.parts_total
            &&& self_s.metrics.discard_parts == self_h.metrics.discard_parts
            &&& self_s.metrics.external_parts_done == self_h.metrics.external_parts_done
            &&& self_s.metrics.external_parts_failed == self_h.metrics.external_parts_failed
            &&& self_s.metrics.external_parts_size_downloaded
                == self_h.metrics.external_parts_size_downloaded
            &&& (if run_flag {
                dispatch_step(
                    self_s,
                    self1,
                    chain_h,
                    rec_h,
                    rec_d,
                    a_h,
                    a1,
                    peers,
                    shard_id,
                    sync_hash,
                    epoch_id,
                    epoch_height,
                )
            } else {
                self1 == self_s && rec_d == rec_h && a1 == a_h
            })
            &&& chain1 == chain_h
            &&& m1 == m0.insert(shard_id, rec_d)
        }
}

/// The epoch the sync anchor belongs to.
pub open spec fn tick_epoch_id(chain: ChainEnv, sync_hash: CryptoHash) -> CryptoHash {
    chain.headers@[sync_hash].epoch_id
}

/// The ordinal height of that epoch.
pub open spec fn tick_epoch_height(
    chain: ChainEnv,
    epoch_manager: EpochManagerEnv,
    sync_hash: CryptoHash,
) -> u64 {
    epoch_manager.epochs@[tick_epoch_id(chain, sync_hash)].epoch_height
}

/// The layout version the synced shards live under.
pub open spec fn tick_layout_version(
    chain: ChainEnv,
    epoch_manager: EpochManagerEnv,
    sync_hash: CryptoHash,
) -> u32 {
    epoch_manager.epochs@[chain.headers@[chain.headers@[sync_hash].prev_hash].epoch_id
    ].layout.version
}

/// What one tick does for one tracked shard, start to finish: take the
/// stored record (or create a fresh header-phase one), run the state
/// handler, report the stage, dispatch the requests it asked for, and store
/// the record back.  `outcome` is the error that stopped the tick, if any;
/// `done` says whether this shard finished.
pub open spec fn shard_tick(
    self0: StateSync,
    self1: StateSync,
    chain0: ChainEnv,
    chain1: ChainEnv,
    epoch_manager: EpochManagerEnv,
    m0: Map<u64, ShardSyncDownload>,
    m1: Map<u64, ShardSyncDownload>,
    a0: Seq<Action>,
    a1: Seq<Action>,
    peers: Seq<PeerId>,
    sync_hash: CryptoHash,
    epoch_id: CryptoHash,
    epoch_height: u64,
    version: u32,
    need_to_reshard: bool,
    now: u64,
    shard_id: u64,
    outcome: Option<SyncError>,
    done: bool,
) -> bool {
    exists|rec_in: ShardSyncDownload|
        {
            &&& #[trigger] rec_in.wf()
            &&& (if m0.contains_key(shard_id) {
                rec_in == m0[shard_id]
            } else {
                is_fresh_header_record(rec_in, now)
            })
            &&& (match rec_in.status {
                ShardSyncStatus::StateDownloadHeader => exists|
                    self_h: StateSync,
                    rec_h: ShardSyncDownload,
                    r_h: Result<(bool, bool), SyncError>,
                |
                    {
                        &&& #[trigger] header_status_step(
                            self0,
                            self_h,
                            chain0,
                            rec_in,
                            rec_h,
                            shard_id,
                            sync_hash,
                            now,
                            r_h,
                        )
                        &&& (match r_h {
                            Err(e) => outcome == Some(e) && !done && self1 == self_h && chain1
                                == chain0 && a1 == a0 && m1 == m0.insert(shard_id, rec_h),
                            Ok(flags) => outcome is None && !done && tick_finish(
                                self_h,
                                self1,
                                chain0,
                                chain1,
                                rec_h,
                                m0,
                                m1,
                                a0,
                                a1,
                                peers,
                                sync_hash,
                                epoch_id,
                                epoch_height,
                                shard_id,
                                flags.1,
                                false,
                            ),
                        })
                    },
                ShardSyncStatus::StateDownloadParts => exists|
                    self_h: StateSync,
                    rec_h: ShardSyncDownload,
                    flags: (bool, bool),
                |
                    {
                        &&& #[trigger] parts_status_step(
                            self0,
                            self_h,
                            rec_in,
                            rec_h,
                            shard_id,
                            now,
                            flags,
                        )
                        &&& outcome is None
                        &&& !done
                        &&& tick_finish(
                            self_h,
                            self1,
                            chain0,
                            chain1,
                            rec_h,
                            m0,
                            m1,
                            a0,
                            a1,
                            peers,
                            sync_hash,
                            epoch_id,
                            epoch_height,
                            shard_id,
                            flags.1,
                            false,
                        )
                    },
                ShardSyncStatus::StateApplyScheduling => exists|
                    self_h: StateSync,
                    chain_h: ChainEnv,
                    rec_h: ShardSyncDownload,
                    a_h: Seq<Action>,
                    r_s: Result<(), SyncError>,
                |
                    {
                        &&& #[trigger] scheduling_step(
                            self0,
                            self_h,
                            chain0,
                            chain_h,
                            rec_in,
                            rec_h,
                            a0,
                            a_h,
                            shard_id,
                            sync_hash,
                            now,
                            r_s,
                        )
                        &&& (match r_s {
                            Err(e) => outcome == Some(e) && !done && self1 == self_h && chain1
                                == chain_h && a1 == a_h && m1 == m0.insert(shard_id, rec_h),
                            Ok(()) => outcome is None && !done && tick_finish(
                                self_h,
                                self1,
                                chain_h,
                                chain1,
                                rec_h,
                                m0,
                                m1,
                                a_h,
                                a1,
                                peers,
                                sync_hash,
                                epoch_id,
                                epoch_height,
                                shard_id,
                                false,
                                false,
                            ),
                        })
                    },
                ShardSyncStatus::StateApplyInProgress => exists|
                    self_h: StateSync,
                    chain_h: ChainEnv,
                    rec_h: ShardSyncDownload,
                    a_h: Seq<Action>,
                    r_a: Result<(), SyncError>,
                |
                    {
                        &&& #[trigger] apply_status_step(
                            self0,
                            self_h,
                            chain0,
                            chain_h,
                            epoch_manager,
                            rec_in,
                            rec_h,
                            a0,
                            a_h,
                            shard_id,
                            sync_hash,
                            r_a,
                        )
                        &&& (match r_a {
                            Err(e) => outcome == Some(e) && !done && self1 == self_h && chain1
                                == chain_h && a1 == a_h && m1 == m0.insert(shard_id, rec_h),
                            Ok(()) => outcome is None && !done && tick_finish(
                                self_h,
                                self1,
                                chain_h,
                                chain1,
                                rec_h,
                                m0,
                                m1,
                                a_h,
                                a1,
                                peers,
                                sync_hash,
                                epoch_id,
                                epoch_height,
                                shard_id,
                                false,
                                false,
                            ),
                        })
                    },
                ShardSyncStatus::StateApplyFinalizing => exists|
                    self_h: StateSync,
                    chain_h: ChainEnv,
                    rec_h: ShardSyncDownload,
                    r_f: Result<bool, SyncError>,
                |
                    {
                        &&& #[trigger] finalizing_status_step(
                            self0,
                            self_h,
                            chain0,
                            chain_h,
                            ShardUId { version, shard_id: shard_id as u32 },
                            rec_in,
                            rec_h,
                            sync_hash,
                            now,
                            need_to_reshard,
                            r_f,
                        )
                        &&& (match r_f {
                            Err(e) => outcome == Some(e) && !done && self1 == self_h && chain1
                                == chain_h && a1 == a0 && m1 == m0.insert(shard_id, rec_h),
                            Ok(d) => outcome is None && done == d && tick_finish(
                                self_h,
                                self1,
                                chain_h,
                                chain1,
                                rec_h,
                                m0,
                                m1,
                                a0,
                                a1,
                                peers,
                                sync_hash,
                                epoch_id,
                                epoch_height,
                                shard_id,
                                false,
                                d,
                            ),
                        })
                    },
                ShardSyncStatus::ReshardingScheduling => {
                    &&& outcome == Some(SyncError::ReshardingUnsupported)
                    &&& !done
                    &&& self1 == self0
                    &&& chain1 == chain0
                    &&& a1 == a0
                    &&& m1 == m0.insert(shard_id, rec_in)
                },
                ShardSyncStatus::ReshardingApplying => {
                    &&& outcome == Some(SyncError::ReshardingUnsupported)
                    &&& !done
                    &&& self1 == self0
                    &&& chain1 == chain0
                    &&& a1 == a0
                    &&& m1 == m0.insert(shard_id, rec_in)
                },
                ShardSyncStatus::StateSyncDone => {
                    &&& outcome is None
                    &&& done
                    &&& tick_finish(
                        self0,
                        self1,
                        chain0,
                        chain1,
                        rec_in,
                        m0,
                        m1,
                        a0,
                        a1,
                        peers,
                        sync_hash,
                        epoch_id,
                        epoch_height,
                        shard_id,
                        false,
                        true,
                    )
                },
            })
        }
}

/// The driver, chain, shard map and action list after advancing a list of
/// shards whose ticks all succeeded: a chain of [`shard_tick`] relations,
/// one per tracked shard, in list order, accumulating done-ness.
pub open spec fn shards_prefix(
    self0: StateSync,
    self1: StateSync,
    chain0: ChainEnv,
    chain1: ChainEnv,
    epoch_manager: EpochManagerEnv,
    m0: Map<u64, ShardSyncDownload>,
    m1: Map<u64, ShardSyncDownload>,
    a0: Seq<Action>,
    a1: Seq<Action>,
    peers: Seq<PeerId>,
    sync_hash: CryptoHash,
    epoch_id: CryptoHash,
    epoch_height: u64,
    version: u32,
    need_to_reshard: bool,
    now: u64,
    tracking: Seq<u64>,
    acc0: bool,
    acc1: bool,
) -> bool
    decreases tracking.len(),
{
    if tracking.len() == 0 {
        &&& self1 == self0
        &&& chain1 == chain0
        &&& m1 == m0
        &&& a1 == a0
        &&& acc1 == acc0
    } else {
        exists|
            mid_sync: StateSync,
            mid_chain: ChainEnv,
            mid_map: Map<u64, ShardSyncDownload>,
            mid_a: Seq<Action>,
            done: bool,
        |
            shard_tick(
                self0,
                mid_sync,
                chain0,
                mid_chain,
                epoch_manager,
                m0,
                mid_map,
                a0,
                mid_a,
                peers,
                sync_hash,
                epoch_id,
                epoch_height,
                version,
                need_to_reshard,
                now,
                tracking[0],
                None::<SyncError>,
                done,
            ) && shards_prefix(
                mid_sync,
                self1,
                mid_chain,
                chain1,
                epoch_manager,
                mid_map,
                m1,
                mid_a,
                a1,
                peers,
                sync_hash,
                epoch_id,
                epoch_height,
                version,
                need_to_reshard,
                now,
                tracking.skip(1),
                acc0 && done,
                acc1,
            )
    }
}

/// Advancing one more shard extends the chain.
pub proof fn lemma_shards_prefix_snoc(
    self0: StateSync,
    self1: StateSync,
    self2: StateSync,
    chain0: ChainEnv,
    chain1: ChainEnv,
    chain2: ChainEnv,
    epoch_manager: EpochManagerEnv,
    m0: Map<u64, ShardSyncDownload>,
    m1: Map<u64, ShardSyncDownload>,
    m2: Map<u64, ShardSyncDownload>,
    a0: Seq<Action>,
    a1: Seq<Action>,
    a2: Seq<Action>,
    peers: Seq<PeerId>,
    sync_hash: CryptoHash,
    epoch_id: CryptoHash,
    epoch_height: u64,
    version: u32,
    need_to_reshard: bool,
    now: u64,
    tracking: Seq<u64>,
    shard_id: u64,
    acc0: bool,
    acc1: bool,
    done: bool,
)
    requires
        shards_prefix(
            self0,
            self1,
            chain0,
            chain1,
            epoch_manager,
            m0,
            m1,
            a0,
            a1,
            peers,
            sync_hash,
            epoch_id,
            epoch_height,
            version,
            need_to_reshard,
            now,
            tracking,
            acc0,
            acc1,
        ),
        shard_tick(
            self1,
            self2,
            chain1,
            chain2,
            epoch_manager,
            m1,
            m2,
            a1,
            a2,
            peers,
            sync_hash,
            epoch_id,
            epoch_height,
            version,
            need_to_reshard,
            now,
            shard_id,
            None::<SyncError>,
            done,
        ),
    ensures
        shards_prefix(
            self0,
            self2,
            chain0,
            chain2,
            epoch_manager,
            m0,
            m2,
            a0,
            a2,
            peers,
            sync_hash,
            epoch_id,
            epoch_height,
            version,
            need_to_reshard,
            now,
            tracking.push(shard_id),
            acc0,
            acc1 && done,
        ),
    decreases tracking.len(),
{
    if tracking.len() == 0 {
        assert(tracking.push(shard_id)[0] == shard_id);
        assert(tracking.push(shard_id).skip(1) =~= Seq::<u64>::empty());
        assert(shards_prefix(
            self2,
            self2,
            chain2,
            chain2,
            epoch_manager,
            m2,
            m2,
            a2,
            a2,
            peers,
            sync_hash,
            epoch_id,
            epoch_height,
            version,
            need_to_reshard,
            now,
            Seq::<u64>::empty(),
            acc0 && done,
            acc1 && done,
        ));
    } else {
        let (mid_sync, mid_chain, mid_map, mid_a, d0) = choose|
            ms: StateSync,
            mc: ChainEnv,
            mm: Map<u64, ShardSyncDownload>,
            ma: Seq<Action>,
            d: bool,
        |
            shard_tick(
                self0,
                ms,
                chain0,
                mc,
                epoch_manager,
                m0,
                mm,
                a0,
                ma,
                peers,
                sync_hash,
                epoch_id,
                epoch_height,
                version,
                need_to_reshard,
                now,
                tracking[0],
                None::<SyncError>,
                d,
            ) && shards_prefix(
                ms,
                self1,
                mc,
                chain1,
                epoch_manager,
                mm,
                m1,
                ma,
                a1,
                peers,
                sync_hash,
                epoch_id,
                epoch_height,
                version,
                need_to_reshard,
                now,
                tracking.skip(1),
                acc0 && d,
                acc1,
            );
        lemma_shards_prefix_snoc(
            mid_sync,
            self1,
            self2,
            mid_chain,
            chain1,
            chain2,
            epoch_manager,
            mid_map,
            m1,
            m2,
            mid_a,
            a1,
            a2,
            peers,
            sync_hash,
            epoch_id,
            epoch_height,
            version,
            need_to_reshard,
            now,
            tracking.skip(1),
            shard_id,
            acc0 && d0,
            acc1,
            done,
        );
        assert(tracking.push(shard_id)[0] == tracking[0]);
        assert(tracking.push(shard_id).skip(1) =~= tracking.skip(1).push(shard_id));
    }
}

/// Every shard other than `shard_id` keeps its record.
pub open spec fn other_shards_preserved(
    m0: Map<u64, ShardSyncDownload>,
    m1: Map<u64, ShardSyncDownload>,
    shard_id: u64,
) -> bool {
    forall|k: u64|
        k != shard_id ==> ((#[trigger] m1.contains_key(k)) == m0.contains_key(k) && (
        m0.contains_key(k) ==> m1[k] == m0[k]))
}

/// What draining one message does: the per-message relation of
/// [`StateSync::apply_completion_message`], as one step of the intake fold.
pub open spec fn completion_step(
    self0: StateSync,
    self1: StateSync,
    chain0: ChainEnv,
    chain1: ChainEnv,
    m0: Map<u64, ShardSyncDownload>,
    m1: Map<u64, ShardSyncDownload>,
    sync_hash: CryptoHash,
    msg: StateSyncGetFileResult,
) -> bool {
    &&& self1.external == self0.external
    &&& self1.timeout == self0.timeout
    &&& self1.state_parts_apply_results == self0.state_parts_apply_results
    &&& self1.load_memtrie_results == self0.load_memtrie_results
    &&& self1.resharding_state_roots == self0.resharding_state_roots
    &&& self1.metrics.stage == self0.metrics.stage
    &&& self1.metrics.header_timeout == self0.metrics.header_timeout
    &&& self1.metrics.header_error == self0.metrics.header_error
    &&& self1.metrics.retry_part == self0.metrics.retry_part
    &&& self1.metrics.parts_done == self0.metrics.parts_done
    &&& self1.metrics.parts_total == self0.metrics.parts_total
    &&& self1.metrics.discard_parts == self0.metrics.discard_parts
    &&& chain1.headers == chain0.headers
    &&& chain1.parts == chain0.parts
    &&& chain1.flat_storage == chain0.flat_storage
    &&& chain1.finalized == chain0.finalized
    &&& chain1.faults == chain0.faults
    &&& other_shards_preserved(m0, m1, msg.shard_id)
    &&& m1.contains_key(msg.shard_id) == m0.contains_key(msg.shard_id)
    &&& (msg.sync_hash != sync_hash ==> untouched(self0, self1, chain0, chain1, m0, m1))
    &&& (msg.sync_hash == sync_hash && !m0.contains_key(msg.shard_id) ==> untouched(
        self0,
        self1,
        chain0,
        chain1,
        m0,
        m1,
    ))
    &&& (msg.sync_hash == sync_hash && m0.contains_key(msg.shard_id) ==> completion_applied(
        self0,
        self1,
        chain0,
        chain1,
        m0[msg.shard_id],
        m1[msg.shard_id],
        sync_hash,
        msg,
    ))
}

/// The driver, chain and shard map after draining the whole message
/// sequence: a chain of [`completion_step`] relations, one per message, in
/// queue order.  The completion queue — everything this crate does not read
/// — is not part of the relation.
pub open spec fn intake_applied(
    self0: StateSync,
    self1: StateSync,
    chain0: ChainEnv,
    chain1: ChainEnv,
    m0: Map<u64, ShardSyncDownload>,
    m1: Map<u64, ShardSyncDownload>,
    sync_hash: CryptoHash,
    msgs: Seq<StateSyncGetFileResult>,
) -> bool
    decreases msgs.len(),
{
    if msgs.len() == 0 {
        &&& self1.external == self0.external
        &&& self1.timeout == self0.timeout
        &&& self1.state_parts_apply_results == self0.state_parts_apply_results
        &&& self1.load_memtrie_results == self0.load_memtrie_results
        &&& self1.resharding_state_roots == self0.resharding_state_roots
        &&& self1.metrics == self0.metrics
        &&& chain1 == chain0
        &&& m1 == m0
    } else {
        exists|mid_sync: StateSync, mid_chain: ChainEnv, mid_map: Map<u64, ShardSyncDownload>|
            completion_step(self0, mid_sync, chain0, mid_chain, m0, mid_map, sync_hash, msgs[0])
                && intake_applied(
                mid_sync,
                self1,
                mid_chain,
                chain1,
                mid_map,
                m1,
                sync_hash,
                msgs.skip(1),
            )
    }
}

/// Extending a drain by one more message extends the chain.
#[verifier::rlimit(40)]
pub proof fn lemma_intake_applied_snoc(
    self0: StateSync,
    self1: StateSync,
    self2: StateSync,
    chain0: ChainEnv,
    chain1: ChainEnv,
    chain2: ChainEnv,
    m0: Map<u64, ShardSyncDownload>,
    m1: Map<u64, ShardSyncDownload>,
    m2: Map<u64, ShardSyncDownload>,
    sync_hash: CryptoHash,
    msgs: Seq<StateSyncGetFileResult>,
    msg: StateSyncGetFileResult,
)
    requires
        intake_applied(self0, self1, chain0, chain1, m0, m1, sync_hash, msgs),
        completion_step(self1, self2, chain1, chain2, m1, m2, sync_hash, msg),
    ensures
        intake_applied(self0, self2, chain0, chain2, m0, m2, sync_hash, msgs.push(msg)),
    decreases msgs.len(),
{
    if msgs.len() == 0 {
        assert(msgs.push(msg)[0] == msg);
        assert(msgs.push(msg).skip(1) =~= Seq::<StateSyncGetFileResult>::empty());
        assert(self1.metrics == self0.metrics);
        assert(chain1 == chain0);
        assert(m1 == m0);
        if msg.sync_hash == sync_hash && m0.contains_key(msg.shard_id) {
            assert(m1.contains_key(msg.shard_id) && m1[msg.shard_id] == m0[msg.shard_id]);
            assert(completion_applied(
                self1,
                self2,
                chain1,
                chain2,
                m1[msg.shard_id],
                m2[msg.shard_id],
                sync_hash,
                msg,
            ));
            assert(completion_applied(
                self0,
                self2,
                chain0,
                chain2,
                m0[msg.shard_id],
                m2[msg.shard_id],
                sync_hash,
                msg,
            ));
        }
        assert(other_shards_preserved(m0, m2, msg.shard_id));
        assert(completion_step(self0, self2, chain0, chain2, m0, m2, sync_hash, msg));
        assert(intake_applied(
            self2,
            self2,
            chain2,
            chain2,
            m2,
            m2,
            sync_hash,
            Seq::<StateSyncGetFileResult>::empty(),
        ));
    } else {
        let (mid_sync, mid_chain, mid_map) = choose|a: StateSync, b: ChainEnv, c: Map<
            u64,
            ShardSyncDownload,
        >|
            completion_step(self0, a, chain0, b, m0, c, sync_hash, msgs[0]) && intake_applied(
                a,
                self1,
                b,
                chain1,
                c,
                m1,
                sync_hash,
                msgs.skip(1),
            );
        lemma_intake_applied_snoc(
            mid_sync,
            self1,
            self2,
            mid_chain,
            chain1,
            chain2,
            mid_map,
            m1,
            m2,
            sync_hash,
            msgs.skip(1),
            msg,
        );
        assert(msgs.push(msg)[0] == msgs[0]);
        assert(msgs.push(msg).skip(1) =~= msgs.skip(1).push(msg));
    }
}

/// Nothing observable changed: the driver (metrics included), the chain, and
/// the shard map are as they were.
pub open spec fn untouched(
    self0: StateSync,
    self1: StateSync,
    chain0: ChainEnv,
    chain1: ChainEnv,
    m0: Map<u64, ShardSyncDownload>,
    m1: Map<u64, ShardSyncDownload>,
) -> bool {
    &&& self1.metrics == self0.metrics
    &&& chain1.state_headers == chain0.state_headers
    &&& m1 == m0
}

/// What one matching completion for a known shard does, as a relation between
/// the shard's record, the chain and the fetch metrics before and after.
pub open spec fn completion_applied(
    self0: StateSync,
    self1: StateSync,
    chain0: ChainEnv,
    chain1: ChainEnv,
    s0: ShardSyncDownload,
    s1: ShardSyncDownload,
    sync_hash: CryptoHash,
    msg: StateSyncGetFileResult,
) -> bool {
    match msg.result {
        Err(_) => {
            // only the failure counter moves; no slot is touched
            &&& s1 == s0
            &&& chain1.state_headers == chain0.state_headers
            &&& counter_bumped(
                self0.metrics.external_parts_failed,
                self1.metrics.external_parts_failed,
                msg.shard_id,
            )
            &&& self1.metrics.external_parts_done == self0.metrics.external_parts_done
            &&& self1.metrics.external_parts_size_downloaded
                == self0.metrics.external_parts_size_downloaded
        },
        Ok(StateSyncFileDownloadResult::StateHeader { header_length, header }) => {
            if s0.status != ShardSyncStatus::StateDownloadHeader {
                // stale: the shard moved on
                &&& s1 == s0
                &&& chain1.state_headers == chain0.state_headers
                &&& self1.metrics == self0.metrics
            } else if s0.downloads@[0].done {
                // duplicate for a finished slot: dropped outright
                &&& s1 == s0
                &&& chain1.state_headers == chain0.state_headers
                &&& self1.metrics == self0.metrics
            } else if !chain0.faults.set_state_header && 1 <= header.num_parts <= 0xffff_ffff {
                // persisted: the slot closes
                &&& s1.status == s0.status
                &&& s1.downloads@ == s0.downloads@.update(0, marked_done(s0.downloads@[0]))
                &&& chain1.state_headers@ == chain0.state_headers@.insert(
                    StateHeaderKey { shard_id: msg.shard_id, sync_hash },
                    header,
                )
                &&& counter_bumped(
                    self0.metrics.external_parts_done,
                    self1.metrics.external_parts_done,
                    msg.shard_id,
                )
                &&& counter_added(
                    self0.metrics.external_parts_size_downloaded,
                    self1.metrics.external_parts_size_downloaded,
                    msg.shard_id,
                    header_length,
                )
                &&& self1.metrics.external_parts_failed == self0.metrics.external_parts_failed
            } else {
                // the store refused the header; the slot waits for its timeout
                &&& s1 == s0
                &&& chain1.state_headers == chain0.state_headers
                &&& counter_bumped(
                    self0.metrics.external_parts_failed,
                    self1.metrics.external_parts_failed,
                    msg.shard_id,
                )
                &&& self1.metrics.external_parts_done == self0.metrics.external_parts_done
                &&& self1.metrics.external_parts_size_downloaded
                    == self0.metrics.external_parts_size_downloaded
            }
        },
        Ok(StateSyncFileDownloadResult::StatePart { part_length }) => {
            if s0.status != ShardSyncStatus::StateDownloadParts {
                &&& s1 == s0
                &&& chain1.state_headers == chain0.state_headers
                &&& self1.metrics == self0.metrics
            } else {
                &&& chain1.state_headers == chain0.state_headers
                &&& (match msg.part_id {
                    Some(pid) => {
                        if pid.idx < s0.downloads@.len() {
                            &&& s1.status == s0.status
                            &&& s1.downloads@ == s0.downloads@.update(
                                pid.idx as int,
                                marked_done(s0.downloads@[pid.idx as int]),
                            )
                        } else {
                            // out of range: logged as a potential malicious
                            // peer, no slot touched
                            s1 == s0
                        }
                    },
                    None => s1 == s0,
                })
                &&& counter_bumped(
                    self0.metrics.external_parts_done,
                    self1.metrics.external_parts_done,
                    msg.shard_id,
                )
                &&& counter_added(
                    self0.metrics.external_parts_size_downloaded,
                    self1.metrics.external_parts_size_downloaded,
                    msg.shard_id,
                    part_length,
                )
                &&& self1.metrics.external_parts_failed == self0.metrics.external_parts_failed
            }
        },
    }
}

/// The counter at `k` went up by one; every other shard's reading is as it
/// was.
pub open spec fn counter_bumped(
    old_c: crate::metrics::CounterMap,
    new_c: crate::metrics::CounterMap,
    k: u64,
) -> bool {
    &&& new_c.value(k) == bump(old_c.value(k))
    &&& forall|j: u64| j != k ==> #[trigger] new_c.value(j) == old_c.value(j)
}

/// The counter at `k` went up by `n` (held at the top of the range); every
/// other shard's reading is as it was.
pub open spec fn counter_added(
    old_c: crate::metrics::CounterMap,
    new_c: crate::metrics::CounterMap,
    k: u64,
    n: u64,
) -> bool {
    &&& new_c.value(k) == crate::metrics::sat_add(old_c.value(k), n)
    &&& forall|j: u64| j != k ==> #[trigger] new_c.value(j) == old_c.value(j)
}

} // verus!
