//! Plain data model of the state-sync core: identifiers, download slots,
//! per-shard records, configuration, completion messages and outbound actions.

use vstd::prelude::*;

verus! {

/// Maximum number of state parts to request from peers, per shard, per tick.
pub const MAX_STATE_PART_REQUEST: u64 = 16;

/// Ceiling on pending state requests: `MAX_STATE_PART_REQUEST` times a bound
/// on the number of peers.
pub const MAX_PENDING_PART: u64 = 16 * 10000;

/// A block hash, stored as four 64-bit little-endian words of the 32-byte
/// digest.
#[derive(Clone, Copy, PartialEq, Eq, Structural, Debug, Hash)]
pub struct CryptoHash {
    pub w0: u64,
    pub w1: u64,
    pub w2: u64,
    pub w3: u64,
}

impl CryptoHash {
    /// The all-zero hash; stands for "no block" (the parent of genesis).
    pub fn zero() -> (r: CryptoHash)
        ensures
            r == CryptoHash::zero_spec(),
    {
        CryptoHash { w0: 0, w1: 0, w2: 0, w3: 0 }
    }

    pub open spec fn zero_spec() -> CryptoHash {
        CryptoHash { w0: 0, w1: 0, w2: 0, w3: 0 }
    }
}

/// Identity of a peer on the network.
#[derive(Clone, Copy, PartialEq, Eq, Structural, Debug, Hash)]
pub struct PeerId {
    pub id: u64,
}

/// A shard together with the layout version under which it exists.
#[derive(Clone, Copy, PartialEq, Eq, Structural, Debug, Hash)]
pub struct ShardUId {
    pub version: u32,
    pub shard_id: u32,
}

/// Identifies one part of a shard's state: its index and the total count.
#[derive(Clone, Copy, PartialEq, Eq, Structural, Debug)]
pub struct PartId {
    pub idx: u64,
    pub total: u64,
}

/// Whether the whole sync is finished after a tick of the driver.
#[derive(Clone, Copy, PartialEq, Eq, Structural, Debug)]
pub enum StateSyncResult {
    /// State sync still in progress. No action needed by the caller.
    InProgress,
    /// The state for all shards was downloaded.
    Completed,
}

/// Errors surfaced by the core.  Transient fetch failures never appear here:
/// they are absorbed into slot state and retried.
#[derive(Clone, Copy, PartialEq, Eq, Structural, Debug)]
pub enum SyncError {
    /// A block header the driver needs is not in the chain store.
    BlockHeaderMissing,
    /// The state header for the shard being synced is not in the chain store.
    StateHeaderMissing,
    /// The epoch manager has no record for an epoch the driver asked about.
    EpochInfoMissing,
    /// A write to the chain store failed.
    StorageFault,
    /// A downloaded part failed validation against the state root.
    PartInvalid,
    /// A fetched state header failed validation.
    HeaderInvalid,
    /// Scheduling the apply-parts task failed.
    ApplySchedulingFault,
    /// The apply-parts task itself reported failure.
    ApplyFault,
    /// Loading the in-memory trie reported failure.
    MemtrieFault,
    /// The shard layout changed in the epoch being synced; the sync cannot
    /// proceed and the caller must wait for the next epoch.
    ShardLayoutChanged,
    /// A shard record was found in a resharding state, which this core no
    /// longer supports.
    ReshardingUnsupported,
}

/// The states a shard moves through, in order; the only backward edge is a
/// full reset to `StateDownloadHeader` on a finalization failure.
#[derive(Clone, Copy, PartialEq, Eq, Structural, Debug)]
pub enum ShardSyncStatus {
    StateDownloadHeader,
    StateDownloadParts,
    StateApplyScheduling,
    StateApplyInProgress,
    StateApplyFinalizing,
    ReshardingScheduling,
    ReshardingApplying,
    StateSyncDone,
}

impl ShardSyncStatus {
    /// Numeric rank of the state, increasing along the forward transitions.
    pub open spec fn rank(self) -> int {
        match self {
            ShardSyncStatus::StateDownloadHeader => 0,
            ShardSyncStatus::StateDownloadParts => 1,
            ShardSyncStatus::StateApplyScheduling => 2,
            ShardSyncStatus::StateApplyInProgress => 3,
            ShardSyncStatus::StateApplyFinalizing => 4,
            ShardSyncStatus::ReshardingScheduling => 5,
            ShardSyncStatus::ReshardingApplying => 6,
            ShardSyncStatus::StateSyncDone => 7,
        }
    }

    /// The stage number reported through metrics.
    pub fn repr(&self) -> (r: u64)
        ensures
            r == self.rank(),
    {
        match self {
            ShardSyncStatus::StateDownloadHeader => 0,
            ShardSyncStatus::StateDownloadParts => 1,
            ShardSyncStatus::StateApplyScheduling => 2,
            ShardSyncStatus::StateApplyInProgress => 3,
            ShardSyncStatus::StateApplyFinalizing => 4,
            ShardSyncStatus::ReshardingScheduling => 5,
            ShardSyncStatus::ReshardingApplying => 6,
            ShardSyncStatus::StateSyncDone => 7,
        }
    }
}

/// Progress record for one outstanding header or part download.
#[derive(Clone, Copy, PartialEq, Eq, Debug)]
pub struct DownloadStatus {
    /// True when a request should be (re-)issued for this slot.
    pub run_me: bool,
    /// True when a transient error was observed since the last reset.
    pub error: bool,
    /// True when the artifact is durably persisted.
    pub done: bool,
    /// Monotonic counter of request attempts.
    pub state_requests_count: u64,
    /// Peer the last outbound request was sent to; `None` for requests served
    /// by external storage.
    pub last_target: Option<PeerId>,
    /// When this slot was created.
    pub start_time: u64,
    /// When this slot was last armed or created; drives the timeout.
    pub prev_update_time: u64,
}

impl DownloadStatus {
    /// A download slot holds consistent flags: a finished slot is neither
    /// armed nor in error.
    pub open spec fn wf(self) -> bool {
        self.done ==> !self.run_me && !self.error
    }

    pub fn new(now: u64) -> (r: DownloadStatus)
        ensures
            r == DownloadStatus::new_spec(now),
            r.wf(),
    {
        DownloadStatus {
            run_me: true,
            error: false,
            done: false,
            state_requests_count: 0,
            last_target: None,
            start_time: now,
            prev_update_time: now,
        }
    }

    pub open spec fn new_spec(now: u64) -> DownloadStatus {
        DownloadStatus {
            run_me: true,
            error: false,
            done: false,
            state_requests_count: 0,
            last_target: None,
            start_time: now,
            prev_update_time: now,
        }
    }
}

/// Per-shard sync record: the current state and one download slot per
/// artifact being fetched in that state.
#[derive(Clone, PartialEq, Eq, Debug)]
pub struct ShardSyncDownload {
    /// One slot in the header phase, `num_parts` slots in the parts phase
    /// (index equals part index), empty in every later state.
    pub downloads: Vec<DownloadStatus>,
    pub status: ShardSyncStatus,
}

impl ShardSyncDownload {
    /// Slot flags are consistent and the slot count matches the state.
    pub open spec fn wf(self) -> bool {
        &&& forall|i: int| 0 <= i < self.downloads@.len() ==> (#[trigger] self.downloads@[i]).wf()
        &&& self.status == ShardSyncStatus::StateDownloadHeader ==> self.downloads@.len() == 1
        &&& (self.status != ShardSyncStatus::StateDownloadHeader
            && self.status != ShardSyncStatus::StateDownloadParts)
            ==> self.downloads@.len() == 0
    }

    /// Fresh record in the header phase, with its single armed slot.
    pub fn new_download_state_header(now: u64) -> (r: ShardSyncDownload)
        ensures
            r.status == ShardSyncStatus::StateDownloadHeader,
            r.downloads@.len() == 1,
            r.downloads@[0] == DownloadStatus::new_spec(now),
            r.wf(),
    {
        let mut downloads: Vec<DownloadStatus> = Vec::new();
        downloads.push(DownloadStatus::new(now));
        ShardSyncDownload { downloads, status: ShardSyncStatus::StateDownloadHeader }
    }

    /// Fresh record in the parts phase, with one armed slot per part.
    pub fn new_download_state_parts(now: u64, num_parts: u64) -> (r: ShardSyncDownload)
        requires
            num_parts <= 0xffff_ffff,
        ensures
            r.status == ShardSyncStatus::StateDownloadParts,
            r.downloads@.len() == num_parts,
            forall|i: int| 0 <= i < num_parts ==> r.downloads@[i] == DownloadStatus::new_spec(now),
            r.wf(),
    {
        let mut downloads: Vec<DownloadStatus> = Vec::new();
        let mut i: u64 = 0;
        while i < num_parts
            invariant
                i <= num_parts,
                num_parts <= 0xffff_ffff,
                downloads@.len() == i,
                forall|j: int| 0 <= j < i ==> downloads@[j] == DownloadStatus::new_spec(now),
            decreases num_parts - i,
        {
            downloads.push(DownloadStatus::new(now));
            i = i + 1;
        }
        ShardSyncDownload { downloads, status: ShardSyncStatus::StateDownloadParts }
    }

}

/// Outcome of one external-storage fetch, as posted on the completion queue.
#[derive(Clone, Copy, PartialEq, Eq, Structural, Debug)]
pub enum StateSyncFileDownloadResult {
    /// A header was fetched and parsed; carries its byte length and the
    /// metadata the driver reads from it.
    StateHeader { header_length: u64, header: StateHeaderInfo },
    /// A part was fetched, validated and persisted; carries its byte length.
    StatePart { part_length: u64 },
}

/// Signals that a state file was downloaded and saved, or failed to be.
#[derive(Clone, Copy, PartialEq, Eq, Debug)]
pub struct StateSyncGetFileResult {
    pub sync_hash: CryptoHash,
    pub shard_id: u64,
    /// `None` for header fetches.
    pub part_id: Option<PartId>,
    pub result: Result<StateSyncFileDownloadResult, SyncError>,
}

/// What the driver reads from a shard's state header: the part count, the
/// state root the parts are validated against, and the block the chunk in the
/// header builds on.
#[derive(Clone, Copy, PartialEq, Eq, Structural, Debug)]
pub struct StateHeaderInfo {
    pub num_parts: u64,
    pub state_root: CryptoHash,
    pub chunk_prev_block_hash: CryptoHash,
}

/// A peer's reply to a state request: a header, a part, or neither when the
/// peer could not build a response.
#[derive(Clone, PartialEq, Eq, Debug)]
pub struct ShardStateSyncResponse {
    pub header: Option<StateHeaderInfo>,
    pub part: Option<(u64, Vec<u8>)>,
}

/// Outbound work the driver asks its caller to perform.
#[derive(Clone, Copy, PartialEq, Eq, Structural, Debug)]
pub enum Action {
    /// Send a header request to the given peer.
    StateRequestHeader { shard_id: u64, sync_hash: CryptoHash, peer_id: PeerId },
    /// Send a part request; `sync_prev_prev_hash` lets the network layer pick
    /// a peer holding the matching snapshot.
    StateRequestPart {
        shard_id: u64,
        sync_hash: CryptoHash,
        sync_prev_prev_hash: CryptoHash,
        part_id: u64,
    },
    /// Tell the network layer that a part arrived and was persisted.
    StatePartReceived { shard_id: u64, part_id: u64 },
    /// Start an external-storage fetch of the shard's state header.
    FetchHeaderFromExternal { shard_id: u64, sync_hash: CryptoHash, epoch_id: CryptoHash, epoch_height: u64 },
    /// Start an external-storage fetch of one part; the task holds one
    /// semaphore permit until it completes.
    FetchPartFromExternal {
        shard_id: u64,
        sync_hash: CryptoHash,
        epoch_id: CryptoHash,
        epoch_height: u64,
        part_id: u64,
        num_parts: u64,
        state_root: CryptoHash,
    },
    /// Enqueue the apply-parts task for the shard.
    ScheduleApplyStateParts { shard_id: u64, sync_hash: CryptoHash, num_parts: u64 },
    /// Enqueue the memtrie load for the shard.
    ScheduleLoadMemtrie { shard_uid: ShardUId, sync_hash: CryptoHash, chunk_prev_block_hash: CryptoHash },
}

/// Where state may be fetched from: peers only, or peers with an external
/// object store as fallback.
#[derive(Clone, PartialEq, Eq, Debug)]
pub enum SyncConfig {
    Peers,
    ExternalStorage(ExternalStorageConfig),
}

/// Location of the external store, as plain values.
#[derive(Clone, PartialEq, Eq, Debug)]
pub enum ExternalStorageLocation {
    S3 { bucket: String, region: String },
    Filesystem { root_dir: String },
    GCS { bucket: String },
}

/// Configuration of the external-storage fallback.
#[derive(Clone, PartialEq, Eq, Debug)]
pub struct ExternalStorageConfig {
    pub location: ExternalStorageLocation,
    /// Semaphore capacity for concurrent external fetches during a fresh sync.
    pub num_concurrent_requests: u64,
    /// Semaphore capacity while the node is catching up.
    pub num_concurrent_requests_during_catchup: u64,
    /// Number of peer attempts per part before falling back to the external
    /// store.
    pub external_storage_fallback_threshold: u64,
}

/// Whether `now` is more than `timeout` past `prev`: the per-slot retry
/// condition.
pub open spec fn timed_out(now: u64, prev: u64, timeout: u64) -> bool {
    now > prev + timeout
}

/// Executable form of [`timed_out`]; safe against a clock reading that went
/// backwards.
pub fn check_timed_out(now: u64, prev: u64, timeout: u64) -> (r: bool)
    ensures
        r == timed_out(now, prev, timeout),
{
    now > prev && now - prev > timeout
}

/// `x + 1`, held at the top of the range; request counters never wrap.
pub open spec fn bump(x: u64) -> u64 {
    if x == 0xffff_ffff_ffff_ffff {
        x
    } else {
        (x + 1) as u64
    }
}

/// Executable form of [`bump`].
pub fn bump_count(x: u64) -> (r: u64)
    ensures
        r == bump(x),
{
    if x == 0xffff_ffff_ffff_ffff {
        x
    } else {
        x + 1
    }
}

} // verus!
