//! A shard driven from finished downloads through apply, memtrie load and
//! finalization to the terminal state, and the reset on a failed
//! finalization.

use state_sync::assoc::AssocMap;
use state_sync::chain::{BlockHeaderInfo, ChainEnv, EpochData, EpochManagerEnv, ShardLayout};
use state_sync::state::StateSync;
use state_sync::types::{
    Action, CryptoHash, DownloadStatus, ShardSyncDownload, ShardSyncStatus, ShardUId,
    StateHeaderInfo, StateSyncResult, SyncConfig, SyncError,
};

fn fs_hash(tag: u64) -> CryptoHash {
    CryptoHash { w0: tag, w1: 0, w2: 1, w3: 0 }
}

fn fs_env() -> (ChainEnv, EpochManagerEnv, CryptoHash) {
    let mut chain = ChainEnv::new();
    let h0 = fs_hash(100);
    let h1 = fs_hash(101);
    let h2 = fs_hash(102);
    let e0 = fs_hash(200);
    let e1 = fs_hash(201);
    assert!(chain.insert_block_header(
        h0,
        BlockHeaderInfo { prev_hash: CryptoHash::zero(), epoch_id: e0, height: 1 }
    ));
    assert!(chain.insert_block_header(h1, BlockHeaderInfo { prev_hash: h0, epoch_id: e1, height: 2 }));
    assert!(chain.insert_block_header(h2, BlockHeaderInfo { prev_hash: h1, epoch_id: e1, height: 3 }));
    let mut epoch_manager = EpochManagerEnv::new();
    epoch_manager.epochs.insert(
        e1,
        EpochData { layout: ShardLayout { version: 1, shard_ids: vec![0] }, epoch_height: 10 },
    );
    chain
        .set_state_header(
            0,
            h2,
            StateHeaderInfo { num_parts: 2, state_root: fs_hash(7), chunk_prev_block_hash: h1 },
        )
        .unwrap();
    (chain, epoch_manager, h2)
}

fn fs_done_slot() -> DownloadStatus {
    DownloadStatus {
        run_me: false,
        error: false,
        done: true,
        state_requests_count: 1,
        last_target: None,
        start_time: 0,
        prev_update_time: 0,
    }
}

#[test]
fn test_full_pipeline_to_done() {
    let (mut chain, epoch_manager, sync_hash) = fs_env();
    let mut sync = StateSync::new(1000, String::from("chain_id"), SyncConfig::Peers, false);
    let mut map: AssocMap<u64, ShardSyncDownload> = AssocMap::new();
    map.insert(
        0,
        ShardSyncDownload {
            downloads: vec![fs_done_slot(); 2],
            status: ShardSyncStatus::StateDownloadParts,
        },
    );
    let tracking = vec![0u64];
    let peers = vec![];

    // every slot is done: the shard moves to apply scheduling
    let mut actions: Vec<Action> = Vec::new();
    sync.run(sync_hash, &mut map, &mut chain, &epoch_manager, &peers, &tracking, 0, &mut actions)
        .unwrap();
    assert_eq!(map.get(&0).unwrap().status, ShardSyncStatus::StateApplyScheduling);
    assert_eq!(sync.metrics.parts_done.get(0), 2);
    assert_eq!(sync.metrics.parts_total.get(0), 2);

    // the apply task is enqueued
    let mut actions: Vec<Action> = Vec::new();
    sync.run(sync_hash, &mut map, &mut chain, &epoch_manager, &peers, &tracking, 1, &mut actions)
        .unwrap();
    assert_eq!(map.get(&0).unwrap().status, ShardSyncStatus::StateApplyInProgress);
    assert_eq!(
        actions,
        vec![Action::ScheduleApplyStateParts { shard_id: 0, sync_hash, num_parts: 2 }]
    );

    // no apply result yet: the shard waits
    let mut actions: Vec<Action> = Vec::new();
    sync.run(sync_hash, &mut map, &mut chain, &epoch_manager, &peers, &tracking, 2, &mut actions)
        .unwrap();
    assert_eq!(map.get(&0).unwrap().status, ShardSyncStatus::StateApplyInProgress);
    assert!(actions.is_empty());

    // the apply result arrives: flat storage is built and the memtrie load
    // is enqueued
    sync.set_apply_result(0, Ok(()));
    let mut actions: Vec<Action> = Vec::new();
    sync.run(sync_hash, &mut map, &mut chain, &epoch_manager, &peers, &tracking, 3, &mut actions)
        .unwrap();
    assert_eq!(map.get(&0).unwrap().status, ShardSyncStatus::StateApplyFinalizing);
    let uid = ShardUId { version: 1, shard_id: 0 };
    assert!(chain.flat_storage.get(&uid).is_some());
    assert_eq!(
        actions,
        vec![Action::ScheduleLoadMemtrie {
            shard_uid: uid,
            sync_hash,
            chunk_prev_block_hash: fs_hash(101),
        }]
    );

    // the memtrie result arrives: the shard finalizes and the sync completes
    sync.set_load_memtrie_result(uid, Ok(()));
    let mut actions: Vec<Action> = Vec::new();
    let result = sync
        .run(sync_hash, &mut map, &mut chain, &epoch_manager, &peers, &tracking, 4, &mut actions)
        .unwrap();
    assert_eq!(result, StateSyncResult::Completed);
    assert_eq!(map.get(&0).unwrap().status, ShardSyncStatus::StateSyncDone);
    assert_eq!(chain.finalized.get(&0), Some(&sync_hash));
}

#[test]
fn test_apply_error_propagates() {
    let (mut chain, epoch_manager, sync_hash) = fs_env();
    let mut sync = StateSync::new(1000, String::from("chain_id"), SyncConfig::Peers, false);
    let mut map: AssocMap<u64, ShardSyncDownload> = AssocMap::new();
    map.insert(
        0,
        ShardSyncDownload { downloads: vec![], status: ShardSyncStatus::StateApplyInProgress },
    );
    sync.set_apply_result(0, Err(SyncError::ApplyFault));
    let mut actions: Vec<Action> = Vec::new();
    let err = sync
        .run(sync_hash, &mut map, &mut chain, &epoch_manager, &vec![], &vec![0u64], 0, &mut actions)
        .unwrap_err();
    assert_eq!(err, SyncError::ApplyFault);
    // the record stays in place; the client decides what happens next
    assert_eq!(map.get(&0).unwrap().status, ShardSyncStatus::StateApplyInProgress);
}

#[test]
fn test_memtrie_failure_resets_shard() {
    let (mut chain, epoch_manager, sync_hash) = fs_env();
    chain.store_external_part(0, sync_hash, 0, &vec![1u8]).unwrap();
    chain.store_external_part(0, sync_hash, 1, &vec![2u8]).unwrap();
    let mut sync = StateSync::new(1000, String::from("chain_id"), SyncConfig::Peers, false);
    let mut map: AssocMap<u64, ShardSyncDownload> = AssocMap::new();
    map.insert(
        0,
        ShardSyncDownload { downloads: vec![], status: ShardSyncStatus::StateApplyFinalizing },
    );
    let uid = ShardUId { version: 1, shard_id: 0 };
    sync.set_load_memtrie_result(uid, Err(SyncError::MemtrieFault));
    let mut actions: Vec<Action> = Vec::new();
    let err = sync
        .run(sync_hash, &mut map, &mut chain, &epoch_manager, &vec![], &vec![0u64], 0, &mut actions)
        .unwrap_err();
    assert_eq!(err, SyncError::MemtrieFault);
    // the shard starts over and its staged parts are gone
    let record = map.get(&0).unwrap();
    assert_eq!(record.status, ShardSyncStatus::StateDownloadHeader);
    assert!(chain.get_state_part_row(0, sync_hash, 0).is_none());
    assert!(chain.get_state_part_row(0, sync_hash, 1).is_none());
    assert_eq!(sync.metrics.discard_parts.get(0), 1);
}
