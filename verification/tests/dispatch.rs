//! Dispatcher scenarios: external fallback after repeated peer attempts,
//! semaphore backpressure, the per-tick peer budget, and completions that
//! arrive for a stale sync anchor.

use state_sync::assoc::AssocMap;
use state_sync::chain::{BlockHeaderInfo, ChainEnv, EpochData, EpochManagerEnv, ShardLayout};
use state_sync::state::StateSync;
use state_sync::state::update_download_on_route_not_found;
use state_sync::types::{
    Action, CryptoHash, DownloadStatus, ExternalStorageConfig, ExternalStorageLocation, PartId,
    ShardSyncDownload, ShardSyncStatus, StateHeaderInfo, StateSyncFileDownloadResult,
    StateSyncGetFileResult, SyncConfig,
};

fn dp_hash(tag: u64) -> CryptoHash {
    CryptoHash { w0: tag, w1: 2, w2: 3, w3: 4 }
}

fn dp_env(shards: &[u64], num_parts: u64) -> (ChainEnv, EpochManagerEnv, CryptoHash) {
    let mut chain = ChainEnv::new();
    let h0 = dp_hash(100);
    let h1 = dp_hash(101);
    let h2 = dp_hash(102);
    let e0 = dp_hash(200);
    let e1 = dp_hash(201);
    assert!(chain.insert_block_header(
        h0,
        BlockHeaderInfo { prev_hash: CryptoHash::zero(), epoch_id: e0, height: 1 }
    ));
    assert!(chain.insert_block_header(h1, BlockHeaderInfo { prev_hash: h0, epoch_id: e1, height: 2 }));
    assert!(chain.insert_block_header(h2, BlockHeaderInfo { prev_hash: h1, epoch_id: e1, height: 3 }));
    let mut epoch_manager = EpochManagerEnv::new();
    epoch_manager.epochs.insert(
        e1,
        EpochData {
            layout: ShardLayout { version: 1, shard_ids: shards.to_vec() },
            epoch_height: 10,
        },
    );
    for shard in shards {
        chain
            .set_state_header(
                *shard,
                h2,
                StateHeaderInfo {
                    num_parts,
                    state_root: dp_hash(300),
                    chunk_prev_block_hash: h1,
                },
            )
            .unwrap();
    }
    (chain, epoch_manager, h2)
}

fn dp_external_config(threshold: u64, permits: u64) -> SyncConfig {
    SyncConfig::ExternalStorage(ExternalStorageConfig {
        location: ExternalStorageLocation::Filesystem { root_dir: String::from("/tmp/parts") },
        num_concurrent_requests: permits,
        num_concurrent_requests_during_catchup: 1,
        external_storage_fallback_threshold: threshold,
    })
}

fn dp_slot(count: u64) -> DownloadStatus {
    DownloadStatus {
        run_me: true,
        error: false,
        done: false,
        state_requests_count: count,
        last_target: None,
        start_time: 0,
        prev_update_time: 0,
    }
}

fn dp_done_slot() -> DownloadStatus {
    DownloadStatus {
        run_me: false,
        error: false,
        done: true,
        state_requests_count: 1,
        last_target: None,
        start_time: 0,
        prev_update_time: 0,
    }
}

fn dp_count_peer_part_requests(actions: &[Action]) -> usize {
    actions
        .iter()
        .filter(|a| matches!(a, Action::StateRequestPart { .. }))
        .count()
}

fn dp_count_external_fetches(actions: &[Action]) -> usize {
    actions
        .iter()
        .filter(|a| matches!(a, Action::FetchPartFromExternal { .. }))
        .count()
}

#[test]
fn test_external_fallback_threshold() {
    // three peer attempts for part five, then the fourth tick routes it to
    // external storage
    let (mut chain, epoch_manager, sync_hash) = dp_env(&[0], 6);
    let mut sync = StateSync::new(1000, String::from("chain_id"), dp_external_config(3, 4), false);
    let mut map: AssocMap<u64, ShardSyncDownload> = AssocMap::new();
    let mut downloads = vec![dp_done_slot(); 6];
    downloads[5] = dp_slot(0);
    map.insert(0, ShardSyncDownload { downloads, status: ShardSyncStatus::StateDownloadParts });
    let tracking = vec![0u64];
    let peers = vec![];

    for (tick, now) in [(1u64, 0u64), (2, 1001), (3, 2002)] {
        let mut actions: Vec<Action> = Vec::new();
        sync.run(sync_hash, &mut map, &mut chain, &epoch_manager, &peers, &tracking, now, &mut actions)
            .unwrap();
        let slot = map.get(&0).unwrap().downloads[5];
        assert_eq!(slot.state_requests_count, tick);
        assert_eq!(slot.run_me, false);
        assert_eq!(dp_count_peer_part_requests(&actions), 1);
        assert_eq!(dp_count_external_fetches(&actions), 0);
        match actions[0] {
            Action::StateRequestPart { shard_id, sync_hash: h, sync_prev_prev_hash, part_id } => {
                assert_eq!(shard_id, 0);
                assert_eq!(h, sync_hash);
                assert_eq!(sync_prev_prev_hash, dp_hash(100));
                assert_eq!(part_id, 5);
            }
            _ => panic!("expected a peer part request"),
        }
    }

    // the attempt count reached the threshold: the next tick goes external
    let mut actions: Vec<Action> = Vec::new();
    sync.run(sync_hash, &mut map, &mut chain, &epoch_manager, &peers, &tracking, 3003, &mut actions)
        .unwrap();
    assert_eq!(dp_count_peer_part_requests(&actions), 0);
    assert_eq!(dp_count_external_fetches(&actions), 1);
    match actions[0] {
        Action::FetchPartFromExternal { shard_id, part_id, num_parts, state_root, .. } => {
            assert_eq!(shard_id, 0);
            assert_eq!(part_id, 5);
            assert_eq!(num_parts, 6);
            assert_eq!(state_root, dp_hash(300));
        }
        _ => panic!("expected an external part fetch"),
    }
    let slot = map.get(&0).unwrap().downloads[5];
    assert_eq!(slot.state_requests_count, 4);
    assert_eq!(slot.last_target, None);
    assert_eq!(slot.run_me, false);
}

#[test]
fn test_semaphore_backpressure() {
    // one permit, twenty hungry slots: one fetch in flight at a time
    let (mut chain, epoch_manager, sync_hash) = dp_env(&[0, 1], 10);
    let mut sync = StateSync::new(1000, String::from("chain_id"), dp_external_config(3, 1), false);
    let mut map: AssocMap<u64, ShardSyncDownload> = AssocMap::new();
    for shard in [0u64, 1] {
        map.insert(
            shard,
            ShardSyncDownload {
                downloads: vec![dp_slot(5); 10],
                status: ShardSyncStatus::StateDownloadParts,
            },
        );
    }
    let tracking = vec![0u64, 1];
    let peers = vec![];

    let mut actions: Vec<Action> = Vec::new();
    sync.run(sync_hash, &mut map, &mut chain, &epoch_manager, &peers, &tracking, 0, &mut actions)
        .unwrap();
    assert_eq!(dp_count_external_fetches(&actions), 1);
    // every slot past the one dispatched keeps waiting, still armed
    let armed: usize = [0u64, 1]
        .iter()
        .map(|s| map.get(s).unwrap().downloads.iter().filter(|d| d.run_me).count())
        .sum();
    assert_eq!(armed, 19);

    // no permit came back: the next tick dispatches nothing
    let mut actions2: Vec<Action> = Vec::new();
    sync.run(sync_hash, &mut map, &mut chain, &epoch_manager, &peers, &tracking, 1, &mut actions2)
        .unwrap();
    assert_eq!(dp_count_external_fetches(&actions2), 0);

    // a finished task returns its permit: one more fetch goes out
    sync.release_external_permit();
    let mut actions3: Vec<Action> = Vec::new();
    sync.run(sync_hash, &mut map, &mut chain, &epoch_manager, &peers, &tracking, 2, &mut actions3)
        .unwrap();
    assert_eq!(dp_count_external_fetches(&actions3), 1);
}

#[test]
fn test_peer_request_budget_per_tick() {
    // twenty armed parts below the threshold: at most sixteen peer requests
    // in one tick
    let (mut chain, epoch_manager, sync_hash) = dp_env(&[0], 20);
    let mut sync = StateSync::new(1000, String::from("chain_id"), SyncConfig::Peers, false);
    let mut map: AssocMap<u64, ShardSyncDownload> = AssocMap::new();
    map.insert(
        0,
        ShardSyncDownload {
            downloads: vec![dp_slot(0); 20],
            status: ShardSyncStatus::StateDownloadParts,
        },
    );
    let mut actions: Vec<Action> = Vec::new();
    sync.run(
        sync_hash,
        &mut map,
        &mut chain,
        &epoch_manager,
        &vec![],
        &vec![0u64],
        0,
        &mut actions,
    )
    .unwrap();
    assert_eq!(dp_count_peer_part_requests(&actions), 16);
    let armed = map.get(&0).unwrap().downloads.iter().filter(|d| d.run_me).count();
    assert_eq!(armed, 4);
}

#[test]
fn test_route_not_found_rearms_slot() {
    // a header request that could not be routed is re-armed
    let mut record = ShardSyncDownload {
        downloads: vec![DownloadStatus { run_me: false, ..dp_slot(1) }],
        status: ShardSyncStatus::StateDownloadHeader,
    };
    update_download_on_route_not_found(&mut record, None);
    assert_eq!(record.downloads[0].run_me, true);
    assert_eq!(record.downloads[0].state_requests_count, 1);

    // same for a part request, by its index
    let mut parts = ShardSyncDownload {
        downloads: vec![DownloadStatus { run_me: false, ..dp_slot(2) }; 3],
        status: ShardSyncStatus::StateDownloadParts,
    };
    update_download_on_route_not_found(&mut parts, Some(1));
    assert_eq!(parts.downloads[0].run_me, false);
    assert_eq!(parts.downloads[1].run_me, true);
    assert_eq!(parts.downloads[2].run_me, false);

    // a finished slot and an out-of-range index are left alone
    let mut done = ShardSyncDownload {
        downloads: vec![dp_done_slot(); 2],
        status: ShardSyncStatus::StateDownloadParts,
    };
    update_download_on_route_not_found(&mut done, Some(0));
    assert_eq!(done.downloads[0].run_me, false);
    update_download_on_route_not_found(&mut done, Some(9));
    assert_eq!(done.downloads, vec![dp_done_slot(); 2]);
}

#[test]
fn test_epoch_change_invalidates_in_flight() {
    // a completion posted under the old sync anchor is filtered out and no
    // slot is touched
    let (mut chain, epoch_manager, sync_hash) = dp_env(&[0], 4);
    let old_sync_hash = dp_hash(999);
    let mut sync = StateSync::new(1000, String::from("chain_id"), dp_external_config(3, 4), false);
    let mut map: AssocMap<u64, ShardSyncDownload> = AssocMap::new();
    map.insert(
        0,
        ShardSyncDownload {
            downloads: vec![dp_slot(5); 4],
            status: ShardSyncStatus::StateDownloadParts,
        },
    );
    sync.push_completion(StateSyncGetFileResult {
        sync_hash: old_sync_hash,
        shard_id: 0,
        part_id: Some(PartId { idx: 1, total: 4 }),
        result: Ok(StateSyncFileDownloadResult::StatePart { part_length: 100 }),
    });
    let mut actions: Vec<Action> = Vec::new();
    sync.run(
        sync_hash,
        &mut map,
        &mut chain,
        &epoch_manager,
        &vec![],
        &vec![0u64],
        0,
        &mut actions,
    )
    .unwrap();
    let record = map.get(&0).unwrap();
    assert_eq!(record.downloads[1].done, false);
    assert_eq!(sync.metrics.external_parts_done.get(0), 0);
    assert_eq!(sync.metrics.external_parts_failed.get(0), 0);

    // the same completion under the current anchor does close the slot
    sync.push_completion(StateSyncGetFileResult {
        sync_hash,
        shard_id: 0,
        part_id: Some(PartId { idx: 1, total: 4 }),
        result: Ok(StateSyncFileDownloadResult::StatePart { part_length: 100 }),
    });
    let mut actions2: Vec<Action> = Vec::new();
    sync.run(
        sync_hash,
        &mut map,
        &mut chain,
        &epoch_manager,
        &vec![],
        &vec![0u64],
        1,
        &mut actions2,
    )
    .unwrap();
    assert_eq!(map.get(&0).unwrap().downloads[1].done, true);
    assert_eq!(sync.metrics.external_parts_done.get(0), 1);
}
