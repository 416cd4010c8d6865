//! Driver scenarios: first tick, header intake, and the transition into the
//! parts phase.

use state_sync::assoc::AssocMap;
use state_sync::chain::{BlockHeaderInfo, ChainEnv, EpochData, EpochManagerEnv, ShardLayout};
use state_sync::state::StateSync;
use state_sync::types::{
    Action, CryptoHash, PeerId, ShardStateSyncResponse, ShardSyncDownload, ShardSyncStatus,
    StateHeaderInfo, StateSyncResult, SyncConfig,
};

fn sm_hash(tag: u64) -> CryptoHash {
    CryptoHash { w0: tag, w1: tag.wrapping_mul(31), w2: tag.wrapping_add(7), w3: 4 }
}

/// A three-block chain `h0 <- h1 <- h2`, with `h1` and `h2` in the same
/// epoch; returns the environment and the sync hash `h2`.
fn sm_env() -> (ChainEnv, EpochManagerEnv, CryptoHash) {
    let mut chain = ChainEnv::new();
    let h0 = sm_hash(100);
    let h1 = sm_hash(101);
    let h2 = sm_hash(102);
    let e0 = sm_hash(200);
    let e1 = sm_hash(201);
    assert!(chain.insert_block_header(
        h0,
        BlockHeaderInfo { prev_hash: CryptoHash::zero(), epoch_id: e0, height: 1 }
    ));
    assert!(chain.insert_block_header(h1, BlockHeaderInfo { prev_hash: h0, epoch_id: e1, height: 2 }));
    assert!(chain.insert_block_header(h2, BlockHeaderInfo { prev_hash: h1, epoch_id: e1, height: 3 }));
    let mut epoch_manager = EpochManagerEnv::new();
    epoch_manager.epochs.insert(
        e1,
        EpochData { layout: ShardLayout { version: 1, shard_ids: vec![0] }, epoch_height: 10 },
    );
    (chain, epoch_manager, h2)
}

fn sm_header_info() -> StateHeaderInfo {
    StateHeaderInfo { num_parts: 4, state_root: sm_hash(300), chunk_prev_block_hash: sm_hash(101) }
}

#[test]
// Start a new state sync - and check that it asks for a header.
fn test_ask_for_header() {
    let (mut chain, epoch_manager, request_hash) = sm_env();
    let mut state_sync = StateSync::new(1000, String::from("chain_id"), SyncConfig::Peers, false);
    let mut new_shard_sync: AssocMap<u64, ShardSyncDownload> = AssocMap::new();
    let peer_id = PeerId { id: 77 };
    let peers = vec![peer_id];
    let tracking = vec![0u64];
    let mut actions: Vec<Action> = Vec::new();

    let result = state_sync
        .run(
            request_hash,
            &mut new_shard_sync,
            &mut chain,
            &epoch_manager,
            &peers,
            &tracking,
            0,
            &mut actions,
        )
        .unwrap();
    assert_eq!(result, StateSyncResult::InProgress);

    assert_eq!(
        actions,
        vec![Action::StateRequestHeader { shard_id: 0, sync_hash: request_hash, peer_id }]
    );

    assert_eq!(1, new_shard_sync.len());
    let download = new_shard_sync.get(&0).unwrap();

    assert_eq!(download.status, ShardSyncStatus::StateDownloadHeader);

    assert_eq!(download.downloads.len(), 1);
    let download_status = &download.downloads[0];

    // 'run me' is false - as we've just dispatched this request.
    assert_eq!(download_status.run_me, false);
    assert_eq!(download_status.error, false);
    assert_eq!(download_status.done, false);
    assert_eq!(download_status.state_requests_count, 1);
    assert_eq!(download_status.last_target, Some(peer_id));

    // Now let's simulate the header return message.
    let state_response =
        ShardStateSyncResponse { header: Some(sm_header_info()), part: None };

    let mut download = new_shard_sync.remove(&0).unwrap();
    state_sync.update_download_on_state_response_message(
        &mut download,
        request_hash,
        0,
        state_response,
        &mut chain,
        &mut actions,
    );
    assert_eq!(download.status, ShardSyncStatus::StateDownloadHeader);
    // Download should be marked as done.
    assert_eq!(download.downloads[0].done, true);
    assert_eq!(download.downloads[0].run_me, false);
    assert_eq!(download.downloads[0].error, false);
    new_shard_sync.insert(0, download);
}

#[test]
fn test_header_to_parts_transition() {
    let (mut chain, epoch_manager, request_hash) = sm_env();
    let mut state_sync = StateSync::new(1000, String::from("chain_id"), SyncConfig::Peers, false);
    let mut new_shard_sync: AssocMap<u64, ShardSyncDownload> = AssocMap::new();
    let peers = vec![PeerId { id: 77 }];
    let tracking = vec![0u64];
    let mut actions: Vec<Action> = Vec::new();

    state_sync
        .run(request_hash, &mut new_shard_sync, &mut chain, &epoch_manager, &peers, &tracking, 0, &mut actions)
        .unwrap();
    let mut download = new_shard_sync.remove(&0).unwrap();
    state_sync.update_download_on_state_response_message(
        &mut download,
        request_hash,
        0,
        ShardStateSyncResponse { header: Some(sm_header_info()), part: None },
        &mut chain,
        &mut actions,
    );
    new_shard_sync.insert(0, download);

    // the next tick observes the finished header slot and replaces the
    // record with one slot per part
    state_sync
        .run(request_hash, &mut new_shard_sync, &mut chain, &epoch_manager, &peers, &tracking, 1, &mut actions)
        .unwrap();
    let download = new_shard_sync.get(&0).unwrap();
    assert_eq!(download.status, ShardSyncStatus::StateDownloadParts);
    assert_eq!(download.downloads.len(), sm_header_info().num_parts as usize);
}

#[test]
fn test_empty_tracking_is_completed() {
    let (mut chain, epoch_manager, request_hash) = sm_env();
    let mut state_sync = StateSync::new(1000, String::from("chain_id"), SyncConfig::Peers, false);
    let mut map: AssocMap<u64, ShardSyncDownload> = AssocMap::new();
    let mut actions: Vec<Action> = Vec::new();
    let result = state_sync
        .run(
            request_hash,
            &mut map,
            &mut chain,
            &epoch_manager,
            &vec![],
            &vec![],
            0,
            &mut actions,
        )
        .unwrap();
    assert_eq!(result, StateSyncResult::Completed);
    assert!(actions.is_empty());
}

#[test]
fn test_peer_part_response_persists_and_notifies() {
    let (mut chain, _epoch_manager, request_hash) = sm_env();
    let header = sm_header_info();
    chain.set_state_header(0, request_hash, header).unwrap();
    let state_sync = StateSync::new(1000, String::from("chain_id"), SyncConfig::Peers, false);
    let mut download = ShardSyncDownload::new_download_state_parts(0, header.num_parts);
    let mut actions: Vec<Action> = Vec::new();
    let data = vec![9u8, 8, 7];
    state_sync.update_download_on_state_response_message(
        &mut download,
        request_hash,
        0,
        ShardStateSyncResponse { header: None, part: Some((2, data.clone())) },
        &mut chain,
        &mut actions,
    );
    assert_eq!(download.downloads[2].done, true);
    assert_eq!(actions, vec![Action::StatePartReceived { shard_id: 0, part_id: 2 }]);
    let row = chain.get_state_part_row(0, request_hash, 2).unwrap();
    assert_eq!(row.data, data);
    // an out-of-range part index is dropped without touching anything
    let mut actions2: Vec<Action> = Vec::new();
    state_sync.update_download_on_state_response_message(
        &mut download,
        request_hash,
        0,
        ShardStateSyncResponse { header: None, part: Some((99, vec![1u8])) },
        &mut chain,
        &mut actions2,
    );
    assert!(actions2.is_empty());
    assert!(chain.get_state_part_row(0, request_hash, 99).is_none());
}
