//! Chain-store model: part rows and their serialized keys, clearing, the
//! apply-failure reset, the epoch-start walk, and the error taxonomy.

use state_sync::assoc::AssocMap;
use state_sync::chain::{BlockHeaderInfo, ChainEnv, EpochData, EpochManagerEnv, ShardLayout};
use state_sync::state::StateSync;
use state_sync::types::{
    Action, CryptoHash, ShardSyncDownload, ShardSyncStatus, StateHeaderInfo, SyncConfig,
    SyncError,
};

fn cs_hash(tag: u64) -> CryptoHash {
    CryptoHash { w0: tag, w1: 0, w2: 0, w3 : 0 }
}

#[test]
fn test_part_row_key_bytes() {
    let mut chain = ChainEnv::new();
    let sync_hash = CryptoHash {
        w0: 0x0102030405060708,
        w1: 0x1112131415161718,
        w2: 0x2122232425262728,
        w3: 0x3132333435363738,
    };
    let data = vec![0xaau8, 0xbb];
    let n = chain.store_external_part(0x0a0b, sync_hash, 0x0c0d, &data).unwrap();
    assert_eq!(n, 2);
    let row = chain.get_state_part_row(0x0a0b, sync_hash, 0x0c0d).unwrap();
    // 32 hash bytes, then the shard and the part index, little-endian
    let expected: Vec<u8> = vec![
        0x08, 0x07, 0x06, 0x05, 0x04, 0x03, 0x02, 0x01, // w0
        0x18, 0x17, 0x16, 0x15, 0x14, 0x13, 0x12, 0x11, // w1
        0x28, 0x27, 0x26, 0x25, 0x24, 0x23, 0x22, 0x21, // w2
        0x38, 0x37, 0x36, 0x35, 0x34, 0x33, 0x32, 0x31, // w3
        0x0b, 0x0a, 0x00, 0x00, 0x00, 0x00, 0x00, 0x00, // shard id
        0x0d, 0x0c, 0x00, 0x00, 0x00, 0x00, 0x00, 0x00, // part index
    ];
    assert_eq!(row.key_bytes, expected);
    assert_eq!(row.data, data);
}

#[test]
fn test_persisting_part_twice_same_row() {
    let mut chain = ChainEnv::new();
    let sync_hash = cs_hash(5);
    let data = vec![1u8, 2, 3, 4];
    chain.store_external_part(3, sync_hash, 7, &data).unwrap();
    let first = chain.get_state_part_row(3, sync_hash, 7).unwrap().clone();
    chain.store_external_part(3, sync_hash, 7, &data).unwrap();
    let second = chain.get_state_part_row(3, sync_hash, 7).unwrap().clone();
    assert_eq!(first.key_bytes, second.key_bytes);
    assert_eq!(first.data, second.data);
}

#[test]
fn test_clear_downloaded_parts() {
    let mut chain = ChainEnv::new();
    let sync_hash = cs_hash(5);
    let other_hash = cs_hash(6);
    for idx in 0..4u64 {
        chain.store_external_part(0, sync_hash, idx, &vec![idx as u8]).unwrap();
    }
    chain.store_external_part(1, sync_hash, 0, &vec![9u8]).unwrap();
    chain.store_external_part(0, other_hash, 0, &vec![8u8]).unwrap();
    chain.clear_downloaded_parts(0, sync_hash, 4).unwrap();
    for idx in 0..4u64 {
        assert!(chain.get_state_part_row(0, sync_hash, idx).is_none());
    }
    // rows of other shards and other anchors stay
    assert!(chain.get_state_part_row(1, sync_hash, 0).is_some());
    assert!(chain.get_state_part_row(0, other_hash, 0).is_some());
}

fn cs_env() -> (ChainEnv, EpochManagerEnv, CryptoHash) {
    let mut chain = ChainEnv::new();
    let h0 = cs_hash(100);
    let h1 = cs_hash(101);
    let h2 = cs_hash(102);
    let e0 = cs_hash(200);
    let e1 = cs_hash(201);
    assert!(chain.insert_block_header(
        h0,
        BlockHeaderInfo { prev_hash: CryptoHash::zero(), epoch_id: e0, height: 1 }
    ));
    assert!(chain.insert_block_header(h1, BlockHeaderInfo { prev_hash: h0, epoch_id: e1, height: 2 }));
    assert!(chain.insert_block_header(h2, BlockHeaderInfo { prev_hash: h1, epoch_id: e1, height: 3 }));
    let mut epoch_manager = EpochManagerEnv::new();
    epoch_manager.epochs.insert(
        e1,
        EpochData { layout: ShardLayout { version: 1, shard_ids: vec![0] }, epoch_height: 10 },
    );
    (chain, epoch_manager, h2)
}

#[test]
fn test_apply_failure_resets_shard() {
    let (mut chain, epoch_manager, sync_hash) = cs_env();
    chain
        .set_state_header(
            0,
            sync_hash,
            StateHeaderInfo { num_parts: 3, state_root: cs_hash(7), chunk_prev_block_hash: cs_hash(101) },
        )
        .unwrap();
    for idx in 0..3u64 {
        chain.store_external_part(0, sync_hash, idx, &vec![idx as u8]).unwrap();
    }
    chain.faults.schedule_apply = true;
    let mut sync = StateSync::new(1000, String::from("chain_id"), SyncConfig::Peers, false);
    let mut map: AssocMap<u64, ShardSyncDownload> = AssocMap::new();
    map.insert(
        0,
        ShardSyncDownload { downloads: vec![], status: ShardSyncStatus::StateApplyScheduling },
    );
    let mut actions: Vec<Action> = Vec::new();
    sync.run(sync_hash, &mut map, &mut chain, &epoch_manager, &vec![], &vec![0u64], 0, &mut actions)
        .unwrap();
    let record = map.get(&0).unwrap();
    assert_eq!(record.status, ShardSyncStatus::StateDownloadHeader);
    for idx in 0..3u64 {
        assert!(chain.get_state_part_row(0, sync_hash, idx).is_none());
    }
    assert_eq!(sync.metrics.discard_parts.get(0), 1);
}

#[test]
fn test_epoch_start_sync_hash_idempotent() {
    let (chain, _epoch_manager, sync_hash) = cs_env();
    let start = StateSync::get_epoch_start_sync_hash(&chain, &sync_hash).unwrap();
    // the epoch of h1 and h2 starts at h1
    assert_eq!(start, cs_hash(101));
    let again = StateSync::get_epoch_start_sync_hash(&chain, &start).unwrap();
    assert_eq!(again, start);
}

#[test]
fn test_epoch_start_missing_header() {
    let chain = ChainEnv::new();
    let err = StateSync::get_epoch_start_sync_hash(&chain, &cs_hash(1)).unwrap_err();
    assert_eq!(err, SyncError::BlockHeaderMissing);
}

#[test]
fn test_error_taxonomy() {
    let mut chain = ChainEnv::new();
    let h = cs_hash(1);
    assert_eq!(chain.get_block_header(&h).unwrap_err(), SyncError::BlockHeaderMissing);
    assert_eq!(chain.get_state_header(0, h).unwrap_err(), SyncError::StateHeaderMissing);
    // a header reporting no parts is refused
    assert_eq!(
        chain
            .set_state_header(
                0,
                h,
                StateHeaderInfo { num_parts: 0, state_root: h, chunk_prev_block_hash: h }
            )
            .unwrap_err(),
        SyncError::HeaderInvalid
    );
    chain.faults.validate_part = true;
    assert_eq!(
        chain.store_external_part(0, h, 0, &vec![1u8]).unwrap_err(),
        SyncError::PartInvalid
    );
    chain.faults.validate_part = false;
    chain.faults.set_state_part = true;
    assert_eq!(
        chain.store_external_part(0, h, 0, &vec![1u8]).unwrap_err(),
        SyncError::StorageFault
    );
    chain.faults.schedule_apply = true;
    assert_eq!(
        chain.schedule_apply_state_parts(0, h, 1).unwrap_err(),
        SyncError::ApplySchedulingFault
    );
    chain.faults.set_state_finalize = true;
    assert_eq!(chain.set_state_finalize(0, h).unwrap_err(), SyncError::StorageFault);
    let epoch_manager = EpochManagerEnv::new();
    assert_eq!(epoch_manager.get_epoch_data(&h).unwrap_err(), SyncError::EpochInfoMissing);
}

#[test]
fn test_shard_layout_change_is_fatal() {
    let mut chain = ChainEnv::new();
    let h0 = cs_hash(100);
    let h1 = cs_hash(101);
    let h2 = cs_hash(102);
    let e0 = cs_hash(200);
    let e1 = cs_hash(201);
    assert!(chain.insert_block_header(
        h0,
        BlockHeaderInfo { prev_hash: CryptoHash::zero(), epoch_id: e0, height: 1 }
    ));
    assert!(chain.insert_block_header(h1, BlockHeaderInfo { prev_hash: h0, epoch_id: e0, height: 2 }));
    assert!(chain.insert_block_header(h2, BlockHeaderInfo { prev_hash: h1, epoch_id: e1, height: 3 }));
    let mut epoch_manager = EpochManagerEnv::new();
    epoch_manager.epochs.insert(
        e0,
        EpochData { layout: ShardLayout { version: 1, shard_ids: vec![0] }, epoch_height: 9 },
    );
    epoch_manager.epochs.insert(
        e1,
        EpochData { layout: ShardLayout { version: 2, shard_ids: vec![0, 1] }, epoch_height: 10 },
    );
    let mut sync = StateSync::new(1000, String::from("chain_id"), SyncConfig::Peers, false);
    let mut map: AssocMap<u64, ShardSyncDownload> = AssocMap::new();
    let mut actions: Vec<Action> = Vec::new();
    let err = sync
        .run(h2, &mut map, &mut chain, &epoch_manager, &vec![], &vec![0u64], 0, &mut actions)
        .unwrap_err();
    assert_eq!(err, SyncError::ShardLayoutChanged);
}

#[test]
fn test_resharding_states_are_refused() {
    let (mut chain, epoch_manager, sync_hash) = cs_env();
    let mut sync = StateSync::new(1000, String::from("chain_id"), SyncConfig::Peers, false);
    let mut map: AssocMap<u64, ShardSyncDownload> = AssocMap::new();
    map.insert(
        0,
        ShardSyncDownload { downloads: vec![], status: ShardSyncStatus::ReshardingScheduling },
    );
    let mut actions: Vec<Action> = Vec::new();
    let err = sync
        .run(sync_hash, &mut map, &mut chain, &epoch_manager, &vec![], &vec![0u64], 0, &mut actions)
        .unwrap_err();
    assert_eq!(err, SyncError::ReshardingUnsupported);
}
