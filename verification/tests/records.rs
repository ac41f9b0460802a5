//! Behavioural tests for the record types, the batch containers and the
//! extraction conversions, run against the plain chain configuration.

use substrate_archive::types::{
    batch_to_extrinsics, block_to_extrinsics, BatchBlock, BatchStorage, Block, Event, Extrinsic,
    Header, PlainChain, PlainHeader, Storage, StorageChange, StorageChangeSet, StorageData,
    StorageKey, SubstrateBlock,
};

fn make_block(payloads: Vec<Vec<u8>>, spec_version: u32) -> Block<PlainChain> {
    let header = PlainHeader { parent_hash: 0xabcd, number: 1 };
    Block::new(SubstrateBlock { header, extrinsics: payloads }, spec_version)
}

#[test]
fn header_accessors_round_trip() {
    let header = PlainHeader { parent_hash: 3, number: 1 };
    let record = Header::<PlainChain>::new(header);
    assert_eq!(record.inner().parent_hash, 3);
    assert_eq!(record.inner().number, 1);
}

#[test]
fn header_hash_formula() {
    let record = Header::<PlainChain>::new(PlainHeader { parent_hash: 3, number: 1 });
    assert_eq!(record.hash(), 0x1_0000_0003u64);
}

#[test]
fn block_accessors_round_trip() {
    let block = make_block(vec![vec![0x0a], vec![0x0b, 0x0c]], 42);
    assert_eq!(block.inner().header.parent_hash, 0xabcd);
    assert_eq!(block.inner().header.number, 1);
    assert_eq!(block.inner().extrinsics, vec![vec![0x0a], vec![0x0b, 0x0c]]);
    assert_eq!(block.spec_version(), 42);
}

#[test]
fn storage_accessors_round_trip() {
    let record = Storage::<PlainChain>::new(StorageData(vec![7, 8, 9]), 5u64);
    assert_eq!(record.data().0, vec![7, 8, 9]);
    assert_eq!(*record.hash(), 5u64);
}

#[test]
fn event_accessors_round_trip() {
    let change_set = StorageChangeSet {
        block: 9u64,
        changes: vec![
            StorageChange { key: StorageKey(vec![1]), value: Some(StorageData(vec![2, 3])) },
            StorageChange { key: StorageKey(vec![4]), value: None },
        ],
    };
    let record = Event::<PlainChain>::new(change_set);
    assert_eq!(record.change_set().block, 9u64);
    assert_eq!(record.change_set().changes.len(), 2);
    assert_eq!(record.change_set().changes[0].key.0, vec![1]);
    assert_eq!(record.change_set().changes[0].value.as_ref().unwrap().0, vec![2, 3]);
    assert!(record.change_set().changes[1].value.is_none());
}

#[test]
fn event_hash_reads_the_change_set() {
    let change_set = StorageChangeSet { block: 11u64, changes: Vec::new() };
    let record = Event::<PlainChain>::new(change_set);
    assert_eq!(record.hash(), 11u64);
}

#[test]
fn extrinsic_direct_construction() {
    let raw = vec![0x01, 0x02];
    let record = Extrinsic::<PlainChain>::new(&raw, 4, 21);
    assert_eq!(record.inner(), &vec![0x01, 0x02]);
    assert_eq!(record.index(), 4);
    assert_eq!(record.spec_version(), 21);
}

#[test]
fn batch_block_preserves_order() {
    let blocks = vec![
        make_block(vec![vec![1]], 10),
        make_block(vec![], 11),
        make_block(vec![vec![2], vec![3]], 12),
    ];
    let batch = BatchBlock::new(blocks);
    let inner = batch.inner();
    assert_eq!(inner.len(), 3);
    assert_eq!(inner[0].spec_version(), 10);
    assert_eq!(inner[1].spec_version(), 11);
    assert_eq!(inner[2].spec_version(), 12);
}

#[test]
fn batch_storage_consume_matches_input() {
    let records = vec![
        Storage::<PlainChain>::new(StorageData(vec![1]), 100),
        Storage::<PlainChain>::new(StorageData(vec![2, 2]), 200),
        Storage::<PlainChain>::new(StorageData(vec![]), 300),
    ];
    let batch = BatchStorage::new(records);
    assert_eq!(batch.inner().len(), 3);
    let out = batch.consume();
    assert_eq!(out.len(), 3);
    assert_eq!(out[0].data().0, vec![1]);
    assert_eq!(*out[0].hash(), 100);
    assert_eq!(out[1].data().0, vec![2, 2]);
    assert_eq!(*out[1].hash(), 200);
    assert_eq!(out[2].data().0, vec![]);
    assert_eq!(*out[2].hash(), 300);
}

#[test]
fn extraction_counts_indices_and_versions() {
    let payloads: Vec<Vec<u8>> = (0u8..5).map(|b| vec![b]).collect();
    let block = make_block(payloads, 9);
    let records = block_to_extrinsics(&block);
    assert_eq!(records.len(), 5);
    for (i, record) in records.iter().enumerate() {
        assert_eq!(record.index(), i as u32);
        assert_eq!(record.spec_version(), 9);
        assert_eq!(record.inner(), &vec![i as u8]);
    }
}

#[test]
fn empty_block_extracts_empty() {
    let block = make_block(vec![], 9);
    let records = block_to_extrinsics(&block);
    assert!(records.is_empty());
}

#[test]
fn batch_extraction_matches_per_block_extraction() {
    let blocks = vec![
        make_block(vec![vec![1]], 10),
        make_block(vec![vec![2], vec![3]], 11),
        make_block(vec![], 12),
    ];
    let singles: Vec<Vec<Extrinsic<PlainChain>>> =
        blocks.iter().map(block_to_extrinsics).collect();
    let batched = batch_to_extrinsics(BatchBlock::new(blocks));
    assert_eq!(batched.len(), 3);
    for (batch_row, single_row) in batched.iter().zip(singles.iter()) {
        assert_eq!(batch_row.len(), single_row.len());
        for (a, b) in batch_row.iter().zip(single_row.iter()) {
            assert_eq!(a.inner(), b.inner());
            assert_eq!(a.index(), b.index());
            assert_eq!(a.spec_version(), b.spec_version());
        }
    }
}

#[test]
fn spec_version_seven_scenario() {
    let block = make_block(vec![vec![0x01], vec![0x02, 0x02], vec![]], 7);
    let records = block_to_extrinsics(&block);
    assert_eq!(records.len(), 3);
    assert_eq!(records[0].index(), 0);
    assert_eq!(records[0].spec_version(), 7);
    assert_eq!(records[0].inner(), &vec![0x01]);
    assert_eq!(records[1].index(), 1);
    assert_eq!(records[1].spec_version(), 7);
    assert_eq!(records[1].inner(), &vec![0x02, 0x02]);
    assert_eq!(records[2].index(), 2);
    assert_eq!(records[2].spec_version(), 7);
    assert_eq!(records[2].inner(), &vec![]);
}

#[test]
fn two_blocks_batch_scenario() {
    let batch = BatchBlock::new(vec![
        make_block(vec![vec![0xe0], vec![0xe1]], 1),
        make_block(vec![], 1),
    ]);
    let rows = batch_to_extrinsics(batch);
    assert_eq!(rows.len(), 2);
    assert_eq!(rows[0].len(), 2);
    assert_eq!(rows[0][0].inner(), &vec![0xe0]);
    assert_eq!(rows[0][0].index(), 0);
    assert_eq!(rows[0][1].inner(), &vec![0xe1]);
    assert_eq!(rows[0][1].index(), 1);
    assert!(rows[1].is_empty());
}
