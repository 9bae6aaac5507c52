use orphan_witness::chain::{Block, BlockHeader, Chain, Tip};
use orphan_witness::client::{Client, ChunkValidator, HandleOrphanWitnessOutcome};
use orphan_witness::epoch_manager::{
    AssignmentRecord, EpochManagerView, HeightEpochs, ShardLayoutRecord, SignatureRecord,
};
use orphan_witness::pool::OrphanStateWitnessPool;
use orphan_witness::types::{ChunkHeader, ChunkStateWitness, EpochId};

const CAPACITY: u64 = 40_000_000;
const MY_SIGNER: u64 = 7;
const SHARD: u64 = 5;
const EPOCH: u64 = 1;

fn witness_waiting(height: u64, chunk_hash: u64, prev_block_hash: u64) -> ChunkStateWitness {
    ChunkStateWitness {
        chunk_header: ChunkHeader {
            height_created: height,
            shard_id: SHARD,
            chunk_hash,
            prev_block_hash,
        },
        payload: vec![0u8; 16],
    }
}

/// A client at head height 100 that accepts any witness of `witness_waiting`
/// at heights 102..=105 in epoch 1, and knows block 150 at height 101.
fn client_with_headers() -> Client {
    let heights: Vec<u64> = vec![102, 103, 104, 105];
    let chunk_hashes: Vec<u64> = (0..100).collect();
    Client {
        chain: Chain {
            head: Tip { height: 100 },
            headers: vec![BlockHeader { hash: 150, height: 101 }],
        },
        epoch_manager: EpochManagerView {
            possible_epochs: heights
                .iter()
                .map(|h| HeightEpochs { height: *h, epoch_ids: vec![EpochId(EPOCH)] })
                .collect(),
            shard_layouts: vec![ShardLayoutRecord {
                epoch_id: EpochId(EPOCH),
                shard_ids: vec![SHARD],
            }],
            assignments: heights
                .iter()
                .map(|h| AssignmentRecord {
                    epoch_id: EpochId(EPOCH),
                    shard_id: SHARD,
                    height: *h,
                    validators: vec![MY_SIGNER],
                })
                .collect(),
            valid_signatures: chunk_hashes
                .iter()
                .map(|c| SignatureRecord { chunk_hash: *c, epoch_id: EpochId(EPOCH) })
                .collect(),
        },
        chunk_validator: ChunkValidator {
            my_signer: Some(MY_SIGNER),
            orphan_witness_pool: OrphanStateWitnessPool::new(CAPACITY),
        },
        processed_witnesses: vec![],
    }
}

fn save_witness(client: &mut Client, witness: ChunkStateWitness) {
    let outcome = client.handle_orphan_state_witness(witness);
    assert_eq!(outcome, Ok(HandleOrphanWitnessOutcome::SavedToPool));
}

#[test]
fn end_to_end_admit_then_dispatch_once() {
    let mut client = client_with_headers();
    // head = 100, witness at height 103 with a small payload, valid in epoch 1
    let witness = ChunkStateWitness {
        chunk_header: ChunkHeader {
            height_created: 103,
            shard_id: SHARD,
            chunk_hash: 1,
            prev_block_hash: 777,
        },
        payload: vec![0u8; 1024],
    };
    let outcome = client.handle_orphan_state_witness(witness);
    assert_eq!(outcome, Ok(HandleOrphanWitnessOutcome::SavedToPool));
    assert_eq!(client.chunk_validator.orphan_witness_pool.len(), 1);

    // the witness's previous block arrives
    let block = Block { hash: 777, height: 102, last_final_block: 150 };
    client.process_ready_orphan_witnesses_and_clean_old(&block);

    // dispatched exactly once and removed from the pool
    assert_eq!(client.processed_witnesses.len(), 1);
    assert_eq!(client.processed_witnesses[0].chunk_header.chunk_hash, 1);
    assert_eq!(client.processed_witnesses[0].chunk_header.height_created, 103);
    assert_eq!(client.chunk_validator.orphan_witness_pool.len(), 0);
    assert_eq!(client.chunk_validator.orphan_witness_pool.total_byte_size(), 0);
}

#[test]
fn second_dispatch_for_same_block_finds_nothing() {
    let mut client = client_with_headers();
    save_witness(&mut client, witness_waiting(103, 1, 777));
    save_witness(&mut client, witness_waiting(104, 2, 777));
    save_witness(&mut client, witness_waiting(104, 3, 888));

    let block = Block { hash: 777, height: 102, last_final_block: 150 };
    client.process_ready_orphan_witnesses_and_clean_old(&block);
    assert_eq!(client.processed_witnesses.len(), 2);
    assert_eq!(client.processed_witnesses[0].chunk_header.chunk_hash, 1);
    assert_eq!(client.processed_witnesses[1].chunk_header.chunk_hash, 2);
    assert_eq!(client.chunk_validator.orphan_witness_pool.len(), 1);

    // the same block again: nothing is waiting for it any more
    client.process_ready_orphan_witnesses_and_clean_old(&block);
    assert_eq!(client.processed_witnesses.len(), 2);
    assert_eq!(client.chunk_validator.orphan_witness_pool.len(), 1);
    assert_eq!(client.chunk_validator.orphan_witness_pool.entry_heights(), vec![104]);
}

#[test]
fn prune_removes_only_entries_below_final_height() {
    let mut client = client_with_headers();
    client.chain.headers.push(BlockHeader { hash: 151, height: 104 });
    save_witness(&mut client, witness_waiting(102, 1, 701));
    save_witness(&mut client, witness_waiting(103, 2, 702));
    save_witness(&mut client, witness_waiting(104, 3, 703));
    save_witness(&mut client, witness_waiting(105, 4, 704));

    // a block nothing waits for, whose last final block is at height 104
    let block = Block { hash: 999, height: 106, last_final_block: 151 };
    client.process_ready_orphan_witnesses_and_clean_old(&block);

    assert_eq!(client.processed_witnesses.len(), 0);
    assert_eq!(client.chunk_validator.orphan_witness_pool.entry_heights(), vec![104, 105]);
    assert_eq!(client.chunk_validator.orphan_witness_pool.total_byte_size(), 104);
}

#[test]
fn prune_is_skipped_when_final_block_is_unknown() {
    let mut client = client_with_headers();
    save_witness(&mut client, witness_waiting(102, 1, 701));
    save_witness(&mut client, witness_waiting(103, 2, 777));

    // the block's last final block is not known locally: dispatch happens,
    // the prune is skipped
    let block = Block { hash: 777, height: 102, last_final_block: 9999 };
    client.process_ready_orphan_witnesses_and_clean_old(&block);

    assert_eq!(client.processed_witnesses.len(), 1);
    assert_eq!(client.processed_witnesses[0].chunk_header.chunk_hash, 2);
    assert_eq!(client.chunk_validator.orphan_witness_pool.entry_heights(), vec![102]);
}

#[test]
fn running_total_matches_entry_sizes() {
    let mut client = client_with_headers();
    save_witness(&mut client, witness_waiting(102, 1, 701));
    save_witness(&mut client, witness_waiting(103, 2, 702));
    save_witness(&mut client, witness_waiting(104, 3, 703));

    let pool = &client.chunk_validator.orphan_witness_pool;
    let sizes = pool.entry_sizes();
    assert_eq!(sizes, vec![52, 52, 52]);
    assert_eq!(pool.total_byte_size(), sizes.iter().sum::<u64>());
    assert!(pool.total_byte_size() <= pool.capacity());

    let block = Block { hash: 701, height: 102, last_final_block: 150 };
    client.process_ready_orphan_witnesses_and_clean_old(&block);
    let pool = &client.chunk_validator.orphan_witness_pool;
    assert_eq!(pool.total_byte_size(), pool.entry_sizes().iter().sum::<u64>());
    assert!(pool.total_byte_size() <= pool.capacity());
}

#[test]
fn pool_evicts_oldest_when_over_capacity() {
    let mut pool = OrphanStateWitnessPool::new(40_000_000);
    pool.add_orphan_state_witness(witness_waiting(102, 1, 701), 25_000_000);
    pool.add_orphan_state_witness(witness_waiting(103, 2, 702), 10_000_000);
    assert_eq!(pool.total_byte_size(), 35_000_000);

    // 20 MB more does not fit: the oldest entry is evicted to make room
    pool.add_orphan_state_witness(witness_waiting(104, 3, 703), 20_000_000);
    assert_eq!(pool.entry_heights(), vec![103, 104]);
    assert_eq!(pool.total_byte_size(), 30_000_000);
    assert!(pool.total_byte_size() <= pool.capacity());
}

#[test]
fn take_returns_witnesses_in_storage_order() {
    let mut pool = OrphanStateWitnessPool::new(CAPACITY);
    pool.add_orphan_state_witness(witness_waiting(102, 1, 701), 10);
    pool.add_orphan_state_witness(witness_waiting(103, 2, 702), 20);
    pool.add_orphan_state_witness(witness_waiting(104, 3, 701), 30);

    let ready = pool.take_state_witnesses_waiting_for_block(701);
    assert_eq!(ready.len(), 2);
    assert_eq!(ready[0].chunk_header.chunk_hash, 1);
    assert_eq!(ready[1].chunk_header.chunk_hash, 3);
    assert_eq!(pool.entry_heights(), vec![103]);
    assert_eq!(pool.total_byte_size(), 20);

    // no duplicates and no omissions: a second take returns nothing
    let ready_again = pool.take_state_witnesses_waiting_for_block(701);
    assert_eq!(ready_again.len(), 0);
}
