use orphan_witness::chain::{Chain, Tip};
use orphan_witness::client::{Client, ChunkValidator, HandleOrphanWitnessOutcome};
use orphan_witness::epoch_manager::{
    AssignmentRecord, EpochManagerView, HeightEpochs, ShardLayoutRecord, SignatureRecord,
};
use orphan_witness::errors::{Error, InvalidWitnessReason};
use orphan_witness::pool::OrphanStateWitnessPool;
use orphan_witness::types::{ChunkHeader, ChunkStateWitness, EpochId};

const CAPACITY: u64 = 40_000_000;
const MY_SIGNER: u64 = 7;
const SHARD: u64 = 5;
const CHUNK_HASH: u64 = 77;
const PREV_BLOCK: u64 = 200;
const EPOCH: u64 = 1;

fn witness_at(height: u64, payload_len: usize) -> ChunkStateWitness {
    ChunkStateWitness {
        chunk_header: ChunkHeader {
            height_created: height,
            shard_id: SHARD,
            chunk_hash: CHUNK_HASH,
            prev_block_hash: PREV_BLOCK,
        },
        payload: vec![0u8; payload_len],
    }
}

/// A client at head height 100 where the witness of `witness_at` is valid in
/// epoch 1 for every height in the allowed window.
fn valid_client() -> Client {
    let heights: Vec<u64> = vec![102, 103, 104, 105];
    Client {
        chain: Chain { head: Tip { height: 100 }, headers: vec![] },
        epoch_manager: EpochManagerView {
            possible_epochs: heights
                .iter()
                .map(|h| HeightEpochs { height: *h, epoch_ids: vec![EpochId(EPOCH)] })
                .collect(),
            shard_layouts: vec![ShardLayoutRecord {
                epoch_id: EpochId(EPOCH),
                shard_ids: vec![SHARD, SHARD + 1],
            }],
            assignments: heights
                .iter()
                .map(|h| AssignmentRecord {
                    epoch_id: EpochId(EPOCH),
                    shard_id: SHARD,
                    height: *h,
                    validators: vec![MY_SIGNER, 8],
                })
                .collect(),
            valid_signatures: vec![SignatureRecord {
                chunk_hash: CHUNK_HASH,
                epoch_id: EpochId(EPOCH),
            }],
        },
        chunk_validator: ChunkValidator {
            my_signer: Some(MY_SIGNER),
            orphan_witness_pool: OrphanStateWitnessPool::new(CAPACITY),
        },
        processed_witnesses: vec![],
    }
}

#[test]
fn distance_one_is_too_far() {
    let mut client = valid_client();
    let outcome = client.handle_orphan_state_witness(witness_at(101, 16));
    assert_eq!(
        outcome,
        Ok(HandleOrphanWitnessOutcome::TooFarFromHead { head_height: 100, witness_height: 101 })
    );
    assert_eq!(client.chunk_validator.orphan_witness_pool.len(), 0);
}

#[test]
fn distance_six_is_too_far() {
    let mut client = valid_client();
    let outcome = client.handle_orphan_state_witness(witness_at(106, 16));
    assert_eq!(
        outcome,
        Ok(HandleOrphanWitnessOutcome::TooFarFromHead { head_height: 100, witness_height: 106 })
    );
    assert_eq!(client.chunk_validator.orphan_witness_pool.len(), 0);
}

#[test]
fn witness_below_head_is_too_far() {
    let mut client = valid_client();
    let outcome = client.handle_orphan_state_witness(witness_at(90, 16));
    assert_eq!(
        outcome,
        Ok(HandleOrphanWitnessOutcome::TooFarFromHead { head_height: 100, witness_height: 90 })
    );
    assert_eq!(client.chunk_validator.orphan_witness_pool.len(), 0);
}

#[test]
fn distance_three_is_admitted() {
    let mut client = valid_client();
    let outcome = client.handle_orphan_state_witness(witness_at(103, 100));
    assert_eq!(outcome, Ok(HandleOrphanWitnessOutcome::SavedToPool));
    assert_eq!(client.chunk_validator.orphan_witness_pool.len(), 1);
    // 4 u64 header fields plus a length-prefixed 100-byte payload
    assert_eq!(client.chunk_validator.orphan_witness_pool.total_byte_size(), 136);
}

#[test]
fn distance_two_and_five_are_admitted() {
    let mut client = valid_client();
    assert_eq!(
        client.handle_orphan_state_witness(witness_at(102, 16)),
        Ok(HandleOrphanWitnessOutcome::SavedToPool)
    );
    assert_eq!(
        client.handle_orphan_state_witness(witness_at(105, 16)),
        Ok(HandleOrphanWitnessOutcome::SavedToPool)
    );
    assert_eq!(client.chunk_validator.orphan_witness_pool.len(), 2);
}

#[test]
fn oversized_witness_is_too_big() {
    let mut client = valid_client();
    // 36 bytes of header encoding + payload: one byte over the 40 MB limit
    let outcome = client.handle_orphan_state_witness(witness_at(103, 39_999_965));
    assert_eq!(outcome, Ok(HandleOrphanWitnessOutcome::TooBig(40_000_001)));
    assert_eq!(client.chunk_validator.orphan_witness_pool.len(), 0);
}

#[test]
fn witness_at_size_limit_is_admitted() {
    let mut client = valid_client();
    // exactly 40 MB serialized: not over the limit
    let outcome = client.handle_orphan_state_witness(witness_at(103, 39_999_964));
    assert_eq!(outcome, Ok(HandleOrphanWitnessOutcome::SavedToPool));
    assert_eq!(client.chunk_validator.orphan_witness_pool.total_byte_size(), 40_000_000);
}

#[test]
fn oversized_witness_rejected_even_if_otherwise_invalid() {
    let mut client = valid_client();
    // no signature record for this chunk, but the size check comes first
    let mut witness = witness_at(103, 39_999_965);
    witness.chunk_header.chunk_hash = CHUNK_HASH + 1;
    let outcome = client.handle_orphan_state_witness(witness);
    assert_eq!(outcome, Ok(HandleOrphanWitnessOutcome::TooBig(40_000_001)));
    assert_eq!(client.chunk_validator.orphan_witness_pool.len(), 0);
}

#[test]
fn valid_in_second_epoch_only_is_admitted() {
    let mut client = valid_client();
    client.epoch_manager.possible_epochs = vec![HeightEpochs {
        height: 103,
        epoch_ids: vec![EpochId(EPOCH), EpochId(EPOCH + 1)],
    }];
    client.epoch_manager.shard_layouts.push(ShardLayoutRecord {
        epoch_id: EpochId(EPOCH + 1),
        shard_ids: vec![SHARD],
    });
    client.epoch_manager.assignments.push(AssignmentRecord {
        epoch_id: EpochId(EPOCH + 1),
        shard_id: SHARD,
        height: 103,
        validators: vec![MY_SIGNER],
    });
    // the signature only verifies under the second epoch hypothesis
    client.epoch_manager.valid_signatures = vec![SignatureRecord {
        chunk_hash: CHUNK_HASH,
        epoch_id: EpochId(EPOCH + 1),
    }];
    let outcome = client.handle_orphan_state_witness(witness_at(103, 16));
    assert_eq!(outcome, Ok(HandleOrphanWitnessOutcome::SavedToPool));
    assert_eq!(client.chunk_validator.orphan_witness_pool.len(), 1);
}

#[test]
fn invalid_in_all_epochs_surfaces_last_error() {
    let mut client = valid_client();
    client.epoch_manager.possible_epochs = vec![HeightEpochs {
        height: 103,
        epoch_ids: vec![EpochId(EPOCH), EpochId(EPOCH + 1)],
    }];
    // first epoch: the witness's shard is not in the layout
    client.epoch_manager.shard_layouts = vec![
        ShardLayoutRecord { epoch_id: EpochId(EPOCH), shard_ids: vec![SHARD + 1] },
        ShardLayoutRecord { epoch_id: EpochId(EPOCH + 1), shard_ids: vec![SHARD] },
    ];
    // second epoch: this node is not among the assigned validators
    client.epoch_manager.assignments = vec![AssignmentRecord {
        epoch_id: EpochId(EPOCH + 1),
        shard_id: SHARD,
        height: 103,
        validators: vec![8],
    }];
    let outcome = client.handle_orphan_state_witness(witness_at(103, 16));
    assert_eq!(outcome, Err(Error::NotAChunkValidator));
    assert_eq!(client.chunk_validator.orphan_witness_pool.len(), 0);
}

#[test]
fn no_candidate_epoch_is_an_error() {
    let mut client = valid_client();
    client.epoch_manager.possible_epochs = vec![];
    let outcome = client.handle_orphan_state_witness(witness_at(103, 16));
    assert_eq!(outcome, Err(Error::NoMatchingEpoch));
    assert_eq!(client.chunk_validator.orphan_witness_pool.len(), 0);
}

#[test]
fn node_without_signer_is_not_a_validator() {
    let mut client = valid_client();
    client.chunk_validator.my_signer = None;
    let outcome = client.handle_orphan_state_witness(witness_at(103, 16));
    assert_eq!(outcome, Err(Error::NotAValidator));
}

#[test]
fn unknown_epoch_is_out_of_bounds() {
    let mut client = valid_client();
    client.epoch_manager.shard_layouts = vec![];
    let outcome = client.handle_orphan_state_witness(witness_at(103, 16));
    assert_eq!(outcome, Err(Error::EpochOutOfBounds(EpochId(EPOCH))));
}

#[test]
fn wrong_shard_is_an_invalid_witness() {
    let mut client = valid_client();
    let mut witness = witness_at(103, 16);
    witness.chunk_header.shard_id = SHARD + 2;
    let outcome = client.handle_orphan_state_witness(witness);
    assert_eq!(
        outcome,
        Err(Error::InvalidChunkStateWitness(InvalidWitnessReason::InvalidShardId))
    );
}

#[test]
fn unassigned_validator_is_rejected() {
    let mut client = valid_client();
    client.chunk_validator.my_signer = Some(9);
    let outcome = client.handle_orphan_state_witness(witness_at(103, 16));
    assert_eq!(outcome, Err(Error::NotAChunkValidator));
}

#[test]
fn bad_signature_is_an_invalid_witness() {
    let mut client = valid_client();
    client.epoch_manager.valid_signatures = vec![];
    let outcome = client.handle_orphan_state_witness(witness_at(103, 16));
    assert_eq!(
        outcome,
        Err(Error::InvalidChunkStateWitness(InvalidWitnessReason::InvalidSignature))
    );
}
