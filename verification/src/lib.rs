//! Admission, pooling and replay of orphaned chunk-state witnesses.
//!
//! A chunk-state witness can only be processed once its chunk's previous
//! block is known locally. A witness that arrives before that block is
//! orphaned: it is filtered (distance from the chain head, serialized size),
//! partially validated against every epoch it could plausibly belong to, and
//! kept in a bounded pool keyed by the block it waits for. When a new block
//! arrives, the witnesses waiting for it are handed to the processing
//! pipeline and entries below the new last-final height are pruned.

pub mod types;
pub mod errors;
pub mod codec;
pub mod pool;
pub mod chain;
pub mod epoch_manager;
pub mod client;

pub use crate::chain::{Block, BlockHeader, Chain, Tip};
pub use crate::client::{ChunkValidator, Client, HandleOrphanWitnessOutcome};
pub use crate::codec::encoded_witness_size;
pub use crate::epoch_manager::{
    AssignmentRecord, EpochManagerView, HeightEpochs, ShardLayoutRecord, SignatureRecord,
};
pub use crate::pool::{OrphanStateWitnessPool, PoolEntry};
pub use crate::errors::{Error, InvalidWitnessReason};
pub use crate::types::{
    ChunkHeader, ChunkStateWitness, EpochId, ALLOWED_ORPHAN_WITNESS_MAX_DISTANCE,
    ALLOWED_ORPHAN_WITNESS_MIN_DISTANCE, MAX_ORPHAN_WITNESS_SIZE,
};
