use vstd::prelude::*;

verus! {

/// Height of a block in the chain.
pub type BlockHeight = u64;

/// Identifier of a shard within an epoch's shard layout.
pub type ShardId = u64;

/// Identifier of a chunk (its hash), modeled as a plain integer.
pub type ChunkHash = u64;

/// Identifier of a block (its hash), modeled as a plain integer.
pub type BlockHash = u64;

/// Identifier of a validator account, modeled as a plain integer.
pub type ValidatorId = u64;

/// Identifier of an epoch. A witness's true epoch cannot always be derived
/// from its height alone near epoch boundaries, so admission reasons over a
/// set of possible epochs.
#[derive(Clone, Copy, PartialEq, Eq, Structural, Debug)]
pub struct EpochId(pub u64);

/// Header of the chunk that a state witness proves: the height and shard the
/// chunk was created for, its hash, and the hash of the block it builds on.
#[derive(Clone, Copy, PartialEq, Eq, Structural, Debug)]
pub struct ChunkHeader {
    pub height_created: BlockHeight,
    pub shard_id: ShardId,
    pub chunk_hash: ChunkHash,
    pub prev_block_hash: BlockHash,
}

/// A chunk-state witness: the proof artifact that lets a validator confirm a
/// shard's state transition. It is orphaned while the block named by
/// `chunk_header.prev_block_hash` is not yet known locally.
#[derive(Clone, Debug)]
pub struct ChunkStateWitness {
    pub chunk_header: ChunkHeader,
    /// The proof payload. Its contents are never interpreted here; only its
    /// serialized size matters to admission.
    pub payload: Vec<u8>,
}

/// Lower bound (inclusive) of the allowed distance of a witness height above
/// the chain head. A witness at distance 1 could not legitimately be an
/// orphan: its previous block would be the head itself.
pub const ALLOWED_ORPHAN_WITNESS_MIN_DISTANCE: u64 = 2;

/// Upper bound (exclusive) of the allowed distance of a witness height above
/// the chain head. Witnesses far ahead of the head are an unbounded spam
/// vector, so they are not kept.
pub const ALLOWED_ORPHAN_WITNESS_MAX_DISTANCE: u64 = 6;

/// Only orphan witnesses smaller than this many serialized bytes are kept.
/// This limits the memory used by the orphan pool.
pub const MAX_ORPHAN_WITNESS_SIZE: u64 = 40_000_000;

/// Saturating distance of a witness height above the chain head: zero when
/// the witness does not lie above the head.
pub open spec fn spec_head_distance(head_height: BlockHeight, witness_height: BlockHeight) -> int {
    if witness_height <= head_height {
        0
    } else {
        witness_height - head_height
    }
}

} // verus!
