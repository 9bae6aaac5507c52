use vstd::prelude::*;
use crate::types::EpochId;

verus! {

/// Why a witness is malformed under a given epoch hypothesis.
#[derive(Clone, Copy, PartialEq, Eq, Structural, Debug)]
pub enum InvalidWitnessReason {
    /// The shard id named in the witness is not part of the epoch's shard layout.
    InvalidShardId,
    /// The witness's signature does not verify against the epoch's validator set.
    InvalidSignature,
}

/// Errors surfaced by orphan-witness admission. These are caller-visible and
/// generally indicate a malicious or misbehaving peer, or an internal
/// inconsistency; benign rejections are reported through
/// `HandleOrphanWitnessOutcome` instead.
#[derive(Clone, Copy, PartialEq, Eq, Structural, Debug)]
pub enum Error {
    /// The witness failed a structural or cryptographic check in every
    /// plausible epoch.
    InvalidChunkStateWitness(InvalidWitnessReason),
    /// This node holds no signing identity, so it cannot validate any chunk.
    NotAValidator,
    /// This node's signing identity is not among the validators assigned to
    /// the witness's (epoch, shard, height) triple.
    NotAChunkValidator,
    /// The epoch manager holds no data for this epoch.
    EpochOutOfBounds(EpochId),
    /// No candidate epoch covers the witness height. All epochs around the
    /// chain head are known, so this is an internal-consistency error.
    NoMatchingEpoch,
    /// Serializing the witness to measure its size failed.
    SerializationError,
}

} // verus!
