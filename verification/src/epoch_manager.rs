use vstd::prelude::*;
use crate::errors::Error;
use crate::types::{BlockHeight, ChunkHash, ChunkStateWitness, EpochId, ShardId, ValidatorId};

verus! {

/// The epoch identifiers that plausibly cover one witness height, given the
/// current head. Near epoch boundaries the exact epoch of a future height is
/// not yet known, so a height can map to several candidates.
pub struct HeightEpochs {
    pub height: BlockHeight,
    pub epoch_ids: Vec<EpochId>,
}

/// The shard layout of one epoch: the shard ids that are valid under it.
pub struct ShardLayoutRecord {
    pub epoch_id: EpochId,
    pub shard_ids: Vec<ShardId>,
}

/// The validators assigned to validate chunks of one (epoch, shard, height)
/// triple.
pub struct AssignmentRecord {
    pub epoch_id: EpochId,
    pub shard_id: ShardId,
    pub height: BlockHeight,
    pub validators: Vec<ValidatorId>,
}

/// One (chunk, epoch) pair whose witness signature verifies against the
/// epoch's recorded validator set.
#[derive(Clone, Copy, PartialEq, Eq, Structural, Debug)]
pub struct SignatureRecord {
    pub chunk_hash: ChunkHash,
    pub epoch_id: EpochId,
}

/// First record of candidate epochs for the given height; an absent height
/// has no candidates.
pub open spec fn spec_possible_epochs_of_height(t: Seq<HeightEpochs>, height: BlockHeight) -> Seq<
    EpochId,
>
    decreases t.len(),
{
    if t.len() == 0 {
        Seq::empty()
    } else if t[0].height == height {
        t[0].epoch_ids@
    } else {
        spec_possible_epochs_of_height(t.drop_first(), height)
    }
}

/// First recorded shard layout of the given epoch, if any.
pub open spec fn spec_shard_layout(t: Seq<ShardLayoutRecord>, epoch_id: EpochId) -> Option<
    Seq<ShardId>,
>
    decreases t.len(),
{
    if t.len() == 0 {
        None
    } else if t[0].epoch_id == epoch_id {
        Some(t[0].shard_ids@)
    } else {
        spec_shard_layout(t.drop_first(), epoch_id)
    }
}

/// First recorded validator assignment of the given triple, if any.
pub open spec fn spec_validator_assignments(
    t: Seq<AssignmentRecord>,
    epoch_id: EpochId,
    shard_id: ShardId,
    height: BlockHeight,
) -> Option<Seq<ValidatorId>>
    decreases t.len(),
{
    if t.len() == 0 {
        None
    } else if t[0].epoch_id == epoch_id && t[0].shard_id == shard_id && t[0].height == height {
        Some(t[0].validators@)
    } else {
        spec_validator_assignments(t.drop_first(), epoch_id, shard_id, height)
    }
}

/// Whether the witness signature of the given chunk verifies under the given
/// epoch hypothesis.
pub open spec fn spec_signature_valid(
    t: Seq<SignatureRecord>,
    chunk_hash: ChunkHash,
    epoch_id: EpochId,
) -> bool {
    exists|i: int|
        0 <= i < t.len() && (#[trigger] t[i]).chunk_hash == chunk_hash && t[i].epoch_id.0
            == epoch_id.0
}

/// Read-only snapshot of what the epoch manager knows at the current head:
/// candidate epochs per height, shard layouts, chunk-validator assignments,
/// and which witness signatures verify. The answers are data here because
/// computing them (epoch inference, signature checks) belongs to the epoch
/// manager, not to this subsystem.
pub struct EpochManagerView {
    pub possible_epochs: Vec<HeightEpochs>,
    pub shard_layouts: Vec<ShardLayoutRecord>,
    pub assignments: Vec<AssignmentRecord>,
    pub valid_signatures: Vec<SignatureRecord>,
}

/// Whether a u64 slice contains the given value.
pub(crate) fn vec_contains_u64(values: &Vec<u64>, x: u64) -> (b: bool)
    ensures
        b == values@.contains(x),
{
    let mut i: usize = 0;
    while i < values.len()
        invariant
            0 <= i <= values@.len(),
            forall|j: int| 0 <= j < i ==> values@[j] != x,
        decreases values@.len() - i,
    {
        if values[i] == x {
            return true;
        }
        i = i + 1;
    }
    false
}

impl EpochManagerView {
    /// The set of epoch identifiers plausibly covering `height` around the
    /// current head. The snapshot was taken at that head; in every reachable
    /// state the heights near the head have at least one candidate, so an
    /// empty answer is an internal-consistency error that the caller reports.
    pub fn possible_epochs_of_height_around_tip(&self, height: BlockHeight) -> (epochs: Vec<
        EpochId,
    >)
        ensures
            epochs@ == spec_possible_epochs_of_height(self.possible_epochs@, height),
    {
        let mut i: usize = 0;
        proof {
            assert(self.possible_epochs@.skip(0) =~= self.possible_epochs@);
        }
        while i < self.possible_epochs.len()
            invariant
                0 <= i <= self.possible_epochs@.len(),
                spec_possible_epochs_of_height(self.possible_epochs@, height)
                    == spec_possible_epochs_of_height(self.possible_epochs@.skip(i as int), height),
            decreases self.possible_epochs@.len() - i,
        {
            proof {
                assert(self.possible_epochs@.skip(i as int)[0] == self.possible_epochs@[i as int]);
                assert(self.possible_epochs@.skip(i as int).drop_first() =~= self.possible_epochs@
                    .skip(i + 1));
            }
            if self.possible_epochs[i].height == height {
                let record = &self.possible_epochs[i];
                let mut epochs: Vec<EpochId> = Vec::new();
                let mut j: usize = 0;
                while j < record.epoch_ids.len()
                    invariant
                        0 <= j <= record.epoch_ids@.len(),
                        epochs@ == record.epoch_ids@.take(j as int),
                    decreases record.epoch_ids@.len() - j,
                {
                    epochs.push(record.epoch_ids[j]);
                    proof {
                        assert(record.epoch_ids@.take(j + 1 as int) =~= record.epoch_ids@.take(
                            j as int,
                        ).push(record.epoch_ids@[j as int]));
                    }
                    j = j + 1;
                }
                proof {
                    assert(record.epoch_ids@.take(record.epoch_ids@.len() as int)
                        =~= record.epoch_ids@);
                }
                return epochs;
            }
            i = i + 1;
        }
        Vec::new()
    }

    /// The shard ids valid under the given epoch's shard layout, or an
    /// `EpochOutOfBounds` error when the epoch manager holds no layout for it.
    pub fn get_shard_layout(&self, epoch_id: &EpochId) -> (r: Result<&Vec<ShardId>, Error>)
        ensures
            match r {
                Ok(shard_ids) => spec_shard_layout(self.shard_layouts@, *epoch_id) == Some(
                    shard_ids@,
                ),
                Err(e) => spec_shard_layout(self.shard_layouts@, *epoch_id) is None && e
                    == Error::EpochOutOfBounds(*epoch_id),
            },
    {
        let mut i: usize = 0;
        proof {
            assert(self.shard_layouts@.skip(0) =~= self.shard_layouts@);
        }
        while i < self.shard_layouts.len()
            invariant
                0 <= i <= self.shard_layouts@.len(),
                spec_shard_layout(self.shard_layouts@, *epoch_id) == spec_shard_layout(
                    self.shard_layouts@.skip(i as int),
                    *epoch_id,
                ),
            decreases self.shard_layouts@.len() - i,
        {
            proof {
                assert(self.shard_layouts@.skip(i as int)[0] == self.shard_layouts@[i as int]);
                assert(self.shard_layouts@.skip(i as int).drop_first() =~= self.shard_layouts@.skip(
                    i + 1,
                ));
            }
            if self.shard_layouts[i].epoch_id.0 == epoch_id.0 {
                return Ok(&self.shard_layouts[i].shard_ids);
            }
            i = i + 1;
        }
        Err(Error::EpochOutOfBounds(*epoch_id))
    }

    /// The validators assigned to the given (epoch, shard, height) triple, or
    /// an `EpochOutOfBounds` error when the epoch manager holds no assignment
    /// for it.
    pub fn get_chunk_validator_assignments(
        &self,
        epoch_id: &EpochId,
        shard_id: ShardId,
        height: BlockHeight,
    ) -> (r: Result<&Vec<ValidatorId>, Error>)
        ensures
            match r {
                Ok(validators) => spec_validator_assignments(
                    self.assignments@,
                    *epoch_id,
                    shard_id,
                    height,
                ) == Some(validators@),
                Err(e) => spec_validator_assignments(
                    self.assignments@,
                    *epoch_id,
                    shard_id,
                    height,
                ) is None && e == Error::EpochOutOfBounds(*epoch_id),
            },
    {
        let mut i: usize = 0;
        proof {
            assert(self.assignments@.skip(0) =~= self.assignments@);
        }
        while i < self.assignments.len()
            invariant
                0 <= i <= self.assignments@.len(),
                spec_validator_assignments(self.assignments@, *epoch_id, shard_id, height)
                    == spec_validator_assignments(
                    self.assignments@.skip(i as int),
                    *epoch_id,
                    shard_id,
                    height,
                ),
            decreases self.assignments@.len() - i,
        {
            proof {
                assert(self.assignments@.skip(i as int)[0] == self.assignments@[i as int]);
                assert(self.assignments@.skip(i as int).drop_first() =~= self.assignments@.skip(
                    i + 1,
                ));
            }
            let record = &self.assignments[i];
            if record.epoch_id.0 == epoch_id.0 && record.shard_id == shard_id && record.height
                == height {
                return Ok(&self.assignments[i].validators);
            }
            i = i + 1;
        }
        Err(Error::EpochOutOfBounds(*epoch_id))
    }

    /// Whether the witness's signature verifies under the given epoch
    /// hypothesis, against the validator set recorded for that epoch.
    pub fn verify_chunk_state_witness_signature_in_epoch(
        &self,
        witness: &ChunkStateWitness,
        epoch_id: &EpochId,
    ) -> (b: bool)
        ensures
            b == spec_signature_valid(
                self.valid_signatures@,
                witness.chunk_header.chunk_hash,
                *epoch_id,
            ),
    {
        let chunk_hash = witness.chunk_header.chunk_hash;
        let mut i: usize = 0;
        while i < self.valid_signatures.len()
            invariant
                0 <= i <= self.valid_signatures@.len(),
                chunk_hash == witness.chunk_header.chunk_hash,
                forall|j: int|
                    0 <= j < i ==> !((#[trigger] self.valid_signatures@[j]).chunk_hash
                        == witness.chunk_header.chunk_hash && self.valid_signatures@[j].epoch_id.0
                        == epoch_id.0),
            decreases self.valid_signatures@.len() - i,
        {
            let record = &self.valid_signatures[i];
            if record.chunk_hash == chunk_hash && record.epoch_id.0 == epoch_id.0 {
                proof {
                    assert((self.valid_signatures@[i as int]).chunk_hash
                        == witness.chunk_header.chunk_hash);
                }
                return true;
            }
            i = i + 1;
        }
        false
    }
}

} // verus!
