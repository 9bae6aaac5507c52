use vstd::prelude::*;
use crate::chain::{spec_block_header, Block, Chain};
use crate::codec::{encoded_witness_size, serialized_witness_size};
use crate::epoch_manager::{
    spec_possible_epochs_of_height, spec_shard_layout, spec_signature_valid,
    spec_validator_assignments, vec_contains_u64, EpochManagerView,
};
use crate::errors::{Error, InvalidWitnessReason};
use crate::pool::{
    entries_after_add, entries_not_waiting_for, pool_after_new_block, witnesses_waiting_for,
    OrphanStateWitnessPool, PoolEntry,
};
use crate::types::{
    spec_head_distance, BlockHeight, ChunkStateWitness, EpochId, ValidatorId,
    ALLOWED_ORPHAN_WITNESS_MAX_DISTANCE, ALLOWED_ORPHAN_WITNESS_MIN_DISTANCE,
    MAX_ORPHAN_WITNESS_SIZE,
};

verus! {

/// The local chunk-validation state: this node's signing identity, if it has
/// one, and the pool of orphaned witnesses.
pub struct ChunkValidator {
    pub my_signer: Option<ValidatorId>,
    pub orphan_witness_pool: OrphanStateWitnessPool,
}

/// The actor that admits orphaned witnesses and replays them when their
/// previous block arrives. The chain and epoch-manager fields are read-only
/// snapshots of the external collaborators, consulted but never changed here.
pub struct Client {
    pub chain: Chain,
    pub epoch_manager: EpochManagerView,
    pub chunk_validator: ChunkValidator,
    /// Witnesses handed to the witness-processing pipeline, in dispatch
    /// order. The pipeline itself is an external collaborator; this record is
    /// its boundary.
    pub processed_witnesses: Vec<ChunkStateWitness>,
}

/// Outcome of handling an orphaned witness. A clearly invalid witness is
/// rejected with an error instead; these outcomes are benign — the witness
/// was either saved or quietly dropped for the stated reason.
#[derive(Debug, Clone, Copy, PartialEq, Eq, Structural)]
pub enum HandleOrphanWitnessOutcome {
    SavedToPool,
    TooBig(usize),
    TooFarFromHead { head_height: BlockHeight, witness_height: BlockHeight },
}

/// What partial validation decides for a witness under one epoch hypothesis:
/// the witness's shard must exist in the epoch's shard layout, this node must
/// hold a signing identity that is assigned to the witness's (epoch, shard,
/// height) triple, and the witness's signature must verify under the epoch.
/// Checks happen in that order and the first failure is the error.
pub open spec fn spec_validate_in_epoch(
    c: Client,
    w: ChunkStateWitness,
    epoch_id: EpochId,
) -> Result<(), Error> {
    let shard = w.chunk_header.shard_id;
    match spec_shard_layout(c.epoch_manager.shard_layouts@, epoch_id) {
        Option::None => Result::Err(Error::EpochOutOfBounds(epoch_id)),
        Option::Some(shard_ids) => if !shard_ids.contains(shard) {
            Result::Err(Error::InvalidChunkStateWitness(InvalidWitnessReason::InvalidShardId))
        } else {
            match c.chunk_validator.my_signer {
                Option::None => Result::Err(Error::NotAValidator),
                Option::Some(me) => match spec_validator_assignments(
                    c.epoch_manager.assignments@,
                    epoch_id,
                    shard,
                    w.chunk_header.height_created,
                ) {
                    Option::None => Result::Err(Error::EpochOutOfBounds(epoch_id)),
                    Option::Some(validators) => if !validators.contains(me) {
                        Result::Err(Error::NotAChunkValidator)
                    } else if !spec_signature_valid(
                        c.epoch_manager.valid_signatures@,
                        w.chunk_header.chunk_hash,
                        epoch_id,
                    ) {
                        Result::Err(
                            Error::InvalidChunkStateWitness(InvalidWitnessReason::InvalidSignature),
                        )
                    } else {
                        Result::Ok(())
                    },
                },
            }
        },
    }
}

/// The candidate epochs admission will try for a witness, in the epoch
/// manager's order.
pub open spec fn spec_candidate_epochs(c: Client, w: ChunkStateWitness) -> Seq<EpochId> {
    spec_possible_epochs_of_height(c.epoch_manager.possible_epochs@, w.chunk_header.height_created)
}

/// Whether at least one candidate epoch validates the witness.
pub open spec fn spec_some_epoch_validates(c: Client, w: ChunkStateWitness) -> bool {
    exists|i: int|
        0 <= i < spec_candidate_epochs(c, w).len() && spec_validate_in_epoch(
            c,
            w,
            #[trigger] spec_candidate_epochs(c, w)[i],
        ) is Ok
}

/// The exact result of handling an orphan witness: the distance filter, then
/// the size filter, then validation against every candidate epoch — admitted
/// when some candidate validates, otherwise the *last* candidate's error is
/// surfaced, later hypotheses being the more specific ones.
pub open spec fn spec_admission_result(c: Client, w: ChunkStateWitness) -> Result<
    HandleOrphanWitnessOutcome,
    Error,
> {
    let head_height = c.chain.head.height;
    let witness_height = w.chunk_header.height_created;
    let distance = spec_head_distance(head_height, witness_height);
    if !(ALLOWED_ORPHAN_WITNESS_MIN_DISTANCE <= distance && distance
        < ALLOWED_ORPHAN_WITNESS_MAX_DISTANCE) {
        Result::Ok(HandleOrphanWitnessOutcome::TooFarFromHead { head_height, witness_height })
    } else if w.payload@.len() > u32::MAX {
        Result::Err(Error::SerializationError)
    } else if encoded_witness_size(w) > MAX_ORPHAN_WITNESS_SIZE {
        Result::Ok(HandleOrphanWitnessOutcome::TooBig(encoded_witness_size(w) as usize))
    } else {
        let epochs = spec_candidate_epochs(c, w);
        if epochs.len() == 0 {
            Result::Err(Error::NoMatchingEpoch)
        } else if spec_some_epoch_validates(c, w) {
            Result::Ok(HandleOrphanWitnessOutcome::SavedToPool)
        } else {
            match spec_validate_in_epoch(c, w, epochs.last()) {
                Result::Ok(accepted) => Result::Ok(HandleOrphanWitnessOutcome::SavedToPool),
                Result::Err(e) => Result::Err(e),
            }
        }
    }
}

/// Whether admission saves the witness to the pool.
pub open spec fn spec_admitted(c: Client, w: ChunkStateWitness) -> bool {
    spec_admission_result(c, w) == Result::<HandleOrphanWitnessOutcome, Error>::Ok(
        HandleOrphanWitnessOutcome::SavedToPool,
    )
}

/// Pool contents after admission: unchanged unless the witness was saved, in
/// which case it is appended with its measured size, after any eviction.
pub open spec fn spec_pool_after_admission(c: Client, w: ChunkStateWitness) -> Seq<PoolEntry> {
    if spec_admitted(c, w) {
        entries_after_add(
            c.chunk_validator.orphan_witness_pool.entries_view(),
            PoolEntry { witness: w, size: encoded_witness_size(w) as u64 },
            c.chunk_validator.orphan_witness_pool.spec_capacity(),
        )
    } else {
        c.chunk_validator.orphan_witness_pool.entries_view()
    }
}

/// Distance filter: a witness whose height lies outside the allowed distance
/// window from the chain head is reported as too far from head, and the pool
/// is unchanged.
pub proof fn lemma_distance_filter(c: Client, w: ChunkStateWitness)
    requires
        !(ALLOWED_ORPHAN_WITNESS_MIN_DISTANCE <= spec_head_distance(
            c.chain.head.height,
            w.chunk_header.height_created,
        ) && spec_head_distance(c.chain.head.height, w.chunk_header.height_created)
            < ALLOWED_ORPHAN_WITNESS_MAX_DISTANCE),
    ensures
        spec_admission_result(c, w) == Result::<HandleOrphanWitnessOutcome, Error>::Ok(
            HandleOrphanWitnessOutcome::TooFarFromHead {
                head_height: c.chain.head.height,
                witness_height: w.chunk_header.height_created,
            },
        ),
        spec_pool_after_admission(c, w) == c.chunk_validator.orphan_witness_pool.entries_view(),
{
}

/// Size filter: a witness within the distance window that serializes to more
/// than the size limit is reported as too big, with its exact size, and the
/// pool is unchanged — whatever its validity otherwise. (A payload too long
/// to serialize at all is a serialization error instead.)
pub proof fn lemma_size_filter(c: Client, w: ChunkStateWitness)
    requires
        ALLOWED_ORPHAN_WITNESS_MIN_DISTANCE <= spec_head_distance(
            c.chain.head.height,
            w.chunk_header.height_created,
        ),
        spec_head_distance(c.chain.head.height, w.chunk_header.height_created)
            < ALLOWED_ORPHAN_WITNESS_MAX_DISTANCE,
        w.payload@.len() <= u32::MAX,
        encoded_witness_size(w) > MAX_ORPHAN_WITNESS_SIZE,
    ensures
        spec_admission_result(c, w) == Result::<HandleOrphanWitnessOutcome, Error>::Ok(
            HandleOrphanWitnessOutcome::TooBig(encoded_witness_size(w) as usize),
        ),
        spec_pool_after_admission(c, w) == c.chunk_validator.orphan_witness_pool.entries_view(),
{
}

/// Uncertain-epoch admission, success side: when both filters pass and some
/// candidate epoch validates the witness, it is admitted and appended to the
/// pool with its measured size, after any eviction.
pub proof fn lemma_valid_witness_admitted(c: Client, w: ChunkStateWitness)
    requires
        ALLOWED_ORPHAN_WITNESS_MIN_DISTANCE <= spec_head_distance(
            c.chain.head.height,
            w.chunk_header.height_created,
        ),
        spec_head_distance(c.chain.head.height, w.chunk_header.height_created)
            < ALLOWED_ORPHAN_WITNESS_MAX_DISTANCE,
        w.payload@.len() <= u32::MAX,
        encoded_witness_size(w) <= MAX_ORPHAN_WITNESS_SIZE,
        spec_some_epoch_validates(c, w),
    ensures
        spec_admission_result(c, w) == Result::<HandleOrphanWitnessOutcome, Error>::Ok(
            HandleOrphanWitnessOutcome::SavedToPool,
        ),
        spec_pool_after_admission(c, w) == entries_after_add(
            c.chunk_validator.orphan_witness_pool.entries_view(),
            PoolEntry { witness: w, size: encoded_witness_size(w) as u64 },
            c.chunk_validator.orphan_witness_pool.spec_capacity(),
        ),
{
}

/// Uncertain-epoch admission, failure side: when both filters pass and every
/// candidate epoch rejects the witness, the *last* candidate's error is the
/// one surfaced, and the pool is unchanged.
pub proof fn lemma_invalid_witness_surfaces_last_error(c: Client, w: ChunkStateWitness)
    requires
        ALLOWED_ORPHAN_WITNESS_MIN_DISTANCE <= spec_head_distance(
            c.chain.head.height,
            w.chunk_header.height_created,
        ),
        spec_head_distance(c.chain.head.height, w.chunk_header.height_created)
            < ALLOWED_ORPHAN_WITNESS_MAX_DISTANCE,
        w.payload@.len() <= u32::MAX,
        encoded_witness_size(w) <= MAX_ORPHAN_WITNESS_SIZE,
        spec_candidate_epochs(c, w).len() > 0,
        forall|i: int|
            0 <= i < spec_candidate_epochs(c, w).len() ==> (#[trigger] spec_validate_in_epoch(
                c,
                w,
                spec_candidate_epochs(c, w)[i],
            )) is Err,
    ensures
        spec_admission_result(c, w) == Result::<HandleOrphanWitnessOutcome, Error>::Err(
            spec_validate_in_epoch(c, w, spec_candidate_epochs(c, w).last())->Err_0,
        ),
        spec_pool_after_admission(c, w) == c.chunk_validator.orphan_witness_pool.entries_view(),
{
    let epochs = spec_candidate_epochs(c, w);
    assert(spec_validate_in_epoch(c, w, epochs[epochs.len() - 1]) is Err);
    assert(!spec_some_epoch_validates(c, w));
}

impl Client {
    /// Handle a freshly received orphan witness: filter by distance from the
    /// chain head and by serialized size, validate against every epoch the
    /// witness could belong to, and on success save it to the orphan pool.
    pub fn handle_orphan_state_witness(&mut self, witness: ChunkStateWitness) -> (r: Result<
        HandleOrphanWitnessOutcome,
        Error,
    >)
        requires
            old(self).chunk_validator.orphan_witness_pool.wf(),
            encoded_witness_size(witness) <= usize::MAX,
        ensures
            final(self).chunk_validator.orphan_witness_pool.wf(),
            r == spec_admission_result(*old(self), witness),
            final(self).chunk_validator.orphan_witness_pool.entries_view()
                == spec_pool_after_admission(*old(self), witness),
            final(self).chunk_validator.orphan_witness_pool.spec_capacity() == old(
                self,
            ).chunk_validator.orphan_witness_pool.spec_capacity(),
            final(self).chain == old(self).chain,
            final(self).epoch_manager == old(self).epoch_manager,
            final(self).chunk_validator.my_signer == old(self).chunk_validator.my_signer,
            final(self).processed_witnesses == old(self).processed_witnesses,
    {
        let witness_height = witness.chunk_header.height_created;

        // Don't save orphaned state witnesses which are far away from the current chain head.
        let head_height = self.chain.head.height;
        let head_distance: u64 = if witness_height <= head_height {
            0
        } else {
            witness_height - head_height
        };
        if head_distance < ALLOWED_ORPHAN_WITNESS_MIN_DISTANCE || head_distance
            >= ALLOWED_ORPHAN_WITNESS_MAX_DISTANCE {
            return Ok(HandleOrphanWitnessOutcome::TooFarFromHead { witness_height, head_height });
        }

        // Don't save orphaned state witnesses which are bigger than the allowed limit.
        let witness_size = match serialized_witness_size(&witness) {
            Ok(size) => size,
            Err(e) => {
                return Err(e);
            },
        };
        if witness_size as u64 > MAX_ORPHAN_WITNESS_SIZE {
            return Ok(HandleOrphanWitnessOutcome::TooBig(witness_size));
        }

        // The exact epoch of the witness is only known retroactively around
        // epoch boundaries; collect every epoch it might possibly be in.
        let possible_epochs = self.epoch_manager.possible_epochs_of_height_around_tip(
            witness_height,
        );
        let ghost epochs = spec_candidate_epochs(*old(self), witness);

        // Validate the witness assuming it resides in one of the possible
        // epochs; it must pass in one of them before it is admitted.
        let mut validated = false;
        let mut last_failure: Option<Error> = None;
        let mut i: usize = 0;
        while i < possible_epochs.len() && !validated
            invariant
                0 <= i <= epochs.len(),
                possible_epochs@ == epochs,
                epochs == spec_candidate_epochs(*old(self), witness),
                *self == *old(self),
                validated ==> spec_some_epoch_validates(*old(self), witness),
                !validated ==> forall|j: int|
                    0 <= j < i ==> (#[trigger] spec_validate_in_epoch(
                        *old(self),
                        witness,
                        epochs[j],
                    )) is Err,
                !validated && i > 0 ==> last_failure is Some && spec_validate_in_epoch(
                    *old(self),
                    witness,
                    epochs[i - 1],
                ) == Result::<(), Error>::Err(last_failure->Some_0),
                !validated && i == 0 ==> last_failure is None,
                validated ==> i > 0,
            decreases epochs.len() - i,
        {
            let epoch_id = possible_epochs[i];
            match self.partially_validate_orphan_witness_in_epoch(&witness, &epoch_id) {
                Ok(accepted) => {
                    validated = true;
                    proof {
                        assert(spec_validate_in_epoch(
                            *old(self),
                            witness,
                            spec_candidate_epochs(*old(self), witness)[i as int],
                        ) is Ok);
                    }
                },
                Err(e) => {
                    last_failure = Some(e);
                },
            }
            i = i + 1;
        }

        if !validated {
            match last_failure {
                Some(e) => {
                    // Validation failed in all possible epochs; surface the
                    // last candidate's failure, the most informative one.
                    proof {
                        assert(!spec_some_epoch_validates(*old(self), witness)) by {
                            if spec_some_epoch_validates(*old(self), witness) {
                                let j = choose|j: int|
                                    0 <= j < spec_candidate_epochs(*old(self), witness).len()
                                        && spec_validate_in_epoch(
                                        *old(self),
                                        witness,
                                        #[trigger] spec_candidate_epochs(*old(self), witness)[j],
                                    ) is Ok;
                                assert(spec_validate_in_epoch(*old(self), witness, epochs[j]) is Err);
                            }
                        }
                        assert(i == epochs.len());
                        assert(epochs.last() == epochs[i - 1]);
                    }
                    return Err(e);
                },
                None => {
                    // No candidate epoch at all: every epoch around the head
                    // is known, so this is an internal-consistency error.
                    return Err(Error::NoMatchingEpoch);
                },
            }
        }

        // Orphan witness is OK, save it to the pool.
        self.chunk_validator.orphan_witness_pool.add_orphan_state_witness(witness, witness_size);
        Ok(HandleOrphanWitnessOutcome::SavedToPool)
    }

    /// Check that the witness could be valid under one epoch hypothesis: its
    /// shard exists in that epoch, this node is an assigned chunk validator
    /// for it, and its signature verifies.
    fn partially_validate_orphan_witness_in_epoch(
        &self,
        witness: &ChunkStateWitness,
        epoch_id: &EpochId,
    ) -> (r: Result<(), Error>)
        ensures
            r == spec_validate_in_epoch(*self, *witness, *epoch_id),
    {
        let witness_height = witness.chunk_header.height_created;
        let witness_shard = witness.chunk_header.shard_id;

        // Validate shard_id.
        let shard_ids = match self.epoch_manager.get_shard_layout(epoch_id) {
            Ok(shard_ids) => shard_ids,
            Err(e) => {
                return Err(e);
            },
        };
        if !vec_contains_u64(shard_ids, witness_shard) {
            return Err(Error::InvalidChunkStateWitness(InvalidWitnessReason::InvalidShardId));
        }

        // Reject witnesses for chunks for which this node isn't a validator:
        // the sender shouldn't send a witness to a non-validator node.
        let my_signer = match &self.chunk_validator.my_signer {
            Some(signer) => *signer,
            None => {
                return Err(Error::NotAValidator);
            },
        };
        let assigned = match self.epoch_manager.get_chunk_validator_assignments(
            epoch_id,
            witness_shard,
            witness_height,
        ) {
            Ok(assigned) => assigned,
            Err(e) => {
                return Err(e);
            },
        };
        if !vec_contains_u64(assigned, my_signer) {
            return Err(Error::NotAChunkValidator);
        }

        // Verify the signature.
        if !self.epoch_manager.verify_chunk_state_witness_signature_in_epoch(witness, epoch_id) {
            return Err(Error::InvalidChunkStateWitness(InvalidWitnessReason::InvalidSignature));
        }

        Ok(())
    }

    /// Hand a de-orphaned witness to the witness-processing pipeline. The
    /// pipeline is an external collaborator; recording the witness is its
    /// boundary here, and a pipeline failure never aborts the caller.
    fn process_chunk_state_witness_with_prev_block(
        &mut self,
        witness: ChunkStateWitness,
        _prev_block: &Block,
    )
        ensures
            final(self).processed_witnesses@ == old(self).processed_witnesses@.push(witness),
            final(self).chain == old(self).chain,
            final(self).epoch_manager == old(self).epoch_manager,
            final(self).chunk_validator == old(self).chunk_validator,
    {
        self.processed_witnesses.push(witness);
    }

    /// Once a new block arrives, take the orphaned witnesses that were
    /// waiting for it out of the pool and process them, then remove the
    /// witnesses below the block's last final height: the chain has moved
    /// past the point where their previous block could still be relevant.
    pub fn process_ready_orphan_witnesses_and_clean_old(&mut self, new_block: &Block)
        requires
            old(self).chunk_validator.orphan_witness_pool.wf(),
        ensures
            final(self).chunk_validator.orphan_witness_pool.wf(),
            final(self).processed_witnesses@ == old(self).processed_witnesses@
                + witnesses_waiting_for(
                old(self).chunk_validator.orphan_witness_pool.entries_view(),
                new_block.hash,
            ),
            final(self).chunk_validator.orphan_witness_pool.entries_view() == (match spec_block_header(
                old(self).chain.headers@,
                new_block.last_final_block,
            ) {
                Option::Some(header) => pool_after_new_block(
                    old(self).chunk_validator.orphan_witness_pool.entries_view(),
                    new_block.hash,
                    header.height,
                ),
                Option::None => entries_not_waiting_for(
                    old(self).chunk_validator.orphan_witness_pool.entries_view(),
                    new_block.hash,
                ),
            }),
            final(self).chunk_validator.orphan_witness_pool.spec_capacity() == old(
                self,
            ).chunk_validator.orphan_witness_pool.spec_capacity(),
            final(self).chain == old(self).chain,
            final(self).epoch_manager == old(self).epoch_manager,
            final(self).chunk_validator.my_signer == old(self).chunk_validator.my_signer,
    {
        let mut ready = self.chunk_validator.orphan_witness_pool
            .take_state_witnesses_waiting_for_block(new_block.hash);
        let ghost taken = ready@;
        let ghost mut i: int = 0;
        proof {
            assert(taken.skip(0) =~= taken);
            assert(old(self).processed_witnesses@ + taken.take(0)
                =~= old(self).processed_witnesses@);
        }
        while ready.len() > 0
            invariant
                0 <= i <= taken.len(),
                ready@ == taken.skip(i),
                taken == witnesses_waiting_for(
                    old(self).chunk_validator.orphan_witness_pool.entries_view(),
                    new_block.hash,
                ),
                self.processed_witnesses@ == old(self).processed_witnesses@ + taken.take(i),
                self.chain == old(self).chain,
                self.epoch_manager == old(self).epoch_manager,
                self.chunk_validator.my_signer == old(self).chunk_validator.my_signer,
                self.chunk_validator.orphan_witness_pool.wf(),
                self.chunk_validator.orphan_witness_pool.entries_view()
                    == entries_not_waiting_for(
                    old(self).chunk_validator.orphan_witness_pool.entries_view(),
                    new_block.hash,
                ),
                self.chunk_validator.orphan_witness_pool.spec_capacity() == old(
                    self,
                ).chunk_validator.orphan_witness_pool.spec_capacity(),
            decreases ready@.len(),
        {
            proof {
                assert(taken.skip(i)[0] == taken[i]);
                assert(taken.skip(i).remove(0) =~= taken.skip(i + 1));
                assert(taken.take(i + 1).drop_last() =~= taken.take(i));
                assert(old(self).processed_witnesses@ + taken.take(i + 1) =~= (old(
                    self,
                ).processed_witnesses@ + taken.take(i)).push(taken[i]));
            }
            let witness = ready.remove(0);
            self.process_chunk_state_witness_with_prev_block(witness, new_block);
            proof {
                i = i + 1;
            }
        }
        proof {
            assert(taken.take(i) =~= taken);
        }

        // Remove all orphan witnesses below the last final block of the new
        // block: they can no longer be used. If the last final block is not
        // known locally, dispatch stands and only the prune is skipped.
        match self.chain.get_block_header(new_block.last_final_block) {
            Some(last_final_header) => {
                self.chunk_validator.orphan_witness_pool.remove_witnesses_below_final_height(
                    last_final_header.height,
                );
            },
            None => {},
        }
    }
}

} // verus!
