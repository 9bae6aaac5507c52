use vstd::prelude::*;
use crate::types::{BlockHash, BlockHeight, ChunkStateWitness, MAX_ORPHAN_WITNESS_SIZE};

verus! {

/// A pooled orphan witness together with the byte size of its serialization,
/// computed once at admission and never recomputed.
pub struct PoolEntry {
    pub witness: ChunkStateWitness,
    pub size: u64,
}

/// Whether a pooled entry is waiting for the given block to arrive.
pub open spec fn entry_waits_for(e: PoolEntry, block_hash: BlockHash) -> bool {
    e.witness.chunk_header.prev_block_hash == block_hash
}

/// Height the entry's witness was created at.
pub open spec fn entry_height(e: PoolEntry) -> BlockHeight {
    e.witness.chunk_header.height_created
}

/// Sum of the recorded byte sizes of a sequence of entries.
pub open spec fn total_size_of(s: Seq<PoolEntry>) -> int
    decreases s.len(),
{
    if s.len() == 0 {
        0
    } else {
        total_size_of(s.drop_last()) + s.last().size
    }
}

/// The witnesses waiting for `block_hash`, in storage order.
pub open spec fn witnesses_waiting_for(s: Seq<PoolEntry>, block_hash: BlockHash) -> Seq<
    ChunkStateWitness,
>
    decreases s.len(),
{
    if s.len() == 0 {
        Seq::empty()
    } else {
        let rest = witnesses_waiting_for(s.drop_last(), block_hash);
        if entry_waits_for(s.last(), block_hash) {
            rest.push(s.last().witness)
        } else {
            rest
        }
    }
}

/// The entries that remain once those waiting for `block_hash` are taken out,
/// in storage order.
pub open spec fn entries_not_waiting_for(s: Seq<PoolEntry>, block_hash: BlockHash) -> Seq<
    PoolEntry,
>
    decreases s.len(),
{
    if s.len() == 0 {
        Seq::empty()
    } else {
        let rest = entries_not_waiting_for(s.drop_last(), block_hash);
        if entry_waits_for(s.last(), block_hash) {
            rest
        } else {
            rest.push(s.last())
        }
    }
}

/// The entries whose height is at least `final_height`, in storage order:
/// what pruning keeps.
pub open spec fn entries_at_or_above(s: Seq<PoolEntry>, final_height: BlockHeight) -> Seq<
    PoolEntry,
>
    decreases s.len(),
{
    if s.len() == 0 {
        Seq::empty()
    } else {
        let rest = entries_at_or_above(s.drop_last(), final_height);
        if entry_height(s.last()) >= final_height {
            rest.push(s.last())
        } else {
            rest
        }
    }
}

/// Oldest-first eviction: drop entries from the front until `size` more bytes
/// fit under `capacity`.
pub open spec fn evicted_to_fit(s: Seq<PoolEntry>, size: u64, capacity: u64) -> Seq<PoolEntry>
    decreases s.len(),
{
    if total_size_of(s) + size <= capacity {
        s
    } else if s.len() == 0 {
        s
    } else {
        evicted_to_fit(s.drop_first(), size, capacity)
    }
}

/// Pool contents after admitting `e`: the oldest entries are evicted until
/// `e` fits under the capacity, then `e` is appended.
pub open spec fn entries_after_add(s: Seq<PoolEntry>, e: PoolEntry, capacity: u64) -> Seq<
    PoolEntry,
> {
    evicted_to_fit(s, e.size, capacity).push(e)
}

/// Pool contents after a new block is handled: the entries waiting for the
/// block are taken out for dispatch, then everything below the block's
/// last-final height is pruned.
pub open spec fn pool_after_new_block(
    s: Seq<PoolEntry>,
    block_hash: BlockHash,
    final_height: BlockHeight,
) -> Seq<PoolEntry> {
    entries_at_or_above(entries_not_waiting_for(s, block_hash), final_height)
}

pub proof fn lemma_total_size_nonneg(s: Seq<PoolEntry>)
    ensures
        total_size_of(s) >= 0,
    decreases s.len(),
{
    if s.len() > 0 {
        lemma_total_size_nonneg(s.drop_last());
    }
}

pub proof fn lemma_total_size_drop_first(s: Seq<PoolEntry>)
    requires
        s.len() > 0,
    ensures
        total_size_of(s) == s[0].size + total_size_of(s.drop_first()),
    decreases s.len(),
{
    if s.len() == 1 {
        assert(s.drop_first() =~= Seq::<PoolEntry>::empty());
        assert(s.drop_last() =~= Seq::<PoolEntry>::empty());
    } else {
        lemma_total_size_drop_first(s.drop_last());
        assert(s.drop_last().drop_first() =~= s.drop_first().drop_last());
        assert(s.drop_first().last() == s.last());
        assert(s.drop_last()[0] == s[0]);
    }
}

pub proof fn lemma_total_size_take_le(s: Seq<PoolEntry>, j: int)
    requires
        0 <= j <= s.len(),
    ensures
        total_size_of(s.take(j)) <= total_size_of(s),
    decreases s.len(),
{
    if j == s.len() {
        assert(s.take(j) =~= s);
    } else {
        lemma_total_size_take_le(s.drop_last(), j);
        assert(s.drop_last().take(j) =~= s.take(j));
    }
}

/// Every entry left behind by a take is not waiting for the taken block.
pub proof fn lemma_kept_entries_not_waiting(s: Seq<PoolEntry>, block_hash: BlockHash)
    ensures
        forall|i: int|
            0 <= i < entries_not_waiting_for(s, block_hash).len() ==> !entry_waits_for(
                #[trigger] entries_not_waiting_for(s, block_hash)[i],
                block_hash,
            ),
    decreases s.len(),
{
    if s.len() > 0 {
        lemma_kept_entries_not_waiting(s.drop_last(), block_hash);
        let kept = entries_not_waiting_for(s, block_hash);
        let rest = entries_not_waiting_for(s.drop_last(), block_hash);
        assert forall|i: int| 0 <= i < kept.len() implies !entry_waits_for(
            #[trigger] kept[i],
            block_hash,
        ) by {
            if i < rest.len() {
                assert(kept[i] == rest[i]);
            } else {
                assert(kept[i] == s.last());
            }
        }
    }
}

/// On a sequence where no entry waits for the block, taking is a no-op: no
/// witness comes out and every entry stays.
pub proof fn lemma_take_on_none_waiting(s: Seq<PoolEntry>, block_hash: BlockHash)
    requires
        forall|i: int| 0 <= i < s.len() ==> !entry_waits_for(#[trigger] s[i], block_hash),
    ensures
        witnesses_waiting_for(s, block_hash) == Seq::<ChunkStateWitness>::empty(),
        entries_not_waiting_for(s, block_hash) == s,
    decreases s.len(),
{
    if s.len() == 0 {
        assert(entries_not_waiting_for(s, block_hash) =~= s);
    } else {
        lemma_take_on_none_waiting(s.drop_last(), block_hash);
        assert(!entry_waits_for(s[s.len() - 1], block_hash));
        assert(entries_not_waiting_for(s, block_hash) =~= s);
    }
}

/// Pruning only drops entries: everything it keeps was in the sequence.
pub proof fn lemma_prune_entries_from(s: Seq<PoolEntry>, final_height: BlockHeight)
    ensures
        forall|i: int|
            0 <= i < entries_at_or_above(s, final_height).len() ==> s.contains(
                #[trigger] entries_at_or_above(s, final_height)[i],
            ),
    decreases s.len(),
{
    if s.len() > 0 {
        lemma_prune_entries_from(s.drop_last(), final_height);
        let pruned = entries_at_or_above(s, final_height);
        assert forall|i: int| 0 <= i < pruned.len() implies s.contains(#[trigger] pruned[i]) by {
            let rest = entries_at_or_above(s.drop_last(), final_height);
            if i < rest.len() {
                let j = choose|j: int| 0 <= j < s.drop_last().len() && s.drop_last()[j] == rest[i];
                assert(s[j] == pruned[i]);
            } else {
                assert(s[s.len() - 1] == pruned[i]);
            }
        }
    }
}

/// Pruning monotonicity, kept side: no entry below the final height survives
/// a prune.
pub proof fn lemma_prune_heights(s: Seq<PoolEntry>, final_height: BlockHeight)
    ensures
        forall|i: int|
            0 <= i < entries_at_or_above(s, final_height).len() ==> entry_height(
                #[trigger] entries_at_or_above(s, final_height)[i],
            ) >= final_height,
    decreases s.len(),
{
    if s.len() > 0 {
        lemma_prune_heights(s.drop_last(), final_height);
        let pruned = entries_at_or_above(s, final_height);
        let rest = entries_at_or_above(s.drop_last(), final_height);
        assert forall|i: int| 0 <= i < pruned.len() implies entry_height(#[trigger] pruned[i])
            >= final_height by {
            if i < rest.len() {
                assert(pruned[i] == rest[i]);
            } else {
                assert(pruned[i] == s.last());
            }
        }
    }
}

/// Pruning monotonicity, preserved side: every entry at or above the final
/// height survives a prune unchanged.
pub proof fn lemma_prune_keeps_high_entries(s: Seq<PoolEntry>, final_height: BlockHeight)
    ensures
        forall|i: int|
            0 <= i < s.len() && entry_height(#[trigger] s[i]) >= final_height
                ==> entries_at_or_above(s, final_height).contains(s[i]),
    decreases s.len(),
{
    if s.len() > 0 {
        lemma_prune_keeps_high_entries(s.drop_last(), final_height);
        let pruned = entries_at_or_above(s, final_height);
        let rest = entries_at_or_above(s.drop_last(), final_height);
        assert forall|i: int|
            0 <= i < s.len() && entry_height(#[trigger] s[i]) >= final_height implies pruned
            .contains(s[i]) by {
            if i < s.len() - 1 {
                assert(s.drop_last()[i] == s[i]);
                assert(rest.contains(s[i]));
                let j = choose|j: int| 0 <= j < rest.len() && rest[j] == s[i];
                assert(pruned[j] == s[i]);
            } else {
                assert(pruned[pruned.len() - 1] == s[i]);
            }
        }
    }
}

/// On a sequence where every entry is at or above the final height, pruning
/// is a no-op.
pub proof fn lemma_prune_on_all_high(s: Seq<PoolEntry>, final_height: BlockHeight)
    requires
        forall|i: int| 0 <= i < s.len() ==> entry_height(#[trigger] s[i]) >= final_height,
    ensures
        entries_at_or_above(s, final_height) == s,
    decreases s.len(),
{
    if s.len() == 0 {
        assert(entries_at_or_above(s, final_height) =~= s);
    } else {
        lemma_prune_on_all_high(s.drop_last(), final_height);
        assert(entry_height(s[s.len() - 1]) >= final_height);
        assert(entries_at_or_above(s, final_height) =~= s);
    }
}

/// Handling a new block is idempotent: after one round of dispatch and prune
/// for a block, no witness waits for that block any more, and a second round
/// for the same block and final height dispatches nothing and leaves the pool
/// unchanged.
pub proof fn lemma_new_block_idempotent(
    s: Seq<PoolEntry>,
    block_hash: BlockHash,
    final_height: BlockHeight,
)
    ensures
        witnesses_waiting_for(pool_after_new_block(s, block_hash, final_height), block_hash)
            == Seq::<ChunkStateWitness>::empty(),
        pool_after_new_block(
            pool_after_new_block(s, block_hash, final_height),
            block_hash,
            final_height,
        ) == pool_after_new_block(s, block_hash, final_height),
{
    let kept = entries_not_waiting_for(s, block_hash);
    let pruned = entries_at_or_above(kept, final_height);
    lemma_kept_entries_not_waiting(s, block_hash);
    lemma_prune_entries_from(kept, final_height);
    assert forall|i: int| 0 <= i < pruned.len() implies !entry_waits_for(
        #[trigger] pruned[i],
        block_hash,
    ) by {
        assert(kept.contains(pruned[i]));
        let j = choose|j: int| 0 <= j < kept.len() && kept[j] == pruned[i];
    }
    lemma_take_on_none_waiting(pruned, block_hash);
    lemma_prune_heights(kept, final_height);
    lemma_prune_on_all_high(pruned, final_height);
}

/// Bounded pool of orphaned chunk-state witnesses. Each entry waits for the
/// block named by its witness's previous-block hash; a running total tracks
/// the admitted byte size.
///
/// Eviction policy: when admitting an entry would push the total over the
/// configured capacity, the oldest entries (in insertion order) are evicted
/// until the new entry fits. The capacity is at least the per-witness size
/// limit, so an admissible entry always fits in the end. Duplicates are not
/// suppressed: every admitted witness is stored.
pub struct OrphanStateWitnessPool {
    entries: Vec<PoolEntry>,
    total_size: u64,
    capacity: u64,
}

impl OrphanStateWitnessPool {
    /// The stored entries, in insertion order.
    pub closed spec fn entries_view(&self) -> Seq<PoolEntry> {
        self.entries@
    }

    /// The running total of the stored entries' byte sizes.
    pub closed spec fn spec_total_size(&self) -> u64 {
        self.total_size
    }

    /// The configured pool-wide byte capacity.
    pub closed spec fn spec_capacity(&self) -> u64 {
        self.capacity
    }

    /// Pool size invariant: the running total equals the sum of the stored
    /// entries' sizes and never exceeds the capacity; the capacity admits at
    /// least one maximal witness; no stored entry exceeds the per-witness
    /// size limit.
    pub open spec fn wf(&self) -> bool {
        &&& self.spec_total_size() == total_size_of(self.entries_view())
        &&& self.spec_total_size() <= self.spec_capacity()
        &&& self.spec_capacity() >= MAX_ORPHAN_WITNESS_SIZE
        &&& forall|i: int|
            0 <= i < self.entries_view().len() ==> #[trigger] self.entries_view()[i].size
                <= MAX_ORPHAN_WITNESS_SIZE
    }

    /// An empty pool with the given byte capacity.
    pub fn new(capacity: u64) -> (pool: Self)
        requires
            capacity >= MAX_ORPHAN_WITNESS_SIZE,
        ensures
            pool.wf(),
            pool.entries_view() == Seq::<PoolEntry>::empty(),
            pool.spec_capacity() == capacity,
    {
        OrphanStateWitnessPool { entries: Vec::new(), total_size: 0, capacity }
    }

    /// Admit a witness whose serialization measures `witness_size` bytes,
    /// keyed by its previous-block hash. If the pool would overflow its
    /// capacity, the oldest entries are evicted first until the new entry
    /// fits; it always fits in the end because no admissible witness exceeds
    /// the capacity.
    pub fn add_orphan_state_witness(&mut self, witness: ChunkStateWitness, witness_size: usize)
        requires
            old(self).wf(),
            witness_size <= MAX_ORPHAN_WITNESS_SIZE,
        ensures
            final(self).wf(),
            final(self).entries_view() == entries_after_add(
                old(self).entries_view(),
                PoolEntry { witness, size: witness_size as u64 },
                old(self).spec_capacity(),
            ),
            final(self).spec_capacity() == old(self).spec_capacity(),
    {
        let size: u64 = witness_size as u64;
        while self.total_size > self.capacity - size
            invariant
                size <= MAX_ORPHAN_WITNESS_SIZE,
                self.wf(),
                self.spec_capacity() == old(self).spec_capacity(),
                evicted_to_fit(self.entries@, size, self.capacity) == evicted_to_fit(
                    old(self).entries_view(),
                    size,
                    old(self).spec_capacity(),
                ),
            decreases self.entries@.len(),
        {
            proof {
                if self.entries@.len() == 0 {
                    assert(total_size_of(self.entries@) == 0);
                }
                lemma_total_size_drop_first(self.entries@);
                lemma_total_size_nonneg(self.entries@.drop_first());
            }
            let ghost before = self.entries@;
            let evicted = self.entries.remove(0);
            proof {
                assert(before.remove(0) =~= before.drop_first());
            }
            self.total_size = self.total_size - evicted.size;
        }
        proof {
            // the loop exit condition says the new entry now fits
            assert(evicted_to_fit(self.entries@, size, self.capacity) == self.entries@);
        }
        let ghost kept = self.entries@;
        self.entries.push(PoolEntry { witness, size });
        self.total_size = self.total_size + size;
        proof {
            assert(self.entries@.drop_last() =~= kept);
            assert(forall|i: int|
                0 <= i < self.entries@.len() ==> #[trigger] self.entries@[i].size
                    <= MAX_ORPHAN_WITNESS_SIZE);
        }
    }

    /// Atomically remove and return all witnesses waiting for `block_hash`,
    /// in storage order, decrementing the running size total accordingly.
    pub fn take_state_witnesses_waiting_for_block(&mut self, block_hash: BlockHash) -> (ready: Vec<
        ChunkStateWitness,
    >)
        requires
            old(self).wf(),
        ensures
            final(self).wf(),
            ready@ == witnesses_waiting_for(old(self).entries_view(), block_hash),
            final(self).entries_view() == entries_not_waiting_for(
                old(self).entries_view(),
                block_hash,
            ),
            final(self).spec_capacity() == old(self).spec_capacity(),
    {
        let ghost orig = self.entries@;
        let mut kept: Vec<PoolEntry> = Vec::new();
        let mut kept_size: u64 = 0;
        let mut ready: Vec<ChunkStateWitness> = Vec::new();
        let ghost i: int = 0;
        while self.entries.len() > 0
            invariant
                0 <= i <= orig.len(),
                self.entries@ == orig.skip(i),
                kept@ == entries_not_waiting_for(orig.take(i), block_hash),
                ready@ == witnesses_waiting_for(orig.take(i), block_hash),
                kept_size == total_size_of(kept@),
                kept_size <= total_size_of(orig.take(i)),
                total_size_of(orig) == old(self).spec_total_size(),
                old(self).wf(),
                self.capacity == old(self).spec_capacity(),
                forall|k: int|
                    0 <= k < orig.len() ==> #[trigger] orig[k].size <= MAX_ORPHAN_WITNESS_SIZE,
                forall|k: int|
                    0 <= k < kept@.len() ==> #[trigger] kept@[k].size <= MAX_ORPHAN_WITNESS_SIZE,
            decreases self.entries@.len(),
        {
            proof {
                assert(orig.skip(i)[0] == orig[i]);
                assert(orig.take(i + 1).drop_last() =~= orig.take(i));
                assert(orig.take(i + 1).last() == orig[i]);
                lemma_total_size_take_le(orig, i + 1);
                lemma_total_size_nonneg(orig.take(i));
            }
            let e = self.entries.remove(0);
            proof {
                assert(orig.skip(i).remove(0) =~= orig.skip(i + 1));
            }
            if e.witness.chunk_header.prev_block_hash == block_hash {
                ready.push(e.witness);
            } else {
                kept_size = kept_size + e.size;
                kept.push(e);
                proof {
                    assert(kept@.drop_last() =~= entries_not_waiting_for(orig.take(i), block_hash));
                }
            }
            proof {
                i = i + 1;
            }
        }
        proof {
            assert(orig.take(i) =~= orig);
        }
        self.entries = kept;
        self.total_size = kept_size;
        ready
    }

    /// Remove every entry whose witness height is strictly below
    /// `final_height`, decrementing the running size total accordingly. Such
    /// entries are moot: the chain has finalized a block at or above their
    /// height, so their previous block can no longer be on the active branch.
    pub fn remove_witnesses_below_final_height(&mut self, final_height: BlockHeight)
        requires
            old(self).wf(),
        ensures
            final(self).wf(),
            final(self).entries_view() == entries_at_or_above(
                old(self).entries_view(),
                final_height,
            ),
            final(self).spec_capacity() == old(self).spec_capacity(),
    {
        let ghost orig = self.entries@;
        let mut kept: Vec<PoolEntry> = Vec::new();
        let mut kept_size: u64 = 0;
        let ghost i: int = 0;
        while self.entries.len() > 0
            invariant
                0 <= i <= orig.len(),
                self.entries@ == orig.skip(i),
                kept@ == entries_at_or_above(orig.take(i), final_height),
                kept_size == total_size_of(kept@),
                kept_size <= total_size_of(orig.take(i)),
                total_size_of(orig) == old(self).spec_total_size(),
                old(self).wf(),
                self.capacity == old(self).spec_capacity(),
                forall|k: int|
                    0 <= k < orig.len() ==> #[trigger] orig[k].size <= MAX_ORPHAN_WITNESS_SIZE,
                forall|k: int|
                    0 <= k < kept@.len() ==> #[trigger] kept@[k].size <= MAX_ORPHAN_WITNESS_SIZE,
            decreases self.entries@.len(),
        {
            proof {
                assert(orig.skip(i)[0] == orig[i]);
                assert(orig.take(i + 1).drop_last() =~= orig.take(i));
                assert(orig.take(i + 1).last() == orig[i]);
                lemma_total_size_take_le(orig, i + 1);
                lemma_total_size_nonneg(orig.take(i));
            }
            let e = self.entries.remove(0);
            proof {
                assert(orig.skip(i).remove(0) =~= orig.skip(i + 1));
            }
            if e.witness.chunk_header.height_created >= final_height {
                kept_size = kept_size + e.size;
                kept.push(e);
                proof {
                    assert(kept@.drop_last() =~= entries_at_or_above(orig.take(i), final_height));
                }
            }
            proof {
                i = i + 1;
            }
        }
        proof {
            assert(orig.take(i) =~= orig);
        }
        self.entries = kept;
        self.total_size = kept_size;
    }

    /// Number of stored entries.
    pub fn len(&self) -> (n: usize)
        ensures
            n == self.entries_view().len(),
    {
        self.entries.len()
    }

    /// The running total of the stored entries' byte sizes.
    pub fn total_byte_size(&self) -> (t: u64)
        ensures
            t == self.spec_total_size(),
    {
        self.total_size
    }

    /// The configured pool-wide byte capacity.
    pub fn capacity(&self) -> (c: u64)
        ensures
            c == self.spec_capacity(),
    {
        self.capacity
    }

    /// Heights of the stored entries' witnesses, in storage order.
    pub fn entry_heights(&self) -> (heights: Vec<BlockHeight>)
        ensures
            heights@ == self.entries_view().map_values(|e: PoolEntry| entry_height(e)),
    {
        let mut heights: Vec<BlockHeight> = Vec::new();
        let mut i: usize = 0;
        while i < self.entries.len()
            invariant
                0 <= i <= self.entries@.len(),
                heights@ == self.entries@.take(i as int).map_values(
                    |e: PoolEntry| entry_height(e),
                ),
            decreases self.entries@.len() - i,
        {
            heights.push(self.entries[i].witness.chunk_header.height_created);
            proof {
                assert(self.entries@.take(i + 1 as int).map_values(|e: PoolEntry| entry_height(e))
                    =~= self.entries@.take(i as int).map_values(|e: PoolEntry| entry_height(e)).push(
                    entry_height(self.entries@[i as int]),
                ));
            }
            i = i + 1;
        }
        proof {
            assert(self.entries@.take(self.entries@.len() as int) =~= self.entries@);
        }
        heights
    }

    /// Recorded byte sizes of the stored entries, in storage order.
    pub fn entry_sizes(&self) -> (sizes: Vec<u64>)
        ensures
            sizes@ == self.entries_view().map_values(|e: PoolEntry| e.size),
    {
        let mut sizes: Vec<u64> = Vec::new();
        let mut i: usize = 0;
        while i < self.entries.len()
            invariant
                0 <= i <= self.entries@.len(),
                sizes@ == self.entries@.take(i as int).map_values(|e: PoolEntry| e.size),
            decreases self.entries@.len() - i,
        {
            sizes.push(self.entries[i].size);
            proof {
                assert(self.entries@.take(i + 1 as int).map_values(|e: PoolEntry| e.size)
                    =~= self.entries@.take(i as int).map_values(|e: PoolEntry| e.size).push(
                    self.entries@[i as int].size,
                ));
            }
            i = i + 1;
        }
        proof {
            assert(self.entries@.take(self.entries@.len() as int) =~= self.entries@);
        }
        sizes
    }
}

} // verus!
