use vstd::prelude::*;
use crate::types::{BlockHash, BlockHeight};

verus! {

/// The locally known highest block of the canonical chain.
#[derive(Clone, Copy, PartialEq, Eq, Structural, Debug)]
pub struct Tip {
    pub height: BlockHeight,
}

/// Header of a locally known block.
#[derive(Clone, Copy, PartialEq, Eq, Structural, Debug)]
pub struct BlockHeader {
    pub hash: BlockHash,
    pub height: BlockHeight,
}

/// A newly accepted block, as handed to the dispatcher: its own identity and
/// the identity of its last final block.
#[derive(Clone, Copy, PartialEq, Eq, Structural, Debug)]
pub struct Block {
    pub hash: BlockHash,
    pub height: BlockHeight,
    pub last_final_block: BlockHash,
}

/// First locally known header with the given hash, if any.
pub open spec fn spec_block_header(t: Seq<BlockHeader>, hash: BlockHash) -> Option<BlockHeader>
    decreases t.len(),
{
    if t.len() == 0 {
        None
    } else if t[0].hash == hash {
        Some(t[0])
    } else {
        spec_block_header(t.drop_first(), hash)
    }
}

/// Read-only snapshot of the chain state this subsystem consults: the current
/// head and the headers of locally known blocks.
pub struct Chain {
    pub head: Tip,
    pub headers: Vec<BlockHeader>,
}

impl Chain {
    /// Look up the header of a locally known block. `None` models a failed
    /// chain-store lookup: the block is not known here.
    pub fn get_block_header(&self, hash: BlockHash) -> (r: Option<BlockHeader>)
        ensures
            r == spec_block_header(self.headers@, hash),
    {
        let mut i: usize = 0;
        proof {
            assert(self.headers@.skip(0) =~= self.headers@);
        }
        while i < self.headers.len()
            invariant
                0 <= i <= self.headers@.len(),
                spec_block_header(self.headers@, hash) == spec_block_header(
                    self.headers@.skip(i as int),
                    hash,
                ),
            decreases self.headers@.len() - i,
        {
            proof {
                assert(self.headers@.skip(i as int)[0] == self.headers@[i as int]);
                assert(self.headers@.skip(i as int).drop_first() =~= self.headers@.skip(i + 1));
            }
            if self.headers[i].hash == hash {
                return Some(self.headers[i]);
            }
            i = i + 1;
        }
        None
    }
}

} // verus!
