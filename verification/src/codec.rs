use vstd::prelude::*;
use crate::errors::Error;
use crate::types::ChunkStateWitness;

verus! {

/// Exact length in bytes of the borsh encoding of a witness: the four u64
/// header fields take 8 bytes each, and the payload is written with a 4-byte
/// length prefix.
pub open spec fn encoded_witness_size(w: ChunkStateWitness) -> int {
    36 + w.payload@.len() as int
}

/// Relies on borsh::to_vec (borsh 1.8): a u64 serializes to its 8
/// little-endian bytes, a Vec<u8> to a 4-byte little-endian length prefix
/// followed by its bytes — failing with InvalidData exactly when the length
/// exceeds u32::MAX — a tuple to its fields in order with no prefix, and
/// writing into a Vec never fails.
#[verifier::external_body]
pub(crate) fn serialized_witness_size(witness: &ChunkStateWitness) -> (r: Result<usize, Error>)
    requires
        encoded_witness_size(*witness) <= usize::MAX,
    ensures
        r is Ok <==> witness.payload@.len() <= u32::MAX,
        r is Ok ==> r->Ok_0 == encoded_witness_size(*witness),
        r is Err ==> r->Err_0 == Error::SerializationError,
{
    let header = &witness.chunk_header;
    let fields = (
        header.height_created,
        header.shard_id,
        header.chunk_hash,
        header.prev_block_hash,
        &witness.payload,
    );
    borsh::to_vec(&fields).map(|encoded| encoded.len()).map_err(|_| Error::SerializationError)
}

} // verus!
