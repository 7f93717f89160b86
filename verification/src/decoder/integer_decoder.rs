use vstd::prelude::*;

use crate::decoder::helpers::be_words;
use crate::decoder::integer::{as_i32s, fast_pfor_values, to_i32s, word_bytes};
use crate::decoder::tracked_bytes::TrackedBytes;
use crate::decoder::varint::{self, varint_u32s};
use crate::metadata::stream::StreamMetadata;
use crate::metadata::stream_encoding::PhysicalLevelTechnique;

pub use crate::decoder::helpers::bytes_to_encoded_u32s;
pub use crate::decoder::integer::decode_fast_pfor;

verus! {

/// Decodes an integer stream by its physical technique. FastPfor and Varint
/// streams are decoded (a Varint stream that fails to read decodes to no
/// values); any other technique decodes to no values and leaves the tile as
/// it was.
pub fn decode_int_stream(
    tile: &mut TrackedBytes,
    stream_metadata: &StreamMetadata,
    is_signed: bool,
) -> (r: Vec<i32>)
    requires
        stream_metadata.physical.technique == PhysicalLevelTechnique::FastPfor ==> old(
            tile,
        ).data().len() >= word_bytes(stream_metadata.byte_length),
    ensures
        match stream_metadata.physical.technique {
            PhysicalLevelTechnique::FastPfor => {
                &&& r.len() == stream_metadata.num_values
                &&& r@ == as_i32s(
                    fast_pfor_values(
                        be_words(old(tile).data(), (stream_metadata.byte_length / 4) as nat),
                        stream_metadata.num_values,
                    ),
                )
                &&& final(tile).data() == old(tile).data().skip(
                    word_bytes(stream_metadata.byte_length) as int,
                )
                &&& final(tile).spec_offset() == old(tile).spec_offset() + word_bytes(
                    stream_metadata.byte_length,
                )
            },
            PhysicalLevelTechnique::Varint => {
                match varint_u32s(old(tile).data(), stream_metadata.num_values as nat) {
                    Ok((vs, k)) => r@ == as_i32s(vs) && r.len() == stream_metadata.num_values && final(tile).data() == old(tile).data().skip(
                        k as int,
                    ) && final(tile).spec_offset() == old(tile).spec_offset() + k,
                    Err((_, k)) => r@.len() == 0 && final(tile).data() == old(tile).data().skip(
                        k as int,
                    ) && final(tile).spec_offset() == old(tile).spec_offset() + k,
                }
            },
            _ => {
                &&& r@.len() == 0
                &&& *final(tile) == *old(tile)
            },
        },
{
    if stream_metadata.physical.technique == PhysicalLevelTechnique::FastPfor {
        let decoded = decode_fast_pfor(tile, stream_metadata);
        to_i32s(decoded)
    } else if stream_metadata.physical.technique == PhysicalLevelTechnique::Varint {
        match varint::decode(tile, stream_metadata.num_values as usize) {
            Ok(values) => to_i32s(values),
            Err(_) => decode_int_array(),
        }
    } else {
        return Vec::new();
    }
}

/// Decodes an integer array; decodes to no values yet.
pub fn decode_int_array() -> (r: Vec<i32>)
    ensures
        r@.len() == 0,
{
    Vec::new()
}

} // verus!
