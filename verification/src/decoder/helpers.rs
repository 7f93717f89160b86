use vstd::prelude::*;

use crate::decoder::tracked_bytes::TrackedBytes;

verus! {

/// The `u32` whose big-endian bytes are `b0 b1 b2 b3`.
pub open spec fn be_u32(b0: u8, b1: u8, b2: u8, b3: u8) -> u32 {
    (b0 * 0x100_0000 + b1 * 0x1_0000 + b2 * 0x100 + b3) as u32
}

/// The first `n` big-endian `u32` words of `bytes`.
pub open spec fn be_words(bytes: Seq<u8>, n: nat) -> Seq<u32> {
    Seq::new(n, |i: int| be_u32(bytes[4 * i], bytes[4 * i + 1], bytes[4 * i + 2], bytes[4 * i + 3]))
}

/// Reads `num_bytes / 4` big-endian `u32` words from `tile`; a remainder of
/// fewer than four bytes is left unread.
pub fn bytes_to_encoded_u32s(tile: &mut TrackedBytes, num_bytes: usize) -> (r: Vec<u32>)
    requires
        old(tile).data().len() >= 4 * (num_bytes / 4),
    ensures
        r@ == be_words(old(tile).data(), (num_bytes / 4) as nat),
        final(tile).data() == old(tile).data().skip(4 * (num_bytes / 4)),
        final(tile).spec_offset() == old(tile).spec_offset() + 4 * (num_bytes / 4),
{
    let num_words = num_bytes / 4;
    let ghost start = tile.data();
    let ghost start_offset = tile.spec_offset();
    let mut encoded_u32s: Vec<u32> = Vec::new();
    let mut i: usize = 0;
    while i < num_words
        invariant
            0 <= i <= num_words,
            num_words == num_bytes / 4,
            start.len() >= 4 * num_words,
            tile.data() == start.skip(4 * i),
            tile.spec_offset() == start_offset + 4 * i,
            encoded_u32s@ == be_words(start, i as nat),
        decreases num_words - i,
    {
        proof {
            assert(tile.data().len() == start.len() - 4 * i);
        }
        let b1 = tile.get_u8();
        let b2 = tile.get_u8();
        let b3 = tile.get_u8();
        let b4 = tile.get_u8();
        proof {
            assert(b1 == start[4 * i]);
            assert(b2 == start[4 * i + 1]);
            assert(b3 == start[4 * i + 2]);
            assert(b4 == start[4 * i + 3]);
            assert(tile.data() =~= start.skip(4 * (i + 1)));
        }
        let val: u32 = (b1 as u32) * 0x100_0000 + (b2 as u32) * 0x1_0000 + (b3 as u32) * 0x100
            + (b4 as u32);
        encoded_u32s.push(val);
        i = i + 1;
        proof {
            assert(encoded_u32s@ =~= be_words(start, i as nat));
        }
    }
    encoded_u32s
}

} // verus!
