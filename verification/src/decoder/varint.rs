use vstd::prelude::*;

use crate::decoder::tracked_bytes::{
    lemma_u32_varint_read_len, u32_varint_read, u32_varint_read_from, TrackedBytes, VarintFailure,
};
use crate::error::{MltError, VarintError};

verus! {

/// The library's error kind for a failed varint read.
pub open spec fn varint_error_of(f: VarintFailure) -> VarintError {
    match f {
        VarintFailure::BufferUnderflow => VarintError::Eof,
        VarintFailure::NumericOverflow => VarintError::Overflow,
    }
}

/// Maps a failed varint read to the library's error kind.
pub fn varint_error(f: VarintFailure) -> (r: VarintError)
    ensures
        r == varint_error_of(f),
{
    match f {
        VarintFailure::BufferUnderflow => VarintError::Eof,
        VarintFailure::NumericOverflow => VarintError::Overflow,
    }
}

/// `n` varints read one after the other from `buf`: the values and the
/// number of bytes they took, or the failure of the first read that failed
/// and the number of bytes read up to and with it.
pub open spec fn varint_u32s(buf: Seq<u8>, n: nat) -> Result<(Seq<u32>, nat), (VarintFailure, nat)>
    decreases n,
{
    if n == 0 {
        Ok((Seq::empty(), 0))
    } else {
        match u32_varint_read(buf) {
            Err((f, k)) => Err((f, k)),
            Ok((v, k)) => match varint_u32s(buf.skip(k as int), (n - 1) as nat) {
                Err((f, m)) => Err((f, k + m)),
                Ok((vs, m)) => Ok((seq![v] + vs, k + m)),
            },
        }
    }
}

/// Reads `num_values` varint-encoded `u32` values from `tile`. The tile is
/// left past the bytes read, also where a read fails.
pub fn decode(tile: &mut TrackedBytes, num_values: usize) -> (r: Result<Vec<u32>, MltError>)
    ensures
        match varint_u32s(old(tile).data(), num_values as nat) {
            Ok((vs, k)) => {
                &&& r matches Ok(v) && v@ == vs && v.len() == num_values
                &&& k <= old(tile).data().len()
                &&& final(tile).data() == old(tile).data().skip(k as int)
                &&& final(tile).spec_offset() == old(tile).spec_offset() + k
            },
            Err((f, k)) => {
                &&& r matches Err(e) && e == MltError::Varint(varint_error_of(f))
                &&& k <= old(tile).data().len()
                &&& final(tile).data() == old(tile).data().skip(k as int)
                &&& final(tile).spec_offset() == old(tile).spec_offset() + k
            },
        },
{
    let ghost start = tile.data();
    let ghost start_offset = tile.spec_offset();
    proof {
        lemma_varint_u32s(start, num_values as nat);
    }
    let mut values: Vec<u32> = Vec::new();
    let mut i: usize = 0;
    let ghost mut consumed: nat = 0;
    while i < num_values
        invariant
            0 <= i <= num_values,
            start == old(tile).data(),
            start_offset == old(tile).spec_offset(),
            consumed <= start.len(),
            tile.data() == start.skip(consumed as int),
            tile.spec_offset() == start_offset + consumed,
            varint_u32s(start, num_values as nat) == match varint_u32s(
                tile.data(),
                (num_values - i) as nat,
            ) {
                Ok((vs, m)) => Ok((values@ + vs, consumed + m)),
                Err((f, m)) => Err::<(Seq<u32>, nat), (VarintFailure, nat)>((f, consumed + m)),
            },
        decreases num_values - i,
    {
        let ghost before = tile.data();
        let read = tile.try_get_u32_varint();
        let ghost k = match u32_varint_read(before) {
            Ok((_, k)) => k,
            Err((_, k)) => k,
        };
        proof {
            assert(tile.data() =~= start.skip((consumed + k) as int));
        }
        match read {
            Ok(v) => {
                proof {
                    match varint_u32s(tile.data(), (num_values - i - 1) as nat) {
                        Ok((vs, m)) => {
                            assert(values@.push(v) + vs =~= values@ + (seq![v] + vs));
                        },
                        Err(_) => {},
                    }
                    consumed = consumed + k;
                }
                values.push(v);
                i = i + 1;
            },
            Err(f) => {
                proof {
                    assert(varint_u32s(before, (num_values - i) as nat) == Err::<
                        (Seq<u32>, nat),
                        (VarintFailure, nat),
                    >((f, k)));
                }
                return Err(MltError::Varint(varint_error(f)));
            },
        }
    }
    proof {
        assert(values@ + Seq::<u32>::empty() =~= values@);
    }
    Ok(values)
}

/// Reading `n` varints that all read well yields exactly `n` values: the
/// first is the value of the first varint, the rest those read after its
/// bytes; the bytes taken are at most those of the buffer.
pub proof fn lemma_varint_u32s(buf: Seq<u8>, n: nat)
    ensures
        varint_u32s(buf, n) matches Ok((vs, k)) ==> vs.len() == n && k <= buf.len(),
        varint_u32s(buf, n) matches Err((_, k)) ==> k <= buf.len(),
        n > 0 ==> (varint_u32s(buf, n) matches Ok((vs, k)) ==> (u32_varint_read(buf) matches Ok(
            (v, k0),
        ) && vs[0] == v && varint_u32s(buf.skip(k0 as int), (n - 1) as nat) == Ok::<
            (Seq<u32>, nat),
            (VarintFailure, nat),
        >((vs.drop_first(), (k - k0) as nat)))),
    decreases n,
{
    if n > 0 {
        lemma_u32_varint_read_len(buf, 0, 0);
        match u32_varint_read(buf) {
            Ok((v, k0)) => {
                lemma_varint_u32s(buf.skip(k0 as int), (n - 1) as nat);
                match varint_u32s(buf.skip(k0 as int), (n - 1) as nat) {
                    Ok((vs, m)) => {
                        assert((seq![v] + vs).drop_first() =~= vs);
                    },
                    Err(_) => {},
                }
            },
            Err(_) => {},
        }
    }
}

/// A byte below `0x80` is a whole varint: its own value, one byte long.
pub proof fn lemma_varint_single_byte(b: u8, rest: Seq<u8>)
    requires
        b < 0x80,
    ensures
        u32_varint_read(seq![b] + rest) == Ok::<(u32, nat), (VarintFailure, nat)>((b as u32, 1)),
{
    assert((seq![b] + rest)[0] == b);
}

} // verus!
