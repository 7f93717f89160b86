use vstd::prelude::*;

use crate::decoder::helpers::{be_u32, be_words};

verus! {

/// Byte `k` (0 is the most significant) of the big-endian form of `v`.
pub open spec fn be_byte(v: u32, k: int) -> u8 {
    if k == 0 {
        (v / 0x100_0000) as u8
    } else if k == 1 {
        ((v / 0x1_0000) % 0x100) as u8
    } else if k == 2 {
        ((v / 0x100) % 0x100) as u8
    } else {
        (v % 0x100) as u8
    }
}

/// The big-endian bytes of `values`, four per value, in order.
pub open spec fn be_bytes(values: Seq<u32>) -> Seq<u8> {
    Seq::new(4 * values.len(), |j: int| be_byte(values[j / 4], j % 4))
}

/// The big-endian bytes of each value, in order.
pub fn encoded_u32s_to_bytes(values: &[u32]) -> (r: Vec<u8>)
    ensures
        r@ == be_bytes(values@),
{
    let mut bytes: Vec<u8> = Vec::new();
    let mut i: usize = 0;
    while i < values.len()
        invariant
            0 <= i <= values.len(),
            bytes@ == be_bytes(values@.take(i as int)),
        decreases values.len() - i,
    {
        let v = values[i];
        bytes.push((v / 0x100_0000) as u8);
        bytes.push(((v / 0x1_0000) % 0x100) as u8);
        bytes.push(((v / 0x100) % 0x100) as u8);
        bytes.push((v % 0x100) as u8);
        i = i + 1;
        proof {
            let pre = values@.take(i - 1);
            let cur = values@.take(i as int);
            assert forall|j: int| 0 <= j < 4 * cur.len() implies bytes@[j] == be_bytes(cur)[j] by {
                if j < 4 * (i - 1) {
                    assert(cur[j / 4] == pre[j / 4]);
                } else {
                    assert(j / 4 == i - 1);
                }
            }
            assert(bytes@ =~= be_bytes(cur));
        }
    }
    proof {
        assert(values@.take(values.len() as int) =~= values@);
    }
    bytes
}

/// The four big-endian bytes of a `u32` give it back.
pub proof fn lemma_be_u32_of_bytes(v: u32)
    ensures
        be_u32(be_byte(v, 0), be_byte(v, 1), be_byte(v, 2), be_byte(v, 3)) == v,
{
    assert(be_u32(be_byte(v, 0), be_byte(v, 1), be_byte(v, 2), be_byte(v, 3)) == v) by (nonlinear_arith);
}

/// Reading back the words of `encoded_u32s_to_bytes` gives the values it
/// was given: `be_words` inverts `be_bytes`.
pub proof fn lemma_be_words_of_be_bytes(values: Seq<u32>)
    ensures
        be_words(be_bytes(values), values.len()) == values,
{
    let bytes = be_bytes(values);
    assert forall|i: int| 0 <= i < values.len() implies be_words(bytes, values.len())[i] == values[i] by {
        assert((4 * i) / 4 == i);
        assert((4 * i + 1) / 4 == i && (4 * i + 1) % 4 == 1);
        assert((4 * i + 2) / 4 == i && (4 * i + 2) % 4 == 2);
        assert((4 * i + 3) / 4 == i && (4 * i + 3) % 4 == 3);
        lemma_be_u32_of_bytes(values[i]);
    }
    assert(be_words(bytes, values.len()) =~= values);
}

} // verus!
