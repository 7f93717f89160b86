use vstd::prelude::*;

use fastpfor::AnyLenCodec;
use fastpfor::FastPFor128;
use std::io;

use crate::decoder::helpers::be_words;
use crate::decoder::tracked_bytes::TrackedBytes;
use crate::decoder::varint::{self, varint_error_of, varint_u32s};
use crate::error::MltError;
use crate::metadata::stream::{Rle, StreamMetadata};
use crate::metadata::stream_encoding::{physical_technique_name, PhysicalLevelTechnique};

pub use crate::decoder::helpers::bytes_to_encoded_u32s;

verus! {

// ---------------------------------------------------------------------------
// FastPFor
// ---------------------------------------------------------------------------

/// What the pure-Rust `fastpfor::FastPFor128` codec leaves in a fresh
/// vector when it decodes `encoded` with no expected length: all values on
/// success; after an error, whatever the codec had written by then.
pub uninterp spec fn fastpfor128_output(encoded: Seq<u32>) -> Seq<u32>;

/// `<FastPFor128 as AnyLenCodec>::decode` with no expected length, into a
/// fresh vector; the vector as the call leaves it, whether the codec
/// reported success or an error.
#[verifier::external_body]
fn fastpfor128_decode(encoded: &Vec<u32>) -> (r: Vec<u32>)
    ensures
        r@ == fastpfor128_output(encoded@),
{
    let mut out = Vec::new();
    let _ = FastPFor128::default().decode(encoded, &mut out, None);
    out
}

/// `decoded` written into `num_values` zeros: its first values where it
/// has them, zero after its end.
pub open spec fn zero_padded(decoded: Seq<u32>, num_values: u32) -> Seq<u32> {
    Seq::new(num_values as nat, |i: int| if i < decoded.len() { decoded[i] } else { 0u32 })
}

/// The values of a FastPFor stream: what the codec decodes, written into a
/// buffer of as many zeros as the stream announces.
pub open spec fn fast_pfor_values(encoded: Seq<u32>, num_values: u32) -> Seq<u32> {
    zero_padded(fastpfor128_output(encoded), num_values)
}

/// The number of bytes a FastPFor stream of `byte_length` bytes is read in:
/// whole big-endian words.
pub open spec fn word_bytes(byte_length: u32) -> nat {
    4 * (byte_length / 4) as nat
}

/// Decodes the FastPFor stream that `stream_metadata` describes from the
/// `byte_length / 4` big-endian words at the front of `tile`.
pub fn decode_fast_pfor(tile: &mut TrackedBytes, stream_metadata: &StreamMetadata) -> (r: Vec<u32>)
    requires
        old(tile).data().len() >= word_bytes(stream_metadata.byte_length),
    ensures
        r@ == fast_pfor_values(
            be_words(old(tile).data(), (stream_metadata.byte_length / 4) as nat),
            stream_metadata.num_values,
        ),
        r.len() == stream_metadata.num_values,
        final(tile).data() == old(tile).data().skip(word_bytes(stream_metadata.byte_length) as int),
        final(tile).spec_offset() == old(tile).spec_offset() + word_bytes(
            stream_metadata.byte_length,
        ),
{
    let encoded_u32s = bytes_to_encoded_u32s(tile, stream_metadata.byte_length as usize);
    let decoded = fastpfor128_decode(&encoded_u32s);
    write_into_zeros(&decoded, stream_metadata.num_values)
}

/// Writes `decoded` into a buffer of `num_values` zeros; values past the
/// buffer's end are dropped.
pub fn write_into_zeros(decoded: &Vec<u32>, num_values: u32) -> (r: Vec<u32>)
    ensures
        r@ == zero_padded(decoded@, num_values),
        r.len() == num_values,
        forall|i: int| 0 <= i < num_values && i < decoded.len() ==> r@[i] == decoded@[i],
        forall|i: int| decoded.len() <= i < num_values ==> r@[i] == 0u32,
{
    let n = num_values as usize;
    let mut out = vec![0u32; n];
    let m = if decoded.len() < n { decoded.len() } else { n };
    let mut i: usize = 0;
    while i < m
        invariant
            0 <= i <= m,
            m <= n,
            m <= decoded.len(),
            n == num_values,
            out@.len() == n,
            forall|j: int| 0 <= j < i ==> out@[j] == decoded@[j],
            forall|j: int| i <= j < n ==> out@[j] == 0u32,
        decreases m - i,
    {
        out.set(i, decoded[i]);
        i = i + 1;
    }
    proof {
        assert(out@ =~= zero_padded(decoded@, num_values));
    }
    out
}

// ---------------------------------------------------------------------------
// Integer stream
// ---------------------------------------------------------------------------

/// The `u32` values as `i32`, bit for bit.
pub open spec fn as_i32s(values: Seq<u32>) -> Seq<i32> {
    values.map_values(|x: u32| x as i32)
}

/// Casts each value to `i32`, bit for bit.
pub fn to_i32s(values: Vec<u32>) -> (r: Vec<i32>)
    ensures
        r@ == as_i32s(values@),
        r.len() == values.len(),
        forall|j: int| 0 <= j < values.len() ==> r@[j] == values@[j] as i32,
{
    let mut out: Vec<i32> = Vec::new();
    let mut i: usize = 0;
    while i < values.len()
        invariant
            0 <= i <= values.len(),
            out@ == as_i32s(values@.take(i as int)),
        decreases values.len() - i,
    {
        out.push(values[i] as i32);
        i = i + 1;
        proof {
            assert(out@ =~= as_i32s(values@.take(i as int)));
        }
    }
    proof {
        assert(values@.take(values.len() as int) =~= values@);
    }
    out
}

/// Decodes an integer stream by its physical technique: FastPfor and Varint
/// are decoded, any other technique is refused with
/// `MltError::UnsupportedIntStreamTechnique` and the tile left as it was.
pub fn decode_int_stream(
    tile: &mut TrackedBytes,
    stream_metadata: &StreamMetadata,
    is_signed: bool,
) -> (r: Result<Vec<i32>, MltError>)
    requires
        stream_metadata.physical.technique == PhysicalLevelTechnique::FastPfor ==> old(
            tile,
        ).data().len() >= word_bytes(stream_metadata.byte_length),
    ensures
        match stream_metadata.physical.technique {
            PhysicalLevelTechnique::FastPfor => {
                &&& r matches Ok(v) && v.len() == stream_metadata.num_values && v@ == as_i32s(
                    fast_pfor_values(
                        be_words(old(tile).data(), (stream_metadata.byte_length / 4) as nat),
                        stream_metadata.num_values,
                    ),
                )
                &&& final(tile).data() == old(tile).data().skip(
                    word_bytes(stream_metadata.byte_length) as int,
                )
                &&& final(tile).spec_offset() == old(tile).spec_offset() + word_bytes(
                    stream_metadata.byte_length,
                )
            },
            PhysicalLevelTechnique::Varint => match varint_u32s(
                old(tile).data(),
                stream_metadata.num_values as nat,
            ) {
                Ok((vs, k)) => {
                    &&& r matches Ok(v) && v@ == as_i32s(vs) && v.len()
                        == stream_metadata.num_values
                    &&& final(tile).data() == old(tile).data().skip(k as int)
                    &&& final(tile).spec_offset() == old(tile).spec_offset() + k
                },
                Err((f, k)) => {
                    &&& r matches Err(e) && e == MltError::Varint(varint_error_of(f))
                    &&& final(tile).data() == old(tile).data().skip(k as int)
                    &&& final(tile).spec_offset() == old(tile).spec_offset() + k
                },
            },
            _ => {
                &&& r matches Err(e) && e matches MltError::UnsupportedIntStreamTechnique(s)
                    && s@ == physical_technique_name(stream_metadata.physical.technique)
                &&& *final(tile) == *old(tile)
            },
        },
{
    let values = match stream_metadata.physical.technique {
        PhysicalLevelTechnique::FastPfor => decode_fast_pfor(tile, stream_metadata),
        PhysicalLevelTechnique::Varint => {
            match varint::decode(tile, stream_metadata.num_values as usize) {
                Ok(v) => v,
                Err(e) => {
                    return Err(e);
                },
            }
        },
        _ => {
            return Err(
                MltError::UnsupportedIntStreamTechnique(
                    stream_metadata.physical.technique.name(),
                ),
            );
        },
    };
    Ok(to_i32s(values))
}

// ---------------------------------------------------------------------------
// Run-length decoding
// ---------------------------------------------------------------------------

/// `num_traits::ToPrimitive::to_usize` on a `u32`: the value where `usize`
/// can hold it, else `None`.
#[verifier::external_body]
fn u32_to_usize(x: u32) -> (r: Option<usize>)
    ensures
        r == (if x as int <= usize::MAX { Some(x as usize) } else { None::<usize> }),
{
    num_traits::ToPrimitive::to_usize(&x)
}

/// `num_traits::ToPrimitive::to_usize` on a `u64`: the value where `usize`
/// can hold it, else `None`.
#[verifier::external_body]
fn u64_to_usize(x: u64) -> (r: Option<usize>)
    ensures
        r == (if x as int <= usize::MAX { Some(x as usize) } else { None::<usize> }),
{
    num_traits::ToPrimitive::to_usize(&x)
}

/// `num_traits::ToPrimitive::to_usize` on an `i32`: the value where it is
/// not negative and `usize` can hold it, else `None`.
#[verifier::external_body]
fn i32_to_usize(x: i32) -> (r: Option<usize>)
    ensures
        r == (if 0 <= x as int <= usize::MAX { Some(x as usize) } else { None::<usize> }),
{
    num_traits::ToPrimitive::to_usize(&x)
}

/// `num_traits::ToPrimitive::to_usize` on an `i64`: the value where it is
/// not negative and `usize` can hold it, else `None`.
#[verifier::external_body]
fn i64_to_usize(x: i64) -> (r: Option<usize>)
    ensures
        r == (if 0 <= x as int <= usize::MAX { Some(x as usize) } else { None::<usize> }),
{
    num_traits::ToPrimitive::to_usize(&x)
}

/// The primitive integers a run-length stream can hold. Run lengths and
/// values share the type; a run length is the value taken as a `usize`.
pub trait RleInt: Copy {
    /// The value as a mathematical integer.
    spec fn as_int(self) -> int;

    /// The value as a `usize`, where it is one.
    fn to_usize(self) -> (r: Option<usize>)
        ensures
            r == (if 0 <= self.as_int() <= usize::MAX {
                Some(self.as_int() as usize)
            } else {
                None::<usize>
            }),
    ;
}

impl RleInt for u32 {
    open spec fn as_int(self) -> int {
        self as int
    }

    fn to_usize(self) -> (r: Option<usize>)
        ensures
            r == (if self as int <= usize::MAX { Some(self as usize) } else { None::<usize> }),
    {
        u32_to_usize(self)
    }
}

impl RleInt for u64 {
    open spec fn as_int(self) -> int {
        self as int
    }

    fn to_usize(self) -> (r: Option<usize>)
        ensures
            r == (if self as int <= usize::MAX { Some(self as usize) } else { None::<usize> }),
    {
        u64_to_usize(self)
    }
}

impl RleInt for i32 {
    open spec fn as_int(self) -> int {
        self as int
    }

    fn to_usize(self) -> (r: Option<usize>)
        ensures
            r == (if 0 <= self as int <= usize::MAX {
                Some(self as usize)
            } else {
                None::<usize>
            }),
    {
        i32_to_usize(self)
    }
}

impl RleInt for i64 {
    open spec fn as_int(self) -> int {
        self as int
    }

    fn to_usize(self) -> (r: Option<usize>)
        ensures
            r == (if 0 <= self as int <= usize::MAX {
                Some(self as usize)
            } else {
                None::<usize>
            }),
    {
        i64_to_usize(self)
    }
}

/// A run of `n` copies of `v`.
pub open spec fn run_of<T>(v: T, n: int) -> Seq<T> {
    Seq::new(n as nat, |_j: int| v)
}

/// The expansion of the first `k` runs: `values[i]` repeated `runs[i]` times,
/// for each `i < k`, in order.
pub open spec fn rle_expand_prefix<T: RleInt>(runs: Seq<T>, values: Seq<T>, k: nat) -> Seq<T>
    decreases k,
{
    if k == 0 {
        Seq::empty()
    } else {
        rle_expand_prefix(runs, values, (k - 1) as nat) + run_of(
            values[k - 1],
            runs[k - 1].as_int(),
        )
    }
}

/// The expansion of all runs.
pub open spec fn rle_expand<T: RleInt>(runs: Seq<T>, values: Seq<T>) -> Seq<T> {
    rle_expand_prefix(runs, values, runs.len())
}

/// The total length of the first `k` runs.
pub open spec fn run_total<T: RleInt>(runs: Seq<T>, k: nat) -> int
    decreases k,
{
    if k == 0 {
        0
    } else {
        run_total(runs, (k - 1) as nat) + runs[k - 1].as_int()
    }
}

/// Every run length can be used as a `usize`.
pub open spec fn valid_runs<T: RleInt>(runs: Seq<T>) -> bool {
    forall|i: int| 0 <= i < runs.len() ==> 0 <= #[trigger] runs[i].as_int() <= usize::MAX
}

/// Builds the error of a run-length stream whose data has the wrong length.
#[verifier::external_body]
fn rle_length_message(got: usize, expected: u64) -> String {
    format!("Unexpected RLE data length: got {}, expected {}", got, expected)
}

/// `std::io::Error::new` with `io::ErrorKind::InvalidData`.
#[verifier::external_body]
fn invalid_data_error(message: String) -> io::Error {
    io::Error::new(io::ErrorKind::InvalidData, message)
}

/// `<serde_columnar::ColumnarError as From<io::Error>>::from`.
#[verifier::external_body]
fn columnar_error_from_io(e: io::Error) -> serde_columnar::ColumnarError {
    serde_columnar::ColumnarError::from(e)
}

/// Decodes run-length encoded data: the first `rle_meta.runs` items of
/// `data` are run lengths, the next as many the values. The data must hold
/// exactly twice as many items as there are runs, else the result is
/// `MltError::RleDecode`.
pub fn decode_rle<T: RleInt>(data: &[T], rle_meta: &Rle) -> (r: Result<Vec<T>, MltError>)
    requires
        data.len() == 2 * rle_meta.runs ==> valid_runs(data@.take(rle_meta.runs as int)),
    ensures
        data.len() == 2 * rle_meta.runs ==> (r matches Ok(v) && v@ == rle_expand(
            data@.take(rle_meta.runs as int),
            data@.skip(rle_meta.runs as int),
        )),
        data.len() != 2 * rle_meta.runs ==> (r matches Err(e) && e is RleDecode),
{
    let runs = rle_meta.runs as usize;
    if !(data.len() % 2 == 0 && data.len() / 2 == runs) {
        let expected: u64 = (rle_meta.runs as u64) * 2;
        let message = rle_length_message(data.len(), expected);
        return Err(MltError::RleDecode(columnar_error_from_io(invalid_data_error(message))));
    }
    let ghost run_lens = data@.take(runs as int);
    let ghost values = data@.skip(runs as int);
    let mut result: Vec<T> = Vec::new();
    let mut i: usize = 0;
    while i < runs
        invariant
            0 <= i <= runs,
            data.len() == 2 * runs,
            run_lens == data@.take(runs as int),
            values == data@.skip(runs as int),
            valid_runs(run_lens),
            result@ == rle_expand_prefix(run_lens, values, i as nat),
        decreases runs - i,
    {
        let run = data[i];
        let val = data[runs + i];
        proof {
            assert(run == run_lens[i as int]);
            assert(val == values[i as int]);
            assert(0 <= run_lens[i as int].as_int() <= usize::MAX);
        }
        let count = run.to_usize().unwrap();
        let ghost prefix = result@;
        let mut j: usize = 0;
        while j < count
            invariant
                0 <= j <= count,
                result@ == prefix + run_of(val, j as int),
            decreases count - j,
        {
            result.push(val);
            j = j + 1;
            proof {
                assert(result@ =~= prefix + run_of(val, j as int));
            }
        }
        i = i + 1;
    }
    Ok(result)
}

/// The expansion of the runs is as long as the runs add up to.
pub proof fn lemma_rle_expand_len<T: RleInt>(runs: Seq<T>, values: Seq<T>)
    requires
        valid_runs(runs),
    ensures
        rle_expand(runs, values).len() == run_total(runs, runs.len()),
{
    lemma_rle_expand_prefix_len(runs, values, runs.len());
}

proof fn lemma_rle_expand_prefix_len<T: RleInt>(runs: Seq<T>, values: Seq<T>, k: nat)
    requires
        valid_runs(runs),
        k <= runs.len(),
    ensures
        rle_expand_prefix(runs, values, k).len() == run_total(runs, k),
    decreases k,
{
    if k > 0 {
        lemma_rle_expand_prefix_len(runs, values, (k - 1) as nat);
        assert(0 <= runs[k - 1].as_int());
    }
}

// ---------------------------------------------------------------------------
// ZigZag decoding
// ---------------------------------------------------------------------------

/// The signed integer that the ZigZag code `u` stands for: even codes are
/// the non-negative numbers, odd codes the negative ones
/// (0, -1, 1, -2, 2, ... for 0, 1, 2, 3, 4, ...).
pub open spec fn zigzag_value(u: int) -> int {
    if u % 2 == 0 {
        u / 2
    } else {
        -((u + 1) / 2)
    }
}

/// The ZigZag code of a signed integer.
pub open spec fn zigzag_code(x: int) -> int {
    if x >= 0 {
        2 * x
    } else {
        -2 * x - 1
    }
}

/// `<i32 as zigzag::ZigZag>::decode`.
#[verifier::external_body]
fn zigzag_decode_i32(u: u32) -> (r: i32)
    ensures
        r as int == zigzag_value(u as int),
{
    <i32 as zigzag::ZigZag>::decode(u)
}

/// `<i64 as zigzag::ZigZag>::decode`.
#[verifier::external_body]
fn zigzag_decode_i64(u: u64) -> (r: i64)
    ensures
        r as int == zigzag_value(u as int),
{
    <i64 as zigzag::ZigZag>::decode(u)
}

/// Signed integers with a ZigZag code of the unsigned type of their width.
pub trait ZigZagInt: Sized + Copy {
    type UInt: Copy;

    /// The value that the code `u` stands for.
    spec fn spec_zigzag_decode(u: Self::UInt) -> Self;

    /// Decodes one ZigZag code.
    fn zigzag_decode(u: Self::UInt) -> (r: Self)
        ensures
            r == Self::spec_zigzag_decode(u),
    ;
}

impl ZigZagInt for i32 {
    type UInt = u32;

    open spec fn spec_zigzag_decode(u: u32) -> i32 {
        zigzag_value(u as int) as i32
    }

    fn zigzag_decode(u: u32) -> (r: i32)
        ensures
            2 * (r as int) == u as int || 2 * (r as int) == -(u as int) - 1,
            (u as int) % 2 == 0 <==> r >= 0,
    {
        zigzag_decode_i32(u)
    }
}

impl ZigZagInt for i64 {
    type UInt = u64;

    open spec fn spec_zigzag_decode(u: u64) -> i64 {
        zigzag_value(u as int) as i64
    }

    fn zigzag_decode(u: u64) -> (r: i64)
        ensures
            2 * (r as int) == u as int || 2 * (r as int) == -(u as int) - 1,
            (u as int) % 2 == 0 <==> r >= 0,
    {
        zigzag_decode_i64(u)
    }
}

/// Decodes each ZigZag code of `data`; it never fails.
pub fn decode_zigzag<T: ZigZagInt>(data: &[T::UInt]) -> (r: Result<Vec<T>, MltError>)
    ensures
        r matches Ok(v) && v@ == data@.map_values(|u: T::UInt| T::spec_zigzag_decode(u)),
{
    let mut decoded: Vec<T> = Vec::new();
    let mut i: usize = 0;
    while i < data.len()
        invariant
            0 <= i <= data.len(),
            decoded@ == data@.take(i as int).map_values(|u: T::UInt| T::spec_zigzag_decode(u)),
        decreases data.len() - i,
    {
        decoded.push(T::zigzag_decode(data[i]));
        i = i + 1;
        proof {
            assert(decoded@ =~= data@.take(i as int).map_values(
                |u: T::UInt| T::spec_zigzag_decode(u),
            ));
        }
    }
    proof {
        assert(data@.take(data.len() as int) =~= data@);
    }
    Ok(decoded)
}

/// Every `u32` code stands for an `i32`, and every `u64` code for an `i64`.
pub proof fn lemma_zigzag_value_range(u: int)
    ensures
        0 <= u <= u32::MAX ==> i32::MIN <= zigzag_value(u) <= i32::MAX,
        0 <= u <= u64::MAX ==> i64::MIN <= zigzag_value(u) <= i64::MAX,
{
}

/// Decoding undoes ZigZag encoding: the code of a value decodes to it.
pub proof fn lemma_zigzag_decode_encode(x: int)
    ensures
        zigzag_value(zigzag_code(x)) == x,
        i32::MIN <= x <= i32::MAX ==> 0 <= zigzag_code(x) <= u32::MAX,
        i64::MIN <= x <= i64::MAX ==> 0 <= zigzag_code(x) <= u64::MAX,
{
}

/// Encoding undoes ZigZag decoding: the value of a code encodes to it, so
/// no two codes decode to one value.
pub proof fn lemma_zigzag_encode_decode(u: int)
    requires
        u >= 0,
    ensures
        zigzag_code(zigzag_value(u)) == u,
{
}

// ---------------------------------------------------------------------------
// Techniques still to come; each decodes to no values yet.
// ---------------------------------------------------------------------------

/// ZigZag delta decoding; decodes to no values yet.
pub fn decode_zigzag_delta() -> (r: Result<Vec<i32>, MltError>)
    ensures
        r matches Ok(v) && v@.len() == 0,
{
    Ok(Vec::new())
}

/// Component-wise delta decoding of 2D vectors; decodes to no values yet.
pub fn decode_componentwise_delta_vec2() -> (r: Result<Vec<i32>, MltError>)
    ensures
        r matches Ok(v) && v@.len() == 0,
{
    Ok(Vec::new())
}

/// Morton decoding; decodes to no values yet.
pub fn decode_morton() -> (r: Result<Vec<i32>, MltError>)
    ensures
        r matches Ok(v) && v@.len() == 0,
{
    Ok(Vec::new())
}

/// Decoding of one Morton code; decodes to no values yet.
pub fn decode_morton_code() -> (r: Result<Vec<i32>, MltError>)
    ensures
        r matches Ok(v) && v@.len() == 0,
{
    Ok(Vec::new())
}

/// Decoding of Morton codes; decodes to no values yet.
pub fn decode_morton_codes() -> (r: Result<Vec<i32>, MltError>)
    ensures
        r matches Ok(v) && v@.len() == 0,
{
    Ok(Vec::new())
}

// ---------------------------------------------------------------------------
// Laws
// ---------------------------------------------------------------------------

/// The `i32` values of a stream are its `u32` values cast bit for bit,
/// position by position.
pub proof fn lemma_as_i32s(values: Seq<u32>)
    ensures
        as_i32s(values).len() == values.len(),
        forall|j: int| 0 <= j < values.len() ==> #[trigger] as_i32s(values)[j] == values[j] as i32,
{
}

/// Writing decoded values into `num_values` zeros keeps every value that
/// fits, and leaves zero only past the decoded values.
pub proof fn lemma_zero_padded(decoded: Seq<u32>, num_values: u32)
    ensures
        zero_padded(decoded, num_values).len() == num_values,
        forall|i: int|
            0 <= i < num_values && i < decoded.len() ==> #[trigger] zero_padded(
                decoded,
                num_values,
            )[i] == decoded[i],
        forall|i: int|
            decoded.len() <= i < num_values ==> #[trigger] zero_padded(decoded, num_values)[i]
                == 0u32,
{
}

/// A run length is the number it holds, for each integer type.
pub proof fn lemma_run_length_is_value(a: u32, b: u64, c: i32, d: i64)
    ensures
        a.as_int() == a as int,
        b.as_int() == b as int,
        c.as_int() == c as int,
        d.as_int() == d as int,
{
}

/// One run of length `r` with value `v` expands to exactly `r` copies of `v`.
pub proof fn lemma_rle_single_run_u32(r: u32, v: u32)
    ensures
        rle_expand(seq![r], seq![v]).len() == r as int,
        forall|j: int| 0 <= j < r ==> #[trigger] rle_expand(seq![r], seq![v])[j] == v,
{
    reveal_with_fuel(rle_expand_prefix, 2);
    assert(rle_expand_prefix(seq![r], seq![v], 0) =~= Seq::<u32>::empty());
}

/// One run of length `r` with value `v` expands to exactly `r` copies of `v`.
pub proof fn lemma_rle_single_run_i64(r: i64, v: i64)
    requires
        r >= 0,
    ensures
        rle_expand(seq![r], seq![v]).len() == r as int,
        forall|j: int| 0 <= j < r ==> #[trigger] rle_expand(seq![r], seq![v])[j] == v,
{
    reveal_with_fuel(rle_expand_prefix, 2);
    assert(rle_expand_prefix(seq![r], seq![v], 0) =~= Seq::<i64>::empty());
}

proof fn lemma_rle_prefix_agree<T: RleInt>(
    runs1: Seq<T>,
    values1: Seq<T>,
    runs2: Seq<T>,
    values2: Seq<T>,
    k: nat,
)
    requires
        k <= runs1.len(),
        k <= runs2.len(),
        k <= values1.len(),
        k <= values2.len(),
        forall|i: int| 0 <= i < k ==> runs1[i] == runs2[i] && values1[i] == values2[i],
    ensures
        rle_expand_prefix(runs1, values1, k) == rle_expand_prefix(runs2, values2, k),
    decreases k,
{
    if k > 0 {
        lemma_rle_prefix_agree(runs1, values1, runs2, values2, (k - 1) as nat);
    }
}

proof fn lemma_rle_concat_prefix<T: RleInt>(
    runs1: Seq<T>,
    values1: Seq<T>,
    runs2: Seq<T>,
    values2: Seq<T>,
    k: nat,
)
    requires
        runs1.len() == values1.len(),
        runs2.len() == values2.len(),
        k <= runs2.len(),
    ensures
        rle_expand_prefix(runs1 + runs2, values1 + values2, runs1.len() + k) == rle_expand(
            runs1,
            values1,
        ) + rle_expand_prefix(runs2, values2, k),
    decreases k,
{
    let runs = runs1 + runs2;
    let values = values1 + values2;
    if k == 0 {
        lemma_rle_prefix_agree(runs, values, runs1, values1, runs1.len());
        assert(rle_expand(runs1, values1) + Seq::<T>::empty() =~= rle_expand(runs1, values1));
    } else {
        lemma_rle_concat_prefix(runs1, values1, runs2, values2, (k - 1) as nat);
        let n = runs1.len() + k;
        assert(runs[n - 1] == runs2[k - 1]);
        assert(values[n - 1] == values2[k - 1]);
        assert(rle_expand_prefix(runs, values, n) =~= rle_expand(runs1, values1)
            + rle_expand_prefix(runs2, values2, k));
    }
}

/// Run-length decoding of two streams one after the other expands to the
/// two expansions one after the other.
pub proof fn lemma_rle_expand_concat<T: RleInt>(
    runs1: Seq<T>,
    values1: Seq<T>,
    runs2: Seq<T>,
    values2: Seq<T>,
)
    requires
        runs1.len() == values1.len(),
        runs2.len() == values2.len(),
    ensures
        rle_expand(runs1 + runs2, values1 + values2) == rle_expand(runs1, values1) + rle_expand(
            runs2,
            values2,
        ),
{
    lemma_rle_concat_prefix(runs1, values1, runs2, values2, runs2.len());
}

/// Each decoded `i32` has its code as ZigZag code: codes of non-negative
/// values are twice the value, codes of negative ones one less than minus
/// twice the value.
pub proof fn lemma_zigzag_i32_code(u: u32)
    ensures
        ({
            let x = <i32 as ZigZagInt>::spec_zigzag_decode(u) as int;
            if x >= 0 {
                2 * x == u as int
            } else {
                -2 * x - 1 == u as int
            }
        }),
{
}

/// Each decoded `i64` has its code as ZigZag code: codes of non-negative
/// values are twice the value, codes of negative ones one less than minus
/// twice the value.
pub proof fn lemma_zigzag_i64_code(u: u64)
    ensures
        ({
            let x = <i64 as ZigZagInt>::spec_zigzag_decode(u) as int;
            if x >= 0 {
                2 * x == u as int
            } else {
                -2 * x - 1 == u as int
            }
        }),
{
}

} // verus!
