use vstd::prelude::*;

use bytes::Buf;
use bytes::Bytes;
use bytes_varint::VarIntSupport;

verus! {

/// `bytes::Bytes`, the shared byte buffer a tile is read from.
#[verifier::external_type_specification]
#[verifier::external_body]
pub struct ExBytes(Bytes);

/// The bytes that a `bytes::Bytes` still holds, from its read position on.
pub uninterp spec fn bytes_contents(b: Bytes) -> Seq<u8>;

/// Why a varint read of `bytes_varint` failed; one variant for each variant
/// of `bytes_varint::VarIntError`.
#[derive(Debug, Clone, Copy, PartialEq, Eq, Structural)]
pub enum VarintFailure {
    BufferUnderflow,
    NumericOverflow,
}

/// `128` to the power `i`, for the byte positions of a `u32` varint.
pub open spec fn pow128(i: nat) -> nat {
    if i == 0 {
        1
    } else if i == 1 {
        0x80
    } else if i == 2 {
        0x4000
    } else if i == 3 {
        0x20_0000
    } else {
        0x1000_0000
    }
}

/// A `u32` varint read from byte `i` of `buf` on, with `acc` the value of
/// bytes `0..i`: each byte gives its low seven bits, least significant group
/// first, and a byte below `0x80` is the last. The fifth byte may only hold
/// four bits, else the value overflows; the buffer's end before the last
/// byte is an underflow. The count is that of the bytes read, the failing
/// byte included.
pub open spec fn u32_varint_read_from(buf: Seq<u8>, i: nat, acc: nat) -> Result<
    (u32, nat),
    (VarintFailure, nat),
>
    decreases 4 - i,
{
    if i >= buf.len() {
        Err((VarintFailure::BufferUnderflow, i))
    } else if i >= 4 && buf[i as int] >= 0x10 {
        Err((VarintFailure::NumericOverflow, i + 1))
    } else if buf[i as int] < 0x80 {
        Ok(((acc + (buf[i as int] % 0x80) * pow128(i)) as u32, i + 1))
    } else if i < 4 {
        u32_varint_read_from(buf, i + 1, (acc + (buf[i as int] % 0x80) * pow128(i)) as nat)
    } else {
        Err((VarintFailure::NumericOverflow, i + 1))
    }
}

/// What `bytes_varint::VarIntSupport::try_get_u32_varint` gives back when it
/// reads from a buffer that holds `buf`, with the number of bytes it reads.
pub open spec fn u32_varint_read(buf: Seq<u8>) -> Result<(u32, nat), (VarintFailure, nat)> {
    u32_varint_read_from(buf, 0, 0)
}

/// A varint read takes at least one byte where it succeeds, and never more
/// than the buffer holds.
pub proof fn lemma_u32_varint_read_len(buf: Seq<u8>, i: nat, acc: nat)
    requires
        i <= buf.len(),
    ensures
        match u32_varint_read_from(buf, i, acc) {
            Ok((_, n)) => i < n <= buf.len(),
            Err((_, n)) => i <= n <= buf.len(),
        },
    decreases 4 - i,
{
    if i < buf.len() && !(i >= 4 && buf[i as int] >= 0x10) && buf[i as int] >= 0x80 && i < 4 {
        lemma_u32_varint_read_len(buf, i + 1, (acc + (buf[i as int] % 0x80) * pow128(i)) as nat);
    }
}

/// `Bytes::from(Vec<u8>)`: the buffer holds exactly the bytes of the vector.
#[verifier::external_body]
fn bytes_from_vec(v: Vec<u8>) -> (b: Bytes)
    ensures
        bytes_contents(b) == v@,
{
    Bytes::from(v)
}

/// `Bytes::copy_from_slice`: the buffer holds a copy of the slice.
#[verifier::external_body]
fn bytes_copy_from_slice(s: &[u8]) -> (b: Bytes)
    ensures
        bytes_contents(b) == s@,
{
    Bytes::copy_from_slice(s)
}

/// `<Bytes as Buf>::remaining`: the number of bytes left to read.
#[verifier::external_body]
fn bytes_remaining(b: &Bytes) -> (r: usize)
    ensures
        r == bytes_contents(*b).len(),
{
    b.remaining()
}

/// `<Bytes as Buf>::get_u8`: returns the first byte and advances past it.
/// It panics on an empty buffer, which `requires` rules out, and does not
/// unwind otherwise.
#[verifier::external_body]
fn bytes_get_u8(b: &mut Bytes) -> (r: u8)
    requires
        bytes_contents(*old(b)).len() >= 1,
    ensures
        r == bytes_contents(*old(b))[0],
        bytes_contents(*final(b)) == bytes_contents(*old(b)).drop_first(),
    no_unwind
{
    b.get_u8()
}

/// `<Bytes as VarIntSupport>::try_get_u32_varint`, its error told apart into
/// `VarintFailure`: the result of `u32_varint_read` on the buffer's bytes,
/// the buffer advanced past the bytes it read, on success and on failure.
/// It only reads bytes that the buffer still holds and does not unwind.
#[verifier::external_body]
fn bytes_try_get_u32_varint(b: &mut Bytes) -> (r: Result<u32, VarintFailure>)
    ensures
        match u32_varint_read(bytes_contents(*old(b))) {
            Ok((v, n)) => {
                &&& r == Ok::<u32, VarintFailure>(v)
                &&& bytes_contents(*final(b)) == bytes_contents(*old(b)).skip(n as int)
            },
            Err((f, n)) => {
                &&& r == Err::<u32, VarintFailure>(f)
                &&& bytes_contents(*final(b)) == bytes_contents(*old(b)).skip(n as int)
            },
        },
    no_unwind
{
    match b.try_get_u32_varint() {
        Ok(v) => Ok(v),
        Err(bytes_varint::VarIntError::BufferUnderflow) => Err(VarintFailure::BufferUnderflow),
        Err(bytes_varint::VarIntError::NumericOverflow) => Err(VarintFailure::NumericOverflow),
    }
}

/// A byte buffer that counts how many bytes have been read from it.
pub struct TrackedBytes {
    bytes: Bytes,
    offset: usize,
}

impl TrackedBytes {
    /// The offset can always grow by what is left to read.
    #[verifier::type_invariant]
    closed spec fn inv(&self) -> bool {
        self.offset + bytes_contents(self.bytes).len() <= usize::MAX
    }

    /// The bytes not yet read.
    pub closed spec fn data(&self) -> Seq<u8> {
        bytes_contents(self.bytes)
    }

    /// The number of bytes read so far.
    pub closed spec fn spec_offset(&self) -> nat {
        self.offset as nat
    }

    /// A tracker over the bytes of `v`, nothing read yet.
    pub fn from_vec(v: Vec<u8>) -> (t: Self)
        ensures
            t.data() == v@,
            t.spec_offset() == 0,
    {
        proof {
            assert(v@.len() == v.len());
        }
        let bytes = bytes_from_vec(v);
        TrackedBytes { bytes, offset: 0 }
    }

    /// A tracker over a copy of `s`, nothing read yet.
    pub fn from_slice(s: &[u8]) -> (t: Self)
        ensures
            t.data() == s@,
            t.spec_offset() == 0,
    {
        proof {
            assert(s@.len() == s.len());
        }
        let bytes = bytes_copy_from_slice(s);
        TrackedBytes { bytes, offset: 0 }
    }

    /// How many bytes have been read.
    pub fn offset(&self) -> (r: usize)
        ensures
            r == self.spec_offset(),
    {
        self.offset
    }

    /// Reads one byte.
    pub fn get_u8(&mut self) -> (r: u8)
        requires
            old(self).data().len() >= 1,
        ensures
            r == old(self).data()[0],
            final(self).data() == old(self).data().drop_first(),
            final(self).spec_offset() == old(self).spec_offset() + 1,
    {
        proof {
            use_type_invariant(&*self);
        }
        let r = bytes_get_u8(&mut self.bytes);
        self.offset = self.offset + 1;
        r
    }

    /// Reads one varint-encoded `u32`, on success and on failure past the
    /// bytes that `u32_varint_read` reads; the offset grows by their number.
    pub fn try_get_u32_varint(&mut self) -> (r: Result<u32, VarintFailure>)
        ensures
            match u32_varint_read(old(self).data()) {
                Ok((v, n)) => {
                    &&& r == Ok::<u32, VarintFailure>(v)
                    &&& n <= old(self).data().len()
                    &&& final(self).data() == old(self).data().skip(n as int)
                    &&& final(self).spec_offset() == old(self).spec_offset() + n
                },
                Err((f, n)) => {
                    &&& r == Err::<u32, VarintFailure>(f)
                    &&& n <= old(self).data().len()
                    &&& final(self).data() == old(self).data().skip(n as int)
                    &&& final(self).spec_offset() == old(self).spec_offset() + n
                },
            },
    {
        proof {
            use_type_invariant(&*self);
            lemma_u32_varint_read_len(self.data(), 0, 0);
        }
        let before = bytes_remaining(&self.bytes);
        let r = bytes_try_get_u32_varint(&mut self.bytes);
        let after = bytes_remaining(&self.bytes);
        let consumed = before - after;
        self.offset = self.offset + consumed;
        r
    }
}

impl From<Vec<u8>> for TrackedBytes {
    fn from(v: Vec<u8>) -> (t: Self)
        ensures
            t.data() == v@,
            t.spec_offset() == 0,
    {
        TrackedBytes::from_vec(v)
    }
}

/// A tracker holds a `bytes::Bytes`, which no spec value can build from the
/// bytes alone, so `from` is no spec function of its argument; it states
/// what holds of its result in its own `ensures`.
impl vstd::std_specs::convert::FromSpecImpl<Vec<u8>> for TrackedBytes {
    open spec fn obeys_from_spec() -> bool {
        false
    }

    open spec fn from_spec(v: Vec<u8>) -> TrackedBytes {
        vstd::pervasive::arbitrary()
    }
}

impl<'a> From<&'a [u8]> for TrackedBytes {
    fn from(s: &'a [u8]) -> (t: Self)
        ensures
            t.data() == s@,
            t.spec_offset() == 0,
    {
        TrackedBytes::from_slice(s)
    }
}

/// As for `Vec<u8>`: `from` states what holds of its result in its own
/// `ensures`.
impl<'a> vstd::std_specs::convert::FromSpecImpl<&'a [u8]> for TrackedBytes {
    open spec fn obeys_from_spec() -> bool {
        false
    }

    open spec fn from_spec(s: &'a [u8]) -> TrackedBytes {
        vstd::pervasive::arbitrary()
    }
}

} // verus!
