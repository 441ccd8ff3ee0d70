//! Byte-level primitives shared by every codec: a cursor over a byte
//! buffer, big-endian images of the fixed-width integers, and the padding
//! rule that aligns every AVP to a 32-bit boundary.

use vstd::prelude::*;

use crate::error::Error;

verus! {

/// The 16-bit value read from two big-endian bytes.
pub open spec fn be16_val(b: Seq<u8>) -> u16 {
    ((b[0] as int) * 0x100 + (b[1] as int)) as u16
}

/// Big-endian image of the low 24 bits of `v`: three bytes, high first.
/// The high byte of the 32-bit input is dropped, as the wire format asks.
pub open spec fn be24(v: u32) -> Seq<u8> {
    seq![((v / 0x10000) % 0x100) as u8, ((v / 0x100) % 0x100) as u8, (v % 0x100) as u8]
}

/// The 24-bit value read from three big-endian bytes.
pub open spec fn be24_val(b: Seq<u8>) -> u32 {
    ((b[0] as int) * 0x10000 + (b[1] as int) * 0x100 + (b[2] as int)) as u32
}

/// Big-endian image of a 32-bit value: four bytes, high first.
pub open spec fn be32(v: u32) -> Seq<u8> {
    seq![
        (v / 0x1000000) as u8,
        ((v / 0x10000) % 0x100) as u8,
        ((v / 0x100) % 0x100) as u8,
        (v % 0x100) as u8,
    ]
}

/// The 32-bit value read from four big-endian bytes.
pub open spec fn be32_val(b: Seq<u8>) -> u32 {
    ((b[0] as int) * 0x1000000 + (b[1] as int) * 0x10000 + (b[2] as int) * 0x100
        + (b[3] as int)) as u32
}

/// Big-endian image of a 64-bit value: eight bytes, high first.
pub open spec fn be64(v: u64) -> Seq<u8> {
    seq![
        (v / 0x100000000000000) as u8,
        ((v / 0x1000000000000) % 0x100) as u8,
        ((v / 0x10000000000) % 0x100) as u8,
        ((v / 0x100000000) % 0x100) as u8,
        ((v / 0x1000000) % 0x100) as u8,
        ((v / 0x10000) % 0x100) as u8,
        ((v / 0x100) % 0x100) as u8,
        (v % 0x100) as u8,
    ]
}

/// The 64-bit value read from eight big-endian bytes.
pub open spec fn be64_val(b: Seq<u8>) -> u64 {
    ((b[0] as int) * 0x100000000000000 + (b[1] as int) * 0x1000000000000 + (b[2] as int)
        * 0x10000000000 + (b[3] as int) * 0x100000000 + (b[4] as int) * 0x1000000 + (b[5] as int)
        * 0x10000 + (b[6] as int) * 0x100 + (b[7] as int)) as u64
}

/// The 32-bit two's-complement image of a signed 32-bit value.
pub open spec fn u32_of_i32(v: i32) -> u32 {
    if v >= 0 {
        v as u32
    } else {
        ((v as int) + 0x100000000) as u32
    }
}

/// The signed 32-bit value whose two's-complement image is `v`.
pub open spec fn i32_of_u32(v: u32) -> i32 {
    if v < 0x80000000 {
        v as i32
    } else {
        ((v as int) - 0x100000000) as i32
    }
}

/// The 64-bit two's-complement image of a signed 64-bit value.
pub open spec fn u64_of_i64(v: i64) -> u64 {
    if v >= 0 {
        v as u64
    } else {
        ((v as int) + 0x10000000000000000) as u64
    }
}

/// The signed 64-bit value whose two's-complement image is `v`.
pub open spec fn i64_of_u64(v: u64) -> i64 {
    if v < 0x8000000000000000 {
        v as i64
    } else {
        ((v as int) - 0x10000000000000000) as i64
    }
}

/// A run of `n` zero bytes, as emitted for AVP padding.
pub open spec fn zeros(n: int) -> Seq<u8> {
    Seq::new(n as nat, |i: int| 0u8)
}

/// Pad bytes that bring a value of `len` bytes to a 32-bit boundary.
pub open spec fn pad_of(len: int) -> int {
    (4 - (len % 4)) % 4
}

pub proof fn lemma_be24_roundtrip(v: u32)
    requires
        v <= 0xFFFFFF,
    ensures
        be24_val(be24(v)) == v,
{
    assert((((v / 0x10000) % 0x100) as u8) * 0x10000 + (((v / 0x100) % 0x100) as u8) * 0x100 + ((v
        % 0x100) as u8) == v) by (bit_vector)
        requires
            v <= 0xFFFFFF,
    ;
}

pub proof fn lemma_be32_roundtrip(v: u32)
    ensures
        be32_val(be32(v)) == v,
{
    assert(((v / 0x1000000) as u8) * 0x1000000 + (((v / 0x10000) % 0x100) as u8) * 0x10000 + (((v
        / 0x100) % 0x100) as u8) * 0x100 + ((v % 0x100) as u8) == v) by (bit_vector);
}

pub proof fn lemma_be64_roundtrip(v: u64)
    ensures
        be64_val(be64(v)) == v,
{
    assert(((v / 0x100000000000000) as u8) * 0x100000000000000 + (((v / 0x1000000000000)
        % 0x100) as u8) * 0x1000000000000 + (((v / 0x10000000000) % 0x100) as u8) * 0x10000000000
        + (((v / 0x100000000) % 0x100) as u8) * 0x100000000 + (((v / 0x1000000) % 0x100) as u8)
        * 0x1000000 + (((v / 0x10000) % 0x100) as u8) * 0x10000 + (((v / 0x100) % 0x100) as u8)
        * 0x100 + ((v % 0x100) as u8) == v) by (bit_vector);
}

pub proof fn lemma_i32_roundtrip(v: i32)
    ensures
        i32_of_u32(u32_of_i32(v)) == v,
{
}

pub proof fn lemma_u32_of_i32_roundtrip(v: u32)
    ensures
        u32_of_i32(i32_of_u32(v)) == v,
{
}

pub proof fn lemma_i64_roundtrip(v: i64)
    ensures
        i64_of_u64(u64_of_i64(v)) == v,
{
}

pub proof fn lemma_u64_of_i64_roundtrip(v: u64)
    ensures
        u64_of_i64(i64_of_u64(v)) == v,
{
}

/// A position-tracking reader over an owned byte buffer; every decoder
/// consumes its input through one of these.
pub struct Cursor {
    data: Vec<u8>,
    pos: usize,
}

impl Cursor {
    /// The whole underlying buffer.
    pub closed spec fn contents(&self) -> Seq<u8> {
        self.data@
    }

    /// The read position; bytes before it have been consumed.
    pub closed spec fn offset(&self) -> int {
        self.pos as int
    }

    /// A cursor is well formed when its position lies within the buffer.
    pub open spec fn wf(&self) -> bool {
        0 <= self.offset() <= self.contents().len()
    }

    pub fn new(data: Vec<u8>) -> (c: Cursor)
        ensures
            c.contents() == data@,
            c.offset() == 0,
            c.wf(),
    {
        Cursor { data, pos: 0 }
    }

    pub fn remaining(&self) -> (r: usize)
        requires
            self.wf(),
        ensures
            r == self.contents().len() - self.offset(),
    {
        self.data.len() - self.pos
    }

    /// Reads one byte, advancing by one; fails exactly when the buffer is
    /// exhausted.
    pub fn read_u8(&mut self) -> (r: Result<u8, Error>)
        requires
            old(self).wf(),
        ensures
            final(self).contents() == old(self).contents(),
            final(self).wf(),
            r is Ok <==> old(self).offset() + 1 <= old(self).contents().len(),
            r matches Ok(b) ==> {
                &&& final(self).offset() == old(self).offset() + 1
                &&& b == old(self).contents()[old(self).offset()]
            },
            r is Err ==> final(self).offset() == old(self).offset() && r->Err_0 is DecodeError,
    {
        if self.pos < self.data.len() {
            let b = self.data[self.pos];
            self.pos = self.pos + 1;
            Ok(b)
        } else {
            Err(Error::DecodeError("unexpected end of data".to_owned()))
        }
    }

    /// Reads `n` bytes, advancing by `n`; fails exactly when fewer than
    /// `n` bytes remain, and then leaves the position unchanged.
    pub fn read_bytes(&mut self, n: usize) -> (r: Result<Vec<u8>, Error>)
        requires
            old(self).wf(),
        ensures
            final(self).contents() == old(self).contents(),
            final(self).wf(),
            r is Ok <==> old(self).offset() + n <= old(self).contents().len(),
            r matches Ok(v) ==> {
                &&& final(self).offset() == old(self).offset() + n
                &&& v@ == old(self).contents().subrange(
                    old(self).offset(),
                    old(self).offset() + n,
                )
            },
            r is Err ==> final(self).offset() == old(self).offset() && r->Err_0 is DecodeError,
    {
        if n <= self.data.len() - self.pos {
            let mut v: Vec<u8> = Vec::new();
            let mut i: usize = 0;
            while i < n
                invariant
                    0 <= i <= n,
                    self.pos + n <= self.data.len(),
                    v@ == self.data@.subrange(self.pos as int, self.pos + i),
                decreases n - i,
            {
                v.push(self.data[self.pos + i]);
                i = i + 1;
                proof {
                    assert(v@ =~= self.data@.subrange(self.pos as int, self.pos + i));
                }
            }
            self.pos = self.pos + n;
            Ok(v)
        } else {
            Err(Error::DecodeError("unexpected end of data".to_owned()))
        }
    }

    /// Advances by `n` without looking at the bytes (used to skip AVP
    /// padding); fails exactly when fewer than `n` bytes remain.
    pub fn skip(&mut self, n: usize) -> (r: Result<(), Error>)
        requires
            old(self).wf(),
        ensures
            final(self).contents() == old(self).contents(),
            final(self).wf(),
            r is Ok <==> old(self).offset() + n <= old(self).contents().len(),
            r is Ok ==> final(self).offset() == old(self).offset() + n,
            r is Err ==> final(self).offset() == old(self).offset() && r->Err_0 is DecodeError,
    {
        if n <= self.data.len() - self.pos {
            self.pos = self.pos + n;
            Ok(())
        } else {
            Err(Error::DecodeError("unexpected end of data".to_owned()))
        }
    }

    /// Reads a big-endian 24-bit value into the low bits of a `u32`.
    pub fn read_u24(&mut self) -> (r: Result<u32, Error>)
        requires
            old(self).wf(),
        ensures
            final(self).contents() == old(self).contents(),
            final(self).wf(),
            r is Ok <==> old(self).offset() + 3 <= old(self).contents().len(),
            r matches Ok(v) ==> {
                &&& final(self).offset() == old(self).offset() + 3
                &&& v == be24_val(
                    old(self).contents().subrange(old(self).offset(), old(self).offset() + 3),
                )
                &&& v <= 0xFFFFFF
            },
            r is Err ==> final(self).offset() == old(self).offset() && r->Err_0 is DecodeError,
    {
        let b = self.read_bytes(3)?;
        Ok((b[0] as u32) * 0x10000 + (b[1] as u32) * 0x100 + (b[2] as u32))
    }

    /// Reads a big-endian 32-bit value.
    pub fn read_u32(&mut self) -> (r: Result<u32, Error>)
        requires
            old(self).wf(),
        ensures
            final(self).contents() == old(self).contents(),
            final(self).wf(),
            r is Ok <==> old(self).offset() + 4 <= old(self).contents().len(),
            r matches Ok(v) ==> {
                &&& final(self).offset() == old(self).offset() + 4
                &&& v == be32_val(
                    old(self).contents().subrange(old(self).offset(), old(self).offset() + 4),
                )
            },
            r is Err ==> final(self).offset() == old(self).offset() && r->Err_0 is DecodeError,
    {
        let b = self.read_bytes(4)?;
        Ok((b[0] as u32) * 0x1000000 + (b[1] as u32) * 0x10000 + (b[2] as u32) * 0x100 + (
        b[3] as u32))
    }

    /// Reads a big-endian 64-bit value.
    pub fn read_u64(&mut self) -> (r: Result<u64, Error>)
        requires
            old(self).wf(),
        ensures
            final(self).contents() == old(self).contents(),
            final(self).wf(),
            r is Ok <==> old(self).offset() + 8 <= old(self).contents().len(),
            r matches Ok(v) ==> {
                &&& final(self).offset() == old(self).offset() + 8
                &&& v == be64_val(
                    old(self).contents().subrange(old(self).offset(), old(self).offset() + 8),
                )
            },
            r is Err ==> final(self).offset() == old(self).offset() && r->Err_0 is DecodeError,
    {
        let b = self.read_bytes(8)?;
        Ok((b[0] as u64) * 0x100000000000000 + (b[1] as u64) * 0x1000000000000 + (b[2] as u64)
            * 0x10000000000 + (b[3] as u64) * 0x100000000 + (b[4] as u64) * 0x1000000 + (
        b[5] as u64) * 0x10000 + (b[6] as u64) * 0x100 + (b[7] as u64))
    }
}

/// Appends the three big-endian bytes of the low 24 bits of `v` to `out`.
pub fn write_u24(v: u32, out: &mut Vec<u8>)
    ensures
        final(out)@ == old(out)@ + be24(v),
{
    proof {
        assert((v / 0x10000) % 0x100 < 0x100 && (v / 0x100) % 0x100 < 0x100 && v % 0x100 < 0x100)
            by (bit_vector);
    }
    let b0 = ((v / 0x10000) % 0x100) as u8;
    let b1 = ((v / 0x100) % 0x100) as u8;
    let b2 = (v % 0x100) as u8;
    out.push(b0);
    out.push(b1);
    out.push(b2);
    proof {
        assert(final(out)@ =~= old(out)@ + be24(v));
    }
}

/// Appends the four big-endian bytes of `v` to `out`.
pub fn write_u32(v: u32, out: &mut Vec<u8>)
    ensures
        final(out)@ == old(out)@ + be32(v),
{
    proof {
        assert(v / 0x1000000 < 0x100 && (v / 0x10000) % 0x100 < 0x100 && (v / 0x100) % 0x100
            < 0x100 && v % 0x100 < 0x100) by (bit_vector);
    }
    let b0 = (v / 0x1000000) as u8;
    let b1 = ((v / 0x10000) % 0x100) as u8;
    let b2 = ((v / 0x100) % 0x100) as u8;
    let b3 = (v % 0x100) as u8;
    out.push(b0);
    out.push(b1);
    out.push(b2);
    out.push(b3);
    proof {
        assert(final(out)@ =~= old(out)@ + be32(v));
    }
}

/// Appends the eight big-endian bytes of `v` to `out`.
pub fn write_u64(v: u64, out: &mut Vec<u8>)
    ensures
        final(out)@ == old(out)@ + be64(v),
{
    proof {
        assert(v / 0x100000000000000 < 0x100 && (v / 0x1000000000000) % 0x100 < 0x100 && (v
            / 0x10000000000) % 0x100 < 0x100 && (v / 0x100000000) % 0x100 < 0x100 && (v / 0x1000000)
            % 0x100 < 0x100 && (v / 0x10000) % 0x100 < 0x100 && (v / 0x100) % 0x100 < 0x100 && v
            % 0x100 < 0x100) by (bit_vector);
    }
    let b0 = (v / 0x100000000000000) as u8;
    let b1 = ((v / 0x1000000000000) % 0x100) as u8;
    let b2 = ((v / 0x10000000000) % 0x100) as u8;
    let b3 = ((v / 0x100000000) % 0x100) as u8;
    let b4 = ((v / 0x1000000) % 0x100) as u8;
    let b5 = ((v / 0x10000) % 0x100) as u8;
    let b6 = ((v / 0x100) % 0x100) as u8;
    let b7 = (v % 0x100) as u8;
    out.push(b0);
    out.push(b1);
    out.push(b2);
    out.push(b3);
    out.push(b4);
    out.push(b5);
    out.push(b6);
    out.push(b7);
    proof {
        assert(final(out)@ =~= old(out)@ + be64(v));
    }
}

/// The two's-complement 32-bit image of a signed value, as an executable
/// step with the spec-level meaning attached.
pub fn i32_to_u32(v: i32) -> (r: u32)
    ensures
        r == u32_of_i32(v),
{
    proof {
        assert(#[verifier::truncate] (v as u32) == u32_of_i32(v)) by (bit_vector);
    }
    #[verifier::truncate] (v as u32)
}

/// The signed value whose two's-complement 32-bit image is `v`.
pub fn u32_to_i32(v: u32) -> (r: i32)
    ensures
        r == i32_of_u32(v),
{
    proof {
        assert(#[verifier::truncate] (v as i32) == i32_of_u32(v)) by (bit_vector);
    }
    #[verifier::truncate] (v as i32)
}

/// The two's-complement 64-bit image of a signed value.
pub fn i64_to_u64(v: i64) -> (r: u64)
    ensures
        r == u64_of_i64(v),
{
    proof {
        assert(#[verifier::truncate] (v as u64) == u64_of_i64(v)) by (bit_vector);
    }
    #[verifier::truncate] (v as u64)
}

/// The signed value whose two's-complement 64-bit image is `v`.
pub fn u64_to_i64(v: u64) -> (r: i64)
    ensures
        r == i64_of_u64(v),
{
    proof {
        assert(#[verifier::truncate] (v as i64) == i64_of_u64(v)) by (bit_vector);
    }
    #[verifier::truncate] (v as i64)
}

/// Pad bytes for a value of `len` bytes, executable form of `pad_of`.
pub fn pad_to_32_bits(len: u32) -> (r: u8)
    ensures
        r == pad_of(len as int),
        r <= 3,
{
    ((4 - (len % 4)) % 4) as u8
}

/// Appends `n` zero bytes to `out`.
pub fn write_zeros(n: u8, out: &mut Vec<u8>)
    ensures
        final(out)@ == old(out)@ + zeros(n as int),
{
    let mut i: u8 = 0;
    while i < n
        invariant
            0 <= i <= n,
            out@ == old(out)@ + zeros(i as int),
        decreases n - i,
    {
        out.push(0u8);
        i = i + 1;
        proof {
            assert(out@ =~= old(out)@ + zeros(i as int));
        }
    }
}

} // verus!
