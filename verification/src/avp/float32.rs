//! The Float32 AVP value. The library carries the IEEE-754 bit pattern
//! as a plain 32-bit word: the codec never interprets it, and callers
//! that want a native float convert outside the library
//! (`f32::from_bits` / `f32::to_bits`).

use vstd::prelude::*;

use crate::bytes::{be32, be32_val, write_u32, Cursor};
use crate::error::Error;

verus! {

/// A 32-bit IEEE-754 value, held as its big-endian bit pattern.
#[derive(Debug, Clone, PartialEq)]
pub struct Float32(u32);

impl View for Float32 {
    type V = u32;

    closed spec fn view(&self) -> u32 {
        self.0
    }
}

impl Float32 {
    /// Builds the value from its IEEE-754 bit pattern.
    pub fn new(bits: u32) -> (r: Float32)
        ensures
            r@ == bits,
    {
        Float32(bits)
    }

    /// The IEEE-754 bit pattern of the value.
    pub fn value(&self) -> (r: u32)
        ensures
            r == self@,
    {
        self.0
    }

    /// Reads four big-endian bytes; fails exactly when fewer remain.
    pub fn decode_from(cursor: &mut Cursor) -> (r: Result<Float32, Error>)
        requires
            old(cursor).wf(),
        ensures
            final(cursor).contents() == old(cursor).contents(),
            final(cursor).wf(),
            r is Ok <==> old(cursor).offset() + 4 <= old(cursor).contents().len(),
            r matches Ok(v) ==> {
                &&& final(cursor).offset() == old(cursor).offset() + 4
                &&& v@ == be32_val(
                    old(cursor).contents().subrange(old(cursor).offset(), old(cursor).offset() + 4),
                )
            },
            r is Err ==> final(cursor).offset() == old(cursor).offset()
                && r->Err_0 is DecodeError,
    {
        let v = cursor.read_u32()?;
        Ok(Float32(v))
    }

    /// Appends the four big-endian bytes of the bit pattern; never fails.
    pub fn encode_to(&self, out: &mut Vec<u8>) -> (r: Result<(), Error>)
        ensures
            r is Ok,
            final(out)@ == old(out)@ + be32(self@),
    {
        write_u32(self.0, out);
        Ok(())
    }

    pub fn length(&self) -> (r: u32)
        ensures
            r == 4,
    {
        4
    }
}

} // verus!
