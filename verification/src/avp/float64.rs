//! The Float64 AVP value. The library carries the IEEE-754 bit pattern
//! as a plain 64-bit word: the codec never interprets it, and callers
//! that want a native float convert outside the library
//! (`f64::from_bits` / `f64::to_bits`).

use vstd::prelude::*;

use crate::bytes::{be64, be64_val, write_u64, Cursor};
use crate::error::Error;

verus! {

/// A 64-bit IEEE-754 value, held as its big-endian bit pattern.
#[derive(Debug, Clone, PartialEq)]
pub struct Float64(u64);

impl View for Float64 {
    type V = u64;

    closed spec fn view(&self) -> u64 {
        self.0
    }
}

impl Float64 {
    /// Builds the value from its IEEE-754 bit pattern.
    pub fn new(bits: u64) -> (r: Float64)
        ensures
            r@ == bits,
    {
        Float64(bits)
    }

    /// The IEEE-754 bit pattern of the value.
    pub fn value(&self) -> (r: u64)
        ensures
            r == self@,
    {
        self.0
    }

    /// Reads eight big-endian bytes; fails exactly when fewer remain.
    pub fn decode_from(cursor: &mut Cursor) -> (r: Result<Float64, Error>)
        requires
            old(cursor).wf(),
        ensures
            final(cursor).contents() == old(cursor).contents(),
            final(cursor).wf(),
            r is Ok <==> old(cursor).offset() + 8 <= old(cursor).contents().len(),
            r matches Ok(v) ==> {
                &&& final(cursor).offset() == old(cursor).offset() + 8
                &&& v@ == be64_val(
                    old(cursor).contents().subrange(old(cursor).offset(), old(cursor).offset() + 8),
                )
            },
            r is Err ==> final(cursor).offset() == old(cursor).offset()
                && r->Err_0 is DecodeError,
    {
        let v = cursor.read_u64()?;
        Ok(Float64(v))
    }

    /// Appends the eight big-endian bytes of the bit pattern; never fails.
    pub fn encode_to(&self, out: &mut Vec<u8>) -> (r: Result<(), Error>)
        ensures
            r is Ok,
            final(out)@ == old(out)@ + be64(self@),
    {
        write_u64(self.0, out);
        Ok(())
    }

    pub fn length(&self) -> (r: u32)
        ensures
            r == 8,
    {
        8
    }
}

} // verus!
