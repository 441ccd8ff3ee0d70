//! The Enumerated AVP value: a 32-bit signed discriminant, four
//! big-endian two's-complement bytes on the wire.

use vstd::prelude::*;

use crate::bytes::{be32, be32_val, i32_to_u32, u32_of_i32, u32_to_i32, write_u32, Cursor};
use crate::error::Error;

verus! {

/// An enumerated AVP value, carried as its numeric discriminant.
#[derive(Debug, Clone, PartialEq)]
pub struct Enumerated(i32);

impl View for Enumerated {
    type V = i32;

    closed spec fn view(&self) -> i32 {
        self.0
    }
}

impl Enumerated {
    pub fn new(value: i32) -> (r: Enumerated)
        ensures
            r@ == value,
    {
        Enumerated(value)
    }

    pub fn value(&self) -> (r: i32)
        ensures
            r == self@,
    {
        self.0
    }

    /// Reads four big-endian two's-complement bytes; fails exactly when
    /// fewer remain.
    pub fn decode_from(cursor: &mut Cursor) -> (r: Result<Enumerated, Error>)
        requires
            old(cursor).wf(),
        ensures
            final(cursor).contents() == old(cursor).contents(),
            final(cursor).wf(),
            r is Ok <==> old(cursor).offset() + 4 <= old(cursor).contents().len(),
            r matches Ok(v) ==> {
                &&& final(cursor).offset() == old(cursor).offset() + 4
                &&& u32_of_i32(v@) == be32_val(
                    old(cursor).contents().subrange(old(cursor).offset(), old(cursor).offset() + 4),
                )
            },
            r is Err ==> final(cursor).offset() == old(cursor).offset()
                && r->Err_0 is DecodeError,
    {
        let v = cursor.read_u32()?;
        let s = u32_to_i32(v);
        proof {
            crate::bytes::lemma_u32_of_i32_roundtrip(v);
        }
        Ok(Enumerated(s))
    }

    /// Appends the four big-endian two's-complement bytes of the value;
    /// never fails.
    pub fn encode_to(&self, out: &mut Vec<u8>) -> (r: Result<(), Error>)
        ensures
            r is Ok,
            final(out)@ == old(out)@ + be32(u32_of_i32(self@)),
    {
        write_u32(i32_to_u32(self.0), out);
        Ok(())
    }

    pub fn length(&self) -> (r: u32)
        ensures
            r == 4,
    {
        4
    }
}

} // verus!
