//! The Integer32 AVP value: four big-endian two's-complement bytes.

use vstd::prelude::*;

use crate::bytes::{be32, be32_val, i32_to_u32, u32_of_i32, u32_to_i32, write_u32, Cursor};
use crate::error::Error;

verus! {

/// A 32-bit signed AVP value.
#[derive(Debug, Clone, PartialEq)]
pub struct Integer32(i32);

impl View for Integer32 {
    type V = i32;

    closed spec fn view(&self) -> i32 {
        self.0
    }
}

impl Integer32 {
    pub fn new(value: i32) -> (r: Integer32)
        ensures
            r@ == value,
    {
        Integer32(value)
    }

    pub fn value(&self) -> (r: i32)
        ensures
            r == self@,
    {
        self.0
    }

    /// Reads four big-endian two's-complement bytes; fails exactly when
    /// fewer remain.
    pub fn decode_from(cursor: &mut Cursor) -> (r: Result<Integer32, Error>)
        requires
            old(cursor).wf(),
        ensures
            final(cursor).contents() == old(cursor).contents(),
            final(cursor).wf(),
            r is Ok <==> old(cursor).offset() + 4 <= old(cursor).contents().len(),
            r matches Ok(v) ==> {
                &&& final(cursor).offset() == old(cursor).offset() + 4
                &&& u32_of_i32(v@) == be32_val(
                    old(cursor).contents().subrange(old(cursor).offset(), old(cursor).offset() + 4),
                )
            },
            r is Err ==> final(cursor).offset() == old(cursor).offset()
                && r->Err_0 is DecodeError,
    {
        let v = cursor.read_u32()?;
        let s = u32_to_i32(v);
        proof {
            crate::bytes::lemma_u32_of_i32_roundtrip(v);
        }
        Ok(Integer32(s))
    }

    /// Appends the four big-endian two's-complement bytes of the value;
    /// never fails.
    pub fn encode_to(&self, out: &mut Vec<u8>) -> (r: Result<(), Error>)
        ensures
            r is Ok,
            final(out)@ == old(out)@ + be32(u32_of_i32(self@)),
    {
        write_u32(i32_to_u32(self.0), out);
        Ok(())
    }

    pub fn length(&self) -> (r: u32)
        ensures
            r == 4,
    {
        4
    }
}

} // verus!
