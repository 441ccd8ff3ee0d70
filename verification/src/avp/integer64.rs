//! The Integer64 AVP value: eight big-endian two's-complement bytes.

use vstd::prelude::*;

use crate::bytes::{be64, be64_val, i64_to_u64, u64_of_i64, u64_to_i64, write_u64, Cursor};
use crate::error::Error;

verus! {

/// A 64-bit signed AVP value.
#[derive(Debug, Clone, PartialEq)]
pub struct Integer64(i64);

impl View for Integer64 {
    type V = i64;

    closed spec fn view(&self) -> i64 {
        self.0
    }
}

impl Integer64 {
    pub fn new(value: i64) -> (r: Integer64)
        ensures
            r@ == value,
    {
        Integer64(value)
    }

    pub fn value(&self) -> (r: i64)
        ensures
            r == self@,
    {
        self.0
    }

    /// Reads eight big-endian two's-complement bytes; fails exactly when
    /// fewer remain.
    pub fn decode_from(cursor: &mut Cursor) -> (r: Result<Integer64, Error>)
        requires
            old(cursor).wf(),
        ensures
            final(cursor).contents() == old(cursor).contents(),
            final(cursor).wf(),
            r is Ok <==> old(cursor).offset() + 8 <= old(cursor).contents().len(),
            r matches Ok(v) ==> {
                &&& final(cursor).offset() == old(cursor).offset() + 8
                &&& u64_of_i64(v@) == be64_val(
                    old(cursor).contents().subrange(old(cursor).offset(), old(cursor).offset() + 8),
                )
            },
            r is Err ==> final(cursor).offset() == old(cursor).offset()
                && r->Err_0 is DecodeError,
    {
        let v = cursor.read_u64()?;
        let s = u64_to_i64(v);
        proof {
            crate::bytes::lemma_u64_of_i64_roundtrip(v);
        }
        Ok(Integer64(s))
    }

    /// Appends the eight big-endian two's-complement bytes of the value;
    /// never fails.
    pub fn encode_to(&self, out: &mut Vec<u8>) -> (r: Result<(), Error>)
        ensures
            r is Ok,
            final(out)@ == old(out)@ + be64(u64_of_i64(self@)),
    {
        write_u64(i64_to_u64(self.0), out);
        Ok(())
    }

    pub fn length(&self) -> (r: u32)
        ensures
            r == 8,
    {
        8
    }
}

} // verus!
