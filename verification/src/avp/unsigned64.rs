//! The Unsigned64 AVP value: eight big-endian bytes on the wire.

use vstd::prelude::*;

use crate::bytes::{be64, be64_val, write_u64, Cursor};
use crate::error::Error;

verus! {

/// A 64-bit unsigned AVP value.
#[derive(Debug, Clone, PartialEq)]
pub struct Unsigned64(u64);

impl View for Unsigned64 {
    type V = u64;

    closed spec fn view(&self) -> u64 {
        self.0
    }
}

impl Unsigned64 {
    pub fn new(value: u64) -> (r: Unsigned64)
        ensures
            r@ == value,
    {
        Unsigned64(value)
    }

    pub fn value(&self) -> (r: u64)
        ensures
            r == self@,
    {
        self.0
    }

    /// Reads eight big-endian bytes; fails exactly when fewer remain.
    pub fn decode_from(cursor: &mut Cursor) -> (r: Result<Unsigned64, Error>)
        requires
            old(cursor).wf(),
        ensures
            final(cursor).contents() == old(cursor).contents(),
            final(cursor).wf(),
            r is Ok <==> old(cursor).offset() + 8 <= old(cursor).contents().len(),
            r matches Ok(v) ==> {
                &&& final(cursor).offset() == old(cursor).offset() + 8
                &&& v@ == be64_val(
                    old(cursor).contents().subrange(old(cursor).offset(), old(cursor).offset() + 8),
                )
            },
            r is Err ==> final(cursor).offset() == old(cursor).offset()
                && r->Err_0 is DecodeError,
    {
        let v = cursor.read_u64()?;
        Ok(Unsigned64(v))
    }

    /// Appends the eight big-endian bytes of the value; never fails.
    pub fn encode_to(&self, out: &mut Vec<u8>) -> (r: Result<(), Error>)
        ensures
            r is Ok,
            final(out)@ == old(out)@ + be64(self@),
    {
        write_u64(self.0, out);
        Ok(())
    }

    pub fn length(&self) -> (r: u32)
        ensures
            r == 8,
    {
        8
    }
}

} // verus!
