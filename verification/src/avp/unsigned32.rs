//! The Unsigned32 AVP value: four big-endian bytes on the wire.

use vstd::prelude::*;

use crate::bytes::{be32, be32_val, write_u32, Cursor};
use crate::error::Error;

verus! {

/// A 32-bit unsigned AVP value.
#[derive(Debug, Clone, PartialEq)]
pub struct Unsigned32(u32);

impl View for Unsigned32 {
    type V = u32;

    closed spec fn view(&self) -> u32 {
        self.0
    }
}

impl Unsigned32 {
    pub fn new(value: u32) -> (r: Unsigned32)
        ensures
            r@ == value,
    {
        Unsigned32(value)
    }

    pub fn value(&self) -> (r: u32)
        ensures
            r == self@,
    {
        self.0
    }

    /// Reads four big-endian bytes; fails exactly when fewer remain.
    pub fn decode_from(cursor: &mut Cursor) -> (r: Result<Unsigned32, Error>)
        requires
            old(cursor).wf(),
        ensures
            final(cursor).contents() == old(cursor).contents(),
            final(cursor).wf(),
            r is Ok <==> old(cursor).offset() + 4 <= old(cursor).contents().len(),
            r matches Ok(v) ==> {
                &&& final(cursor).offset() == old(cursor).offset() + 4
                &&& v@ == be32_val(
                    old(cursor).contents().subrange(old(cursor).offset(), old(cursor).offset() + 4),
                )
            },
            r is Err ==> final(cursor).offset() == old(cursor).offset()
                && r->Err_0 is DecodeError,
    {
        let v = cursor.read_u32()?;
        Ok(Unsigned32(v))
    }

    /// Appends the four big-endian bytes of the value; never fails.
    pub fn encode_to(&self, out: &mut Vec<u8>) -> (r: Result<(), Error>)
        ensures
            r is Ok,
            final(out)@ == old(out)@ + be32(self@),
    {
        write_u32(self.0, out);
        Ok(())
    }

    pub fn length(&self) -> (r: u32)
        ensures
            r == 4,
    {
        4
    }
}

} // verus!
