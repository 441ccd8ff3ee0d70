//! The OctetString AVP value: opaque bytes of the declared length.

use vstd::prelude::*;

use crate::error::Error;
use crate::bytes::Cursor;

verus! {

/// An opaque byte-string AVP value.
#[derive(Debug, Clone, PartialEq)]
pub struct OctetString(Vec<u8>);

impl View for OctetString {
    type V = Seq<u8>;

    closed spec fn view(&self) -> Seq<u8> {
        self.0@
    }
}

impl OctetString {
    pub fn new(value: Vec<u8>) -> (r: OctetString)
        ensures
            r@ == value@,
    {
        OctetString(value)
    }

    pub fn value(&self) -> (r: &[u8])
        ensures
            r@ == self@,
    {
        self.0.as_slice()
    }

    /// Reads exactly `len` bytes; fails exactly when fewer remain.
    pub fn decode_from(cursor: &mut Cursor, len: usize) -> (r: Result<OctetString, Error>)
        requires
            old(cursor).wf(),
        ensures
            final(cursor).contents() == old(cursor).contents(),
            final(cursor).wf(),
            r is Ok <==> old(cursor).offset() + len <= old(cursor).contents().len(),
            r matches Ok(v) ==> {
                &&& final(cursor).offset() == old(cursor).offset() + len
                &&& v@ == old(cursor).contents().subrange(
                    old(cursor).offset(),
                    old(cursor).offset() + len,
                )
            },
            r is Err ==> final(cursor).offset() == old(cursor).offset()
                && r->Err_0 is DecodeError,
    {
        let b = cursor.read_bytes(len)?;
        Ok(OctetString(b))
    }

    /// Appends the bytes of the value; never fails.
    pub fn encode_to(&self, out: &mut Vec<u8>) -> (r: Result<(), Error>)
        ensures
            r is Ok,
            final(out)@ == old(out)@ + self@,
    {
        out.extend_from_slice(self.0.as_slice());
        Ok(())
    }

    pub fn length(&self) -> (r: u32)
        requires
            self@.len() <= u32::MAX,
        ensures
            r == self@.len(),
    {
        self.0.len() as u32
    }
}

} // verus!
