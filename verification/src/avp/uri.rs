//! The DiameterURI AVP value: a wrapper over `OctetString` keeping its
//! wire format and display rules.

use vstd::prelude::*;

use crate::avp::octetstring::OctetString;
use crate::bytes::Cursor;
use crate::error::Error;

verus! {

/// A DiameterURI AVP value, carried as opaque bytes.
#[derive(Debug, Clone, PartialEq)]
pub struct DiameterURI(OctetString);

impl View for DiameterURI {
    type V = Seq<u8>;

    closed spec fn view(&self) -> Seq<u8> {
        self.0@
    }
}

impl DiameterURI {
    pub fn new(value: Vec<u8>) -> (r: DiameterURI)
        ensures
            r@ == value@,
    {
        DiameterURI(OctetString::new(value))
    }

    pub fn value(&self) -> (r: &[u8])
        ensures
            r@ == self@,
    {
        self.0.value()
    }

    /// Reads exactly `len` bytes; fails exactly when fewer remain.
    pub fn decode_from(cursor: &mut Cursor, len: usize) -> (r: Result<DiameterURI, Error>)
        requires
            old(cursor).wf(),
        ensures
            final(cursor).contents() == old(cursor).contents(),
            final(cursor).wf(),
            r is Ok <==> old(cursor).offset() + len <= old(cursor).contents().len(),
            r matches Ok(v) ==> {
                &&& final(cursor).offset() == old(cursor).offset() + len
                &&& v@ == old(cursor).contents().subrange(
                    old(cursor).offset(),
                    old(cursor).offset() + len,
                )
            },
            r is Err ==> final(cursor).offset() == old(cursor).offset()
                && r->Err_0 is DecodeError,
    {
        let b = OctetString::decode_from(cursor, len)?;
        Ok(DiameterURI(b))
    }

    /// Appends the bytes of the value; never fails.
    pub fn encode_to(&self, out: &mut Vec<u8>) -> (r: Result<(), Error>)
        ensures
            r is Ok,
            final(out)@ == old(out)@ + self@,
    {
        self.0.encode_to(out)
    }

    pub fn length(&self) -> (r: u32)
        requires
            self@.len() <= u32::MAX,
        ensures
            r == self@.len(),
    {
        self.0.length()
    }
}

} // verus!
