//! The DiameterIdentity AVP value: a wrapper over `UTF8String` keeping
//! its wire format and display rules.

use vstd::prelude::*;

use vstd::utf8::{decode_utf8, encode_utf8, valid_utf8};

use crate::avp::utf8string::UTF8String;
use crate::bytes::Cursor;
use crate::error::Error;

verus! {

/// A DiameterIdentity AVP value.
#[derive(Debug, Clone, PartialEq)]
pub struct Identity(UTF8String);

impl View for Identity {
    type V = Seq<char>;

    closed spec fn view(&self) -> Seq<char> {
        self.0@
    }
}

impl Identity {
    pub fn new(value: &str) -> (r: Identity)
        ensures
            r@ == value@,
    {
        Identity(UTF8String::new(value))
    }

    pub fn value(&self) -> (r: &str)
        ensures
            r@ == self@,
    {
        self.0.value()
    }

    /// Reads exactly `len` bytes and validates them as UTF-8; fails when
    /// fewer bytes remain or when they are not UTF-8.
    pub fn decode_from(cursor: &mut Cursor, len: usize) -> (r: Result<Identity, Error>)
        requires
            old(cursor).wf(),
        ensures
            final(cursor).contents() == old(cursor).contents(),
            final(cursor).wf(),
            r is Ok <==> old(cursor).offset() + len <= old(cursor).contents().len() && valid_utf8(
                old(cursor).contents().subrange(old(cursor).offset(), old(cursor).offset() + len),
            ),
            r matches Ok(v) ==> {
                &&& final(cursor).offset() == old(cursor).offset() + len
                &&& v@ == decode_utf8(
                    old(cursor).contents().subrange(
                        old(cursor).offset(),
                        old(cursor).offset() + len,
                    ),
                )
            },
            r is Err ==> r->Err_0 is DecodeError,
    {
        let s = UTF8String::decode_from(cursor, len)?;
        Ok(Identity(s))
    }

    /// Appends the UTF-8 bytes of the value; never fails.
    pub fn encode_to(&self, out: &mut Vec<u8>) -> (r: Result<(), Error>)
        ensures
            r is Ok,
            final(out)@ == old(out)@ + encode_utf8(self@),
    {
        self.0.encode_to(out)
    }

    /// The length of the value on the wire: its UTF-8 byte count.
    pub fn length(&self) -> (r: u32)
        requires
            encode_utf8(self@).len() <= u32::MAX,
        ensures
            r == encode_utf8(self@).len(),
    {
        self.0.length()
    }
}

} // verus!
