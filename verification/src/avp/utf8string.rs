//! The UTF8String AVP value: the UTF-8 encoding of a string, with the
//! declared length counted in bytes. Decoding validates UTF-8 and fails
//! with a descriptive error on invalid sequences.

use vstd::prelude::*;

use vstd::string::StringExecFns;
use vstd::string::StringSliceAdditionalSpecFns;
use vstd::utf8::{decode_utf8, encode_utf8, valid_utf8};

use crate::bytes::Cursor;
use crate::error::Error;
use crate::text::string_from_utf8;

verus! {

/// A UTF-8 string AVP value.
#[derive(Debug, Clone, PartialEq)]
pub struct UTF8String(String);

impl View for UTF8String {
    type V = Seq<char>;

    closed spec fn view(&self) -> Seq<char> {
        self.0@
    }
}

impl UTF8String {
    pub fn new(value: &str) -> (r: UTF8String)
        ensures
            r@ == value@,
    {
        UTF8String(value.to_owned())
    }

    pub fn value(&self) -> (r: &str)
        ensures
            r@ == self@,
    {
        self.0.as_str()
    }

    /// Reads exactly `len` bytes and validates them as UTF-8; fails when
    /// fewer bytes remain or when they are not UTF-8.
    pub fn decode_from(cursor: &mut Cursor, len: usize) -> (r: Result<UTF8String, Error>)
        requires
            old(cursor).wf(),
        ensures
            final(cursor).contents() == old(cursor).contents(),
            final(cursor).wf(),
            r is Ok <==> old(cursor).offset() + len <= old(cursor).contents().len() && valid_utf8(
                old(cursor).contents().subrange(old(cursor).offset(), old(cursor).offset() + len),
            ),
            r matches Ok(v) ==> {
                &&& final(cursor).offset() == old(cursor).offset() + len
                &&& v@ == decode_utf8(
                    old(cursor).contents().subrange(
                        old(cursor).offset(),
                        old(cursor).offset() + len,
                    ),
                )
            },
            r is Err ==> r->Err_0 is DecodeError,
    {
        let b = cursor.read_bytes(len)?;
        match string_from_utf8(b) {
            Ok(s) => Ok(UTF8String(s)),
            Err(detail) => {
                let mut msg = "invalid UTF8String: ".to_owned();
                msg.append(detail.as_str());
                Err(Error::DecodeError(msg))
            },
        }
    }

    /// Appends the UTF-8 bytes of the value; never fails.
    pub fn encode_to(&self, out: &mut Vec<u8>) -> (r: Result<(), Error>)
        ensures
            r is Ok,
            final(out)@ == old(out)@ + encode_utf8(self@),
    {
        out.extend_from_slice(self.0.as_str().as_bytes());
        Ok(())
    }

    /// The length of the value on the wire: its UTF-8 byte count.
    pub fn length(&self) -> (r: u32)
        requires
            encode_utf8(self@).len() <= u32::MAX,
        ensures
            r == encode_utf8(self@).len(),
    {
        self.0.as_str().len() as u32
    }
}

} // verus!
