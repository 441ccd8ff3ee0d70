//! The concrete IPv6-address AVP value: sixteen raw bytes, no family
//! prefix. Used when the dictionary declares an AVP as an IPv6 type.

use vstd::prelude::*;

use crate::bytes::Cursor;
use crate::error::Error;

verus! {

broadcast use vstd::array::group_array_axioms;

/// An IPv6 address carried as its sixteen network-order octets.
#[derive(Debug, Clone, PartialEq)]
pub struct IPv6([u8; 16]);

impl View for IPv6 {
    type V = Seq<u8>;

    closed spec fn view(&self) -> Seq<u8> {
        self.0@
    }
}

impl IPv6 {
    pub fn new(octets: [u8; 16]) -> (r: IPv6)
        ensures
            r@ == octets@,
    {
        IPv6(octets)
    }

    pub fn value(&self) -> (r: &[u8])
        ensures
            r@ == self@,
            r@.len() == 16,
    {
        self.0.as_slice()
    }

    /// Reads sixteen raw bytes; fails exactly when fewer remain.
    pub fn decode_from(cursor: &mut Cursor) -> (r: Result<IPv6, Error>)
        requires
            old(cursor).wf(),
        ensures
            final(cursor).contents() == old(cursor).contents(),
            final(cursor).wf(),
            r is Ok <==> old(cursor).offset() + 16 <= old(cursor).contents().len(),
            r matches Ok(v) ==> {
                &&& final(cursor).offset() == old(cursor).offset() + 16
                &&& v@ == old(cursor).contents().subrange(
                    old(cursor).offset(),
                    old(cursor).offset() + 16,
                )
            },
            r is Err ==> final(cursor).offset() == old(cursor).offset()
                && r->Err_0 is DecodeError,
    {
        let b = cursor.read_bytes(16)?;
        let octets: [u8; 16] = [
            b[0],
            b[1],
            b[2],
            b[3],
            b[4],
            b[5],
            b[6],
            b[7],
            b[8],
            b[9],
            b[10],
            b[11],
            b[12],
            b[13],
            b[14],
            b[15],
        ];
        proof {
            assert(octets@ =~= b@);
        }
        Ok(IPv6(octets))
    }

    /// Appends the sixteen octets; never fails.
    pub fn encode_to(&self, out: &mut Vec<u8>) -> (r: Result<(), Error>)
        ensures
            r is Ok,
            final(out)@ == old(out)@ + self@,
    {
        out.extend_from_slice(self.0.as_slice());
        Ok(())
    }

    pub fn length(&self) -> (r: u32)
        ensures
            r == 16,
            self@.len() == 16,
    {
        proof {
            vstd::array::array_len_matches_n::<u8, 16>(&self.0);
        }
        16
    }
}

} // verus!
