//! The concrete IPv4-address AVP value: four raw bytes, no family
//! prefix. Used when the dictionary declares an AVP as an IPv4 type.

use vstd::prelude::*;

use crate::bytes::Cursor;
use crate::error::Error;

verus! {

broadcast use vstd::array::group_array_axioms;

/// An IPv4 address carried as its four network-order octets.
#[derive(Debug, Clone, PartialEq)]
pub struct IPv4([u8; 4]);

impl View for IPv4 {
    type V = Seq<u8>;

    closed spec fn view(&self) -> Seq<u8> {
        self.0@
    }
}

impl IPv4 {
    pub fn new(octets: [u8; 4]) -> (r: IPv4)
        ensures
            r@ == octets@,
    {
        IPv4(octets)
    }

    pub fn value(&self) -> (r: &[u8])
        ensures
            r@ == self@,
            r@.len() == 4,
    {
        self.0.as_slice()
    }

    /// Reads four raw bytes; fails exactly when fewer remain.
    pub fn decode_from(cursor: &mut Cursor) -> (r: Result<IPv4, Error>)
        requires
            old(cursor).wf(),
        ensures
            final(cursor).contents() == old(cursor).contents(),
            final(cursor).wf(),
            r is Ok <==> old(cursor).offset() + 4 <= old(cursor).contents().len(),
            r matches Ok(v) ==> {
                &&& final(cursor).offset() == old(cursor).offset() + 4
                &&& v@ == old(cursor).contents().subrange(
                    old(cursor).offset(),
                    old(cursor).offset() + 4,
                )
            },
            r is Err ==> final(cursor).offset() == old(cursor).offset()
                && r->Err_0 is DecodeError,
    {
        let b = cursor.read_bytes(4)?;
        let octets: [u8; 4] = [b[0], b[1], b[2], b[3]];
        proof {
            assert(octets@ =~= b@);
        }
        Ok(IPv4(octets))
    }

    /// Appends the four octets; never fails.
    pub fn encode_to(&self, out: &mut Vec<u8>) -> (r: Result<(), Error>)
        ensures
            r is Ok,
            final(out)@ == old(out)@ + self@,
    {
        out.extend_from_slice(self.0.as_slice());
        Ok(())
    }

    pub fn length(&self) -> (r: u32)
        ensures
            r == 4,
            self@.len() == 4,
    {
        proof {
            vstd::array::array_len_matches_n::<u8, 4>(&self.0);
        }
        4
    }
}

} // verus!
