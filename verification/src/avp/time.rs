//! The Time AVP value. On the wire it is the number of seconds since
//! 1900-01-01 00:00:00 UTC as a big-endian 32-bit value; the library
//! carries it as seconds since the Unix epoch (1970-01-01), a plain
//! signed count that callers convert to their calendar type of choice.

use vstd::prelude::*;

use crate::bytes::{be32, be32_val, write_u32, Cursor};
use crate::error::Error;

verus! {

/// Seconds between 1900-01-01 and 1970-01-01, the offset between the
/// wire epoch and the Unix epoch.
pub const RFC868_OFFSET: u32 = 2208988800;

/// The wire image of a Unix timestamp: seconds since 1900 as a `u32`.
/// Meaningful exactly when `time_in_range(t)` holds.
pub open spec fn diameter_seconds(t: i64) -> u32 {
    ((t as int) + RFC868_OFFSET) as u32
}

/// Whether a Unix timestamp fits the 32-bit wire window
/// (1900-01-01 up to 2036-02-07).
pub open spec fn time_in_range(t: i64) -> bool {
    0 <= (t as int) + RFC868_OFFSET <= u32::MAX
}

/// A point in time, carried as seconds since the Unix epoch.
#[derive(Debug, Clone, PartialEq)]
pub struct Time(i64);

impl View for Time {
    type V = i64;

    closed spec fn view(&self) -> i64 {
        self.0
    }
}

impl Time {
    pub fn new(unix_seconds: i64) -> (r: Time)
        ensures
            r@ == unix_seconds,
    {
        Time(unix_seconds)
    }

    pub fn value(&self) -> (r: i64)
        ensures
            r == self@,
    {
        self.0
    }

    /// Reads four big-endian bytes of seconds-since-1900 and converts to
    /// a Unix timestamp; fails exactly when fewer than four bytes remain.
    pub fn decode_from(cursor: &mut Cursor) -> (r: Result<Time, Error>)
        requires
            old(cursor).wf(),
        ensures
            final(cursor).contents() == old(cursor).contents(),
            final(cursor).wf(),
            r is Ok <==> old(cursor).offset() + 4 <= old(cursor).contents().len(),
            r matches Ok(v) ==> {
                &&& final(cursor).offset() == old(cursor).offset() + 4
                &&& v@ == be32_val(
                    old(cursor).contents().subrange(old(cursor).offset(), old(cursor).offset() + 4),
                ) - RFC868_OFFSET
                &&& time_in_range(v@)
            },
            r is Err ==> final(cursor).offset() == old(cursor).offset()
                && r->Err_0 is DecodeError,
    {
        let v = cursor.read_u32()?;
        let unix: i64 = (v as i64) - (RFC868_OFFSET as i64);
        Ok(Time(unix))
    }

    /// Appends the four big-endian bytes of seconds-since-1900; fails
    /// exactly when the timestamp does not fit the 32-bit wire window,
    /// and then leaves the output untouched.
    pub fn encode_to(&self, out: &mut Vec<u8>) -> (r: Result<(), Error>)
        ensures
            r is Ok <==> time_in_range(self@),
            r is Ok ==> final(out)@ == old(out)@ + be32(diameter_seconds(self@)),
            r is Err ==> final(out)@ == old(out)@ && r->Err_0 is EncodeError,
    {
        if self.0 > (u32::MAX as i64) - (RFC868_OFFSET as i64) {
            return Err(
                Error::EncodeError("Time is too far in the future to fit into 32 bits".to_owned()),
            );
        }
        if self.0 < -(RFC868_OFFSET as i64) {
            return Err(
                Error::EncodeError("Time is before the 1900 epoch of the wire format".to_owned()),
            );
        }
        let wire = (self.0 + (RFC868_OFFSET as i64)) as u32;
        write_u32(wire, out);
        Ok(())
    }

    pub fn length(&self) -> (r: u32)
        ensures
            r == 4,
    {
        4
    }
}

/// Time symmetry: a timestamp within the 32-bit wire window reads back
/// exactly from its four wire bytes; outside the window `encode_to`
/// fails instead (its contract states the exact condition).
pub proof fn lemma_time_symmetry(t: i64)
    requires
        time_in_range(t),
    ensures
        be32_val(be32(diameter_seconds(t))) - RFC868_OFFSET == t,
{
    crate::bytes::lemma_be32_roundtrip(diameter_seconds(t));
}

} // verus!
