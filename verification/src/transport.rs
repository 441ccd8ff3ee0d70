//! Framing one message on a byte stream: the length-driven split of the
//! stream into frames, the 1 MiB ceiling, and the buffer-level encode
//! and decode that the asynchronous transports around the library call.

use vstd::prelude::*;

use std::sync::Arc;

use crate::avp::{avps_times_ok, avps_v_wf};
use crate::bytes::{be24_val, Cursor};
use crate::diameter::{dec_msg, msg_enc, DiameterMessage};
use crate::dictionary::Dictionary;
use crate::error::Error;

verus! {

/// The hard ceiling on one frame: 1 MiB.
pub const MAX_FRAME_SIZE: u32 = 0x100000;

/// Configuration of a client transport: whether the TCP stream is
/// wrapped in TLS, and whether the peer's certificate is verified.
#[derive(Debug, Clone, Copy, PartialEq, Eq, Structural)]
pub struct DiameterClientConfig {
    pub use_tls: bool,
    pub verify_cert: bool,
}

/// Buffer-level framing of one Diameter message.
pub struct Codec {}

impl Codec {
    /// The length the frame starting with these four peeked bytes
    /// claims (version byte, then the 24-bit message length), accepted
    /// up to the 1 MiB ceiling and rejected above it.
    pub fn frame_length(prefix: &[u8]) -> (r: Result<u32, Error>)
        requires
            prefix@.len() == 4,
        ensures
            r is Ok <==> be24_val(prefix@.subrange(1, 4)) <= MAX_FRAME_SIZE,
            r matches Ok(n) ==> n == be24_val(prefix@.subrange(1, 4)),
            r is Err ==> r->Err_0 is ClientError,
    {
        let length: u32 = (prefix[1] as u32) * 0x10000 + (prefix[2] as u32) * 0x100 + (
        prefix[3] as u32);
        if length > MAX_FRAME_SIZE {
            return Err(Error::ClientError("Message too large to read".to_owned()));
        }
        Ok(length)
    }

    /// Decodes one complete frame buffer into a message using the given
    /// dictionary. A buffer above the 1 MiB ceiling is rejected before
    /// any decoding.
    pub fn decode(buffer: Vec<u8>, dict: Arc<Dictionary>) -> (r: Result<DiameterMessage, Error>)
        ensures
            buffer@.len() > MAX_FRAME_SIZE ==> (r matches Err(e) && e is ClientError),
            buffer@.len() <= MAX_FRAME_SIZE ==> {
                &&& (r is Ok <==> dec_msg(dict@, buffer@) is Some)
                &&& (r matches Ok(m) ==> Some(m@) == dec_msg(dict@, buffer@) && m.ok()
                    && m.spec_dictionary() == dict@)
            },
    {
        if buffer.len() > MAX_FRAME_SIZE as usize {
            return Err(Error::ClientError("Message too large to read".to_owned()));
        }
        let mut cursor = Cursor::new(buffer);
        proof {
            assert(cursor.contents().skip(0) =~= cursor.contents());
        }
        DiameterMessage::decode_from(&mut cursor, dict)
    }

    /// Serializes a whole message into a fresh buffer; fails exactly
    /// when a nested `Time` misses the wire window.
    pub fn encode(msg: &DiameterMessage) -> (r: Result<Vec<u8>, Error>)
        requires
            avps_v_wf(msg@.avps),
            msg.ok(),
        ensures
            r is Ok <==> avps_times_ok(msg@.avps),
            r matches Ok(buf) ==> buf@ == msg_enc(msg@),
            r is Err ==> r->Err_0 is EncodeError,
    {
        let mut buf: Vec<u8> = Vec::new();
        msg.encode_to(&mut buf)?;
        proof {
            assert(buf@ =~= msg_enc(msg@));
        }
        Ok(buf)
    }
}

} // verus!
