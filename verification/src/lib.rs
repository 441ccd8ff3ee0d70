//! A verified implementation of the Diameter base protocol (RFC 6733):
//! a bit-exact binary codec for Diameter messages and their typed
//! attribute-value pairs, a mergeable dictionary that maps numeric codes
//! to typed semantics, and the request-correlation logic used by the
//! transports built around the library.

pub mod avp;
pub mod bytes;
pub mod diameter;
pub mod dictionary;
pub mod error;
pub mod multiplexer;
pub mod text;
pub mod transport;
pub mod xml;

pub use crate::avp::{Avp, AvpHeader, AvpType, AvpValue};
pub use crate::diameter::{ApplicationId, CommandCode, DiameterHeader, DiameterMessage};
pub use crate::dictionary::Dictionary;
pub use crate::error::Error;
