//! Diameter protocol messages: the fixed 20-byte header and the ordered
//! list of AVPs behind it.
//!
//! The header is, in order: version (one byte), message length (24-bit,
//! counting the header and every AVP with its padding), command flags
//! (`R P E T` and a reserved low nibble), command code (24-bit),
//! application id, hop-by-hop identifier, end-to-end identifier — all
//! big-endian.

use vstd::prelude::*;

use vstd::string::StringExecFns;

use std::sync::Arc;

use crate::avp::{
    avp_ok, avp_v_framed, avp_v_wf, avps_dict_agree, avps_framed_len, avps_ok, avps_times_ok,
    avps_v_enc, avps_v_wf, avps_view, dec_avps, decode_avp_list, encode_avp_list, flag_bit_m,
    flag_bit_p, lemma_avp_v_framed_nonneg, lemma_avps_enc_len, lemma_avps_framed_len_nonneg,
    lemma_avps_framed_snoc, lemma_dec_avps_of_enc, lemma_value_v_len_nonneg, value_ok,
    value_v_len, value_v_wf, Avp, AvpFlags, AvpHeader, AvpV, AvpValue,
};
use crate::bytes::{
    be24, be24_val, be32, be32_val, lemma_be24_roundtrip, lemma_be32_roundtrip, pad_of, write_u24,
    write_u32, Cursor,
};
use crate::dictionary::{def_lookup_by_name, AvpDefV, Dictionary};
use crate::error::Error;
use crate::text::push_dec_u64;

verus! {

/// The fixed size of a Diameter message header in bytes.
pub const HEADER_LENGTH: u32 = 20;

/// The R (request) bit of the command flag byte.
pub const FLAG_REQUEST: u8 = 0x80;

/// The P (proxyable) bit of the command flag byte.
pub const FLAG_PROXYABLE: u8 = 0x40;

/// The E (error) bit of the command flag byte.
pub const FLAG_ERROR: u8 = 0x20;

/// The T (potentially retransmitted) bit of the command flag byte.
pub const FLAG_RETRANSMIT: u8 = 0x10;

/// The command codes the codec recognizes; decoding any other code
/// fails.
#[derive(Debug, Clone, Copy, PartialEq, Eq, Structural)]
pub enum CommandCode {
    Error,
    CapabilitiesExchange,
    DeviceWatchdog,
    DisconnectPeer,
    ReAuth,
    SessionTerminate,
    AbortSession,
    CreditControl,
    SpendingLimit,
    SpendingStatusNotification,
    Accounting,
    AA,
}

/// The numeric command code of each recognized command.
pub open spec fn command_code_num(c: CommandCode) -> u32 {
    match c {
        CommandCode::Error => 0,
        CommandCode::CapabilitiesExchange => 257,
        CommandCode::ReAuth => 258,
        CommandCode::AA => 265,
        CommandCode::Accounting => 271,
        CommandCode::CreditControl => 272,
        CommandCode::AbortSession => 274,
        CommandCode::SessionTerminate => 275,
        CommandCode::DeviceWatchdog => 280,
        CommandCode::DisconnectPeer => 282,
        CommandCode::SpendingLimit => 8388635,
        CommandCode::SpendingStatusNotification => 8388636,
    }
}

/// The recognized command for a numeric code, if any.
pub open spec fn command_code_of(code: u32) -> Option<CommandCode> {
    if code == 0 {
        Some(CommandCode::Error)
    } else if code == 257 {
        Some(CommandCode::CapabilitiesExchange)
    } else if code == 258 {
        Some(CommandCode::ReAuth)
    } else if code == 265 {
        Some(CommandCode::AA)
    } else if code == 271 {
        Some(CommandCode::Accounting)
    } else if code == 272 {
        Some(CommandCode::CreditControl)
    } else if code == 274 {
        Some(CommandCode::AbortSession)
    } else if code == 275 {
        Some(CommandCode::SessionTerminate)
    } else if code == 280 {
        Some(CommandCode::DeviceWatchdog)
    } else if code == 282 {
        Some(CommandCode::DisconnectPeer)
    } else if code == 8388635 {
        Some(CommandCode::SpendingLimit)
    } else if code == 8388636 {
        Some(CommandCode::SpendingStatusNotification)
    } else {
        None
    }
}

impl CommandCode {
    /// The recognized command for a numeric code, if any.
    pub fn from_u32(code: u32) -> (r: Option<CommandCode>)
        ensures
            r == command_code_of(code),
    {
        if code == 0 {
            Some(CommandCode::Error)
        } else if code == 257 {
            Some(CommandCode::CapabilitiesExchange)
        } else if code == 258 {
            Some(CommandCode::ReAuth)
        } else if code == 265 {
            Some(CommandCode::AA)
        } else if code == 271 {
            Some(CommandCode::Accounting)
        } else if code == 272 {
            Some(CommandCode::CreditControl)
        } else if code == 274 {
            Some(CommandCode::AbortSession)
        } else if code == 275 {
            Some(CommandCode::SessionTerminate)
        } else if code == 280 {
            Some(CommandCode::DeviceWatchdog)
        } else if code == 282 {
            Some(CommandCode::DisconnectPeer)
        } else if code == 8388635 {
            Some(CommandCode::SpendingLimit)
        } else if code == 8388636 {
            Some(CommandCode::SpendingStatusNotification)
        } else {
            None
        }
    }

    /// The numeric code of this command.
    pub fn to_u32(&self) -> (r: u32)
        ensures
            r == command_code_num(*self),
    {
        match self {
            CommandCode::Error => 0,
            CommandCode::CapabilitiesExchange => 257,
            CommandCode::ReAuth => 258,
            CommandCode::AA => 265,
            CommandCode::Accounting => 271,
            CommandCode::CreditControl => 272,
            CommandCode::AbortSession => 274,
            CommandCode::SessionTerminate => 275,
            CommandCode::DeviceWatchdog => 280,
            CommandCode::DisconnectPeer => 282,
            CommandCode::SpendingLimit => 8388635,
            CommandCode::SpendingStatusNotification => 8388636,
        }
    }
}

/// The application ids the codec recognizes; decoding any other id
/// fails.
#[derive(Debug, Clone, Copy, PartialEq, Eq, Structural)]
pub enum ApplicationId {
    Common,
    Accounting,
    CreditControl,
    Gx,
    Rx,
    Sy,
}

/// The numeric id of each recognized application.
pub open spec fn application_id_num(a: ApplicationId) -> u32 {
    match a {
        ApplicationId::Common => 0,
        ApplicationId::Accounting => 3,
        ApplicationId::CreditControl => 4,
        ApplicationId::Rx => 16777236,
        ApplicationId::Gx => 16777238,
        ApplicationId::Sy => 16777302,
    }
}

/// The recognized application for a numeric id, if any.
pub open spec fn application_id_of(id: u32) -> Option<ApplicationId> {
    if id == 0 {
        Some(ApplicationId::Common)
    } else if id == 3 {
        Some(ApplicationId::Accounting)
    } else if id == 4 {
        Some(ApplicationId::CreditControl)
    } else if id == 16777236 {
        Some(ApplicationId::Rx)
    } else if id == 16777238 {
        Some(ApplicationId::Gx)
    } else if id == 16777302 {
        Some(ApplicationId::Sy)
    } else {
        None
    }
}

impl ApplicationId {
    /// The recognized application for a numeric id, if any.
    pub fn from_u32(id: u32) -> (r: Option<ApplicationId>)
        ensures
            r == application_id_of(id),
    {
        if id == 0 {
            Some(ApplicationId::Common)
        } else if id == 3 {
            Some(ApplicationId::Accounting)
        } else if id == 4 {
            Some(ApplicationId::CreditControl)
        } else if id == 16777236 {
            Some(ApplicationId::Rx)
        } else if id == 16777238 {
            Some(ApplicationId::Gx)
        } else if id == 16777302 {
            Some(ApplicationId::Sy)
        } else {
            None
        }
    }

    /// The numeric id of this application.
    pub fn to_u32(&self) -> (r: u32)
        ensures
            r == application_id_num(*self),
    {
        match self {
            ApplicationId::Common => 0,
            ApplicationId::Accounting => 3,
            ApplicationId::CreditControl => 4,
            ApplicationId::Rx => 16777236,
            ApplicationId::Gx => 16777238,
            ApplicationId::Sy => 16777302,
        }
    }
}

/// The header part of a Diameter message.
#[derive(Debug, Clone, Copy, PartialEq, Eq, Structural)]
pub struct DiameterHeader {
    pub version: u8,
    pub length: u32,
    pub flags: u8,
    pub code: CommandCode,
    pub application_id: ApplicationId,
    pub hop_by_hop_id: u32,
    pub end_to_end_id: u32,
}

/// The wire image of a message header: twenty bytes.
pub open spec fn header_enc(h: DiameterHeader) -> Seq<u8> {
    seq![h.version] + be24(h.length) + seq![h.flags] + be24(command_code_num(h.code)) + be32(
        application_id_num(h.application_id),
    ) + be32(h.hop_by_hop_id) + be32(h.end_to_end_id)
}

/// The header read from the first twenty bytes; `None` when fewer bytes
/// are there or the command or application is not recognized.
pub open spec fn dec_header(bytes: Seq<u8>) -> Option<DiameterHeader> {
    if bytes.len() < 20 {
        None
    } else {
        let version = bytes[0];
        let length = be24_val(bytes.subrange(1, 4));
        let flags = bytes[4];
        let code_raw = be24_val(bytes.subrange(5, 8));
        let app_raw = be32_val(bytes.subrange(8, 12));
        let hbh = be32_val(bytes.subrange(12, 16));
        let e2e = be32_val(bytes.subrange(16, 20));
        match command_code_of(code_raw) {
            None => None,
            Some(code) => match application_id_of(app_raw) {
                None => None,
                Some(application_id) => Some(
                    DiameterHeader {
                        version,
                        length,
                        flags,
                        code,
                        application_id,
                        hop_by_hop_id: hbh,
                        end_to_end_id: e2e,
                    },
                ),
            },
        }
    }
}

impl DiameterHeader {
    /// Reads the 20-byte header and validates the command code and
    /// application id; any unrecognized value is a decode failure naming
    /// the offending number.
    pub fn decode_from(cursor: &mut Cursor) -> (r: Result<DiameterHeader, Error>)
        requires
            old(cursor).wf(),
        ensures
            final(cursor).contents() == old(cursor).contents(),
            final(cursor).wf(),
            ({
                let suffix = old(cursor).contents().skip(old(cursor).offset());
                &&& (r is Ok <==> dec_header(suffix) is Some)
                &&& (r matches Ok(h) ==> {
                    &&& Some(h) == dec_header(suffix)
                    &&& final(cursor).offset() == old(cursor).offset() + 20
                })
                &&& (r is Err ==> r->Err_0 is DecodeError)
            }),
    {
        let ghost suffix = old(cursor).contents().skip(old(cursor).offset());
        let version = cursor.read_u8()?;
        let length = cursor.read_u24()?;
        let flags = cursor.read_u8()?;
        let code_raw = cursor.read_u24()?;
        let app_raw = cursor.read_u32()?;
        let hop_by_hop_id = cursor.read_u32()?;
        let end_to_end_id = cursor.read_u32()?;
        proof {
            let s = old(cursor).offset();
            let c = old(cursor).contents();
            assert(suffix[0] == c[s]);
            assert(suffix.subrange(1, 4) =~= c.subrange(s + 1, s + 4));
            assert(suffix[4] == c[s + 4]);
            assert(suffix.subrange(5, 8) =~= c.subrange(s + 5, s + 8));
            assert(suffix.subrange(8, 12) =~= c.subrange(s + 8, s + 12));
            assert(suffix.subrange(12, 16) =~= c.subrange(s + 12, s + 16));
            assert(suffix.subrange(16, 20) =~= c.subrange(s + 16, s + 20));
        }
        let code = match CommandCode::from_u32(code_raw) {
            Some(c) => c,
            None => {
                let mut msg = "unknown command code: ".to_owned();
                push_dec_u64(code_raw as u64, &mut msg);
                return Err(Error::DecodeError(msg));
            },
        };
        let application_id = match ApplicationId::from_u32(app_raw) {
            Some(a) => a,
            None => {
                let mut msg = "unknown application id: ".to_owned();
                push_dec_u64(app_raw as u64, &mut msg);
                return Err(Error::DecodeError(msg));
            },
        };
        Ok(
            DiameterHeader {
                version,
                length,
                flags,
                code,
                application_id,
                hop_by_hop_id,
                end_to_end_id,
            },
        )
    }

    /// Appends the twenty header bytes; never fails.
    pub fn encode_to(&self, out: &mut Vec<u8>) -> (r: Result<(), Error>)
        ensures
            r is Ok,
            final(out)@ == old(out)@ + header_enc(*self),
    {
        out.push(self.version);
        write_u24(self.length, out);
        out.push(self.flags);
        write_u24(self.code.to_u32(), out);
        write_u32(self.application_id.to_u32(), out);
        write_u32(self.hop_by_hop_id, out);
        write_u32(self.end_to_end_id, out);
        proof {
            assert(final(out)@ =~= old(out)@ + header_enc(*self));
        }
        Ok(())
    }
}

/// Mathematical image of a message: its header and the images of its
/// AVPs, in order.
#[verifier::ext_equal]
pub struct DiameterMessageV {
    pub header: DiameterHeader,
    pub avps: Seq<AvpV>,
}

/// The wire image of a whole message: the header, then each framed AVP.
pub open spec fn msg_enc(m: DiameterMessageV) -> Seq<u8> {
    header_enc(m.header) + avps_v_enc(m.avps)
}

/// Structural soundness of a message image: the stored length counts the
/// header plus every AVP with its padding, fits 24 bits, and every AVP
/// is itself sound.
pub open spec fn msg_v_wf(m: DiameterMessageV) -> bool {
    &&& m.header.length == 20 + avps_framed_len(m.avps)
    &&& m.header.length <= 0xFFFFFF
    &&& avps_v_wf(m.avps)
}

/// The message decoded from `bytes`: the header, then AVPs filling the
/// declared length exactly. `None` exactly when any step fails.
pub open spec fn dec_msg(dict: Seq<AvpDefV>, bytes: Seq<u8>) -> Option<DiameterMessageV> {
    match dec_header(bytes) {
        None => None,
        Some(h) => {
            if h.length < 20 || h.length > bytes.len() {
                None
            } else {
                match dec_avps(dict, bytes.subrange(20, h.length as int)) {
                    None => None,
                    Some(avps) => Some(DiameterMessageV { header: h, avps }),
                }
            }
        },
    }
}

/// Round trip for whole messages: a structurally sound message whose
/// dictionary agrees with every AVP decodes back from its own encoding,
/// and its encoding is exactly as long as its header claims.
pub proof fn lemma_msg_round_trip(dict: Seq<AvpDefV>, m: DiameterMessageV)
    requires
        msg_v_wf(m),
        avps_times_ok(m.avps),
        avps_dict_agree(dict, m.avps),
    ensures
        dec_msg(dict, msg_enc(m)) == Some(m),
        msg_enc(m).len() == m.header.length,
{
    let bytes = msg_enc(m);
    let h = m.header;
    lemma_avps_enc_len(m.avps);
    lemma_avps_framed_len_nonneg(m.avps);
    assert(bytes.len() == 20 + avps_v_enc(m.avps).len());
    lemma_be24_roundtrip(h.length);
    assert(command_code_num(h.code) <= 0xFFFFFF);
    lemma_be24_roundtrip(command_code_num(h.code));
    lemma_be32_roundtrip(application_id_num(h.application_id));
    lemma_be32_roundtrip(h.hop_by_hop_id);
    lemma_be32_roundtrip(h.end_to_end_id);
    assert(bytes[0] == h.version);
    assert(bytes.subrange(1, 4) =~= be24(h.length));
    assert(bytes[4] == h.flags);
    assert(bytes.subrange(5, 8) =~= be24(command_code_num(h.code)));
    assert(bytes.subrange(8, 12) =~= be32(application_id_num(h.application_id)));
    assert(bytes.subrange(12, 16) =~= be32(h.hop_by_hop_id));
    assert(bytes.subrange(16, 20) =~= be32(h.end_to_end_id));
    assert(command_code_of(command_code_num(h.code)) == Some(h.code));
    assert(application_id_of(application_id_num(h.application_id)) == Some(h.application_id));
    assert(dec_header(bytes) == Some(h));
    assert(bytes.subrange(20, h.length as int) =~= avps_v_enc(m.avps));
    lemma_dec_avps_of_enc(dict, m.avps);
}

/// Length accounting: a sound message's stored length is twenty plus the
/// framed size of every AVP it carries.
pub proof fn lemma_length_accounting(m: DiameterMessageV)
    requires
        msg_v_wf(m),
    ensures
        m.header.length == 20 + avps_framed_len(m.avps),
{
}

/// The first AVP with the given code, if the list has one.
pub open spec fn avp_find(l: Seq<AvpV>, code: u32) -> Option<AvpV>
    decreases l.len(),
{
    if l.len() == 0 {
        None
    } else if l[0].header.code == code {
        Some(l[0])
    } else {
        avp_find(l.drop_first(), code)
    }
}

/// A Diameter message: a header, an ordered list of AVPs, and a handle
/// to the dictionary used to decode it and to resolve names.
#[derive(Debug)]
pub struct DiameterMessage {
    header: DiameterHeader,
    avps: Vec<Avp>,
    dictionary: Arc<Dictionary>,
}

impl View for DiameterMessage {
    type V = DiameterMessageV;

    closed spec fn view(&self) -> DiameterMessageV {
        DiameterMessageV { header: self.header, avps: avps_view(self.avps@) }
    }
}

impl DiameterMessage {
    /// The AVPs as executable values.
    pub closed spec fn spec_avps(&self) -> Seq<Avp> {
        self.avps@
    }

    /// The dictionary handle the message carries.
    pub closed spec fn spec_dictionary(&self) -> Seq<AvpDefV> {
        self.dictionary@
    }

    /// Executable consistency: every stored padding count in the message
    /// obeys the padding law.
    pub open spec fn ok(&self) -> bool {
        &&& avps_ok(self.spec_avps())
        &&& self@.avps == avps_view(self.spec_avps())
    }

    /// Builds a message with the given header fields, a length of twenty
    /// (the bare header) and no AVPs.
    pub fn new(
        code: CommandCode,
        application_id: ApplicationId,
        flags: u8,
        hop_by_hop_id: u32,
        end_to_end_id: u32,
        dictionary: Arc<Dictionary>,
    ) -> (r: DiameterMessage)
        ensures
            r@ == (DiameterMessageV {
                header: DiameterHeader {
                    version: 1,
                    length: 20,
                    flags,
                    code,
                    application_id,
                    hop_by_hop_id,
                    end_to_end_id,
                },
                avps: Seq::<AvpV>::empty(),
            }),
            r.ok(),
            msg_v_wf(r@),
            r.spec_dictionary() == dictionary@,
    {
        let header = DiameterHeader {
            version: 1,
            length: HEADER_LENGTH,
            flags,
            code,
            application_id,
            hop_by_hop_id,
            end_to_end_id,
        };
        let avps = Vec::new();
        let r = DiameterMessage { header, avps, dictionary };
        proof {
            assert(r@.avps =~= Seq::<AvpV>::empty());
        }
        r
    }

    /// The first AVP with the given code, if the message has one.
    pub fn get_avp(&self, code: u32) -> (r: Option<&Avp>)
        ensures
            r is Some <==> avp_find(self@.avps, code) is Some,
            r matches Some(a) ==> Some(a@) == avp_find(self@.avps, code),
    {
        let n = self.avps.len();
        let mut i: usize = 0;
        proof {
            assert(self@.avps.skip(0) =~= self@.avps);
        }
        while i < n
            invariant
                0 <= i <= n,
                n == self.avps@.len(),
                self@.avps.len() == n,
                avp_find(self@.avps, code) == avp_find(self@.avps.skip(i as int), code),
            decreases n - i,
        {
            let a = &self.avps[i];
            proof {
                assert(self@.avps.skip(i as int)[0] == self@.avps[i as int]);
                assert(self@.avps[i as int] == self.avps@[i as int]@);
            }
            if a.get_code() == code {
                return Some(a);
            }
            proof {
                assert(self@.avps.skip(i as int).drop_first() =~= self@.avps.skip(i as int + 1));
            }
            i = i + 1;
        }
        proof {
            assert(self@.avps.skip(n as int) =~= Seq::<AvpV>::empty());
        }
        None
    }

    /// All AVPs of the message, in order.
    pub fn get_avps(&self) -> (r: &Vec<Avp>)
        ensures
            avps_view(r@) == self@.avps,
            r@ == self.spec_avps(),
    {
        &self.avps
    }

    /// Appends an AVP and grows the stored message length by the AVP's
    /// length plus its padding.
    pub fn add_avp(&mut self, avp: Avp)
        requires
            avp_ok(avp),
            old(self)@.header.length + avp_v_framed(avp@) <= 0xFFFFFF,
        ensures
            final(self)@.header == (DiameterHeader {
                length: (old(self)@.header.length + avp_v_framed(avp@)) as u32,
                ..old(self)@.header
            }),
            final(self)@.avps == old(self)@.avps.push(avp@),
            final(self).spec_dictionary() == old(self).spec_dictionary(),
            final(self).spec_avps() == old(self).spec_avps().push(avp),
            old(self).ok() ==> final(self).ok(),
            old(self).ok() && msg_v_wf(old(self)@) && avp_v_wf(avp@) ==> msg_v_wf(final(self)@),
    {
        proof {
            lemma_value_v_len_nonneg(avp@.value);
        }
        let add = avp.get_length() + avp.get_padding() as u32;
        self.header.length = self.header.length + add;
        self.avps.push(avp);
        proof {
            assert(final(self)@.avps =~= old(self)@.avps.push(avp@));
            if old(self).ok() && msg_v_wf(old(self)@) && avp_v_wf(avp@) {
                lemma_avps_framed_snoc(final(self)@.avps, old(self)@.avps.len() as int);
                assert(final(self)@.avps.take(old(self)@.avps.len() as int) =~= old(self)@.avps);
                assert(final(self)@.avps.take(old(self)@.avps.len() as int + 1) =~= final(self)@.avps);
                assert(final(self)@.avps[old(self)@.avps.len() as int] == avp@);
                assert(avps_framed_len(final(self)@.avps) == avps_framed_len(old(self)@.avps)
                    + avp_v_framed(avp@));
                crate::avp::lemma_avps_v_wf_push(old(self)@.avps, avp@);
            }
        }
    }

    /// Looks the name up in the message's dictionary and appends an AVP
    /// built from the entry's code, vendor id and M-flag default; returns
    /// `None` and leaves the message unchanged when the name is unknown.
    pub fn add_avp_by_name(&mut self, avp_name: &str, value: AvpValue) -> (r: Option<()>)
        requires
            value_v_wf(value@),
            value_ok(value),
            old(self)@.header.length + 12 + value_v_len(value@) + 3 <= 0xFFFFFF,
        ensures
            r is Some <==> def_lookup_by_name(old(self).spec_dictionary(), avp_name@) is Some,
            final(self).spec_dictionary() == old(self).spec_dictionary(),
            r is None ==> final(self)@ == old(self)@ && final(self).spec_avps() == old(
                self,
            ).spec_avps(),
            r is Some ==> ({
                let def = def_lookup_by_name(old(self).spec_dictionary(), avp_name@)->0;
                let header_len: int = if def.vendor_id is Some {
                    12
                } else {
                    8
                };
                let new_avp = (AvpV {
                    header: AvpHeader {
                        code: def.code,
                        flags: AvpFlags {
                            vendor: def.vendor_id is Some,
                            mandatory: def.m_flag,
                            private: false,
                        },
                        length: (header_len + value_v_len(value@)) as u32,
                        vendor_id: def.vendor_id,
                    },
                    value: value@,
                });
                &&& final(self)@.avps == old(self)@.avps.push(new_avp)
                &&& final(self)@.header == (DiameterHeader {
                    length: (old(self)@.header.length + avp_v_framed(new_avp)) as u32,
                    ..old(self)@.header
                })
                &&& (old(self).ok() ==> final(self).ok())
            }),
    {
        let (code, vendor_id, m_flag) = match self.dictionary.get_avp_by_name(avp_name) {
            Some(d) => (d.code, d.vendor_id, d.m_flag),
            None => {
                return None;
            },
        };
        let flags: u8 = if m_flag {
            0x40
        } else {
            0
        };
        proof {
            lemma_value_v_len_nonneg(value@);
        }
        let avp = Avp::new(code, vendor_id, flags, value);
        proof {
            assert(flag_bit_m(flags) == m_flag);
            assert(!flag_bit_p(flags));
            lemma_value_v_len_nonneg(avp@.value);
        }
        self.add_avp(avp);
        Some(())
    }

    /// The total stored length: the header plus every AVP with padding.
    pub fn get_length(&self) -> (r: u32)
        ensures
            r == self@.header.length,
    {
        self.header.length
    }

    pub fn get_command_code(&self) -> (r: CommandCode)
        ensures
            r == self@.header.code,
    {
        self.header.code
    }

    pub fn get_application_id(&self) -> (r: ApplicationId)
        ensures
            r == self@.header.application_id,
    {
        self.header.application_id
    }

    pub fn get_flags(&self) -> (r: u8)
        ensures
            r == self@.header.flags,
    {
        self.header.flags
    }

    pub fn get_hop_by_hop_id(&self) -> (r: u32)
        ensures
            r == self@.header.hop_by_hop_id,
    {
        self.header.hop_by_hop_id
    }

    pub fn get_end_to_end_id(&self) -> (r: u32)
        ensures
            r == self@.header.end_to_end_id,
    {
        self.header.end_to_end_id
    }

    /// Reads a whole message: the header, then AVPs until the stored
    /// length is met exactly; a shortfall or overshoot is a decode
    /// failure. The message keeps the dictionary handle it was decoded
    /// with.
    pub fn decode_from(cursor: &mut Cursor, dict: Arc<Dictionary>) -> (r: Result<
        DiameterMessage,
        Error,
    >)
        requires
            old(cursor).wf(),
        ensures
            final(cursor).contents() == old(cursor).contents(),
            final(cursor).wf(),
            ({
                let suffix = old(cursor).contents().skip(old(cursor).offset());
                &&& (r is Ok <==> dec_msg(dict@, suffix) is Some)
                &&& (r matches Ok(m) ==> {
                    &&& Some(m@) == dec_msg(dict@, suffix)
                    &&& m.ok()
                    &&& m.spec_dictionary() == dict@
                    &&& final(cursor).offset() == old(cursor).offset() + m@.header.length
                })
                &&& (r is Err ==> r->Err_0 is DecodeError || r->Err_0 is UnknownAvpCode)
            }),
    {
        let ghost suffix = old(cursor).contents().skip(old(cursor).offset());
        let header = DiameterHeader::decode_from(cursor)?;
        if header.length < HEADER_LENGTH {
            return Err(
                Error::DecodeError("invalid diameter message, length mismatch".to_owned()),
            );
        }
        let body_len = header.length - HEADER_LENGTH;
        let ghost start = old(cursor).offset();
        let ghost contents = old(cursor).contents();
        proof {
            if start + header.length as int <= contents.len() {
                assert(suffix.subrange(20, header.length as int) =~= contents.subrange(
                    start + 20,
                    start + 20 + body_len as int,
                ));
            }
        }
        let avps = decode_avp_list(cursor, body_len as usize, &*dict)?;
        let r = DiameterMessage { header, avps, dictionary: dict };
        proof {
            assert(r@.avps == avps_view(r.spec_avps()));
        }
        Ok(r)
    }

    /// Appends the whole wire image: the twenty header bytes, then each
    /// framed AVP in order. Fails exactly when a nested `Time` misses
    /// the wire window, leaving any already-written prefix in place.
    pub fn encode_to(&self, out: &mut Vec<u8>) -> (r: Result<(), Error>)
        requires
            avps_v_wf(self@.avps),
            self.ok(),
        ensures
            r is Ok <==> avps_times_ok(self@.avps),
            r is Ok ==> final(out)@ == old(out)@ + msg_enc(self@),
            r is Err ==> old(out)@.is_prefix_of(final(out)@) && r->Err_0 is EncodeError,
    {
        self.header.encode_to(out)?;
        let r = encode_avp_list(&self.avps, out);
        match r {
            Ok(()) => {
                proof {
                    assert(final(out)@ =~= old(out)@ + msg_enc(self@));
                }
                Ok(())
            },
            Err(e) => {
                proof {
                    let mid = old(out)@ + header_enc(self@.header);
                    assert(mid.is_prefix_of(out@));
                    assert(old(out)@ =~= out@.take(old(out)@.len() as int));
                    assert(old(out)@.is_prefix_of(out@));
                }
                Err(e)
            },
        }
    }
}


/// The display name of each recognized command.
pub open spec fn command_code_name(c: CommandCode) -> Seq<char> {
    match c {
        CommandCode::Error => "Error"@,
        CommandCode::CapabilitiesExchange => "CapabilitiesExchange"@,
        CommandCode::ReAuth => "ReAuth"@,
        CommandCode::AA => "AA"@,
        CommandCode::Accounting => "Accounting"@,
        CommandCode::CreditControl => "CreditControl"@,
        CommandCode::AbortSession => "AbortSession"@,
        CommandCode::SessionTerminate => "SessionTerminate"@,
        CommandCode::DeviceWatchdog => "DeviceWatchdog"@,
        CommandCode::DisconnectPeer => "DisconnectPeer"@,
        CommandCode::SpendingLimit => "SpendingLimit"@,
        CommandCode::SpendingStatusNotification => "SpendingStatusNotification"@,
    }
}

/// The display name of each recognized application.
pub open spec fn application_id_name(a: ApplicationId) -> Seq<char> {
    match a {
        ApplicationId::Common => "Common"@,
        ApplicationId::Accounting => "Accounting"@,
        ApplicationId::CreditControl => "CreditControl"@,
        ApplicationId::Gx => "Gx"@,
        ApplicationId::Rx => "Rx"@,
        ApplicationId::Sy => "Sy"@,
    }
}

impl CommandCode {
    /// The display name of this command.
    pub fn name(&self) -> (r: &'static str)
        ensures
            r@ == command_code_name(*self),
    {
        match self {
            CommandCode::Error => "Error",
            CommandCode::CapabilitiesExchange => "CapabilitiesExchange",
            CommandCode::ReAuth => "ReAuth",
            CommandCode::AA => "AA",
            CommandCode::Accounting => "Accounting",
            CommandCode::CreditControl => "CreditControl",
            CommandCode::AbortSession => "AbortSession",
            CommandCode::SessionTerminate => "SessionTerminate",
            CommandCode::DeviceWatchdog => "DeviceWatchdog",
            CommandCode::DisconnectPeer => "DisconnectPeer",
            CommandCode::SpendingLimit => "SpendingLimit",
            CommandCode::SpendingStatusNotification => "SpendingStatusNotification",
        }
    }
}

impl ApplicationId {
    /// The display name of this application.
    pub fn name(&self) -> (r: &'static str)
        ensures
            r@ == application_id_name(*self),
    {
        match self {
            ApplicationId::Common => "Common",
            ApplicationId::Accounting => "Accounting",
            ApplicationId::CreditControl => "CreditControl",
            ApplicationId::Gx => "Gx",
            ApplicationId::Rx => "Rx",
            ApplicationId::Sy => "Sy",
        }
    }
}

/// The display line of a message header: version, named command and
/// application with their numbers, the flag words, and the two
/// identifiers.
pub open spec fn header_fmt(h: DiameterHeader) -> Seq<char> {
    crate::text::dec_u64(h.version as u64) + " "@ + command_code_name(h.code) + "("@
        + crate::text::dec_u64(command_code_num(h.code) as u64) + ") "@ + application_id_name(
        h.application_id,
    ) + "("@ + crate::text::dec_u64(application_id_num(h.application_id) as u64) + ") "@ + (if (
    h.flags / 0x80) % 2 == 1 {
        "Request"@
    } else {
        "Answer"@
    }) + (if (h.flags / 0x20) % 2 == 1 {
        "Error"@
    } else {
        Seq::<char>::empty()
    }) + (if (h.flags / 0x40) % 2 == 1 {
        "Proxyable"@
    } else {
        Seq::<char>::empty()
    }) + (if (h.flags / 0x10) % 2 == 1 {
        "Retransmit"@
    } else {
        Seq::<char>::empty()
    }) + " "@ + crate::text::dec_u64(h.hop_by_hop_id as u64) + ", "@ + crate::text::dec_u64(
        h.end_to_end_id as u64,
    )
}

impl DiameterHeader {
    /// Renders the header as one display line.
    pub fn fmt(&self) -> (r: String)
        ensures
            r@ == header_fmt(*self),
    {
        let mut out = String::new();
        crate::text::push_dec_u64(self.version as u64, &mut out);
        out.append(" ");
        out.append(self.code.name());
        out.append("(");
        crate::text::push_dec_u64(self.code.to_u32() as u64, &mut out);
        out.append(") ");
        out.append(self.application_id.name());
        out.append("(");
        crate::text::push_dec_u64(self.application_id.to_u32() as u64, &mut out);
        out.append(") ");
        if (self.flags / 0x80) % 2 == 1 {
            out.append("Request");
        } else {
            out.append("Answer");
        }
        if (self.flags / 0x20) % 2 == 1 {
            out.append("Error");
        }
        if (self.flags / 0x40) % 2 == 1 {
            out.append("Proxyable");
        }
        if (self.flags / 0x10) % 2 == 1 {
            out.append("Retransmit");
        }
        out.append(" ");
        crate::text::push_dec_u64(self.hop_by_hop_id as u64, &mut out);
        out.append(", ");
        crate::text::push_dec_u64(self.end_to_end_id as u64, &mut out);
        proof {
            assert(out@ =~= header_fmt(*self));
        }
        out
    }
}

/// The display lines of an AVP list: one line per AVP, each followed by
/// a line break.
pub open spec fn avp_lines(dict: Seq<AvpDefV>, l: Seq<AvpV>) -> Seq<char>
    decreases l.len(),
{
    if l.len() == 0 {
        Seq::<char>::empty()
    } else {
        crate::avp::avp_fmt(dict, l[0], 0) + "\n"@ + avp_lines(dict, l.drop_first())
    }
}

/// The display form of a whole message: the header line, a column
/// caption line, and one line per AVP.
pub open spec fn msg_fmt(dict: Seq<AvpDefV>, m: DiameterMessageV) -> Seq<char> {
    header_fmt(m.header) + "\n"@ + "  "@ + crate::text::pad_right_chars("AVP"@, 40) + " "@
        + crate::text::pad_left_chars("Vendor"@, 8) + " "@ + crate::text::pad_left_chars(
        "Code"@,
        5,
    ) + "  V M P  "@ + crate::text::pad_right_chars("Type"@, 16) + "  Value\n"@ + avp_lines(
        dict,
        m.avps,
    )
}

impl DiameterMessage {
    /// Renders the whole message for display, resolving AVP names
    /// through the message's own dictionary handle.
    pub fn fmt(&self) -> (r: String)
        ensures
            r@ == msg_fmt(self.spec_dictionary(), self@),
    {
        let mut out = self.header.fmt();
        out.append("\n");
        out.append("  ");
        crate::text::push_pad_right(&mut out, "AVP", 40);
        out.append(" ");
        crate::text::push_pad_left(&mut out, "Vendor", 8);
        out.append(" ");
        crate::text::push_pad_left(&mut out, "Code", 5);
        out.append("  V M P  ");
        crate::text::push_pad_right(&mut out, "Type", 16);
        out.append("  Value\n");
        let ghost prefix = out@;
        let n = self.avps.len();
        let mut i: usize = 0;
        proof {
            assert(self@.avps.skip(0) =~= self@.avps);
        }
        while i < n
            invariant
                0 <= i <= n,
                n == self.avps@.len(),
                self@.avps.len() == n,
                prefix + avp_lines(self.spec_dictionary(), self@.avps) == out@ + avp_lines(
                    self.spec_dictionary(),
                    self@.avps.skip(i as int),
                ),
            decreases n - i,
        {
            proof {
                assert(self@.avps.skip(i as int)[0] == self@.avps[i as int]);
                assert(self@.avps[i as int] == self.avps@[i as int]@);
                assert(self@.avps.skip(i as int).drop_first() =~= self@.avps.skip(i as int + 1));
            }
            let line = self.avps[i].fmt(&self.dictionary, 0);
            out.append(line.as_str());
            out.append("\n");
            i = i + 1;
        }
        proof {
            assert(self@.avps.skip(n as int) =~= Seq::<AvpV>::empty());
            assert(out@ =~= msg_fmt(self.spec_dictionary(), self@));
        }
        out
    }
}

} // verus!
