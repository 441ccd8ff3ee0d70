//! Attribute-Value Pairs: the typed value, the AVP header, framing with
//! padding, and the wire image that the round-trip laws are stated over.
//!
//! An AVP on the wire is a four-byte code, one flag byte (`V M P` and
//! five reserved bits), a 24-bit length covering header and value but not
//! padding, an optional four-byte vendor id (present exactly when the V
//! flag is set), the value bytes, and zero padding up to a 32-bit
//! boundary.

pub mod address;
pub mod enumerated;
pub mod float32;
pub mod float64;
pub mod group;
pub mod identity;
pub mod integer32;
pub mod integer64;
pub mod ipv4;
pub mod ipv6;
pub mod octetstring;
pub mod time;
pub mod unsigned32;
pub mod unsigned64;
pub mod uri;
pub mod utf8string;

pub use crate::avp::address::Address;
pub use crate::avp::enumerated::Enumerated;
pub use crate::avp::float32::Float32;
pub use crate::avp::float64::Float64;
pub use crate::avp::group::Grouped;
pub use crate::avp::identity::Identity;
pub use crate::avp::integer32::Integer32;
pub use crate::avp::integer64::Integer64;
pub use crate::avp::ipv4::IPv4;
pub use crate::avp::ipv6::IPv6;
pub use crate::avp::octetstring::OctetString;
pub use crate::avp::time::Time;
pub use crate::avp::unsigned32::Unsigned32;
pub use crate::avp::unsigned64::Unsigned64;
pub use crate::avp::uri::DiameterURI;
pub use crate::avp::utf8string::UTF8String;

use vstd::prelude::*;

use vstd::string::StringExecFns;
use vstd::utf8::encode_utf8;

use crate::avp::address::{addr_dec, addr_display, addr_enc, addr_len, addr_wf, AddressV};
use crate::avp::time::{diameter_seconds, time_in_range, RFC868_OFFSET};
use crate::bytes::{
    be24, be24_val, be32, be32_val, be64, i32_of_u32, i64_of_u64, lemma_be24_roundtrip,
    lemma_be32_roundtrip, pad_of, pad_to_32_bits, u32_of_i32, u64_of_i64, write_u24, write_u32,
    write_zeros, zeros, Cursor,
};
use crate::dictionary::{def_type_of, AvpDefV, Dictionary};
use crate::error::Error;

verus! {

broadcast use vstd::array::group_array_axioms;

/// The V (vendor) bit of the AVP flag byte.
pub const AVP_FLAG_VENDOR: u8 = 0x80;

/// The M (mandatory) bit of the AVP flag byte.
pub const AVP_FLAG_MANDATORY: u8 = 0x40;

/// The P (private) bit of the AVP flag byte.
pub const AVP_FLAG_PRIVATE: u8 = 0x20;

/// The three meaningful bits of the AVP flag byte; the reserved bits are
/// dropped on decode and written as zero on encode.
#[derive(Debug, Clone, Copy, PartialEq, Eq, Structural)]
pub struct AvpFlags {
    pub vendor: bool,
    pub mandatory: bool,
    pub private: bool,
}

/// The AVP header: code, flags, 24-bit length (header plus value,
/// excluding padding), and the vendor id carried exactly when the V flag
/// is set.
#[derive(Debug, Clone, Copy, PartialEq, Eq, Structural)]
pub struct AvpHeader {
    pub code: u32,
    pub flags: AvpFlags,
    pub length: u32,
    pub vendor_id: Option<u32>,
}

/// The value types a dictionary can assign to an AVP. `Unknown` is a
/// dictionary sentinel, never a decoded value: an AVP resolving to it
/// fails decoding.
#[derive(Debug, Clone, Copy, PartialEq, Eq, Structural)]
pub enum AvpType {
    Unknown,
    Address,
    AddressIPv4,
    AddressIPv6,
    Identity,
    DiameterURI,
    Enumerated,
    Float32,
    Float64,
    Grouped,
    Integer32,
    Integer64,
    OctetString,
    Time,
    Unsigned32,
    Unsigned64,
    UTF8String,
}

/// A typed AVP value: one variant per value type.
#[derive(Debug)]
pub enum AvpValue {
    Address(Address),
    AddressIPv4(IPv4),
    AddressIPv6(IPv6),
    Identity(Identity),
    DiameterURI(DiameterURI),
    Enumerated(Enumerated),
    Float32(Float32),
    Float64(Float64),
    Grouped(Grouped),
    Integer32(Integer32),
    Integer64(Integer64),
    OctetString(OctetString),
    Time(Time),
    Unsigned32(Unsigned32),
    Unsigned64(Unsigned64),
    UTF8String(UTF8String),
}

/// Mathematical image of an AVP value: plain sequences and integers.
#[verifier::ext_equal]
pub enum AvpValueV {
    Address(AddressV),
    AddressIPv4(Seq<u8>),
    AddressIPv6(Seq<u8>),
    Identity(Seq<char>),
    DiameterURI(Seq<u8>),
    Enumerated(i32),
    Float32(u32),
    Float64(u64),
    Grouped(Seq<AvpV>),
    Integer32(i32),
    Integer64(i64),
    OctetString(Seq<u8>),
    Time(i64),
    Unsigned32(u32),
    Unsigned64(u64),
    UTF8String(Seq<char>),
}

/// Mathematical image of an AVP: its header and its value. The stored
/// padding count is derived data and lives outside the image.
#[verifier::ext_equal]
pub struct AvpV {
    pub header: AvpHeader,
    pub value: AvpValueV,
}

/// An AVP: header, typed value, and its pad byte count (0 to 3).
#[derive(Debug)]
pub struct Avp {
    header: AvpHeader,
    value: AvpValue,
    padding: u8,
}

/// The image of one AVP.
pub closed spec fn avp_view(a: Avp) -> AvpV
    decreases a,
{
    AvpV { header: a.header, value: value_view(a.value) }
}

/// The image of one AVP value.
pub open spec fn value_view(v: AvpValue) -> AvpValueV
    decreases v,
{
    match v {
        AvpValue::Address(x) => AvpValueV::Address(x@),
        AvpValue::AddressIPv4(x) => AvpValueV::AddressIPv4(x@),
        AvpValue::AddressIPv6(x) => AvpValueV::AddressIPv6(x@),
        AvpValue::Identity(x) => AvpValueV::Identity(x@),
        AvpValue::DiameterURI(x) => AvpValueV::DiameterURI(x@),
        AvpValue::Enumerated(x) => AvpValueV::Enumerated(x@),
        AvpValue::Float32(x) => AvpValueV::Float32(x@),
        AvpValue::Float64(x) => AvpValueV::Float64(x@),
        AvpValue::Grouped(x) => AvpValueV::Grouped(x@),
        AvpValue::Integer32(x) => AvpValueV::Integer32(x@),
        AvpValue::Integer64(x) => AvpValueV::Integer64(x@),
        AvpValue::OctetString(x) => AvpValueV::OctetString(x@),
        AvpValue::Time(x) => AvpValueV::Time(x@),
        AvpValue::Unsigned32(x) => AvpValueV::Unsigned32(x@),
        AvpValue::Unsigned64(x) => AvpValueV::Unsigned64(x@),
        AvpValue::UTF8String(x) => AvpValueV::UTF8String(x@),
    }
}

/// The image of a list of AVPs, element by element.
pub open spec fn avps_view(l: Seq<Avp>) -> Seq<AvpV>
    decreases l,
{
    Seq::new(
        l.len(),
        |i: int|
            if 0 <= i < l.len() {
                avp_view(l[i])
            } else {
                vstd::pervasive::arbitrary()
            },
    )
}

impl View for Avp {
    type V = AvpV;

    open spec fn view(&self) -> AvpV {
        avp_view(*self)
    }
}

impl View for AvpValue {
    type V = AvpValueV;

    open spec fn view(&self) -> AvpValueV {
        value_view(*self)
    }
}

/// The flag byte assembled from the three flag bits; reserved bits zero.
pub open spec fn flags_byte(vendor: bool, mandatory: bool, private: bool) -> u8 {
    ((if vendor {
        0x80int
    } else {
        0int
    }) + (if mandatory {
        0x40int
    } else {
        0int
    }) + (if private {
        0x20int
    } else {
        0int
    })) as u8
}

/// The V bit of a flag byte.
pub open spec fn flag_bit_v(b: u8) -> bool {
    (b / 0x80) % 2 == 1
}

/// The M bit of a flag byte.
pub open spec fn flag_bit_m(b: u8) -> bool {
    (b / 0x40) % 2 == 1
}

/// The P bit of a flag byte.
pub open spec fn flag_bit_p(b: u8) -> bool {
    (b / 0x20) % 2 == 1
}

/// The header size an AVP pays on the wire: 12 with a vendor id, else 8.
pub open spec fn avp_header_len(h: AvpHeader) -> int {
    if h.vendor_id is Some {
        12
    } else {
        8
    }
}

/// The byte length of a value on the wire (excluding padding).
pub open spec fn value_v_len(v: AvpValueV) -> int
    decreases v, 0int,
{
    match v {
        AvpValueV::Address(a) => addr_len(a),
        AvpValueV::AddressIPv4(o) => o.len() as int,
        AvpValueV::AddressIPv6(o) => o.len() as int,
        AvpValueV::Identity(s) => encode_utf8(s).len() as int,
        AvpValueV::DiameterURI(b) => b.len() as int,
        AvpValueV::Enumerated(_) => 4,
        AvpValueV::Float32(_) => 4,
        AvpValueV::Float64(_) => 8,
        AvpValueV::Grouped(l) => avps_framed_len(l),
        AvpValueV::Integer32(_) => 4,
        AvpValueV::Integer64(_) => 8,
        AvpValueV::OctetString(b) => b.len() as int,
        AvpValueV::Time(_) => 4,
        AvpValueV::Unsigned32(_) => 4,
        AvpValueV::Unsigned64(_) => 8,
        AvpValueV::UTF8String(s) => encode_utf8(s).len() as int,
    }
}

/// The full framed size of one AVP: header, value, padding.
pub open spec fn avp_v_framed(a: AvpV) -> int
    decreases a, 1int,
{
    avp_header_len(a.header) + value_v_len(a.value) + pad_of(value_v_len(a.value))
}

/// The framed size of a list of AVPs laid end to end.
pub open spec fn avps_framed_len(l: Seq<AvpV>) -> int
    decreases l, 2int,
{
    if l.len() == 0 {
        0
    } else {
        avp_v_framed(l[0]) + avps_framed_len(l.drop_first())
    }
}

/// The wire image of an AVP header.
pub open spec fn avp_header_enc(h: AvpHeader) -> Seq<u8> {
    be32(h.code) + seq![flags_byte(h.flags.vendor, h.flags.mandatory, h.flags.private)] + be24(
        h.length,
    ) + (match h.vendor_id {
        Some(v) => be32(v),
        None => Seq::<u8>::empty(),
    })
}

/// The wire image of an AVP value (no padding; padding belongs to the
/// framing layer).
pub open spec fn value_v_enc(v: AvpValueV) -> Seq<u8>
    decreases v, 0int,
{
    match v {
        AvpValueV::Address(a) => addr_enc(a),
        AvpValueV::AddressIPv4(o) => o,
        AvpValueV::AddressIPv6(o) => o,
        AvpValueV::Identity(s) => encode_utf8(s),
        AvpValueV::DiameterURI(b) => b,
        AvpValueV::Enumerated(x) => be32(u32_of_i32(x)),
        AvpValueV::Float32(x) => be32(x),
        AvpValueV::Float64(x) => be64(x),
        AvpValueV::Grouped(l) => avps_v_enc(l),
        AvpValueV::Integer32(x) => be32(u32_of_i32(x)),
        AvpValueV::Integer64(x) => be64(u64_of_i64(x)),
        AvpValueV::OctetString(b) => b,
        AvpValueV::Time(t) => be32(diameter_seconds(t)),
        AvpValueV::Unsigned32(x) => be32(x),
        AvpValueV::Unsigned64(x) => be64(x),
        AvpValueV::UTF8String(s) => encode_utf8(s),
    }
}

/// The wire image of one framed AVP: header, value, zero padding.
pub open spec fn avp_v_enc(a: AvpV) -> Seq<u8>
    decreases a, 1int,
{
    avp_header_enc(a.header) + value_v_enc(a.value) + zeros(pad_of(value_v_len(a.value)))
}

/// The wire image of a list of framed AVPs laid end to end.
pub open spec fn avps_v_enc(l: Seq<AvpV>) -> Seq<u8>
    decreases l, 2int,
{
    if l.len() == 0 {
        Seq::<u8>::empty()
    } else {
        avp_v_enc(l[0]) + avps_v_enc(l.drop_first())
    }
}

/// Structural soundness of an AVP image: the V flag mirrors the vendor
/// id, the stored length counts header plus value and fits 24 bits, and
/// the value is sound, recursively.
pub open spec fn avp_v_wf(a: AvpV) -> bool
    decreases a, 1int,
{
    &&& (a.header.flags.vendor <==> a.header.vendor_id is Some)
    &&& a.header.length == avp_header_len(a.header) + value_v_len(a.value)
    &&& a.header.length <= 0xFFFFFF
    &&& value_v_wf(a.value)
}

/// Structural soundness of a value image.
pub open spec fn value_v_wf(v: AvpValueV) -> bool
    decreases v, 0int,
{
    match v {
        AvpValueV::Address(a) => addr_wf(a),
        AvpValueV::AddressIPv4(o) => o.len() == 4,
        AvpValueV::AddressIPv6(o) => o.len() == 16,
        AvpValueV::Grouped(l) => avps_v_wf(l),
        _ => true,
    }
}

/// Structural soundness of every AVP in a list.
pub open spec fn avps_v_wf(l: Seq<AvpV>) -> bool
    decreases l, 2int,
{
    l.len() == 0 || (avp_v_wf(l[0]) && avps_v_wf(l.drop_first()))
}

/// Whether every `Time` value in the AVP fits the 32-bit wire window;
/// encoding succeeds exactly on such AVPs.
pub open spec fn avp_times_ok(a: AvpV) -> bool
    decreases a, 1int,
{
    value_times_ok(a.value)
}

/// Whether every `Time` value in a value image fits the wire window.
pub open spec fn value_times_ok(v: AvpValueV) -> bool
    decreases v, 0int,
{
    match v {
        AvpValueV::Time(t) => time_in_range(t),
        AvpValueV::Grouped(l) => avps_times_ok(l),
        _ => true,
    }
}

/// Whether every `Time` value in a list of AVPs fits the wire window.
pub open spec fn avps_times_ok(l: Seq<AvpV>) -> bool
    decreases l, 2int,
{
    l.len() == 0 || (avp_times_ok(l[0]) && avps_times_ok(l.drop_first()))
}

/// The dictionary type tag of a value image's variant.
pub open spec fn value_type_of(v: AvpValueV) -> AvpType {
    match v {
        AvpValueV::Address(_) => AvpType::Address,
        AvpValueV::AddressIPv4(_) => AvpType::AddressIPv4,
        AvpValueV::AddressIPv6(_) => AvpType::AddressIPv6,
        AvpValueV::Identity(_) => AvpType::Identity,
        AvpValueV::DiameterURI(_) => AvpType::DiameterURI,
        AvpValueV::Enumerated(_) => AvpType::Enumerated,
        AvpValueV::Float32(_) => AvpType::Float32,
        AvpValueV::Float64(_) => AvpType::Float64,
        AvpValueV::Grouped(_) => AvpType::Grouped,
        AvpValueV::Integer32(_) => AvpType::Integer32,
        AvpValueV::Integer64(_) => AvpType::Integer64,
        AvpValueV::OctetString(_) => AvpType::OctetString,
        AvpValueV::Time(_) => AvpType::Time,
        AvpValueV::Unsigned32(_) => AvpType::Unsigned32,
        AvpValueV::Unsigned64(_) => AvpType::Unsigned64,
        AvpValueV::UTF8String(_) => AvpType::UTF8String,
    }
}

/// Whether the dictionary resolves every `(code, vendor)` pair in the
/// AVP, recursively, to the value type the AVP actually carries. Under
/// this agreement decoding inverts encoding.
pub open spec fn dict_agrees(dict: Seq<AvpDefV>, a: AvpV) -> bool
    decreases a, 1int,
{
    &&& def_type_of(dict, a.header.code, a.header.vendor_id) == value_type_of(a.value)
    &&& value_dict_agrees(dict, a.value)
}

/// Whether the dictionary agrees with every AVP nested in a value.
pub open spec fn value_dict_agrees(dict: Seq<AvpDefV>, v: AvpValueV) -> bool
    decreases v, 0int,
{
    match v {
        AvpValueV::Grouped(l) => avps_dict_agree(dict, l),
        _ => true,
    }
}

/// Whether the dictionary agrees with every AVP in a list.
pub open spec fn avps_dict_agree(dict: Seq<AvpDefV>, l: Seq<AvpV>) -> bool
    decreases l, 2int,
{
    l.len() == 0 || (dict_agrees(dict, l[0]) && avps_dict_agree(dict, l.drop_first()))
}

/// The AVP header read from the start of `bytes`: code, flag bits, the
/// 24-bit length, and a vendor id when the V bit is set; `None` when too
/// few bytes are there.
pub open spec fn dec_avp_header(bytes: Seq<u8>) -> Option<AvpHeader> {
    if bytes.len() < 8 {
        None
    } else {
        let code = be32_val(bytes.subrange(0, 4));
        let fb = bytes[4];
        let length = be24_val(bytes.subrange(5, 8));
        if flag_bit_v(fb) {
            if bytes.len() < 12 {
                None
            } else {
                Some(
                    AvpHeader {
                        code,
                        flags: AvpFlags {
                            vendor: true,
                            mandatory: flag_bit_m(fb),
                            private: flag_bit_p(fb),
                        },
                        length,
                        vendor_id: Some(be32_val(bytes.subrange(8, 12))),
                    },
                )
            }
        } else {
            Some(
                AvpHeader {
                    code,
                    flags: AvpFlags {
                        vendor: false,
                        mandatory: flag_bit_m(fb),
                        private: flag_bit_p(fb),
                    },
                    length,
                    vendor_id: None,
                },
            )
        }
    }
}

/// The whole wire footprint (stored length plus padding) the AVP at the
/// start of `bytes` claims; 0 when not even a header is there.
pub open spec fn avp_wire_size(bytes: Seq<u8>) -> int {
    match dec_avp_header(bytes) {
        None => 0,
        Some(h) => h.length + pad_of(h.length - avp_header_len(h)),
    }
}

/// The value decoded from a window of exactly `bytes`, of the type the
/// dictionary assigned; `None` when the window does not parse as that
/// type or the type is `Unknown`.
pub open spec fn dec_value(dict: Seq<AvpDefV>, t: AvpType, bytes: Seq<u8>) -> Option<AvpValueV>
    decreases bytes.len(), 2int,
{
    match t {
        AvpType::Unknown => None,
        AvpType::Address => match addr_dec(bytes) {
            Some(a) => Some(AvpValueV::Address(a)),
            None => None,
        },
        AvpType::AddressIPv4 => if bytes.len() == 4 {
            Some(AvpValueV::AddressIPv4(bytes))
        } else {
            None
        },
        AvpType::AddressIPv6 => if bytes.len() == 16 {
            Some(AvpValueV::AddressIPv6(bytes))
        } else {
            None
        },
        AvpType::Identity => if vstd::utf8::valid_utf8(bytes) {
            Some(AvpValueV::Identity(vstd::utf8::decode_utf8(bytes)))
        } else {
            None
        },
        AvpType::DiameterURI => Some(AvpValueV::DiameterURI(bytes)),
        AvpType::Enumerated => if bytes.len() == 4 {
            Some(AvpValueV::Enumerated(i32_of_u32(be32_val(bytes))))
        } else {
            None
        },
        AvpType::Float32 => if bytes.len() == 4 {
            Some(AvpValueV::Float32(be32_val(bytes)))
        } else {
            None
        },
        AvpType::Float64 => if bytes.len() == 8 {
            Some(AvpValueV::Float64(crate::bytes::be64_val(bytes)))
        } else {
            None
        },
        AvpType::Grouped => match dec_avps(dict, bytes) {
            Some(l) => Some(AvpValueV::Grouped(l)),
            None => None,
        },
        AvpType::Integer32 => if bytes.len() == 4 {
            Some(AvpValueV::Integer32(i32_of_u32(be32_val(bytes))))
        } else {
            None
        },
        AvpType::Integer64 => if bytes.len() == 8 {
            Some(AvpValueV::Integer64(i64_of_u64(crate::bytes::be64_val(bytes))))
        } else {
            None
        },
        AvpType::OctetString => Some(AvpValueV::OctetString(bytes)),
        AvpType::Time => if bytes.len() == 4 {
            Some(AvpValueV::Time((be32_val(bytes) - RFC868_OFFSET) as i64))
        } else {
            None
        },
        AvpType::Unsigned32 => if bytes.len() == 4 {
            Some(AvpValueV::Unsigned32(be32_val(bytes)))
        } else {
            None
        },
        AvpType::Unsigned64 => if bytes.len() == 8 {
            Some(AvpValueV::Unsigned64(crate::bytes::be64_val(bytes)))
        } else {
            None
        },
        AvpType::UTF8String => if vstd::utf8::valid_utf8(bytes) {
            Some(AvpValueV::UTF8String(vstd::utf8::decode_utf8(bytes)))
        } else {
            None
        },
    }
}

/// The AVP decoded from the start of `bytes`: header, dictionary lookup,
/// value window of the declared size, padding skipped. `None` exactly
/// when any of those steps fails.
pub open spec fn dec_avp(dict: Seq<AvpDefV>, bytes: Seq<u8>) -> Option<AvpV>
    decreases bytes.len(), 0int,
{
    match dec_avp_header(bytes) {
        None => None,
        Some(h) => {
            let hdr = avp_header_len(h);
            if h.length < hdr {
                None
            } else {
                let vlen = h.length - hdr;
                let pad = pad_of(vlen);
                if bytes.len() < h.length + pad {
                    None
                } else {
                    let t = def_type_of(dict, h.code, h.vendor_id);
                    match dec_value(dict, t, bytes.subrange(hdr, hdr + vlen)) {
                        None => None,
                        Some(v) => Some(AvpV { header: h, value: v }),
                    }
                }
            }
        },
    }
}

/// The AVPs decoded from a window of exactly `bytes`, laid end to end;
/// `None` when any AVP fails or the window is not consumed exactly.
pub open spec fn dec_avps(dict: Seq<AvpDefV>, bytes: Seq<u8>) -> Option<Seq<AvpV>>
    decreases bytes.len(), 1int,
{
    if bytes.len() == 0 {
        Some(Seq::<AvpV>::empty())
    } else {
        let c = avp_wire_size(bytes);
        if c < 8 || c > bytes.len() {
            None
        } else {
            match dec_avp(dict, bytes) {
                None => None,
                Some(a) => match dec_avps(dict, bytes.skip(c)) {
                    None => None,
                    Some(rest) => Some(seq![a] + rest),
                },
            }
        }
    }
}

/// Executable consistency of an `Avp` with its image: the stored padding
/// count obeys the padding law.
pub open spec fn avp_ok(a: Avp) -> bool {
    &&& avp_v_wf(a@)
    &&& a.spec_padding() == pad_of(value_v_len(a@.value))
}

impl AvpValue {
    /// The byte length of the value on the wire (excluding padding).
    pub fn length(&self) -> (r: u32)
        requires
            value_ok(*self),
            0 <= value_v_len(self@) <= u32::MAX,
        ensures
            r == value_v_len(self@),
    {
        match self {
            AvpValue::Address(x) => x.length(),
            AvpValue::AddressIPv4(x) => x.length(),
            AvpValue::AddressIPv6(x) => x.length(),
            AvpValue::Identity(x) => x.length(),
            AvpValue::DiameterURI(x) => x.length(),
            AvpValue::Enumerated(x) => x.length(),
            AvpValue::Float32(x) => x.length(),
            AvpValue::Float64(x) => x.length(),
            AvpValue::Grouped(x) => x.length(),
            AvpValue::Integer32(x) => x.length(),
            AvpValue::Integer64(x) => x.length(),
            AvpValue::OctetString(x) => x.length(),
            AvpValue::Time(x) => x.length(),
            AvpValue::Unsigned32(x) => x.length(),
            AvpValue::Unsigned64(x) => x.length(),
            AvpValue::UTF8String(x) => x.length(),
        }
    }

    /// The display name of the value's type.
    pub fn get_type_name(&self) -> (r: &'static str)
        ensures
            r@ == type_name_of(value_type_of(self@)),
    {
        match self {
            AvpValue::Address(_) => "Address",
            AvpValue::AddressIPv4(_) => "AddressIPv4",
            AvpValue::AddressIPv6(_) => "AddressIPv6",
            AvpValue::Identity(_) => "Identity",
            AvpValue::DiameterURI(_) => "DiameterURI",
            AvpValue::Enumerated(_) => "Enumerated",
            AvpValue::Float32(_) => "Float32",
            AvpValue::Float64(_) => "Float64",
            AvpValue::Grouped(_) => "Grouped",
            AvpValue::Integer32(_) => "Integer32",
            AvpValue::Integer64(_) => "Integer64",
            AvpValue::OctetString(_) => "OctetString",
            AvpValue::Time(_) => "Time",
            AvpValue::Unsigned32(_) => "Unsigned32",
            AvpValue::Unsigned64(_) => "Unsigned64",
            AvpValue::UTF8String(_) => "UTF8String",
        }
    }

    /// Appends the wire image of the value (padding excluded); fails
    /// exactly when a nested `Time` misses the wire window, leaving any
    /// already-written prefix in place.
    pub fn encode_to(&self, out: &mut Vec<u8>) -> (r: Result<(), Error>)
        requires
            value_v_wf(self@),
        ensures
            r is Ok <==> value_times_ok(self@),
            r is Ok ==> final(out)@ == old(out)@ + value_v_enc(self@),
            r is Err ==> old(out)@.is_prefix_of(final(out)@) && r->Err_0 is EncodeError,
        decreases *self,
    {
        match self {
            AvpValue::Address(x) => x.encode_to(out),
            AvpValue::AddressIPv4(x) => x.encode_to(out),
            AvpValue::AddressIPv6(x) => x.encode_to(out),
            AvpValue::Identity(x) => x.encode_to(out),
            AvpValue::DiameterURI(x) => x.encode_to(out),
            AvpValue::Enumerated(x) => x.encode_to(out),
            AvpValue::Float32(x) => x.encode_to(out),
            AvpValue::Float64(x) => x.encode_to(out),
            AvpValue::Grouped(x) => x.encode_to(out),
            AvpValue::Integer32(x) => x.encode_to(out),
            AvpValue::Integer64(x) => x.encode_to(out),
            AvpValue::OctetString(x) => x.encode_to(out),
            AvpValue::Time(x) => x.encode_to(out),
            AvpValue::Unsigned32(x) => x.encode_to(out),
            AvpValue::Unsigned64(x) => x.encode_to(out),
            AvpValue::UTF8String(x) => x.encode_to(out),
        }
    }
}

/// The display name of each value type.
pub open spec fn type_name_of(t: AvpType) -> Seq<char> {
    match t {
        AvpType::Unknown => "Unknown"@,
        AvpType::Address => "Address"@,
        AvpType::AddressIPv4 => "AddressIPv4"@,
        AvpType::AddressIPv6 => "AddressIPv6"@,
        AvpType::Identity => "Identity"@,
        AvpType::DiameterURI => "DiameterURI"@,
        AvpType::Enumerated => "Enumerated"@,
        AvpType::Float32 => "Float32"@,
        AvpType::Float64 => "Float64"@,
        AvpType::Grouped => "Grouped"@,
        AvpType::Integer32 => "Integer32"@,
        AvpType::Integer64 => "Integer64"@,
        AvpType::OctetString => "OctetString"@,
        AvpType::Time => "Time"@,
        AvpType::Unsigned32 => "Unsigned32"@,
        AvpType::Unsigned64 => "Unsigned64"@,
        AvpType::UTF8String => "UTF8String"@,
    }
}

impl AvpHeader {
    /// Reads the 8- or 12-byte AVP header; fails exactly when too few
    /// bytes remain.
    pub fn decode_from(cursor: &mut Cursor) -> (r: Result<AvpHeader, Error>)
        requires
            old(cursor).wf(),
        ensures
            final(cursor).contents() == old(cursor).contents(),
            final(cursor).wf(),
            ({
                let suffix = old(cursor).contents().skip(old(cursor).offset());
                &&& (r is Ok <==> dec_avp_header(suffix) is Some)
                &&& (r matches Ok(h) ==> {
                    &&& Some(h) == dec_avp_header(suffix)
                    &&& final(cursor).offset() == old(cursor).offset() + avp_header_len(h)
                })
                &&& (r is Err ==> r->Err_0 is DecodeError)
            }),
    {
        let ghost suffix = old(cursor).contents().skip(old(cursor).offset());
        let code = cursor.read_u32()?;
        let fb = cursor.read_u8()?;
        let length = cursor.read_u24()?;
        proof {
            assert(suffix.subrange(0, 4) =~= old(cursor).contents().subrange(
                old(cursor).offset(),
                old(cursor).offset() + 4,
            ));
            assert(suffix[4] == old(cursor).contents()[old(cursor).offset() + 4]);
            assert(suffix.subrange(5, 8) =~= old(cursor).contents().subrange(
                old(cursor).offset() + 5,
                old(cursor).offset() + 8,
            ));
        }
        let vendor = (fb / 0x80) % 2 == 1;
        let mandatory = (fb / 0x40) % 2 == 1;
        let private = (fb / 0x20) % 2 == 1;
        let vendor_id = if vendor {
            let v = cursor.read_u32()?;
            proof {
                assert(suffix.subrange(8, 12) =~= old(cursor).contents().subrange(
                    old(cursor).offset() + 8,
                    old(cursor).offset() + 12,
                ));
            }
            Some(v)
        } else {
            None
        };
        Ok(AvpHeader { code, flags: AvpFlags { vendor, mandatory, private }, length, vendor_id })
    }

    /// Appends the wire image of the header; never fails.
    pub fn encode_to(&self, out: &mut Vec<u8>) -> (r: Result<(), Error>)
        ensures
            r is Ok,
            final(out)@ == old(out)@ + avp_header_enc(*self),
    {
        write_u32(self.code, out);
        let mut fb: u8 = 0;
        if self.flags.vendor {
            fb = fb + 0x80;
        }
        if self.flags.mandatory {
            fb = fb + 0x40;
        }
        if self.flags.private {
            fb = fb + 0x20;
        }
        proof {
            assert(fb == flags_byte(self.flags.vendor, self.flags.mandatory, self.flags.private));
        }
        out.push(fb);
        write_u24(self.length, out);
        match self.vendor_id {
            Some(v) => {
                write_u32(v, out);
            },
            None => {},
        }
        proof {
            assert(final(out)@ =~= old(out)@ + avp_header_enc(*self));
        }
        Ok(())
    }
}

impl Avp {
    /// The stored padding count.
    pub closed spec fn spec_padding(&self) -> u8 {
        self.padding
    }

    /// Builds an AVP: the header length is 8 or 12 by the vendor id, the
    /// V flag mirrors the vendor id, M and P come from `flags`, the
    /// stored length excludes padding, and the padding count follows the
    /// padding law.
    pub fn new(code: u32, vendor_id: Option<u32>, flags: u8, value: AvpValue) -> (r: Avp)
        requires
            value_v_wf(value@),
            value_ok(value),
            (if vendor_id is Some {
                12int
            } else {
                8int
            }) + value_v_len(value@) <= 0xFFFFFF,
        ensures
            r@ == (AvpV {
                header: AvpHeader {
                    code,
                    flags: AvpFlags {
                        vendor: vendor_id is Some,
                        mandatory: flag_bit_m(flags),
                        private: flag_bit_p(flags),
                    },
                    length: ((if vendor_id is Some {
                        12int
                    } else {
                        8int
                    }) + value_v_len(value@)) as u32,
                    vendor_id,
                },
                value: value@,
            }),
            avp_ok(r),
    {
        proof {
            lemma_value_v_len_nonneg(value@);
        }
        let header_length: u32 = if vendor_id.is_some() {
            12
        } else {
            8
        };
        let vlen = value.length();
        let padding = pad_to_32_bits(vlen);
        let header = AvpHeader {
            code,
            flags: AvpFlags {
                vendor: vendor_id.is_some(),
                mandatory: (flags / 0x40) % 2 == 1,
                private: (flags / 0x20) % 2 == 1,
            },
            length: header_length + vlen,
            vendor_id,
        };
        Avp { header, value, padding }
    }

    pub fn get_code(&self) -> (r: u32)
        ensures
            r == self@.header.code,
    {
        self.header.code
    }

    pub fn get_flags(&self) -> (r: &AvpFlags)
        ensures
            r == self@.header.flags,
    {
        &self.header.flags
    }

    pub fn get_vendor_id(&self) -> (r: Option<u32>)
        ensures
            r == self@.header.vendor_id,
    {
        self.header.vendor_id
    }

    pub fn get_length(&self) -> (r: u32)
        ensures
            r == self@.header.length,
    {
        self.header.length
    }

    pub fn get_padding(&self) -> (r: u8)
        ensures
            r == self.spec_padding(),
    {
        self.padding
    }

    pub fn get_value(&self) -> (r: &AvpValue)
        ensures
            r@ == self@.value,
    {
        &self.value
    }

    /// Reads one framed AVP: header, dictionary lookup, value of the
    /// declared size, padding. Succeeds exactly when the wire image
    /// decodes; an AVP whose `(code, vendor)` the dictionary cannot
    /// resolve is rejected with `UnknownAvpCode`.
    pub fn decode_from(cursor: &mut Cursor, dict: &Dictionary) -> (r: Result<Avp, Error>)
        requires
            old(cursor).wf(),
        ensures
            final(cursor).contents() == old(cursor).contents(),
            final(cursor).wf(),
            ({
                let suffix = old(cursor).contents().skip(old(cursor).offset());
                &&& (r is Ok <==> dec_avp(dict@, suffix) is Some)
                &&& (r matches Ok(a) ==> {
                    &&& Some(a@) == dec_avp(dict@, suffix)
                    &&& avp_ok(a)
                    &&& final(cursor).offset() == old(cursor).offset() + avp_wire_size(suffix)
                })
                &&& (dec_avp_header(suffix) matches Some(h) ==> ((h.length >= avp_header_len(h)
                    && def_type_of(dict@, h.code, h.vendor_id) == AvpType::Unknown) ==> r == Err::<
                    Avp,
                    Error,
                >(Error::UnknownAvpCode(h.code))))
                &&& (r is Err ==> r->Err_0 is DecodeError || r->Err_0 is UnknownAvpCode)
            }),
        decreases old(cursor).contents().len() - old(cursor).offset(), 0int,
    {
        let ghost suffix = old(cursor).contents().skip(old(cursor).offset());
        let header = AvpHeader::decode_from(cursor)?;
        let header_length: u32 = if header.flags.vendor {
            12
        } else {
            8
        };
        if header.length < header_length {
            return Err(Error::DecodeError("invalid avp length, shorter than its header".to_owned()));
        }
        let value_length = header.length - header_length;
        let ghost hdr = avp_header_len(header);
        let ghost window = suffix.subrange(hdr, hdr + value_length as int);
        proof {
            if old(cursor).offset() + hdr + value_length as int <= old(cursor).contents().len() {
                assert(window =~= old(cursor).contents().subrange(
                    old(cursor).offset() + hdr,
                    old(cursor).offset() + hdr + value_length as int,
                ));
            }
        }
        let avp_type = match dict.get_avp_type(header.code, header.vendor_id) {
            Some(t) => t,
            None => AvpType::Unknown,
        };
        let value = match avp_type {
            AvpType::Unknown => {
                return Err(Error::UnknownAvpCode(header.code));
            },
            AvpType::Address => AvpValue::Address(
                Address::decode_from(cursor, value_length as usize)?,
            ),
            AvpType::AddressIPv4 => {
                if value_length != 4 {
                    return Err(Error::DecodeError("invalid avp value length".to_owned()));
                }
                AvpValue::AddressIPv4(IPv4::decode_from(cursor)?)
            },
            AvpType::AddressIPv6 => {
                if value_length != 16 {
                    return Err(Error::DecodeError("invalid avp value length".to_owned()));
                }
                AvpValue::AddressIPv6(IPv6::decode_from(cursor)?)
            },
            AvpType::Identity => AvpValue::Identity(
                Identity::decode_from(cursor, value_length as usize)?,
            ),
            AvpType::DiameterURI => AvpValue::DiameterURI(
                DiameterURI::decode_from(cursor, value_length as usize)?,
            ),
            AvpType::Enumerated => {
                if value_length != 4 {
                    return Err(Error::DecodeError("invalid avp value length".to_owned()));
                }
                AvpValue::Enumerated(Enumerated::decode_from(cursor)?)
            },
            AvpType::Float32 => {
                if value_length != 4 {
                    return Err(Error::DecodeError("invalid avp value length".to_owned()));
                }
                AvpValue::Float32(Float32::decode_from(cursor)?)
            },
            AvpType::Float64 => {
                if value_length != 8 {
                    return Err(Error::DecodeError("invalid avp value length".to_owned()));
                }
                AvpValue::Float64(Float64::decode_from(cursor)?)
            },
            AvpType::Grouped => AvpValue::Grouped(
                Grouped::decode_from(cursor, value_length as usize, dict)?,
            ),
            AvpType::Integer32 => {
                if value_length != 4 {
                    return Err(Error::DecodeError("invalid avp value length".to_owned()));
                }
                AvpValue::Integer32(Integer32::decode_from(cursor)?)
            },
            AvpType::Integer64 => {
                if value_length != 8 {
                    return Err(Error::DecodeError("invalid avp value length".to_owned()));
                }
                AvpValue::Integer64(Integer64::decode_from(cursor)?)
            },
            AvpType::OctetString => AvpValue::OctetString(
                OctetString::decode_from(cursor, value_length as usize)?,
            ),
            AvpType::Time => {
                if value_length != 4 {
                    return Err(Error::DecodeError("invalid avp value length".to_owned()));
                }
                AvpValue::Time(Time::decode_from(cursor)?)
            },
            AvpType::Unsigned32 => {
                if value_length != 4 {
                    return Err(Error::DecodeError("invalid avp value length".to_owned()));
                }
                AvpValue::Unsigned32(Unsigned32::decode_from(cursor)?)
            },
            AvpType::Unsigned64 => {
                if value_length != 8 {
                    return Err(Error::DecodeError("invalid avp value length".to_owned()));
                }
                AvpValue::Unsigned64(Unsigned64::decode_from(cursor)?)
            },
            AvpType::UTF8String => AvpValue::UTF8String(
                UTF8String::decode_from(cursor, value_length as usize)?,
            ),
        };
        let padding = pad_to_32_bits(value_length);
        cursor.skip(padding as usize)?;
        proof {
            lemma_dec_avp_wf(dict@, suffix);
        }
        Ok(Avp { header, value, padding })
    }

    /// Appends the full framed wire image: header, value, zero padding.
    /// Fails exactly when a nested `Time` misses the wire window, leaving
    /// any already-written prefix in place.
    pub fn encode_to(&self, out: &mut Vec<u8>) -> (r: Result<(), Error>)
        requires
            avp_v_wf(self@),
        ensures
            r is Ok <==> avp_times_ok(self@),
            r is Ok ==> final(out)@ == old(out)@ + avp_v_enc(self@),
            r is Err ==> old(out)@.is_prefix_of(final(out)@) && r->Err_0 is EncodeError,
        decreases *self,
    {
        self.header.encode_to(out)?;
        let r = self.value.encode_to(out);
        match r {
            Ok(()) => {},
            Err(e) => {
                return Err(e);
            },
        }
        proof {
            lemma_value_v_len_nonneg(self@.value);
        }
        let header_length: u32 = if self.header.flags.vendor {
            12
        } else {
            8
        };
        let padding = pad_to_32_bits(self.header.length - header_length);
        write_zeros(padding, out);
        proof {
            assert(final(out)@ =~= old(out)@ + avp_v_enc(self@));
        }
        Ok(())
    }
}

/// Executable consistency of a list of AVPs with their images.
pub open spec fn avps_ok(l: Seq<Avp>) -> bool {
    forall|i: int| 0 <= i < l.len() ==> #[trigger] avp_ok(l[i])
}

/// Executable consistency of a value: nested group members carry
/// padding counts that obey the padding law.
pub open spec fn value_ok(v: AvpValue) -> bool {
    match v {
        AvpValue::Grouped(g) => avps_ok(g.spec_avps()),
        _ => true,
    }
}

/// On success the spec decoder yields a structurally sound AVP whose
/// framed size is exactly the wire footprint its header claims.
pub proof fn lemma_dec_avp_wf(dict: Seq<AvpDefV>, bytes: Seq<u8>)
    ensures
        dec_avp(dict, bytes) matches Some(a) ==> {
            &&& avp_v_wf(a)
            &&& avp_v_framed(a) == avp_wire_size(bytes)
            &&& 8 <= avp_wire_size(bytes) <= bytes.len()
        },
    decreases bytes.len(), 0int,
{
    if dec_avp(dict, bytes) is Some {
        let h = dec_avp_header(bytes)->0;
        let hdr = avp_header_len(h);
        let vlen = h.length - hdr;
        let window = bytes.subrange(hdr, hdr + vlen);
        let t = def_type_of(dict, h.code, h.vendor_id);
        lemma_dec_value_wf(dict, t, window);
        lemma_be24_val_bound(bytes.subrange(5, 8));
    }
}

/// On success the spec value decoder yields a sound value whose wire
/// length is exactly the window it was read from.
pub proof fn lemma_dec_value_wf(dict: Seq<AvpDefV>, t: AvpType, bytes: Seq<u8>)
    ensures
        dec_value(dict, t, bytes) matches Some(v) ==> {
            &&& value_v_wf(v)
            &&& value_v_len(v) == bytes.len()
        },
    decreases bytes.len(), 2int,
{
    match t {
        AvpType::Address => {
            if addr_dec(bytes) is Some {
                crate::avp::address::lemma_addr_dec_wf(bytes);
            }
        },
        AvpType::Identity | AvpType::UTF8String => {
            if vstd::utf8::valid_utf8(bytes) {
                vstd::utf8::decode_utf8_encode_utf8(bytes);
            }
        },
        AvpType::Grouped => {
            lemma_dec_avps_wf(dict, bytes);
        },
        _ => {},
    }
}

/// On success the spec list decoder yields sound AVPs whose framed sizes
/// sum to exactly the window length.
pub proof fn lemma_dec_avps_wf(dict: Seq<AvpDefV>, bytes: Seq<u8>)
    ensures
        dec_avps(dict, bytes) matches Some(l) ==> {
            &&& avps_v_wf(l)
            &&& avps_framed_len(l) == bytes.len()
        },
    decreases bytes.len(), 1int,
{
    if bytes.len() != 0 && dec_avps(dict, bytes) is Some {
        let c = avp_wire_size(bytes);
        lemma_dec_avp_wf(dict, bytes);
        lemma_dec_avps_wf(dict, bytes.skip(c));
        let a = dec_avp(dict, bytes)->0;
        let rest = dec_avps(dict, bytes.skip(c))->0;
        let l = dec_avps(dict, bytes)->0;
        assert(l == seq![a] + rest);
        assert(l[0] == a);
        assert(l.drop_first() =~= rest);
    }
}

/// Each member of a structurally sound list is sound.
pub proof fn lemma_avps_v_wf_index(l: Seq<AvpV>, i: int)
    requires
        avps_v_wf(l),
        0 <= i < l.len(),
    ensures
        avp_v_wf(l[i]),
    decreases i,
{
    if i > 0 {
        lemma_avps_v_wf_index(l.drop_first(), i - 1);
    }
}

/// A list whose members are each sound is sound.
pub proof fn lemma_avps_v_wf_all(l: Seq<AvpV>)
    requires
        forall|i: int| 0 <= i < l.len() ==> #[trigger] avp_v_wf(l[i]),
    ensures
        avps_v_wf(l),
    decreases l.len(),
{
    if l.len() > 0 {
        assert forall|i: int| 0 <= i < l.drop_first().len() implies #[trigger] avp_v_wf(
            l.drop_first()[i],
        ) by {
            assert(l.drop_first()[i] == l[i + 1]);
        }
        lemma_avps_v_wf_all(l.drop_first());
        assert(avp_v_wf(l[0]));
    }
}

/// Appending a sound AVP to a sound list keeps the list sound.
pub proof fn lemma_avps_v_wf_push(l: Seq<AvpV>, a: AvpV)
    requires
        avps_v_wf(l),
        avp_v_wf(a),
    ensures
        avps_v_wf(l.push(a)),
    decreases l.len(),
{
    if l.len() == 0 {
        assert(l.push(a)[0] == a);
        assert(l.push(a).drop_first() =~= Seq::<AvpV>::empty());
        assert(avps_v_wf(l.push(a).drop_first()));
        assert(avps_v_wf(l.push(a)));
    } else {
        lemma_avps_v_wf_push(l.drop_first(), a);
        assert(l.push(a)[0] == l[0]);
        assert(avp_v_wf(l.push(a)[0]));
        assert(l.push(a).drop_first() =~= l.drop_first().push(a));
        assert(avps_v_wf(l.push(a).drop_first()));
        assert(avps_v_wf(l.push(a)));
    }
}

/// Each member of a list whose times all fit also fits.
pub proof fn lemma_avps_times_ok_index(l: Seq<AvpV>, i: int)
    requires
        avps_times_ok(l),
        0 <= i < l.len(),
    ensures
        avp_times_ok(l[i]),
    decreases i,
{
    if i > 0 {
        lemma_avps_times_ok_index(l.drop_first(), i - 1);
    }
}

/// A list whose members' times each fit has all its times fitting.
pub proof fn lemma_avps_times_ok_all(l: Seq<AvpV>)
    requires
        forall|i: int| 0 <= i < l.len() ==> #[trigger] avp_times_ok(l[i]),
    ensures
        avps_times_ok(l),
    decreases l.len(),
{
    if l.len() > 0 {
        assert forall|i: int| 0 <= i < l.drop_first().len() implies #[trigger] avp_times_ok(
            l.drop_first()[i],
        ) by {
            assert(l.drop_first()[i] == l[i + 1]);
        }
        lemma_avps_times_ok_all(l.drop_first());
        assert(avp_times_ok(l[0]));
    }
}

/// Each member of a list the dictionary agrees with is agreed with.
pub proof fn lemma_avps_dict_agree_index(dict: Seq<AvpDefV>, l: Seq<AvpV>, i: int)
    requires
        avps_dict_agree(dict, l),
        0 <= i < l.len(),
    ensures
        dict_agrees(dict, l[i]),
    decreases i,
{
    if i > 0 {
        lemma_avps_dict_agree_index(dict, l.drop_first(), i - 1);
    }
}

/// Wire lengths are never negative.
pub proof fn lemma_value_v_len_nonneg(v: AvpValueV)
    ensures
        value_v_len(v) >= 0,
    decreases v, 0int,
{
    match v {
        AvpValueV::Grouped(l) => {
            lemma_avps_framed_len_nonneg(l);
        },
        _ => {},
    }
}

/// Framed AVP sizes are never negative.
pub proof fn lemma_avp_v_framed_nonneg(a: AvpV)
    ensures
        avp_v_framed(a) >= 8,
    decreases a, 1int,
{
    lemma_value_v_len_nonneg(a.value);
}

/// Summed framed sizes are never negative.
pub proof fn lemma_avps_framed_len_nonneg(l: Seq<AvpV>)
    ensures
        avps_framed_len(l) >= 0,
    decreases l, 2int,
{
    if l.len() != 0 {
        lemma_avp_v_framed_nonneg(l[0]);
        lemma_avps_framed_len_nonneg(l.drop_first());
    }
}

/// Splitting a list splits its summed framed size.
pub proof fn lemma_avps_framed_split(l: Seq<AvpV>, i: int)
    requires
        0 <= i <= l.len(),
    ensures
        avps_framed_len(l) == avps_framed_len(l.take(i)) + avps_framed_len(l.skip(i)),
    decreases i,
{
    if i == 0 {
        assert(l.take(0) =~= Seq::<AvpV>::empty());
        assert(l.skip(0) =~= l);
    } else {
        lemma_avps_framed_split(l.drop_first(), i - 1);
        assert(l.take(i)[0] == l[0]);
        assert(l.take(i).drop_first() =~= l.drop_first().take(i - 1));
        assert(l.skip(i) =~= l.drop_first().skip(i - 1));
    }
}

/// Extending a prefix by one element extends its concatenated encoding.
pub proof fn lemma_avps_v_enc_snoc(l: Seq<AvpV>, i: int)
    requires
        0 <= i < l.len(),
    ensures
        avps_v_enc(l.take(i + 1)) == avps_v_enc(l.take(i)) + avp_v_enc(l[i]),
    decreases i,
{
    if i == 0 {
        assert(l.take(0) =~= Seq::<AvpV>::empty());
        assert(l.take(1)[0] == l[0]);
        assert(l.take(1).drop_first() =~= Seq::<AvpV>::empty());
        assert(avps_v_enc(l.take(1)) =~= avps_v_enc(l.take(0)) + avp_v_enc(l[0]));
    } else {
        lemma_avps_v_enc_snoc(l.drop_first(), i - 1);
        assert(l.take(i + 1)[0] == l[0]);
        assert(l.take(i + 1).drop_first() =~= l.drop_first().take(i));
        assert(l.take(i)[0] == l[0]);
        assert(l.take(i).drop_first() =~= l.drop_first().take(i - 1));
        assert(l.drop_first()[i - 1] == l[i]);
        assert(avps_v_enc(l.take(i + 1)) =~= avps_v_enc(l.take(i)) + avp_v_enc(l[i]));
    }
}

/// Likewise for the summed framed size.
pub proof fn lemma_avps_framed_snoc(l: Seq<AvpV>, i: int)
    requires
        0 <= i < l.len(),
    ensures
        avps_framed_len(l.take(i + 1)) == avps_framed_len(l.take(i)) + avp_v_framed(l[i]),
    decreases i,
{
    if i == 0 {
        assert(l.take(0) =~= Seq::<AvpV>::empty());
        assert(l.take(1)[0] == l[0]);
        assert(l.take(1).drop_first() =~= Seq::<AvpV>::empty());
    } else {
        lemma_avps_framed_snoc(l.drop_first(), i - 1);
        assert(l.take(i + 1)[0] == l[0]);
        assert(l.take(i + 1).drop_first() =~= l.drop_first().take(i));
        assert(l.take(i)[0] == l[0]);
        assert(l.take(i).drop_first() =~= l.drop_first().take(i - 1));
        assert(l.drop_first()[i - 1] == l[i]);
    }
}

/// Decoding one AVP looks only at the wire footprint it claims: a prefix
/// that covers the footprint decodes to the same result.
pub proof fn lemma_dec_avp_take(dict: Seq<AvpDefV>, bytes: Seq<u8>, n: int)
    requires
        0 <= n <= bytes.len(),
    ensures
        dec_avp(dict, bytes.take(n)) is Some ==> {
            &&& dec_avp(dict, bytes) == dec_avp(dict, bytes.take(n))
            &&& avp_wire_size(bytes) == avp_wire_size(bytes.take(n))
            &&& avp_wire_size(bytes) <= n
        },
        (dec_avp(dict, bytes) is Some && avp_wire_size(bytes) <= n) ==> {
            &&& dec_avp(dict, bytes.take(n)) == dec_avp(dict, bytes)
            &&& avp_wire_size(bytes.take(n)) == avp_wire_size(bytes)
        },
{
    let t = bytes.take(n);
    if t.len() >= 8 {
        assert(t.subrange(0, 4) =~= bytes.subrange(0, 4));
        assert(t[4] == bytes[4]);
        assert(t.subrange(5, 8) =~= bytes.subrange(5, 8));
        if t.len() >= 12 {
            assert(t.subrange(8, 12) =~= bytes.subrange(8, 12));
        }
    }
    if dec_avp(dict, t) is Some {
        let h = dec_avp_header(t)->0;
        let hdr = avp_header_len(h);
        let vlen = h.length - hdr;
        assert(dec_avp_header(bytes) == Some(h));
        assert(t.subrange(hdr, hdr + vlen) =~= bytes.subrange(hdr, hdr + vlen));
    }
    if dec_avp(dict, bytes) is Some && avp_wire_size(bytes) <= n {
        let h = dec_avp_header(bytes)->0;
        let hdr = avp_header_len(h);
        let vlen = h.length - hdr;
        assert(h.length >= hdr);
        assert(avp_wire_size(bytes) == h.length + pad_of(vlen));
        assert(pad_of(vlen) >= 0);
        assert(n >= hdr);
        assert(dec_avp_header(t) == Some(h));
        assert(t.subrange(hdr, hdr + vlen) =~= bytes.subrange(hdr, hdr + vlen));
    }
}

/// Appends the wire image of each AVP in the list, each with its
/// padding; fails exactly when a nested `Time` misses the wire window,
/// leaving any already-written prefix in place.
#[verifier::loop_isolation(false)]
pub fn encode_avp_list(avps: &Vec<Avp>, out: &mut Vec<u8>) -> (r: Result<(), Error>)
    requires
        avps_v_wf(avps_view(avps@)),
    ensures
        r is Ok <==> avps_times_ok(avps_view(avps@)),
        r is Ok ==> final(out)@ == old(out)@ + avps_v_enc(avps_view(avps@)),
        r is Err ==> old(out)@.is_prefix_of(final(out)@) && r->Err_0 is EncodeError,
{
    let ghost l = avps_view(avps@);
    let n = avps.len();
    let mut i: usize = 0;
    while i < n
        invariant
            0 <= i <= n,
            n == avps@.len(),
            out@ == old(out)@ + avps_v_enc(l.take(i as int)),
            forall|j: int| 0 <= j < i ==> #[trigger] avp_times_ok(l[j]),
        decreases n - i,
    {
        proof {
            assert(l[i as int] == avps@[i as int]@);
            lemma_avps_v_wf_index(l, i as int);
        }
        let r = avps[i].encode_to(out);
        match r {
            Ok(()) => {},
            Err(e) => {
                proof {
                    assert(!avp_times_ok(l[i as int]));
                    if avps_times_ok(l) {
                        lemma_avps_times_ok_index(l, i as int);
                    }
                    let mid = old(out)@ + avps_v_enc(l.take(i as int));
                    assert(mid.is_prefix_of(out@));
                    assert(old(out)@ =~= out@.take(old(out)@.len() as int));
                    assert(old(out)@.is_prefix_of(out@));
                }
                return Err(e);
            },
        }
        proof {
            lemma_avps_v_enc_snoc(l, i as int);
        }
        i = i + 1;
    }
    proof {
        assert(l.take(n as int) =~= l);
        lemma_avps_times_ok_all(l);
    }
    Ok(())
}

/// One step of window decoding: how the first AVP of a bounded window
/// relates to the same bytes read without the bound.
pub proof fn lemma_dec_avps_step(dict: Seq<AvpDefV>, suffix: Seq<u8>, rem: int)
    requires
        0 < rem <= suffix.len(),
    ensures
        dec_avp(dict, suffix) is None ==> dec_avps(dict, suffix.take(rem)) is None,
        dec_avp(dict, suffix) matches Some(a) ==> ({
            let c = avp_wire_size(suffix);
            let ws = suffix.take(rem);
            &&& (c <= rem ==> dec_avps(dict, ws) == (match dec_avps(dict, ws.skip(c)) {
                Some(rest) => Some(seq![a] + rest),
                None => None,
            }))
            &&& (c > rem ==> dec_avps(dict, ws) is None)
        }),
{
    let ws = suffix.take(rem);
    assert(ws.len() == rem);
    if dec_avp(dict, suffix) is None {
        lemma_dec_avp_take(dict, suffix, rem);
        assert(dec_avp(dict, ws) is None);
        assert(dec_avps(dict, ws) is None);
    } else {
        let a = dec_avp(dict, suffix)->0;
        let c = avp_wire_size(suffix);
        lemma_dec_avp_wf(dict, suffix);
        assert(8 <= c <= suffix.len());
        if c <= rem {
            lemma_dec_avp_take(dict, suffix, rem);
            assert(dec_avp(dict, ws) == Some(a));
            assert(avp_wire_size(ws) == c);
            assert(8 <= c <= ws.len());
        } else {
            if rem < 8 {
                assert(dec_avp_header(ws) is None);
                assert(avp_wire_size(ws) == 0);
                assert(dec_avps(dict, ws) is None);
            } else {
                lemma_dec_avp_take(dict, suffix, rem);
                if dec_avp(dict, ws) is Some {
                    assert(avp_wire_size(suffix) <= rem);
                    assert(false);
                }
                assert(dec_avps(dict, ws) is None);
            }
        }
    }
}

/// Reads a run of framed AVPs that must fill a window of exactly `len`
/// bytes; used for grouped values and for the body of a message. Fails
/// when any AVP fails or when the AVPs do not meet the window boundary
/// exactly.
#[verifier::loop_isolation(false)]
#[verifier::rlimit(100)]
#[verifier::spinoff_prover]
pub fn decode_avp_list(cursor: &mut Cursor, len: usize, dict: &Dictionary) -> (r: Result<
    Vec<Avp>,
    Error,
>)
    requires
        old(cursor).wf(),
        len <= 0xFFFFFF,
    ensures
        final(cursor).contents() == old(cursor).contents(),
        final(cursor).wf(),
        ({
            let start = old(cursor).offset();
            let window = old(cursor).contents().subrange(start, start + len);
            &&& (r is Ok <==> start + len <= old(cursor).contents().len() && dec_avps(
                dict@,
                window,
            ) is Some)
            &&& (r matches Ok(l) ==> {
                &&& Some(avps_view(l@)) == dec_avps(dict@, window)
                &&& avps_ok(l@)
                &&& final(cursor).offset() == start + len
            })
            &&& (r is Err ==> r->Err_0 is DecodeError || r->Err_0 is UnknownAvpCode)
        }),
    decreases old(cursor).contents().len() - old(cursor).offset(), 1int,
{
    let ghost start = old(cursor).offset();
    let ghost contents = old(cursor).contents();
    let ghost window = contents.subrange(start, start + len);
    let mut avps: Vec<Avp> = Vec::new();
    let mut offset: usize = 0;
    proof {
        if start + len <= contents.len() {
            assert(window.skip(0) =~= window);
        }
    }
    while offset < len
        invariant
            cursor.wf(),
            cursor.contents() == contents,
            offset <= len + 0xFFFFFF + 3,
            cursor.offset() == start + offset,
            avps_ok(avps@),
            start + len <= contents.len() && offset <= len ==> dec_avps(dict@, window) == (
            match dec_avps(dict@, window.skip(offset as int)) {
                Some(rest) => Some(avps_view(avps@) + rest),
                None => None,
            }),
            start + len <= contents.len() && offset > len ==> dec_avps(dict@, window) is None,
        decreases
                (if offset <= len {
                    len - offset
                } else {
                    0int
                }),
    {
        let ghost suffix = contents.skip(start + offset);
        let ghost rem = len - offset;
        proof {
            if start + len <= contents.len() {
                assert(window.skip(offset as int) =~= suffix.take(rem));
                lemma_dec_avps_step(dict@, suffix, rem);
            }
        }
        let avp = match Avp::decode_from(cursor, dict) {
            Ok(a) => a,
            Err(e) => {
                return Err(e);
            },
        };
        let ghost c = avp_wire_size(suffix);
        proof {
            lemma_dec_avp_wf(dict@, suffix);
        }
        let step = avp.get_length() as usize + avp.get_padding() as usize;
        proof {
            let a = dec_avp(dict@, suffix)->0;
            assert(avp@ == a);
            assert(avp.spec_padding() == pad_of(value_v_len(a.value)));
            assert(a.header.length - avp_header_len(a.header) == value_v_len(a.value));
            assert(step == c);
            if start + len <= contents.len() && c <= rem {
                let ws = suffix.take(rem);
                assert(ws.skip(c) =~= window.skip(offset + c));
                assert(avps_view(avps@.push(avp)) =~= avps_view(avps@) + seq![a]);
                if dec_avps(dict@, window.skip(offset + c)) is Some {
                    let rest = dec_avps(dict@, window.skip(offset + c))->0;
                    assert((avps_view(avps@) + (seq![a] + rest)) =~= (avps_view(avps@.push(avp))
                        + rest));
                }
            }
        }
        offset = offset + step;
        avps.push(avp);
    }
    if offset == len {
        proof {
            assert(start + len == cursor.offset() <= contents.len());
            assert(window.skip(len as int) =~= Seq::<u8>::empty());
            assert(dec_avps(dict@, window.skip(len as int)) == Some(Seq::<AvpV>::empty()));
            assert(avps_view(avps@) + Seq::<AvpV>::empty() =~= avps_view(avps@));
        }
        Ok(avps)
    } else {
        Err(Error::DecodeError("invalid avp list, length mismatch".to_owned()))
    }
}


/// The three flag bits read back from an assembled flag byte.
pub proof fn lemma_flags_byte_bits(vendor: bool, mandatory: bool, private: bool)
    ensures
        flag_bit_v(flags_byte(vendor, mandatory, private)) == vendor,
        flag_bit_m(flags_byte(vendor, mandatory, private)) == mandatory,
        flag_bit_p(flags_byte(vendor, mandatory, private)) == private,
{
}

/// The encoded AVP header is as long as the header claims to be.
pub proof fn lemma_avp_header_enc_len(h: AvpHeader)
    ensures
        avp_header_enc(h).len() == avp_header_len(h),
{
}

/// The encoded value is exactly as long as the value's wire length.
pub proof fn lemma_value_enc_len(v: AvpValueV)
    ensures
        value_v_enc(v).len() == value_v_len(v),
    decreases v, 0int,
{
    match v {
        AvpValueV::Grouped(l) => {
            lemma_avps_enc_len(l);
        },
        _ => {},
    }
}

/// The encoded framed AVP is exactly as long as its framed size.
pub proof fn lemma_avp_enc_len(a: AvpV)
    ensures
        avp_v_enc(a).len() == avp_v_framed(a),
        avp_v_enc(a).len() == avp_header_len(a.header) + value_v_len(a.value) + pad_of(
            value_v_len(a.value),
        ),
    decreases a, 1int,
{
    lemma_value_enc_len(a.value);
}

/// The encoded AVP list is exactly as long as its summed framed size.
pub proof fn lemma_avps_enc_len(l: Seq<AvpV>)
    ensures
        avps_v_enc(l).len() == avps_framed_len(l),
    decreases l, 2int,
{
    if l.len() != 0 {
        lemma_avp_enc_len(l[0]);
        lemma_avps_enc_len(l.drop_first());
    }
}

/// The total framed size of every AVP is a multiple of four octets:
/// the padding law closes each AVP to a 32-bit boundary.
pub proof fn lemma_framed_alignment(a: AvpV)
    ensures
        avp_v_framed(a) % 4 == 0,
{
    let n = value_v_len(a.value);
    assert((n + (4 - (n % 4)) % 4) % 4 == 0) by (nonlinear_arith);
}

/// The V flag is set exactly when a vendor id is present, on every
/// structurally sound AVP.
pub proof fn lemma_flag_correspondence(a: AvpV)
    requires
        avp_v_wf(a),
    ensures
        a.header.flags.vendor <==> a.header.vendor_id is Some,
{
}

/// Decoding inverts encoding for a single value, when the dictionary
/// hands the decoder the type the value actually has.
#[verifier::rlimit(100)]
#[verifier::spinoff_prover]
pub proof fn lemma_dec_value_of_enc(dict: Seq<AvpDefV>, v: AvpValueV)
    requires
        value_v_wf(v),
        value_times_ok(v),
        value_dict_agrees(dict, v),
    ensures
        dec_value(dict, value_type_of(v), value_v_enc(v)) == Some(v),
    decreases v, 0int,
{
    match v {
        AvpValueV::Address(av) => {
            crate::avp::address::lemma_addr_roundtrip(av);
        },
        AvpValueV::Identity(s) => {
            vstd::utf8::encode_utf8_valid_utf8(s);
            vstd::utf8::encode_utf8_decode_utf8(s);
        },
        AvpValueV::UTF8String(s) => {
            vstd::utf8::encode_utf8_valid_utf8(s);
            vstd::utf8::encode_utf8_decode_utf8(s);
        },
        AvpValueV::Enumerated(x) => {
            lemma_be32_roundtrip(u32_of_i32(x));
            crate::bytes::lemma_i32_roundtrip(x);
        },
        AvpValueV::Integer32(x) => {
            lemma_be32_roundtrip(u32_of_i32(x));
            crate::bytes::lemma_i32_roundtrip(x);
        },
        AvpValueV::Integer64(x) => {
            crate::bytes::lemma_be64_roundtrip(u64_of_i64(x));
            crate::bytes::lemma_i64_roundtrip(x);
        },
        AvpValueV::Unsigned32(x) => {
            lemma_be32_roundtrip(x);
        },
        AvpValueV::Float32(x) => {
            lemma_be32_roundtrip(x);
        },
        AvpValueV::Unsigned64(x) => {
            crate::bytes::lemma_be64_roundtrip(x);
        },
        AvpValueV::Float64(x) => {
            crate::bytes::lemma_be64_roundtrip(x);
        },
        AvpValueV::Time(t) => {
            lemma_be32_roundtrip(diameter_seconds(t));
            assert(diameter_seconds(t) == t + RFC868_OFFSET);
            assert((be32_val(value_v_enc(v)) - RFC868_OFFSET) as i64 == t);
        },
        AvpValueV::Grouped(l) => {
            lemma_dec_avps_of_enc(dict, l);
        },
        _ => {},
    }
}

/// Decoding inverts encoding for one framed AVP followed by anything:
/// the decoder reads back exactly the AVP and consumes exactly its
/// frame.
#[verifier::rlimit(100)]
#[verifier::spinoff_prover]
pub proof fn lemma_dec_avp_of_enc(dict: Seq<AvpDefV>, a: AvpV, rest: Seq<u8>)
    requires
        avp_v_wf(a),
        avp_times_ok(a),
        dict_agrees(dict, a),
    ensures
        dec_avp(dict, avp_v_enc(a) + rest) == Some(a),
        avp_wire_size(avp_v_enc(a) + rest) == avp_v_enc(a).len(),
    decreases a, 1int,
{
    let h = a.header;
    let he = avp_header_enc(h);
    let ve = value_v_enc(a.value);
    let vlen = value_v_len(a.value);
    let pad = pad_of(vlen);
    let hdr = avp_header_len(h);
    let bytes = avp_v_enc(a) + rest;
    let fb = flags_byte(h.flags.vendor, h.flags.mandatory, h.flags.private);
    lemma_value_enc_len(a.value);
    lemma_value_v_len_nonneg(a.value);
    lemma_flags_byte_bits(h.flags.vendor, h.flags.mandatory, h.flags.private);
    lemma_be32_roundtrip(h.code);
    lemma_be24_roundtrip(h.length);
    assert(bytes.len() == hdr + vlen + pad + rest.len());
    assert(bytes.subrange(0, 4) =~= be32(h.code));
    assert(bytes[4] == fb);
    assert(bytes.subrange(5, 8) =~= be24(h.length));
    match h.vendor_id {
        Some(vid) => {
            lemma_be32_roundtrip(vid);
            assert(bytes.subrange(8, 12) =~= be32(vid));
            assert(dec_avp_header(bytes) == Some(h));
        },
        None => {
            assert(dec_avp_header(bytes) == Some(h));
        },
    }
    assert(bytes.subrange(hdr, hdr + vlen) =~= ve);
    lemma_dec_value_of_enc(dict, a.value);
    assert(dec_value(dict, def_type_of(dict, h.code, h.vendor_id), bytes.subrange(hdr, hdr + vlen))
        == Some(a.value));
    assert(dec_avp(dict, bytes) == Some(a));
}

/// Decoding inverts encoding for a whole list of framed AVPs laid end
/// to end in a window of exactly their size.
pub proof fn lemma_dec_avps_of_enc(dict: Seq<AvpDefV>, l: Seq<AvpV>)
    requires
        avps_v_wf(l),
        avps_times_ok(l),
        avps_dict_agree(dict, l),
    ensures
        dec_avps(dict, avps_v_enc(l)) == Some(l),
    decreases l, 2int,
{
    if l.len() == 0 {
        assert(avps_v_enc(l).len() == 0);
        assert(dec_avps(dict, avps_v_enc(l)) == Some(Seq::<AvpV>::empty()));
        assert(Seq::<AvpV>::empty() =~= l);
    } else {
        let a = l[0];
        let rest_l = l.drop_first();
        let ae = avp_v_enc(a);
        let re = avps_v_enc(rest_l);
        let bytes = avps_v_enc(l);
        assert(bytes == ae + re);
        lemma_dec_avp_of_enc(dict, a, re);
        lemma_dec_avps_of_enc(dict, rest_l);
        let c = avp_wire_size(bytes);
        assert(c == ae.len());
        lemma_avp_enc_len(a);
        lemma_value_v_len_nonneg(a.value);
        assert(c >= 8);
        lemma_avps_enc_len(rest_l);
        lemma_avps_framed_len_nonneg(rest_l);
        assert(c <= bytes.len());
        assert(bytes.skip(c) =~= re);
        assert(dec_avps(dict, bytes) == Some(seq![a] + rest_l));
        assert(seq![a] + rest_l =~= l);
    }
}


/// The nesting depth one level further in, capped so that display
/// stays total on arbitrarily deep groups (the indent stops growing
/// past the cap).
pub open spec fn depth_inc(depth: int) -> int {
    if depth >= 64 {
        64
    } else {
        depth + 1
    }
}

/// The indent for a nesting depth: two spaces per level, capped.
pub open spec fn indent_of(depth: int) -> Seq<char> {
    crate::text::spaces(
        2 * (if depth >= 64 {
            64int
        } else {
            depth
        }),
    )
}

/// The display glyph for a set or cleared flag bit.
pub open spec fn bool_glyph(v: bool) -> Seq<char> {
    if v {
        "\u{2713}"@
    } else {
        "\u{2717}"@
    }
}

/// The glyph for a flag bit: a check mark when set, a cross when not.
pub fn get_bool_unicode(v: bool) -> (r: &'static str)
    ensures
        r@ == bool_glyph(v),
{
    if v {
        "\u{2713}"
    } else {
        "\u{2717}"
    }
}

/// The display form of a value at a nesting depth: numbers in decimal,
/// strings as they are, octet strings as spaced hex pairs, float bit
/// patterns in decimal, and grouped values as their members on indented
/// lines.
pub open spec fn value_fmt(dict: Seq<AvpDefV>, v: AvpValueV, depth: int) -> Seq<char>
    decreases v, 0int,
{
    match v {
        AvpValueV::Address(a) => addr_display(a),
        AvpValueV::AddressIPv4(o) => crate::avp::address::ipv4_display(o),
        AvpValueV::AddressIPv6(o) => crate::avp::address::ipv6_display(o),
        AvpValueV::Identity(s) => s,
        AvpValueV::UTF8String(s) => s,
        AvpValueV::DiameterURI(b) => crate::text::hex_bytes_spaced(b),
        AvpValueV::OctetString(b) => crate::text::hex_bytes_spaced(b),
        AvpValueV::Enumerated(x) => crate::text::dec_i64(x as i64),
        AvpValueV::Integer32(x) => crate::text::dec_i64(x as i64),
        AvpValueV::Integer64(x) => crate::text::dec_i64(x),
        AvpValueV::Unsigned32(x) => crate::text::dec_u64(x as u64),
        AvpValueV::Unsigned64(x) => crate::text::dec_u64(x),
        AvpValueV::Float32(x) => crate::text::dec_u64(x as u64),
        AvpValueV::Float64(x) => crate::text::dec_u64(x),
        AvpValueV::Time(t) => crate::text::dec_i64(t),
        AvpValueV::Grouped(l) => avps_fmt(dict, l, depth),
    }
}

/// The display of a member list: each member on a fresh line, one
/// nesting level deeper.
pub open spec fn avps_fmt(dict: Seq<AvpDefV>, l: Seq<AvpV>, depth: int) -> Seq<char>
    decreases l, 2int,
{
    if l.len() == 0 {
        Seq::<char>::empty()
    } else {
        seq!['\n'] + avp_fmt(dict, l[0], depth_inc(depth)) + avps_fmt(dict, l.drop_first(), depth)
    }
}

/// One display line of an AVP: its dictionary name (or `Unknown`)
/// behind the nesting indent, the vendor-id column, the code, the three
/// flag glyphs, the type name and the value.
pub open spec fn avp_fmt(dict: Seq<AvpDefV>, a: AvpV, depth: int) -> Seq<char>
    decreases a, 1int,
{
    let name = match crate::dictionary::def_lookup(dict, a.header.code, a.header.vendor_id) {
        Some(d) => d.name,
        None => "Unknown"@,
    };
    let vendor = match a.header.vendor_id {
        Some(v) => crate::text::dec_u64(v as u64),
        None => Seq::<char>::empty(),
    };
    "  "@ + crate::text::pad_right_chars(indent_of(depth) + name, 40) + " "@
        + crate::text::pad_left_chars(vendor, 8) + " "@ + crate::text::pad_left_chars(
        crate::text::dec_u64(a.header.code as u64),
        5,
    ) + "  "@ + bool_glyph(a.header.flags.vendor) + " "@ + bool_glyph(a.header.flags.mandatory)
        + " "@ + bool_glyph(a.header.flags.private) + "  "@ + crate::text::pad_right_chars(
        type_name_of(value_type_of(a.value)),
        16,
    ) + "  "@ + value_fmt(dict, a.value, depth)
}

impl AvpValue {
    /// Renders the value for display at a nesting depth.
    pub fn fmt(&self, dict: &Dictionary, depth: usize) -> (r: String)
        ensures
            r@ == value_fmt(dict@, self@, depth as int),
        decreases *self,
    {
        let mut out = String::new();
        match self {
            AvpValue::Address(x) => {
                let s = x.display();
                out.append(s.as_str());
            },
            AvpValue::AddressIPv4(x) => {
                let s = crate::avp::address::display_ipv4_octets(x.value());
                out.append(s.as_str());
            },
            AvpValue::AddressIPv6(x) => {
                let s = crate::avp::address::display_ipv6_octets(x.value());
                out.append(s.as_str());
            },
            AvpValue::Identity(x) => {
                out.append(x.value());
            },
            AvpValue::UTF8String(x) => {
                out.append(x.value());
            },
            AvpValue::DiameterURI(x) => {
                crate::text::push_hex_bytes_spaced(x.value(), 0, &mut out);
                proof {
                    assert(x@.skip(0) =~= x@);
                }
            },
            AvpValue::OctetString(x) => {
                crate::text::push_hex_bytes_spaced(x.value(), 0, &mut out);
                proof {
                    assert(x@.skip(0) =~= x@);
                }
            },
            AvpValue::Enumerated(x) => {
                crate::text::push_dec_i64(x.value() as i64, &mut out);
            },
            AvpValue::Integer32(x) => {
                crate::text::push_dec_i64(x.value() as i64, &mut out);
            },
            AvpValue::Integer64(x) => {
                crate::text::push_dec_i64(x.value(), &mut out);
            },
            AvpValue::Unsigned32(x) => {
                crate::text::push_dec_u64(x.value() as u64, &mut out);
            },
            AvpValue::Unsigned64(x) => {
                crate::text::push_dec_u64(x.value(), &mut out);
            },
            AvpValue::Float32(x) => {
                crate::text::push_dec_u64(x.value() as u64, &mut out);
            },
            AvpValue::Float64(x) => {
                crate::text::push_dec_u64(x.value(), &mut out);
            },
            AvpValue::Time(x) => {
                crate::text::push_dec_i64(x.value(), &mut out);
            },
            AvpValue::Grouped(x) => {
                let s = x.fmt(dict, depth);
                out.append(s.as_str());
            },
        }
        proof {
            assert(out@ =~= value_fmt(dict@, self@, depth as int));
        }
        out
    }
}

impl Avp {
    /// Renders the AVP as one display line (with nested group members
    /// on further lines).
    pub fn fmt(&self, dict: &Dictionary, depth: usize) -> (r: String)
        ensures
            r@ == avp_fmt(dict@, self@, depth as int),
        decreases *self,
    {
        let mut out = String::new();
        out.append("  ");
        let mut name_col = String::new();
        let capped: usize = if depth >= 64 {
            64
        } else {
            depth
        };
        crate::text::push_spaces(&mut name_col, 2 * capped);
        match dict.get_avp_name(self.header.code, self.header.vendor_id) {
            Some(n) => {
                name_col.append(n);
            },
            None => {
                name_col.append("Unknown");
            },
        }
        crate::text::push_pad_right(&mut out, name_col.as_str(), 40);
        out.append(" ");
        let mut vendor_col = String::new();
        match self.header.vendor_id {
            Some(v) => {
                crate::text::push_dec_u64(v as u64, &mut vendor_col);
            },
            None => {},
        }
        crate::text::push_pad_left(&mut out, vendor_col.as_str(), 8);
        out.append(" ");
        let mut code_col = String::new();
        crate::text::push_dec_u64(self.header.code as u64, &mut code_col);
        crate::text::push_pad_left(&mut out, code_col.as_str(), 5);
        out.append("  ");
        out.append(get_bool_unicode(self.header.flags.vendor));
        out.append(" ");
        out.append(get_bool_unicode(self.header.flags.mandatory));
        out.append(" ");
        out.append(get_bool_unicode(self.header.flags.private));
        out.append("  ");
        crate::text::push_pad_right(&mut out, self.value.get_type_name(), 16);
        out.append("  ");
        let vs = self.value.fmt(dict, depth);
        out.append(vs.as_str());
        proof {
            assert(out@ =~= avp_fmt(dict@, self@, depth as int));
        }
        out
    }
}


impl Avp {
    /// The Address value, when the AVP carries one.
    pub fn get_address(&self) -> (r: Option<&Address>)
        ensures
            r is Some <==> self@.value is Address,
            r matches Some(x) ==> self@.value == AvpValueV::Address(x@),
    {
        match &self.value {
            AvpValue::Address(x) => Some(x),
            _ => None,
        }
    }

    /// The AddressIPv4 value, when the AVP carries one.
    pub fn get_address_ipv4(&self) -> (r: Option<&IPv4>)
        ensures
            r is Some <==> self@.value is AddressIPv4,
            r matches Some(x) ==> self@.value == AvpValueV::AddressIPv4(x@),
    {
        match &self.value {
            AvpValue::AddressIPv4(x) => Some(x),
            _ => None,
        }
    }

    /// The AddressIPv6 value, when the AVP carries one.
    pub fn get_address_ipv6(&self) -> (r: Option<&IPv6>)
        ensures
            r is Some <==> self@.value is AddressIPv6,
            r matches Some(x) ==> self@.value == AvpValueV::AddressIPv6(x@),
    {
        match &self.value {
            AvpValue::AddressIPv6(x) => Some(x),
            _ => None,
        }
    }

    /// The Identity value, when the AVP carries one.
    pub fn get_identity(&self) -> (r: Option<&Identity>)
        ensures
            r is Some <==> self@.value is Identity,
            r matches Some(x) ==> self@.value == AvpValueV::Identity(x@),
    {
        match &self.value {
            AvpValue::Identity(x) => Some(x),
            _ => None,
        }
    }

    /// The DiameterURI value, when the AVP carries one.
    pub fn get_diameter_uri(&self) -> (r: Option<&DiameterURI>)
        ensures
            r is Some <==> self@.value is DiameterURI,
            r matches Some(x) ==> self@.value == AvpValueV::DiameterURI(x@),
    {
        match &self.value {
            AvpValue::DiameterURI(x) => Some(x),
            _ => None,
        }
    }

    /// The Enumerated value, when the AVP carries one.
    pub fn get_enumerated(&self) -> (r: Option<&Enumerated>)
        ensures
            r is Some <==> self@.value is Enumerated,
            r matches Some(x) ==> self@.value == AvpValueV::Enumerated(x@),
    {
        match &self.value {
            AvpValue::Enumerated(x) => Some(x),
            _ => None,
        }
    }

    /// The UTF8String value, when the AVP carries one.
    pub fn get_utf8string(&self) -> (r: Option<&UTF8String>)
        ensures
            r is Some <==> self@.value is UTF8String,
            r matches Some(x) ==> self@.value == AvpValueV::UTF8String(x@),
    {
        match &self.value {
            AvpValue::UTF8String(x) => Some(x),
            _ => None,
        }
    }

    /// The OctetString value, when the AVP carries one.
    pub fn get_octetstring(&self) -> (r: Option<&OctetString>)
        ensures
            r is Some <==> self@.value is OctetString,
            r matches Some(x) ==> self@.value == AvpValueV::OctetString(x@),
    {
        match &self.value {
            AvpValue::OctetString(x) => Some(x),
            _ => None,
        }
    }

    /// The Time value, when the AVP carries one.
    pub fn get_time(&self) -> (r: Option<&Time>)
        ensures
            r is Some <==> self@.value is Time,
            r matches Some(x) ==> self@.value == AvpValueV::Time(x@),
    {
        match &self.value {
            AvpValue::Time(x) => Some(x),
            _ => None,
        }
    }

    /// The Grouped value, when the AVP carries one.
    pub fn get_grouped(&self) -> (r: Option<&Grouped>)
        ensures
            r is Some <==> self@.value is Grouped,
            r matches Some(x) ==> self@.value == AvpValueV::Grouped(x@),
    {
        match &self.value {
            AvpValue::Grouped(x) => Some(x),
            _ => None,
        }
    }

    /// The Integer32 value, when the AVP carries one.
    pub fn get_integer32(&self) -> (r: Option<i32>)
        ensures
            r is Some <==> self@.value is Integer32,
            r matches Some(x) ==> self@.value == AvpValueV::Integer32(x),
    {
        match &self.value {
            AvpValue::Integer32(x) => Some(x.value()),
            _ => None,
        }
    }

    /// The Integer64 value, when the AVP carries one.
    pub fn get_integer64(&self) -> (r: Option<i64>)
        ensures
            r is Some <==> self@.value is Integer64,
            r matches Some(x) ==> self@.value == AvpValueV::Integer64(x),
    {
        match &self.value {
            AvpValue::Integer64(x) => Some(x.value()),
            _ => None,
        }
    }

    /// The Unsigned32 value, when the AVP carries one.
    pub fn get_unsigned32(&self) -> (r: Option<u32>)
        ensures
            r is Some <==> self@.value is Unsigned32,
            r matches Some(x) ==> self@.value == AvpValueV::Unsigned32(x),
    {
        match &self.value {
            AvpValue::Unsigned32(x) => Some(x.value()),
            _ => None,
        }
    }

    /// The Unsigned64 value, when the AVP carries one.
    pub fn get_unsigned64(&self) -> (r: Option<u64>)
        ensures
            r is Some <==> self@.value is Unsigned64,
            r matches Some(x) ==> self@.value == AvpValueV::Unsigned64(x),
    {
        match &self.value {
            AvpValue::Unsigned64(x) => Some(x.value()),
            _ => None,
        }
    }

    /// The Float32 bit pattern, when the AVP carries one.
    pub fn get_float32(&self) -> (r: Option<u32>)
        ensures
            r is Some <==> self@.value is Float32,
            r matches Some(x) ==> self@.value == AvpValueV::Float32(x),
    {
        match &self.value {
            AvpValue::Float32(x) => Some(x.value()),
            _ => None,
        }
    }

    /// The Float64 bit pattern, when the AVP carries one.
    pub fn get_float64(&self) -> (r: Option<u64>)
        ensures
            r is Some <==> self@.value is Float64,
            r matches Some(x) ==> self@.value == AvpValueV::Float64(x),
    {
        match &self.value {
            AvpValue::Float64(x) => Some(x.value()),
            _ => None,
        }
    }
}

/// A 24-bit value read back from three bytes stays below 2^24.
pub proof fn lemma_be24_val_bound(b: Seq<u8>)
    ensures
        be24_val(b) <= 0xFFFFFF,
{
    let x = (b[0] as int) * 0x10000 + (b[1] as int) * 0x100 + (b[2] as int);
    if 0 <= x <= 0xFFFFFF {
    } else {
        assert(be24_val(b) <= 0xFFFFFF) by {
            assert((b[0] as int) * 0x10000 <= 0xFF0000);
            assert((b[1] as int) * 0x100 <= 0xFF00);
        }
    }
}

} // verus!
