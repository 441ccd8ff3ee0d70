//! The discriminated Address AVP value: a two-byte IANA address-family
//! tag followed by the family payload. Family 1 is IPv4 (four octets),
//! family 2 is IPv6 (sixteen octets), family 8 is E.164 (up to fifteen
//! ASCII digits).

use vstd::prelude::*;

use vstd::string::StringExecFns;

use vstd::utf8::{decode_utf8, encode_utf8, valid_utf8};

use crate::bytes::Cursor;
use crate::error::Error;
use crate::text::{dec_u64, hex_u16, push_char, push_dec_u64, push_hex_u16, string_from_utf8};

verus! {

broadcast use vstd::array::group_array_axioms;

/// The three address families the codec understands.
#[derive(Debug, Clone, PartialEq)]
pub enum Value {
    IPv4([u8; 4]),
    IPv6([u8; 16]),
    E164(String),
}

/// Mathematical image of an address: octet sequences for the IP
/// families, the digit string for E.164.
pub enum AddressV {
    IPv4(Seq<u8>),
    IPv6(Seq<u8>),
    E164(Seq<char>),
}

impl View for Value {
    type V = AddressV;

    closed spec fn view(&self) -> AddressV {
        match self {
            Value::IPv4(o) => AddressV::IPv4(o@),
            Value::IPv6(o) => AddressV::IPv6(o@),
            Value::E164(s) => AddressV::E164(s@),
        }
    }
}

/// The wire image of an address value: family tag, then payload.
pub open spec fn addr_enc(a: AddressV) -> Seq<u8> {
    match a {
        AddressV::IPv4(o) => seq![0u8, 1u8] + o,
        AddressV::IPv6(o) => seq![0u8, 2u8] + o,
        AddressV::E164(s) => seq![0u8, 8u8] + encode_utf8(s),
    }
}

/// The byte length of an address value on the wire: the family tag and
/// the payload (6 for IPv4, 18 for IPv6).
pub open spec fn addr_len(a: AddressV) -> int {
    match a {
        AddressV::IPv4(o) => 2 + o.len() as int,
        AddressV::IPv6(o) => 2 + o.len() as int,
        AddressV::E164(s) => 2 + encode_utf8(s).len() as int,
    }
}

/// Decoding inverts encoding for every structurally sound address.
pub proof fn lemma_addr_roundtrip(a: AddressV)
    requires
        addr_wf(a),
    ensures
        addr_dec(addr_enc(a)) == Some(a),
{
    match a {
        AddressV::IPv4(o) => {
            assert(addr_enc(a).skip(2) =~= o);
        },
        AddressV::IPv6(o) => {
            assert(addr_enc(a).skip(2) =~= o);
        },
        AddressV::E164(s) => {
            vstd::utf8::encode_utf8_valid_utf8(s);
            vstd::utf8::encode_utf8_decode_utf8(s);
            assert(addr_enc(a).skip(2) =~= encode_utf8(s));
        },
    }
}

/// A decoded address is structurally sound and fills its window.
pub proof fn lemma_addr_dec_wf(bytes: Seq<u8>)
    ensures
        addr_dec(bytes) matches Some(a) ==> addr_wf(a) && addr_len(a) == bytes.len(),
{
    if addr_dec(bytes) is Some {
        let a = addr_dec(bytes)->0;
        match a {
            AddressV::E164(_) => {
                vstd::utf8::decode_utf8_encode_utf8(bytes.skip(2));
            },
            _ => {},
        }
    }
}

/// Structural soundness of an address value: payloads have their
/// families' sizes, and an E.164 string fits the fifteen-byte bound.
pub open spec fn addr_wf(a: AddressV) -> bool {
    match a {
        AddressV::IPv4(o) => o.len() == 4,
        AddressV::IPv6(o) => o.len() == 16,
        AddressV::E164(s) => encode_utf8(s).len() <= 15,
    }
}

/// The address value read from a value window of exactly `bytes`; `None`
/// on an unknown family, a length that does not match the family, or an
/// E.164 payload that is not UTF-8.
pub open spec fn addr_dec(bytes: Seq<u8>) -> Option<AddressV> {
    if bytes.len() < 2 {
        None
    } else if bytes[0] == 0 && bytes[1] == 1 {
        if bytes.len() == 6 {
            Some(AddressV::IPv4(bytes.skip(2)))
        } else {
            None
        }
    } else if bytes[0] == 0 && bytes[1] == 2 {
        if bytes.len() == 18 {
            Some(AddressV::IPv6(bytes.skip(2)))
        } else {
            None
        }
    } else if bytes[0] == 0 && bytes[1] == 8 {
        if bytes.len() <= 17 && valid_utf8(bytes.skip(2)) {
            Some(AddressV::E164(decode_utf8(bytes.skip(2))))
        } else {
            None
        }
    } else {
        None
    }
}

/// A discriminated address AVP value.
#[derive(Debug, Clone, PartialEq)]
pub struct Address(Value);

impl View for Address {
    type V = AddressV;

    closed spec fn view(&self) -> AddressV {
        self.0@
    }
}

impl Address {
    pub fn new(value: Value) -> (r: Address)
        ensures
            r@ == value@,
    {
        Address(value)
    }

    pub fn from_ipv4(octets: [u8; 4]) -> (r: Address)
        ensures
            r@ == AddressV::IPv4(octets@),
    {
        Address(Value::IPv4(octets))
    }

    pub fn from_ipv6(octets: [u8; 16]) -> (r: Address)
        ensures
            r@ == AddressV::IPv6(octets@),
    {
        Address(Value::IPv6(octets))
    }

    pub fn from_e164(digits: String) -> (r: Address)
        ensures
            r@ == AddressV::E164(digits@),
    {
        Address(Value::E164(digits))
    }

    pub fn value(&self) -> (r: &Value)
        ensures
            r@ == self@,
    {
        &self.0
    }

    /// Reads an address from a value window of `len` bytes: the family
    /// tag, then the payload, whose size must agree with `len`.
    pub fn decode_from(cursor: &mut Cursor, len: usize) -> (r: Result<Address, Error>)
        requires
            old(cursor).wf(),
        ensures
            final(cursor).contents() == old(cursor).contents(),
            final(cursor).wf(),
            r is Ok <==> old(cursor).offset() + len <= old(cursor).contents().len() && addr_dec(
                old(cursor).contents().subrange(old(cursor).offset(), old(cursor).offset() + len),
            ) is Some,
            r matches Ok(v) ==> {
                &&& final(cursor).offset() == old(cursor).offset() + len
                &&& Some(v@) == addr_dec(
                    old(cursor).contents().subrange(
                        old(cursor).offset(),
                        old(cursor).offset() + len,
                    ),
                )
            },
            r is Err ==> r->Err_0 is DecodeError,
    {
        let ghost window = old(cursor).contents().subrange(
            old(cursor).offset(),
            old(cursor).offset() + len,
        );
        if len < 2 || cursor.remaining() < len {
            return Err(Error::DecodeError("Invalid address length".to_owned()));
        }
        let fam = cursor.read_bytes(2)?;
        proof {
            assert(fam@ =~= window.subrange(0, 2));
            assert(fam@[0] == window[0] && fam@[1] == window[1]);
        }
        if fam[0] == 0 && fam[1] == 1 {
            if len != 6 {
                return Err(Error::DecodeError("Invalid address length".to_owned()));
            }
            let b = cursor.read_bytes(4)?;
            let octets: [u8; 4] = [b[0], b[1], b[2], b[3]];
            proof {
                assert(octets@ =~= window.skip(2));
            }
            Ok(Address(Value::IPv4(octets)))
        } else if fam[0] == 0 && fam[1] == 2 {
            if len != 18 {
                return Err(Error::DecodeError("Invalid address length".to_owned()));
            }
            let b = cursor.read_bytes(16)?;
            let octets: [u8; 16] = [
                b[0],
                b[1],
                b[2],
                b[3],
                b[4],
                b[5],
                b[6],
                b[7],
                b[8],
                b[9],
                b[10],
                b[11],
                b[12],
                b[13],
                b[14],
                b[15],
            ];
            proof {
                assert(octets@ =~= window.skip(2));
            }
            Ok(Address(Value::IPv6(octets)))
        } else if fam[0] == 0 && fam[1] == 8 {
            if len > 17 {
                return Err(
                    Error::DecodeError("E164 address should not exceed max length of 15".to_owned()),
                );
            }
            let b = cursor.read_bytes(len - 2)?;
            proof {
                assert(b@ =~= window.skip(2));
            }
            match string_from_utf8(b) {
                Ok(s) => Ok(Address(Value::E164(s))),
                Err(_) => Err(Error::DecodeError("invalid E164 address digits".to_owned())),
            }
        } else {
            Err(Error::DecodeError("Unsupported address type".to_owned()))
        }
    }

    /// Appends the family tag and the payload; never fails.
    pub fn encode_to(&self, out: &mut Vec<u8>) -> (r: Result<(), Error>)
        ensures
            r is Ok,
            final(out)@ == old(out)@ + addr_enc(self@),
    {
        match &self.0 {
            Value::IPv4(o) => {
                out.push(0);
                out.push(1);
                out.extend_from_slice(o.as_slice());
            },
            Value::IPv6(o) => {
                out.push(0);
                out.push(2);
                out.extend_from_slice(o.as_slice());
            },
            Value::E164(s) => {
                out.push(0);
                out.push(8);
                out.extend_from_slice(s.as_str().as_bytes());
            },
        }
        proof {
            assert(final(out)@ =~= old(out)@ + addr_enc(self@));
        }
        Ok(())
    }

    /// The byte length of the value on the wire.
    pub fn length(&self) -> (r: u32)
        requires
            addr_len(self@) <= u32::MAX,
        ensures
            r == addr_len(self@),
    {
        match &self.0 {
            Value::IPv4(_) => 6,
            Value::IPv6(_) => 18,
            Value::E164(s) => 2 + s.as_str().len() as u32,
        }
    }
}


/// The eight 16-bit groups of an IPv6 address, network order.
pub open spec fn ipv6_groups(o: Seq<u8>) -> Seq<u16> {
    Seq::new(8, |i: int| crate::bytes::be16_val(o.subrange(2 * i, 2 * i + 2)))
}

/// The length of the zero-group run starting at `i`.
pub open spec fn zero_run_at(g: Seq<u16>, i: int) -> int
    decreases 8 - i,
{
    if i < 0 || i >= 8 || g[i] != 0 {
        0
    } else {
        1 + zero_run_at(g, i + 1)
    }
}

/// The leftmost longest zero run at or after `i`: start and length.
pub open spec fn best_zero_run(g: Seq<u16>, i: int) -> (int, int)
    decreases 8 - i,
{
    if i >= 8 {
        (8int, 0int)
    } else {
        let cur = zero_run_at(g, i);
        let rest = best_zero_run(g, i + 1);
        if cur >= rest.1 {
            (i, cur)
        } else {
            rest
        }
    }
}

/// The groups `g[lo..hi)` rendered in hexadecimal, colon-separated.
pub open spec fn ipv6_join(g: Seq<u16>, lo: int, hi: int) -> Seq<char>
    decreases hi - lo,
{
    if lo >= hi {
        Seq::<char>::empty()
    } else if lo + 1 == hi {
        hex_u16(g[lo])
    } else {
        hex_u16(g[lo]) + seq![':'] + ipv6_join(g, lo + 1, hi)
    }
}

/// The conventional rendering of an IPv6 address: hexadecimal groups,
/// with the leftmost longest run of at least two zero groups elided as
/// a double colon.
pub open spec fn ipv6_display(o: Seq<u8>) -> Seq<char> {
    let g = ipv6_groups(o);
    let br = best_zero_run(g, 0);
    if br.1 < 2 {
        ipv6_join(g, 0, 8)
    } else {
        ipv6_join(g, 0, br.0) + seq![':', ':'] + ipv6_join(g, br.0 + br.1, 8)
    }
}

/// The dotted-decimal rendering of an IPv4 address.
pub open spec fn ipv4_display(o: Seq<u8>) -> Seq<char> {
    dec_u64(o[0] as u64) + seq!['.'] + dec_u64(o[1] as u64) + seq!['.'] + dec_u64(o[2] as u64)
        + seq!['.'] + dec_u64(o[3] as u64)
}

/// The display form of an address: dotted decimal for IPv4, compressed
/// hexadecimal groups for IPv6, the digit string itself for E.164.
pub open spec fn addr_display(a: AddressV) -> Seq<char> {
    match a {
        AddressV::IPv4(o) => ipv4_display(o),
        AddressV::IPv6(o) => ipv6_display(o),
        AddressV::E164(s) => s,
    }
}

/// The zero-run length starting at `i`, executable form.
fn zero_run_at_exec(g: &[u16; 8], i: usize) -> (r: usize)
    requires
        i <= 8,
    ensures
        r == zero_run_at(g@, i as int),
        r <= 8 - i,
    decreases 8 - i,
{
    if i >= 8 || g[i] != 0 {
        0
    } else {
        1 + zero_run_at_exec(g, i + 1)
    }
}

/// The leftmost longest zero run at or after `i`, executable form.
fn best_zero_run_exec(g: &[u16; 8], i: usize) -> (r: (usize, usize))
    requires
        i <= 8,
    ensures
        (r.0 as int, r.1 as int) == best_zero_run(g@, i as int),
    decreases 8 - i,
{
    if i >= 8 {
        (8, 0)
    } else {
        let cur = zero_run_at_exec(g, i);
        let rest = best_zero_run_exec(g, i + 1);
        if cur >= rest.1 {
            (i, cur)
        } else {
            rest
        }
    }
}

/// Appends the groups `g[lo..hi)`, colon-separated, to `out`.
fn push_ipv6_join(g: &[u16; 8], lo: usize, hi: usize, out: &mut String)
    requires
        lo <= 8,
        hi <= 8,
    ensures
        final(out)@ == old(out)@ + ipv6_join(g@, lo as int, hi as int),
    decreases 8 - lo,
{
    if lo >= hi {
        proof {
            assert(final(out)@ =~= old(out)@ + ipv6_join(g@, lo as int, hi as int));
        }
        return ;
    }
    push_hex_u16(g[lo], out);
    if lo + 1 < hi {
        push_char(out, ':');
        push_ipv6_join(g, lo + 1, hi, out);
    }
    proof {
        assert(final(out)@ =~= old(out)@ + ipv6_join(g@, lo as int, hi as int));
    }
}

/// Renders four octets in dotted decimal.
pub fn display_ipv4_octets(o: &[u8]) -> (r: String)
    requires
        o@.len() == 4,
    ensures
        r@ == ipv4_display(o@),
{
    let mut out = String::new();
    push_dec_u64(o[0] as u64, &mut out);
    push_char(&mut out, '.');
    push_dec_u64(o[1] as u64, &mut out);
    push_char(&mut out, '.');
    push_dec_u64(o[2] as u64, &mut out);
    push_char(&mut out, '.');
    push_dec_u64(o[3] as u64, &mut out);
    proof {
        assert(out@ =~= ipv4_display(o@));
    }
    out
}

/// Renders sixteen octets as compressed hexadecimal IPv6 groups.
pub fn display_ipv6_octets(o: &[u8]) -> (r: String)
    requires
        o@.len() == 16,
    ensures
        r@ == ipv6_display(o@),
{
    let mut out = String::new();
    let g: [u16; 8] = [
        (o[0] as u16) * 0x100 + (o[1] as u16),
        (o[2] as u16) * 0x100 + (o[3] as u16),
        (o[4] as u16) * 0x100 + (o[5] as u16),
        (o[6] as u16) * 0x100 + (o[7] as u16),
        (o[8] as u16) * 0x100 + (o[9] as u16),
        (o[10] as u16) * 0x100 + (o[11] as u16),
        (o[12] as u16) * 0x100 + (o[13] as u16),
        (o[14] as u16) * 0x100 + (o[15] as u16),
    ];
    proof {
        assert forall|i: int| 0 <= i < 8 implies g@[i] == crate::bytes::be16_val(
            o@.subrange(2 * i, 2 * i + 2),
        ) by {
            assert(o@.subrange(2 * i, 2 * i + 2)[0] == o@[2 * i]);
            assert(o@.subrange(2 * i, 2 * i + 2)[1] == o@[2 * i + 1]);
        }
        assert(g@ =~= ipv6_groups(o@));
    }
    let br = best_zero_run_exec(&g, 0);
    proof {
        lemma_best_zero_run_bounds(g@, 0);
    }
    if br.1 < 2 {
        push_ipv6_join(&g, 0, 8, &mut out);
    } else {
        push_ipv6_join(&g, 0, br.0, &mut out);
        push_char(&mut out, ':');
        push_char(&mut out, ':');
        push_ipv6_join(&g, br.0 + br.1, 8, &mut out);
    }
    proof {
        assert(out@ =~= ipv6_display(o@));
    }
    out
}

impl Address {
    /// The display form of the address.
    pub fn display(&self) -> (r: String)
        ensures
            r@ == addr_display(self@),
    {
        match &self.0 {
            Value::IPv4(o) => display_ipv4_octets(o.as_slice()),
            Value::IPv6(o) => display_ipv6_octets(o.as_slice()),
            Value::E164(s) => {
                let mut out = String::new();
                out.append(s.as_str());
                out
            },
        }
    }
}

/// The best zero run lies within the eight groups.
pub proof fn lemma_best_zero_run_bounds(g: Seq<u16>, i: int)
    requires
        0 <= i <= 8,
    ensures
        ({
            let br = best_zero_run(g, i);
            &&& i <= br.0 <= 8
            &&& 0 <= br.1
            &&& br.0 + br.1 <= 8
        }),
    decreases 8 - i,
{
    if i < 8 {
        lemma_best_zero_run_bounds(g, i + 1);
        lemma_zero_run_at_bounds(g, i);
    }
}

/// A zero run starting at `i` ends within the eight groups.
pub proof fn lemma_zero_run_at_bounds(g: Seq<u16>, i: int)
    requires
        0 <= i <= 8,
    ensures
        0 <= zero_run_at(g, i) && i + zero_run_at(g, i) <= 8,
    decreases 8 - i,
{
    if i < 8 && g[i] == 0 {
        lemma_zero_run_at_bounds(g, i + 1);
    }
}


} // verus!
