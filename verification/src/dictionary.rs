//! The dictionary: a mergeable catalog that maps an AVP's `(code,
//! vendor-id)` pair to its value type, display name and M-flag default.
//! Decoders consult it to pick the value codec for each AVP.

use vstd::prelude::*;

use vstd::string::{StrSliceExecFns, StringExecFns};
use vstd::utf8::{decode_utf8, valid_utf8};

use crate::avp::AvpType;
use crate::text::str_eq;
use crate::xml::{
    bytes_eq, contains_byte, copy_range, find_from, is_space, lemma_find_from_bounds,
    range_contains, spec_is_space, spec_parse_u32,
};

verus! {

/// One catalog entry.
#[derive(Debug, Clone, PartialEq)]
pub struct AvpDefinition {
    pub code: u32,
    pub vendor_id: Option<u32>,
    pub name: String,
    pub avp_type: AvpType,
    pub m_flag: bool,
}

/// Mathematical image of a catalog entry.
pub struct AvpDefV {
    pub code: u32,
    pub vendor_id: Option<u32>,
    pub name: Seq<char>,
    pub avp_type: AvpType,
    pub m_flag: bool,
}

impl View for AvpDefinition {
    type V = AvpDefV;

    open spec fn view(&self) -> AvpDefV {
        AvpDefV {
            code: self.code,
            vendor_id: self.vendor_id,
            name: self.name@,
            avp_type: self.avp_type,
            m_flag: self.m_flag,
        }
    }
}

/// The first entry with the given key, scanning entries in order.
/// Entries are kept newest first, so the first match is the latest
/// insertion: last-wins merging.
pub open spec fn def_lookup(defs: Seq<AvpDefV>, code: u32, vendor_id: Option<u32>) -> Option<
    AvpDefV,
>
    decreases defs.len(),
{
    if defs.len() == 0 {
        None
    } else if defs[0].code == code && defs[0].vendor_id == vendor_id {
        Some(defs[0])
    } else {
        def_lookup(defs.drop_first(), code, vendor_id)
    }
}

/// The first entry carrying the given display name.
pub open spec fn def_lookup_by_name(defs: Seq<AvpDefV>, name: Seq<char>) -> Option<AvpDefV>
    decreases defs.len(),
{
    if defs.len() == 0 {
        None
    } else if defs[0].name == name {
        Some(defs[0])
    } else {
        def_lookup_by_name(defs.drop_first(), name)
    }
}

/// The value type the catalog assigns a key; `Unknown` on a miss.
pub open spec fn def_type_of(defs: Seq<AvpDefV>, code: u32, vendor_id: Option<u32>) -> AvpType {
    match def_lookup(defs, code, vendor_id) {
        Some(d) => d.avp_type,
        None => AvpType::Unknown,
    }
}

/// A catalog of AVP definitions keyed by `(code, vendor-id)`.
///
/// Inserting an entry for a key that is already present shadows the older
/// entry: lookups see the latest insertion.
#[derive(Debug, Clone, PartialEq)]
pub struct Definition {
    avps: Vec<AvpDefinition>,
}

impl View for Definition {
    type V = Seq<AvpDefV>;

    closed spec fn view(&self) -> Seq<AvpDefV> {
        Seq::new(self.avps@.len(), |i: int| self.avps@[i]@)
    }
}

impl Definition {
    /// An empty catalog.
    pub fn new() -> (r: Definition)
        ensures
            r@ == Seq::<AvpDefV>::empty(),
    {
        let r = Definition { avps: Vec::new() };
        proof {
            assert(r@ =~= Seq::<AvpDefV>::empty());
        }
        r
    }

    /// The number of entries, shadowed ones included.
    pub fn len(&self) -> (r: usize)
        ensures
            r == self@.len(),
    {
        self.avps.len()
    }

    /// Adds an entry; it takes precedence over any earlier entry with the
    /// same `(code, vendor-id)` key.
    pub fn add_avp(&mut self, avp: AvpDefinition)
        ensures
            final(self)@ == seq![avp@] + old(self)@,
    {
        self.avps.insert(0, avp);
        proof {
            assert(final(self)@ =~= seq![avp@] + old(self)@);
        }
    }

    /// The entry for a key, if the catalog has one.
    pub fn get_avp(&self, code: u32, vendor_id: Option<u32>) -> (r: Option<&AvpDefinition>)
        ensures
            r is Some <==> def_lookup(self@, code, vendor_id) is Some,
            r matches Some(d) ==> Some(d@) == def_lookup(self@, code, vendor_id),
    {
        let n = self.avps.len();
        let mut i: usize = 0;
        proof {
            assert(self@.skip(0) =~= self@);
        }
        while i < n
            invariant
                0 <= i <= n,
                n == self.avps@.len(),
                self@.len() == n,
                def_lookup(self@, code, vendor_id) == def_lookup(
                    self@.skip(i as int),
                    code,
                    vendor_id,
                ),
            decreases n - i,
        {
            let d = &self.avps[i];
            let key_matches = d.code == code && match (d.vendor_id, vendor_id) {
                (Some(a), Some(b)) => a == b,
                (None, None) => true,
                _ => false,
            };
            proof {
                assert(self@.skip(i as int)[0] == self@[i as int]);
                assert(self@[i as int] == d@);
            }
            if key_matches {
                return Some(d);
            }
            proof {
                assert(self@.skip(i as int).drop_first() =~= self@.skip(i as int + 1));
            }
            i = i + 1;
        }
        proof {
            assert(self@.skip(n as int) =~= Seq::<AvpDefV>::empty());
        }
        None
    }

    /// The entry carrying a display name, if the catalog has one; the
    /// latest insertion wins among entries sharing a name.
    pub fn get_avp_by_name(&self, name: &str) -> (r: Option<&AvpDefinition>)
        ensures
            r is Some <==> def_lookup_by_name(self@, name@) is Some,
            r matches Some(d) ==> Some(d@) == def_lookup_by_name(self@, name@),
    {
        let n = self.avps.len();
        let mut i: usize = 0;
        proof {
            assert(self@.skip(0) =~= self@);
        }
        while i < n
            invariant
                0 <= i <= n,
                n == self.avps@.len(),
                self@.len() == n,
                def_lookup_by_name(self@, name@) == def_lookup_by_name(
                    self@.skip(i as int),
                    name@,
                ),
            decreases n - i,
        {
            let d = &self.avps[i];
            proof {
                assert(self@.skip(i as int)[0] == self@[i as int]);
                assert(self@[i as int] == d@);
            }
            if str_eq(d.name.as_str(), name) {
                return Some(d);
            }
            proof {
                assert(self@.skip(i as int).drop_first() =~= self@.skip(i as int + 1));
            }
            i = i + 1;
        }
        proof {
            assert(self@.skip(n as int) =~= Seq::<AvpDefV>::empty());
        }
        None
    }

    /// The value type recorded for a key, if any.
    pub fn get_avp_type(&self, code: u32, vendor_id: Option<u32>) -> (r: Option<AvpType>)
        ensures
            r is Some <==> def_lookup(self@, code, vendor_id) is Some,
            r matches Some(t) ==> t == def_type_of(self@, code, vendor_id),
    {
        match self.get_avp(code, vendor_id) {
            Some(d) => Some(d.avp_type),
            None => None,
        }
    }

    /// The display name recorded for a key, if any.
    pub fn get_avp_name(&self, code: u32, vendor_id: Option<u32>) -> (r: Option<&str>)
        ensures
            r is Some <==> def_lookup(self@, code, vendor_id) is Some,
            r matches Some(s) ==> Some(s@) == Some(
                def_lookup(self@, code, vendor_id)->0.name,
            ),
    {
        match self.get_avp(code, vendor_id) {
            Some(d) => Some(d.name.as_str()),
            None => None,
        }
    }
}


// ---------------------------------------------------------------------
// Parsing the XML dictionary sources.
//
// A source is scanned for `<avp` elements; each carries `name` and
// `code` attributes, an optional `vendor-id`, a `must` attribute whose
// containing an `M` sets the M-flag default, and a nested `<data>`
// element whose `type` string names the value type. A malformed element
// is skipped; entries are inserted newest first, so a later entry for a
// key shadows an earlier one and a later source overrides an earlier
// one.
// ---------------------------------------------------------------------

/// The bytes of the token `<avp` as the scanner searches for it.
pub open spec fn pat_avp() -> Seq<u8> {
    seq![60u8, 97u8, 118u8, 112u8]
}

/// The bytes of the token `>` as the scanner searches for it.
pub open spec fn pat_gt() -> Seq<u8> {
    seq![62u8]
}

/// The bytes of the token `<data` as the scanner searches for it.
pub open spec fn pat_data() -> Seq<u8> {
    seq![60u8, 100u8, 97u8, 116u8, 97u8]
}

/// The bytes of the token `name='` as the scanner searches for it.
pub open spec fn pat_name() -> Seq<u8> {
    seq![110u8, 97u8, 109u8, 101u8, 61u8, 34u8]
}

/// The bytes of the token `code='` as the scanner searches for it.
pub open spec fn pat_code() -> Seq<u8> {
    seq![99u8, 111u8, 100u8, 101u8, 61u8, 34u8]
}

/// The bytes of the token `vendor-id='` as the scanner searches for it.
pub open spec fn pat_vendor() -> Seq<u8> {
    seq![118u8, 101u8, 110u8, 100u8, 111u8, 114u8, 45u8, 105u8, 100u8, 61u8, 34u8]
}

/// The bytes of the token `must='` as the scanner searches for it.
pub open spec fn pat_must() -> Seq<u8> {
    seq![109u8, 117u8, 115u8, 116u8, 61u8, 34u8]
}

/// The bytes of the token `type='` as the scanner searches for it.
pub open spec fn pat_type() -> Seq<u8> {
    seq![116u8, 121u8, 112u8, 101u8, 61u8, 34u8]
}

/// The bytes of the token `'` as the scanner searches for it.
pub open spec fn pat_quote() -> Seq<u8> {
    seq![34u8]
}

/// The value type named by a `data` element's type string;
/// `Unknown` for any string outside the closed set.
pub open spec fn type_of_name(b: Seq<u8>) -> AvpType {
    if b == seq![85u8, 84u8, 70u8, 56u8, 83u8, 116u8, 114u8, 105u8, 110u8, 103u8] {
        AvpType::UTF8String
    } else
    if b == seq![79u8, 99u8, 116u8, 101u8, 116u8, 83u8, 116u8, 114u8, 105u8, 110u8, 103u8] {
        AvpType::OctetString
    } else
    if b == seq![73u8, 110u8, 116u8, 101u8, 103u8, 101u8, 114u8, 51u8, 50u8] {
        AvpType::Integer32
    } else
    if b == seq![73u8, 110u8, 116u8, 101u8, 103u8, 101u8, 114u8, 54u8, 52u8] {
        AvpType::Integer64
    } else
    if b == seq![85u8, 110u8, 115u8, 105u8, 103u8, 110u8, 101u8, 100u8, 51u8, 50u8] {
        AvpType::Unsigned32
    } else
    if b == seq![85u8, 110u8, 115u8, 105u8, 103u8, 110u8, 101u8, 100u8, 54u8, 52u8] {
        AvpType::Unsigned64
    } else
    if b == seq![69u8, 110u8, 117u8, 109u8, 101u8, 114u8, 97u8, 116u8, 101u8, 100u8] {
        AvpType::Enumerated
    } else
    if b == seq![71u8, 114u8, 111u8, 117u8, 112u8, 101u8, 100u8] {
        AvpType::Grouped
    } else
    if b == seq![68u8, 105u8, 97u8, 109u8, 101u8, 116u8, 101u8, 114u8, 73u8, 100u8, 101u8, 110u8, 116u8, 105u8, 116u8, 121u8] {
        AvpType::Identity
    } else
    if b == seq![68u8, 105u8, 97u8, 109u8, 101u8, 116u8, 101u8, 114u8, 85u8, 82u8, 73u8] {
        AvpType::DiameterURI
    } else
    if b == seq![84u8, 105u8, 109u8, 101u8] {
        AvpType::Time
    } else
    if b == seq![65u8, 100u8, 100u8, 114u8, 101u8, 115u8, 115u8] {
        AvpType::Address
    } else
    if b == seq![73u8, 80u8, 118u8, 52u8] {
        AvpType::AddressIPv4
    } else
    if b == seq![73u8, 80u8, 118u8, 54u8] {
        AvpType::AddressIPv6
    } else
    if b == seq![70u8, 108u8, 111u8, 97u8, 116u8, 51u8, 50u8] {
        AvpType::Float32
    } else
    if b == seq![70u8, 108u8, 111u8, 97u8, 116u8, 54u8, 52u8] {
        AvpType::Float64
    } else {
        AvpType::Unknown
    }
}

/// Decides the value type named by a type string.
pub fn type_of_name_exec(b: &Vec<u8>) -> (r: AvpType)
    ensures
        r == type_of_name(b@),
{
    let p: [u8; 10] = [85, 84, 70, 56, 83, 116, 114, 105, 110, 103];
    proof {
        assert(p@ =~= seq![85u8, 84u8, 70u8, 56u8, 83u8, 116u8, 114u8, 105u8, 110u8, 103u8]);
    }
    if bytes_eq(b, p.as_slice()) {
        return AvpType::UTF8String;
    }
    let p: [u8; 11] = [79, 99, 116, 101, 116, 83, 116, 114, 105, 110, 103];
    proof {
        assert(p@ =~= seq![79u8, 99u8, 116u8, 101u8, 116u8, 83u8, 116u8, 114u8, 105u8, 110u8, 103u8]);
    }
    if bytes_eq(b, p.as_slice()) {
        return AvpType::OctetString;
    }
    let p: [u8; 9] = [73, 110, 116, 101, 103, 101, 114, 51, 50];
    proof {
        assert(p@ =~= seq![73u8, 110u8, 116u8, 101u8, 103u8, 101u8, 114u8, 51u8, 50u8]);
    }
    if bytes_eq(b, p.as_slice()) {
        return AvpType::Integer32;
    }
    let p: [u8; 9] = [73, 110, 116, 101, 103, 101, 114, 54, 52];
    proof {
        assert(p@ =~= seq![73u8, 110u8, 116u8, 101u8, 103u8, 101u8, 114u8, 54u8, 52u8]);
    }
    if bytes_eq(b, p.as_slice()) {
        return AvpType::Integer64;
    }
    let p: [u8; 10] = [85, 110, 115, 105, 103, 110, 101, 100, 51, 50];
    proof {
        assert(p@ =~= seq![85u8, 110u8, 115u8, 105u8, 103u8, 110u8, 101u8, 100u8, 51u8, 50u8]);
    }
    if bytes_eq(b, p.as_slice()) {
        return AvpType::Unsigned32;
    }
    let p: [u8; 10] = [85, 110, 115, 105, 103, 110, 101, 100, 54, 52];
    proof {
        assert(p@ =~= seq![85u8, 110u8, 115u8, 105u8, 103u8, 110u8, 101u8, 100u8, 54u8, 52u8]);
    }
    if bytes_eq(b, p.as_slice()) {
        return AvpType::Unsigned64;
    }
    let p: [u8; 10] = [69, 110, 117, 109, 101, 114, 97, 116, 101, 100];
    proof {
        assert(p@ =~= seq![69u8, 110u8, 117u8, 109u8, 101u8, 114u8, 97u8, 116u8, 101u8, 100u8]);
    }
    if bytes_eq(b, p.as_slice()) {
        return AvpType::Enumerated;
    }
    let p: [u8; 7] = [71, 114, 111, 117, 112, 101, 100];
    proof {
        assert(p@ =~= seq![71u8, 114u8, 111u8, 117u8, 112u8, 101u8, 100u8]);
    }
    if bytes_eq(b, p.as_slice()) {
        return AvpType::Grouped;
    }
    let p: [u8; 16] = [68, 105, 97, 109, 101, 116, 101, 114, 73, 100, 101, 110, 116, 105, 116, 121];
    proof {
        assert(p@ =~= seq![68u8, 105u8, 97u8, 109u8, 101u8, 116u8, 101u8, 114u8, 73u8, 100u8, 101u8, 110u8, 116u8, 105u8, 116u8, 121u8]);
    }
    if bytes_eq(b, p.as_slice()) {
        return AvpType::Identity;
    }
    let p: [u8; 11] = [68, 105, 97, 109, 101, 116, 101, 114, 85, 82, 73];
    proof {
        assert(p@ =~= seq![68u8, 105u8, 97u8, 109u8, 101u8, 116u8, 101u8, 114u8, 85u8, 82u8, 73u8]);
    }
    if bytes_eq(b, p.as_slice()) {
        return AvpType::DiameterURI;
    }
    let p: [u8; 4] = [84, 105, 109, 101];
    proof {
        assert(p@ =~= seq![84u8, 105u8, 109u8, 101u8]);
    }
    if bytes_eq(b, p.as_slice()) {
        return AvpType::Time;
    }
    let p: [u8; 7] = [65, 100, 100, 114, 101, 115, 115];
    proof {
        assert(p@ =~= seq![65u8, 100u8, 100u8, 114u8, 101u8, 115u8, 115u8]);
    }
    if bytes_eq(b, p.as_slice()) {
        return AvpType::Address;
    }
    let p: [u8; 4] = [73, 80, 118, 52];
    proof {
        assert(p@ =~= seq![73u8, 80u8, 118u8, 52u8]);
    }
    if bytes_eq(b, p.as_slice()) {
        return AvpType::AddressIPv4;
    }
    let p: [u8; 4] = [73, 80, 118, 54];
    proof {
        assert(p@ =~= seq![73u8, 80u8, 118u8, 54u8]);
    }
    if bytes_eq(b, p.as_slice()) {
        return AvpType::AddressIPv6;
    }
    let p: [u8; 7] = [70, 108, 111, 97, 116, 51, 50];
    proof {
        assert(p@ =~= seq![70u8, 108u8, 111u8, 97u8, 116u8, 51u8, 50u8]);
    }
    if bytes_eq(b, p.as_slice()) {
        return AvpType::Float32;
    }
    let p: [u8; 7] = [70, 108, 111, 97, 116, 54, 52];
    proof {
        assert(p@ =~= seq![70u8, 108u8, 111u8, 97u8, 116u8, 54u8, 52u8]);
    }
    if bytes_eq(b, p.as_slice()) {
        return AvpType::Float64;
    }
    AvpType::Unknown
}


/// The value range of an attribute in `bytes[lo..hi)`: the token must
/// occur before `hi`, preceded by whitespace; the value runs to the
/// closing quote.
pub open spec fn attr_val(bytes: Seq<u8>, lo: int, hi: int, pat: Seq<u8>) -> Option<(int, int)> {
    match find_from(bytes, pat, lo) {
        None => None,
        Some(p) => {
            if p + pat.len() > hi || p < 1 || !spec_is_space(bytes[p - 1]) {
                None
            } else {
                match find_from(bytes, pat_quote(), p + pat.len()) {
                    None => None,
                    Some(ve) => Some((p + pat.len(), ve)),
                }
            }
        },
    }
}

/// Finds an attribute's value range, executable form.
pub fn attr_val_exec(bytes: &Vec<u8>, lo: usize, hi: usize, pat: &[u8]) -> (r: Option<
    (usize, usize),
>)
    requires
        pat@.len() >= 1,
    ensures
        r matches Some(v) ==> Some((v.0 as int, v.1 as int)) == attr_val(
            bytes@,
            lo as int,
            hi as int,
            pat@,
        ) && v.0 <= v.1 && v.1 < bytes@.len(),
        r is None ==> attr_val(bytes@, lo as int, hi as int, pat@) is None,
{
    let blen = bytes.len();
    let p = match crate::xml::find(bytes, pat, lo) {
        Some(p) => p,
        None => {
            return None;
        },
    };
    proof {
        lemma_find_from_bounds(bytes@, pat@, lo as int);
    }
    if p + pat.len() > hi || p < 1 {
        return None;
    }
    if !is_space(bytes[p - 1]) {
        return None;
    }
    let vs = p + pat.len();
    let q: [u8; 1] = [34];
    proof {
        assert(q@ =~= pat_quote());
    }
    let ve = match crate::xml::find(bytes, q.as_slice(), vs) {
        Some(v) => v,
        None => {
            return None;
        },
    };
    proof {
        lemma_find_from_bounds(bytes@, pat_quote(), vs as int);
    }
    Some((vs, ve))
}

/// The catalog entry declared by the `<avp` element at `i`, if the
/// element is well formed; `None` skips it.
pub open spec fn entry_at(bytes: Seq<u8>, i: int) -> Option<AvpDefV> {
    if !(0 <= i && i + 5 <= bytes.len() && spec_is_space(bytes[i + 4])) {
        None
    } else {
        let lim = match find_from(bytes, pat_avp(), i + 4) {
            Some(n) => n,
            None => bytes.len() as int,
        };
        match find_from(bytes, pat_gt(), i) {
            None => None,
            Some(gt) => {
                match attr_val(bytes, i, gt, pat_name()) {
                    None => None,
                    Some(nr) => match attr_val(bytes, i, gt, pat_code()) {
                        None => None,
                        Some(cr) => match spec_parse_u32(bytes.subrange(cr.0, cr.1)) {
                            None => None,
                            Some(code) => {
                                let vr = attr_val(bytes, i, gt, pat_vendor());
                                if vr is Some && spec_parse_u32(
                                    bytes.subrange((vr->0).0, (vr->0).1),
                                ) is None {
                                    None
                                } else {
                                    let vendor_id = if vr is Some {
                                        Some(
                                            spec_parse_u32(
                                                bytes.subrange((vr->0).0, (vr->0).1),
                                            )->0,
                                        )
                                    } else {
                                        None
                                    };
                                    let m_flag = match attr_val(bytes, i, gt, pat_must()) {
                                        Some(mr) => contains_byte(bytes, mr.0, mr.1, 77),
                                        None => false,
                                    };
                                    match find_from(bytes, pat_data(), gt) {
                                        None => None,
                                        Some(dp) => {
                                            if dp >= lim {
                                                None
                                            } else {
                                                match find_from(bytes, pat_gt(), dp) {
                                                    None => None,
                                                    Some(dgt) => {
                                                        match attr_val(
                                                            bytes,
                                                            dp,
                                                            dgt,
                                                            pat_type(),
                                                        ) {
                                                            None => None,
                                                            Some(tr) => {
                                                                if !valid_utf8(
                                                                    bytes.subrange(nr.0, nr.1),
                                                                ) {
                                                                    None
                                                                } else {
                                                                    Some(
                                                                        AvpDefV {
                                                                            code,
                                                                            vendor_id,
                                                                            name: decode_utf8(
                                                                                bytes.subrange(
                                                                                    nr.0,
                                                                                    nr.1,
                                                                                ),
                                                                            ),
                                                                            avp_type: type_of_name(
                                                                                bytes.subrange(
                                                                                    tr.0,
                                                                                    tr.1,
                                                                                ),
                                                                            ),
                                                                            m_flag,
                                                                        },
                                                                    )
                                                                }
                                                            },
                                                        }
                                                    },
                                                }
                                            }
                                        },
                                    }
                                }
                            },
                        },
                    },
                }
            },
        }
    }
}

/// Reads the catalog entry declared by the `<avp` element at `i`.
#[verifier::rlimit(100)]
pub fn entry_at_exec(bytes: &Vec<u8>, i: usize) -> (r: Option<AvpDefinition>)
    ensures
        r is Some <==> entry_at(bytes@, i as int) is Some,
        r matches Some(d) ==> Some(d@) == entry_at(bytes@, i as int),
{
    if i > bytes.len() || bytes.len() - i < 5 {
        return None;
    }
    if !is_space(bytes[i + 4]) {
        return None;
    }
    let p_avp: [u8; 4] = [60, 97, 118, 112];
    let p_gt: [u8; 1] = [62];
    let p_data: [u8; 5] = [60, 100, 97, 116, 97];
    let p_name: [u8; 6] = [110, 97, 109, 101, 61, 34];
    let p_code: [u8; 6] = [99, 111, 100, 101, 61, 34];
    let p_vendor: [u8; 11] = [118, 101, 110, 100, 111, 114, 45, 105, 100, 61, 34];
    let p_must: [u8; 6] = [109, 117, 115, 116, 61, 34];
    let p_type: [u8; 6] = [116, 121, 112, 101, 61, 34];
    proof {
        assert(p_avp@ =~= pat_avp());
        assert(p_gt@ =~= pat_gt());
        assert(p_data@ =~= pat_data());
        assert(p_name@ =~= pat_name());
        assert(p_code@ =~= pat_code());
        assert(p_vendor@ =~= pat_vendor());
        assert(p_must@ =~= pat_must());
        assert(p_type@ =~= pat_type());
    }
    let lim = match crate::xml::find(bytes, p_avp.as_slice(), i + 4) {
        Some(n) => n,
        None => bytes.len(),
    };
    let gt = match crate::xml::find(bytes, p_gt.as_slice(), i) {
        Some(g) => g,
        None => {
            return None;
        },
    };
    let nr = match attr_val_exec(bytes, i, gt, p_name.as_slice()) {
        Some(v) => v,
        None => {
            return None;
        },
    };
    let cr = match attr_val_exec(bytes, i, gt, p_code.as_slice()) {
        Some(v) => v,
        None => {
            return None;
        },
    };
    let code_bytes = copy_range(bytes, cr.0, cr.1);
    let code = match crate::xml::parse_u32(&code_bytes) {
        Ok(c) => c,
        Err(_) => {
            return None;
        },
    };
    let vr = attr_val_exec(bytes, i, gt, p_vendor.as_slice());
    let vendor_id = match vr {
        Some(v) => {
            let vendor_bytes = copy_range(bytes, v.0, v.1);
            match crate::xml::parse_u32(&vendor_bytes) {
                Ok(n) => Some(n),
                Err(_) => {
                    return None;
                },
            }
        },
        None => None,
    };
    let m_flag = match attr_val_exec(bytes, i, gt, p_must.as_slice()) {
        Some(mr) => range_contains(bytes, mr.0, mr.1, 77),
        None => false,
    };
    let dp = match crate::xml::find(bytes, p_data.as_slice(), gt) {
        Some(d) => d,
        None => {
            return None;
        },
    };
    if dp >= lim {
        return None;
    }
    let dgt = match crate::xml::find(bytes, p_gt.as_slice(), dp) {
        Some(g) => g,
        None => {
            return None;
        },
    };
    let tr = match attr_val_exec(bytes, dp, dgt, p_type.as_slice()) {
        Some(v) => v,
        None => {
            return None;
        },
    };
    let type_bytes = copy_range(bytes, tr.0, tr.1);
    let avp_type = type_of_name_exec(&type_bytes);
    let name_bytes = copy_range(bytes, nr.0, nr.1);
    let name = match crate::text::string_from_utf8(name_bytes) {
        Ok(s) => s,
        Err(_) => {
            return None;
        },
    };
    Some(AvpDefinition { code, vendor_id, name, avp_type, m_flag })
}

/// The entries declared at or after `from`, accumulated newest first on
/// top of `acc`: scanning appends each well-formed `<avp` element to
/// the front, so the last element of the last source ends up first.
pub open spec fn scan_acc(bytes: Seq<u8>, from: int, acc: Seq<AvpDefV>) -> Seq<AvpDefV>
    decreases bytes.len() - from + 1,
{
    match find_from(bytes, pat_avp(), from) {
        None => acc,
        Some(i) => {
            if i < from || i + 4 > bytes.len() {
                acc
            } else {
                scan_acc(
                    bytes,
                    i + 4,
                    match entry_at(bytes, i) {
                        Some(d) => seq![d] + acc,
                        None => acc,
                    },
                )
            }
        },
    }
}

/// Scans one XML source and inserts every declared entry, newest first.
#[verifier::loop_isolation(false)]
pub fn parse_into(def: &mut Definition, bytes: &Vec<u8>)
    ensures
        final(def)@ == scan_acc(bytes@, 0, old(def)@),
{
    let p_avp: [u8; 4] = [60, 97, 118, 112];
    proof {
        assert(p_avp@ =~= pat_avp());
    }
    let blen = bytes.len();
    let mut pos: usize = 0;
    let mut more = true;
    while more
        invariant
            pos <= bytes@.len() + 4,
            scan_acc(bytes@, 0, old(def)@) == (if more {
                scan_acc(bytes@, pos as int, def@)
            } else {
                def@
            }),
        decreases bytes@.len() - pos + 4, (if more {
            1int
        } else {
            0int
        }),
    {
        match crate::xml::find(bytes, p_avp.as_slice(), pos) {
            None => {
                more = false;
            },
            Some(i) => {
                proof {
                    lemma_find_from_bounds(bytes@, pat_avp(), pos as int);
                }
                match entry_at_exec(bytes, i) {
                    Some(d) => {
                        def.add_avp(d);
                    },
                    None => {},
                }
                pos = i + 4;
            },
        }
    }
}

/// Builds a catalog from one XML source.
pub fn parse(xml: &str) -> (r: Definition)
    ensures
        r@ == scan_acc(vstd::utf8::encode_utf8(xml@), 0, Seq::<AvpDefV>::empty()),
{
    let bytes = xml.as_bytes_vec();
    let mut def = Definition::new();
    parse_into(&mut def, &bytes);
    def
}

/// The catalog accumulated over a list of sources, in order: entries of
/// later sources end up in front and shadow earlier ones.
pub open spec fn sources_acc(srcs: Seq<&str>, acc: Seq<AvpDefV>) -> Seq<AvpDefV>
    decreases srcs.len(),
{
    if srcs.len() == 0 {
        acc
    } else {
        sources_acc(srcs.drop_first(), scan_acc(vstd::utf8::encode_utf8(srcs[0]@), 0, acc))
    }
}

/// A runtime-loaded dictionary: a catalog built from XML sources and
/// then shared read-only by every decoder.
#[derive(Debug, Clone, PartialEq)]
pub struct Dictionary {
    def: Definition,
}

impl View for Dictionary {
    type V = Seq<AvpDefV>;

    closed spec fn view(&self) -> Seq<AvpDefV> {
        self.def@
    }
}

impl Dictionary {
    /// Builds a dictionary by parsing every XML source and merging the
    /// entries: later sources override earlier ones, key by key.
    #[verifier::loop_isolation(false)]
    pub fn new(sources: &[&str]) -> (r: Dictionary)
        ensures
            r@ == sources_acc(sources@, Seq::<AvpDefV>::empty()),
    {
        let mut def = Definition::new();
        let n = sources.len();
        let mut k: usize = 0;
        proof {
            assert(sources@.skip(0) =~= sources@);
        }
        while k < n
            invariant
                0 <= k <= n,
                n == sources@.len(),
                sources_acc(sources@, Seq::<AvpDefV>::empty()) == sources_acc(
                    sources@.skip(k as int),
                    def@,
                ),
            decreases n - k,
        {
            let src: &str = sources[k];
            let bytes = src.as_bytes_vec();
            proof {
                assert(sources@.skip(k as int)[0] == sources@[k as int]);
                assert(sources@.skip(k as int).drop_first() =~= sources@.skip(k as int + 1));
            }
            parse_into(&mut def, &bytes);
            k = k + 1;
        }
        proof {
            assert(sources@.skip(n as int) =~= Seq::<&str>::empty());
        }
        Dictionary { def }
    }

    /// The number of entries, shadowed ones included.
    pub fn len(&self) -> (r: usize)
        ensures
            r == self@.len(),
    {
        self.def.len()
    }

    /// Adds an entry, shadowing any earlier entry with the same key.
    pub fn add_avp(&mut self, avp: AvpDefinition)
        ensures
            final(self)@ == seq![avp@] + old(self)@,
    {
        self.def.add_avp(avp);
    }

    /// The entry for a key, if the dictionary has one.
    pub fn get_avp(&self, code: u32, vendor_id: Option<u32>) -> (r: Option<&AvpDefinition>)
        ensures
            r is Some <==> def_lookup(self@, code, vendor_id) is Some,
            r matches Some(d) ==> Some(d@) == def_lookup(self@, code, vendor_id),
    {
        self.def.get_avp(code, vendor_id)
    }

    /// The entry carrying a display name, if the dictionary has one.
    pub fn get_avp_by_name(&self, name: &str) -> (r: Option<&AvpDefinition>)
        ensures
            r is Some <==> def_lookup_by_name(self@, name@) is Some,
            r matches Some(d) ==> Some(d@) == def_lookup_by_name(self@, name@),
    {
        self.def.get_avp_by_name(name)
    }

    /// The value type recorded for a key, if any.
    pub fn get_avp_type(&self, code: u32, vendor_id: Option<u32>) -> (r: Option<AvpType>)
        ensures
            r is Some <==> def_lookup(self@, code, vendor_id) is Some,
            r matches Some(t) ==> t == def_type_of(self@, code, vendor_id),
    {
        self.def.get_avp_type(code, vendor_id)
    }

    /// The display name recorded for a key, if any.
    pub fn get_avp_name(&self, code: u32, vendor_id: Option<u32>) -> (r: Option<&str>)
        ensures
            r is Some <==> def_lookup(self@, code, vendor_id) is Some,
            r matches Some(s) ==> Some(s@) == Some(
                def_lookup(self@, code, vendor_id)->0.name,
            ),
    {
        self.def.get_avp_name(code, vendor_id)
    }
}

pub const DEFAULT_DICT_XML_0: &'static str = r#"
<diameter>
    <application id="0" name="Base">
		<avp name="Acct-Interim-Interval" code="85" must="M" may="P" must-not="V" may-encrypt="Y">
			<data type="Unsigned32"/>
		</avp>

		<avp name="Accounting-Realtime-Required" code="483" must="M" may="P" must-not="V" may-encrypt="Y">
			<data type="Enumerated">
				<item code="1" name="DELIVER_AND_GRANT"/>
				<item code="2" name="GRANT_AND_STORE"/>
				<item code="3" name="GRANT_AND_LOSE"/>
			</data>
		</avp>

		<avp name="Acct-Multi-Session-Id" code="50" must="M" may="P" must-not="V" may-encrypt="Y">
			<data type="UTF8String"/>
		</avp>

		<avp name="Accounting-Record-Number" code="485" must="M" may="P" must-not="V" may-encrypt="Y">
			<data type="Unsigned32"/>
		</avp>

		<avp name="Accounting-Record-Type" code="480" must="M" may="P" must-not="V" may-encrypt="Y">
			<data type="Enumerated">
				<item code="1" name="EVENT_RECORD"/>
				<item code="2" name="START_RECORD"/>
				<item code="3" name="INTERIM_RECORD"/>
				<item code="4" name="STOP_RECORD"/>
			</data>
		</avp>

		<avp name="Accounting-Session-Id" code="44" must="M" may="P" must-not="V" may-encrypt="Y">
			<data type="OctetString"/>
		</avp>

		<avp name="Accounting-Sub-Session-Id" code="287" must="M" may="P" must-not="V" may-encrypt="Y">
			<data type="Unsigned64"/>
		</avp>

		<avp name="Acct-Application-Id" code="259" must="M" may="P" must-not="V" may-encrypt="-">
			<data type="Unsigned32"/>
		</avp>

		<avp name="Auth-Application-Id" code="258" must="M" may="P" must-not="V" may-encrypt="-">
			<data type="Unsigned32"/>
		</avp>

		<avp name="Auth-Request-Type" code="274" must="M" may="P" must-not="V" may-encrypt="-">
			<data type="Enumerated">
				<item code="1" name="AUTHENTICATE_ONLY"/>
				<item code="2" name="AUTHORIZE_ONLY"/>
				<item code="3" name="AUTHORIZE_AUTHENTICATE"/>
			</data>
		</avp>

		<avp name="Authorization-Lifetime" code="291" must="M" may="P" must-not="V" may-encrypt="-">
			<data type="Unsigned32"/>
		</avp>

		<avp name="Auth-Grace-Period" code="276" must="M" may="P" must-not="V" may-encrypt="-">
			<data type="Unsigned32"/>
		</avp>

		<avp name="Auth-Session-State" code="277" must="M" may="P" must-not="V" may-encrypt="-">
			<data type="Enumerated">
				<item code="0" name="STATE_MAINTAINED"/>
				<item code="1" name="NO_STATE_MAINTAINED"/>
			</data>
		</avp>

		<avp name="Re-Auth-Request-Type" code="285" must="M" may="P" must-not="V" may-encrypt="-">
			<data type="Enumerated">
				<item code="0" name="AUTHORIZE_ONLY"/>
				<item code="1" name="AUTHORIZE_AUTHENTICATE"/>
			</data>
		</avp>

		<avp name="Class" code="25" must="M" may="P" must-not="V" may-encrypt="Y">
			<data type="OctetString"/>
		</avp>

		<avp name="Destination-Host" code="293" must="M" may="P" must-not="V" may-encrypt="-">
			<data type="DiameterIdentity"/>
		</avp>

		<avp name="Destination-Realm" code="283" must="M" may="P" must-not="V" may-encrypt="-">
			<data type="DiameterIdentity"/>
		</avp>

		<avp name="Disconnect-Cause""#;

pub const DEFAULT_DICT_XML_1: &'static str = r#" code="273" must="M" may="P" must-not="V" may-encrypt="-">
			<data type="Enumerated">
				<item code="0" name="REBOOTING"/>
				<item code="1" name="BUSY"/>
				<item code="2" name="DO_NOT_WANT_TO_TALK_TO_YOU"/>
			</data>
		</avp>

		<avp name="Error-Message" code="281" must="-" may="P" must-not="V,M" may-encrypt="-">
			<data type="UTF8String"/>
		</avp>

		<avp name="Error-Reporting-Host" code="294" must="-" may="P" must-not="V,M" may-encrypt="-">
			<data type="DiameterIdentity"/>
		</avp>

		<avp name="Event-Timestamp" code="55" must="M" may="P" must-not="V" may-encrypt="-">
			<data type="Time"/>
		</avp>

		<avp name="Experimental-Result" code="297" must="M" may="P" must-not="V" may-encrypt="-">
			<data type="Grouped">
				<rule avp="Vendor-Id" required="true" max="1"/>
				<rule avp="Experimental-Result-Code" required="true" max="1"/>
			</data>
		</avp>

		<avp name="Experimental-Result-Code" code="298" must="M" may="P" must-not="V" may-encrypt="-">
			<data type="Unsigned32"/>
		</avp>

		<avp name="Failed-AVP" code="279" must="M" may="P" must-not="V" may-encrypt="-">
			<data type="Grouped"/>
		</avp>

		<avp name="Firmware-Revision" code="267" must="-" may="-" must-not="P,V,M" may-encrypt="-">
			<data type="Unsigned32"/>
		</avp>

		<avp name="Host-IP-Address" code="257" must="M" may="P" must-not="V" may-encrypt="-">
			<data type="Address"/>
		</avp>

		<avp name="Inband-Security-Id" code="299" must="M" may="P" must-not="V" may-encrypt="-">
			<data type="Unsigned32"/>
		</avp>

		<avp name="Multi-Round-Time-Out" code="272" must="M" may="P" must-not="V" may-encrypt="Y">
			<data type="Unsigned32"/>
		</avp>

		<avp name="Origin-Host" code="264" must="M" may="P" must-not="V" may-encrypt="-">
			<data type="DiameterIdentity"/>
		</avp>

		<avp name="Origin-Realm" code="296" must="M" may="P" must-not="V" may-encrypt="-">
			<data type="DiameterIdentity"/>
		</avp>

		<avp name="Origin-State-Id" code="278" must="M" may="P" must-not="V" may-encrypt="-">
			<data type="Unsigned32"/>
		</avp>

		<avp name="Product-Name" code="269" must="-" may="-" must-not="P,V,M" may-encrypt="-">
			<data type="UTF8String"/>
		</avp>

		<avp name="Proxy-Host" code="280" must="M" may="-" must-not="P,V" may-encrypt="-">
			<data type="DiameterIdentity"/>
		</avp>

		<avp name="Proxy-Info" code="284" must="M" may="-" must-not="P,V" may-encrypt="-">
			<data type="Grouped">
				<rule avp="Proxy-Host" required="true" max="1"/>
				<rule avp="Proxy-State" required="true" max="1"/>
			</data>
		</avp>

		<avp name="Proxy-State" code="33" must="M" may="-" must-not="P,V" may-encrypt="-">
			<data type="OctetString"/>
		</avp>

		<avp name="Redirect-Host" code="292" must="M" may="P" must-not="V" may-encrypt="-">
			<data type="DiameterURI"/>
		</avp>

		<avp name="Redirect-Host-Usage" code="261" must="M" may="P" must-not="V" may-encrypt="-">
			<data type="Enumerated">
				<item code="0" name="DONT_CACHE"/>
				<item code="1" name="ALL_SESSION"/>
				<item code=""#;

pub const DEFAULT_DICT_XML_2: &'static str = r#"2" name="ALL_REALM"/>
				<item code="3" name="REALM_AND_APPLICATION"/>
				<item code="4" name="ALL_APPLICATION"/>
				<item code="5" name="ALL_HOST"/>
				<item code="6" name="ALL_USER"/>
			</data>
		</avp>

		<avp name="Redirect-Max-Cache-Time" code="262" must="M" may="P" must-not="V" may-encrypt="-">
			<data type="Unsigned32"/>
		</avp>

		<avp name="Result-Code" code="268" must="M" may="P" must-not="V" may-encrypt="-">
			<data type="Unsigned32"/>
		</avp>

		<avp name="Route-Record" code="282" must="M" may="-" must-not="P,V" may-encrypt="-">
			<data type="DiameterIdentity"/>
		</avp>

		<avp name="Session-Id" code="263" must="M" may="P" must-not="V" may-encrypt="Y">
			<data type="UTF8String"/>
		</avp>

		<avp name="Session-Timeout" code="27" must="M" may="P" must-not="V" may-encrypt="-">
			<data type="Unsigned32"/>
		</avp>

		<avp name="Session-Binding" code="270" must="M" may="P" must-not="V" may-encrypt="Y">
			<data type="Unsigned32"/>
		</avp>

		<avp name="Session-Server-Failover" code="271" must="M" may="P" must-not="V" may-encrypt="Y">
			<data type="Enumerated">
				<item code="0" name="REFUSE_SERVICE"/>
				<item code="1" name="TRY_AGAIN"/>
				<item code="2" name="ALLOW_SERVICE"/>
				<item code="3" name="TRY_AGAIN_ALLOW_SERVICE"/>
			</data>
		</avp>

		<avp name="Supported-Vendor-Id" code="265" must="M" may="P" must-not="V" may-encrypt="-">
			<data type="Unsigned32"/>
		</avp>

		<avp name="Termination-Cause" code="295" must="M" may="P" must-not="V" may-encrypt="-">
			<data type="Enumerated">
				<item code="1" name="DIAMETER_LOGOUT"/>
				<item code="2" name="DIAMETER_SERVICE_NOT_PROVIDED"/>
				<item code="3" name="DIAMETER_BAD_ANSWER"/>
				<item code="4" name="DIAMETER_ADMINISTRATIVE"/>
				<item code="5" name="DIAMETER_LINK_BROKEN"/>
				<item code="6" name="DIAMETER_AUTH_EXPIRED"/>
				<item code="7" name="DIAMETER_USER_MOVED"/>
				<item code="8" name="DIAMETER_SESSION_TIMEOUT"/>
			</data>
		</avp>

		<avp name="User-Name" code="1" must="M" may="P" must-not="V" may-encrypt="Y">
			<data type="UTF8String"/>
		</avp>

		<avp name="Vendor-Id" code="266" must="M" may="P" must-not="V" may-encrypt="-">
			<data type="Unsigned32"/>
		</avp>

		<avp name="Vendor-Specific-Application-Id" code="260" must="M" may="P" must-not="V" may-encrypt="-">
			<data type="Grouped">
				<rule avp="Vendor-Id" required="false" max="1"/>
				<rule avp="Auth-Application-Id" required="true" max="1"/>
				<rule avp="Acct-Application-Id" required="true" max="1"/>
			</data>
		</avp>

		<!-- IETF RFC 7683 - https://tools.ietf.org/html/rfc7683 -->
		<avp name="OC-Supported-Features" code="621" must-not="V">
			<data type="Grouped">
				<rule avp="OC-Feature-Vector" required="false"/>
				<rule avp="AVP" required="false"/>
			</data>
		</avp>

		<avp name="OC-Feature-Vector" code="622" must-not="V">
			<data type="Unsigned64"/>
		</avp>

		<avp name="OC-OLR" code="623" must-not="V">
			<data type="Grouped">
				<rule avp="OC-Sequence-Number" re"#;

pub const DEFAULT_DICT_XML_3: &'static str = r#"quired="true" max="1"/>
				<rule avp="OC-Report-Type" required="true" max="1"/>
				<rule avp="OC-Reduction-Percentage" required="false" max="1"/>
				<rule avp="OC-Validity-Duration" required="false" max="1"/>
				<rule avp="AVP" required="false"/>
			</data>
		</avp>

		<avp name="OC-Sequence-Number" code="624" must-not="V">
			<data type="Unsigned64"/>
		</avp>

		<avp name="OC-Validity-Duration" code="625" must-not="V">
			<data type="Unsigned32"/>
		</avp>

		<avp name="OC-Report-Type" code="626" must-not="V">
			<data type="Enumerated">
				<item code="0" name="HOST_REPORT"/>
				<item code="1" name="REALM_REPORT"/>
			</data>
		</avp>

		<avp name="OC-Reduction-Percentage" code="627" must-not="V">
			<data type="Unsigned32"/>
		</avp>

		<!-- IETF RFC 7944 - https://tools.ietf.org/html/rfc7944 -->
		<avp name="DRMP" code="301" must-not="V">
			<data type="Enumerated">
				<item code="0" name="PRIORITY_0"/>
				<item code="1" name="PRIORITY_1"/>
				<item code="2" name="PRIORITY_2"/>
				<item code="3" name="PRIORITY_3"/>
				<item code="4" name="PRIORITY_4"/>
				<item code="5" name="PRIORITY_5"/>
				<item code="6" name="PRIORITY_6"/>
				<item code="7" name="PRIORITY_7"/>
				<item code="8" name="PRIORITY_8"/>
				<item code="9" name="PRIORITY_9"/>
				<item code="10" name="PRIORITY_10"/>
				<item code="11" name="PRIORITY_11"/>
				<item code="12" name="PRIORITY_12"/>
				<item code="13" name="PRIORITY_13"/>
				<item code="14" name="PRIORITY_14"/>
				<item code="15" name="PRIORITY_15"/>
			</data>
		</avp>
		
		<avp name="CC-Request-Number" code="415" must="M" may="P" must-not="V" may-encrypt="Y">
			<!-- http://tools.ietf.org/html/rfc4006#section-8.2 -->
			<data type="Unsigned32"/>
		</avp>

		<avp name="Service-Information" code="873" must="V,M" may="P" must-not="-" may-encrypt="N" vendor-id="10415">
			<data type="Grouped">
				<rule avp="Subscription-Id" required="false"/>
				<rule avp="AoC-Information" required="false" max="1"/>
				<rule avp="PS-Information" required="false" max="1"/>
				<rule avp="IMS-Information" required="false" max="1"/>
				<rule avp="MMS-Information" required="false" max="1"/>
				<rule avp="LCS-Information" required="false" max="1"/>
				<rule avp="PoC-Information" required="false" max="1"/>
				<rule avp="MBMS-Information" required="false" max="1"/>
				<rule avp="SMS-Information" required="false" max="1"/>
				<rule avp="VCS-Information" required="false" max="1"/>
				<rule avp="MMTel-Information" required="false" max="1"/>
				<rule avp="Service-Generic-Information" required="false" max="1"/>
				<rule avp="IM-Information" required="false" max="1"/>
				<rule avp="DCD-Information" required="false" max="1"/>
			</data>
		</avp>

		<avp name="PS-Information" code="874" must="V,M" may="P" must-not="-" may-encrypt="N" vendor-id="10415">
			<data type="Grouped">
				<rule avp="TGPP-Charging-Id" required="false" max="1"/>
				<rule avp="PDN-Connection-Charging-Id" required="false" max="1"/>
				<rule avp"#;

pub const DEFAULT_DICT_XML_4: &'static str = r#"="Node-Id" required="false" max="1"/>
				<rule avp="TGPP-PDP-Type" required="false" max="1"/>
				<rule avp="PDP-Address" required="false"/>
				<rule avp="PDP-Address-Prefix-Length" required="false" max="1"/>
				<rule avp="Dynamic-Address-Flag" required="false" max="1"/>
				<rule avp="Dynamic-Address-Flag-Extension" required="false" max="1"/>
				<rule avp="QoS-Information" required="false" max="1"/>
				<rule avp="SGSN-Address" required="false"/>
				<rule avp="GGSN-Address" required="false"/>
				<rule avp="TDF-IP-Address" required="false"/>
				<rule avp="SGW-Address" required="false"/>
				<rule avp="ePDG-Address" required="false"/>
				<rule avp="CG-Address" required="false" max="1"/>
				<rule avp="Serving-Node-Type" required="false" max="1"/>
				<rule avp="SGW-Change" required="false" max="1"/>
				<rule avp="TGPP-IMSI-MCC-MNC" required="false" max="1"/>
				<rule avp="IMSI-Unauthenticated-Flag" required="false" max="1"/>
				<rule avp="TGPP-GGSN-MCC-MNC" required="false" max="1"/>
				<rule avp="TGPP-NSAPI" required="false" max="1"/>
				<rule avp="Called-Station-Id" required="false" max="1"/>
				<rule avp="TGPP-Session-Stop-Indicator" required="false" max="1"/>
				<rule avp="TGPP-Selection-Mode" required="false" max="1"/>
				<rule avp="TGPP-Charging-Characteristics" required="false" max="1"/>
				<rule avp="Charging-Characteristics-Selection-Mode" required="false" max="1"/>
				<rule avp="TGPP-SGSN-MCC-MNC" required="false" max="1"/>
				<rule avp="TGPP-MS-TimeZone" required="false" max="1"/>
				<rule avp="Charging-Rule-Base-Name" required="false" max="1"/>
				<rule avp="ADC-Rule-Base-Name" required="false" max="1"/>
				<rule avp="TGPP-User-Location-Info" required="false" max="1"/>
				<rule avp="User-Location-Info-Time" required="false" max="1"/>
				<rule avp="User-CSG-Information" required="false" max="1"/>
				<rule avp="Presence-Reporting-Area-Information" required="false" max="1"/>
				<rule avp="TGPP2-BSID" required="false" max="1"/>
				<rule avp="TWAN-User-Location-Info" required="false" max="1"/>
				<rule avp="TGPP-RAT-Type" required="false" max="1"/>
				<rule avp="PS-Furnish-Charging-Information" required="false" max="1"/>
				<rule avp="PDP-Context-Type" required="false" max="1"/>
				<rule avp="Offline-Charging" required="false" max="1"/>
				<rule avp="Traffic-Data-Volumes" required="false"/>
				<rule avp="Service-Data-Container" required="false"/>
				<rule avp="User-Equipment-Info" required="false" max="1"/>
				<rule avp="Terminal-Information" required="false" max="1"/>
				<rule avp="Start-Time" required="false" max="1"/>
				<rule avp="Stop-Time" required="false" max="1"/>
				<rule avp="Change-Condition" required="false" max="1"/>
				<rule avp="Diagnostics" required="false" max="1"/>
				<rule avp="Low-Priority-Indicator" required="false" max="1"/>
				<rule avp="MME-Number-for-MT-SMS" required="false" max="1"/>
				<rule avp="MME-Name" required="false" max="1"/>
				<rule avp="MME-Realm" required="fals"#;

pub const DEFAULT_DICT_XML_5: &'static str = r#"e" max="1"/>
				<rule avp="Logical-Access-Id" required="false" max="1"/>
				<rule avp="Physical-Access-Id" required="false" max="1"/>
				<rule avp="Fixed-User-Location-Info" required="false" max="1"/>
				<rule avp="CN-Operator-Selection-Entity" required="false" max="1"/>
			</data>
		</avp>

		<avp name="Called-Station-Id" code="30" must="M" may="-" must-not="V" may-encrypt="Y">
            <data type="UTF8String"/>
        </avp>
	
		<avp name="CC-Correlation-Id" code="411" must="-" may="P,M" must-not="V" may-encrypt="Y">
			<!-- http://tools.ietf.org/html/rfc4006#section-8.1 -->
			<data type="OctetString"/>
		</avp>

		<avp name="CC-Input-Octets" code="412" must="M" may="P" must-not="V" may-encrypt="Y">
			<!-- http://tools.ietf.org/html/rfc4006#section-8.24 -->
			<data type="Unsigned64"/>
		</avp>

		<avp name="CC-Money" code="413" must="M" may="P" must-not="V" may-encrypt="Y">
			<!-- http://tools.ietf.org/html/rfc4006#section-8.22 -->
			<data type="Grouped">
				<rule avp="Unit-Value" required="true" max="1"/>
				<rule avp="Currency-Code" required="true" max="1"/>
			</data>
		</avp>

		<avp name="CC-Output-Octets" code="414" must="M" may="P" must-not="V" may-encrypt="Y">
			<!-- http://tools.ietf.org/html/rfc4006#section-8.25 -->
			<data type="Unsigned64"/>
		</avp>

		<avp name="CC-Request-Number" code="415" must="M" may="P" must-not="V" may-encrypt="Y">
			<!-- http://tools.ietf.org/html/rfc4006#section-8.2 -->
			<data type="Unsigned32"/>
		</avp>

		<avp name="CC-Request-Type" code="416" must="M" may="P" must-not="V" may-encrypt="Y">
			<!-- http://tools.ietf.org/html/rfc4006#section-8.3 -->
			<data type="Enumerated">
				<item code="1" name="INITIAL_REQUEST"/>
				<item code="2" name="UPDATE_REQUEST"/>
				<item code="3" name="TERMINATION_REQUEST"/>
			</data>
		</avp>

		<avp name="CC-Service-Specific-Units" code="417" must="M" may="P" must-not="V" may-encrypt="Y">
			<data type="Unsigned64"/>
		</avp>

		<avp name="CC-Session-Failover" code="418" must="M" may="P" must-not="V" may-encrypt="Y">
			<!-- http://tools.ietf.org/html/rfc4006#section-8.4 -->
			<data type="Enumerated">
				<item code="0" name="FAILOVER_NOT_SUPPORTED"/>
				<item code="1" name="FAILOVER_SUPPORTED"/>
			</data>
		</avp>

		<avp name="CC-Sub-Session-Id" code="419" must="M" may="P" must-not="V" may-encrypt="Y">
			<!-- http://tools.ietf.org/html/rfc4006#section-8.5 -->
			<data type="Unsigned64"/>
		</avp>

		<avp name="CC-Time" code="420" must="M" may="P" must-not="V" may-encrypt="Y">
			<!-- http://tools.ietf.org/html/rfc4006#section-8.21 -->
			<data type="Unsigned32"/>
		</avp>

		<avp name="CC-Total-Octets" code="421" must="M" may="P" must-not="V" may-encrypt="Y">
			<!-- http://tools.ietf.org/html/rfc4006#section-8.23 -->
			<data type="Unsigned64"/>
		</avp>

		<avp name="CC-Unit-Type" code="454" must="M" may="P" must-not="V" may-encrypt="Y">
			<!-- http://tools.ietf.org/html/rfc4006#section-8.32 -->
			<data type="Enumerated">
				<item code=""#;

pub const DEFAULT_DICT_XML_6: &'static str = r#"0" name="TIME"/>
				<item code="1" name="MONEY"/>
				<item code="2" name="TOTAL-OCTETS"/>
				<item code="3" name="INPUT-OCTETS"/>
				<item code="4" name="OUTPUT-OCTETS"/>
				<item code="5" name="SERVICE-SPECIFIC-UNITS"/>
			</data>
		</avp>

		<avp name="Check-Balance-Result" code="422" must="M" may="P" must-not="V" may-encrypt="Y">
			<!-- http://tools.ietf.org/html/rfc4006#section-8.6 -->
			<data type="Enumerated">
				<item code="0" name="ENOUGH_CREDIT"/>
				<item code="1" name="NO_CREDIT"/>
			</data>
		</avp>

		<avp name="Cost-Information" code="423" must="M" may="P" must-not="V" may-encrypt="Y">
			<!-- http://tools.ietf.org/html/rfc4006#section-8.7 -->
			<data type="Grouped">
				<rule avp="Unit-Value" required="true" max="1"/>
				<rule avp="Currency-Code" required="true" max="1"/>
				<rule avp="Cost-Unit" required="true" max="1"/>
			</data>
		</avp>

		<avp name="Cost-Unit" code="424" must="M" may="P" must-not="V" may-encrypt="Y">
			<!-- http://tools.ietf.org/html/rfc4006#section-8.12 -->
			<data type="UTF8String"/>
		</avp>

		<avp name="Credit-Control" code="426" must="M" may="P" must-not="V" may-encrypt="Y">
			<!-- http://tools.ietf.org/html/rfc4006#section-8.13 -->
			<data type="Enumerated">
				<item code="0" name="CREDIT_AUTHORIZATION"/>
				<item code="1" name="RE_AUTHORIZATION"/>
			</data>
		</avp>

		<avp name="Credit-Control-Failure-Handling" code="427" must="M" may="P" must-not="V" may-encrypt="Y">
			<!-- http://tools.ietf.org/html/rfc4006#section-8.14 -->
			<data type="Enumerated">
				<item code="0" name="TERMINATE"/>
				<item code="1" name="CONTINUE"/>
				<item code="2" name="RETRY_AND_TERMINATE"/>
			</data>
		</avp>

		<avp name="Currency-Code" code="425" must="M" may="P" must-not="V" may-encrypt="Y">
			<!-- http://tools.ietf.org/html/rfc4006#section-8.11 -->
			<data type="Unsigned32"/>
		</avp>

		<avp name="Direct-Debiting-Failure-Handling" code="428" must="M" may="P" must-not="V" may-encrypt="Y">
			<!-- http://tools.ietf.org/html/rfc4006#section-8.15 -->
			<data type="Enumerated">
				<item code="0" name="TERMINATE_OR_BUFFER"/>
				<item code="1" name="CONTINUE"/>
			</data>
		</avp>

		<avp name="Exponent" code="429" must="M" may="P" must-not="V" may-encrypt="Y">
			<!-- http://tools.ietf.org/html/rfc4006#section-8.9 -->
			<data type="Integer32"/>
		</avp>

		<avp name="Final-Unit-Action" code="449" must="M" may="P" must-not="V" may-encrypt="Y">
			<!-- http://tools.ietf.org/html/rfc4006#section-8.35 -->
			<data type="Enumerated">
				<item code="0" name="TERMINATE"/>
				<item code="1" name="REDIRECT"/>
				<item code="2" name="RESTRICT_ACCESS"/>
			</data>
		</avp>

		<avp name="Final-Unit-Indication" code="430" must="M" may="P" must-not="V" may-encrypt="Y">
			<!-- http://tools.ietf.org/html/rfc4006#section-8.34 -->
			<data type="Grouped">
				<rule avp="Final-Unit-Action" required="true" max="1"/>
				<rule avp="Restriction-Filter-Rule" required="false" max="1"/>
				<rule avp="Filter-Id"#;

pub const DEFAULT_DICT_XML_7: &'static str = r#"" required="false" max="1"/>
				<rule avp="Redirect-Server" required="false" max="1"/>
			</data>
		</avp>

		<avp name="Granted-Service-Unit" code="431" must="M" may="P" must-not="V" may-encrypt="Y">
			<!-- http://tools.ietf.org/html/rfc4006#section-8.17 -->
			<data type="Grouped">
				<rule avp="Tariff-Time-Change" required="false" max="1"/>
				<rule avp="CC-Time" required="false" max="1"/>
				<rule avp="CC-Money" required="false" max="1"/>
				<rule avp="CC-Total-Octets" required="false" max="1"/>
				<rule avp="CC-Input-Octets" required="false" max="1"/>
				<rule avp="CC-Output-Octets" required="false" max="1"/>
				<rule avp="CC-Service-Specific-Units" required="false" max="1"/>
				<!-- *[ AVP ]-->
			</data>
		</avp>

		<avp name="G-S-U-Pool-Identifier" code="453" must="M" may="P" must-not="V" may-encrypt="Y">
			<!-- http://tools.ietf.org/html/rfc4006#section-8.31 -->
			<data type="Unsigned32"/>
		</avp>

		<avp name="G-S-U-Pool-Reference" code="457" must="M" may="P" must-not="V" may-encrypt="Y">
			<!-- http://tools.ietf.org/html/rfc4006#section-8.30 -->
			<data type="Grouped">
				<rule avp="G-S-U-Pool-Identifier" required="true" max="1"/>
				<rule avp="CC-Unit-Type" required="true" max="1"/>
				<rule avp="Unit-Value" required="true" max="1"/>
			</data>
		</avp>

		<avp name="Multiple-Services-Credit-Control" code="456" must="M" may="P" must-not="V" may-encrypt="Y">
			<!-- http://tools.ietf.org/html/rfc4006#section-8.16 -->
			<data type="Grouped">
				<rule avp="Granted-Service-Unit" required="false" max="1"/>
				<rule avp="Requested-Service-Unit" required="false" max="1"/>
				<rule avp="Used-Service-Unit" required="false" max="1"/>
				<rule avp="Tariff-Change-Usage" required="false" max="1"/>
				<rule avp="Service-Identifier" required="false" max="1"/>
				<rule avp="Rating-Group" required="false" max="1"/>
				<rule avp="G-S-U-Pool-Reference" required="false" max="1"/>
				<rule avp="Validity-Time" required="false" max="1"/>
				<rule avp="Result-Code" required="false" max="1"/>
				<rule avp="Final-Unit-Indication" required="false" max="1"/>
				<!-- *[ AVP ]-->
			</data>
		</avp>

		<avp name="Multiple-Services-Indicator" code="455" must="M" may="P" must-not="V" may-encrypt="Y">
			<!-- http://tools.ietf.org/html/rfc4006#section-8.40 -->
			<data type="Enumerated">
				<item code="0" name="MULTIPLE_SERVICES_NOT_SUPPORTED"/>
				<item code="1" name="MULTIPLE_SERVICES_SUPPORTED"/>
			</data>
		</avp>

		<avp name="Rating-Group" code="432" must="M" may="P" must-not="V" may-encrypt="Y">
			<!-- http://tools.ietf.org/html/rfc4006#section-8.29 -->
			<data type="Unsigned32"/>
		</avp>

		<avp name="Redirect-Address-Type" code="433" must="M" may="P" must-not="V" may-encrypt="Y">
			<!-- http://tools.ietf.org/html/rfc4006#section-8.38 -->
			<data type="Enumerated">
				<item code="0" name="IPv4 Address"/>
				<item code="1" name="IPv6 Address"/>
				<item code="2" name="URL"/>
				<item code="3" name="SIP URI"/>
			</data"#;

pub const DEFAULT_DICT_XML_8: &'static str = r#">
		</avp>

		<avp name="Redirect-Server" code="434" must="M" may="P" must-not="V" may-encrypt="Y">
			<!-- http://tools.ietf.org/html/rfc4006#section-8.37 -->
			<data type="Grouped">
				<rule avp="Redirect-Address-Type" required="true" max="1"/>
				<rule avp="Redirect-Server-Address" required="true" max="1"/>
			</data>
		</avp>

		<avp name="Redirect-Server-Address" code="435" must="M" may="P" must-not="V" may-encrypt="Y">
			<!-- http://tools.ietf.org/html/rfc4006#section-8.39 -->
			<data type="UTF8String"/>
		</avp>

		<avp name="Requested-Action" code="436" must="M" may="P" must-not="V" may-encrypt="Y">
			<!-- http://tools.ietf.org/html/rfc4006#section-8.41 -->
			<data type="Enumerated">
				<item code="0" name="DIRECT_DEBITING"/>
				<item code="1" name="REFUND_ACCOUNT"/>
				<item code="2" name="CHECK_BALANCE"/>
				<item code="3" name="PRICE_ENQUIRY"/>
			</data>
		</avp>

		<avp name="Requested-Service-Unit" code="437" must="M" may="P" must-not="V" may-encrypt="Y">
			<!-- http://tools.ietf.org/html/rfc4006#section-8.18-->
			<data type="Grouped">
				<rule avp="CC-Time" required="false" max="1"/>
				<rule avp="CC-Money" required="false" max="1"/>
				<rule avp="CC-Total-Octets" required="false" max="1"/>
				<rule avp="CC-Input-Octets" required="false" max="1"/>
				<rule avp="CC-Output-Octets" required="false" max="1"/>
				<rule avp="CC-Service-Specific-Units" required="false" max="1"/>
				<!-- *[ AVP ]-->
			</data>
		</avp>

		<avp name="Restriction-Filter-Rule" code="438" must="M" may="P" must-not="V" may-encrypt="Y">
			<!-- http://tools.ietf.org/html/rfc4006#section-8.36-->
			<data type="IPFilterRule"/>
		</avp>

		<avp name="Service-Context-Id" code="461" must="M" may="P" must-not="V" may-encrypt="Y">
			<!-- http://tools.ietf.org/html/rfc4006#section-8.42-->
			<data type="UTF8String"/>
		</avp>

		<avp name="Service-Identifier" code="439" must="M" may="P" must-not="V" may-encrypt="Y">
			<!-- http://tools.ietf.org/html/rfc4006#section-8.28-->
			<data type="Unsigned32"/>
		</avp>

		<avp name="Service-Parameter-Info" code="440" must="-" may="P,M" must-not="V" may-encrypt="Y">
			<!-- http://tools.ietf.org/html/rfc4006#section-8.43-->
			<data type="Grouped">
				<rule avp="Service-Parameter-Type" required="true" max="1"/>
				<rule avp="Service-Parameter-Value" required="true" max="1"/>
			</data>
		</avp>

		<avp name="Service-Parameter-Type" code="441" must="-" may="P,M" must-not="V" may-encrypt="Y">
			<!-- http://tools.ietf.org/html/rfc4006#section-8.44-->
			<data type="Unsigned32"/>
		</avp>

		<avp name="Service-Parameter-Value" code="442" must="-" may="P,M" must-not="V" may-encrypt="Y">
			<!-- http://tools.ietf.org/html/rfc4006#section-8.45-->
			<data type="OctetString"/>
		</avp>

		<avp name="Subscription-Id" code="443" must="M" may="P" must-not="V" may-encrypt="Y">
			<!-- http://tools.ietf.org/html/rfc4006#section-8.46-->
			<data type="Grouped">
				<rule avp="Subscription-Id-Type" required="true" max=""#;

pub const DEFAULT_DICT_XML_9: &'static str = r#"1"/>
				<rule avp="Subscription-Id-Data" required="true" max="1"/>
			</data>
		</avp>

		<avp name="Subscription-Id-Data" code="444" must="M" may="P" must-not="V" may-encrypt="Y">
			<!-- http://tools.ietf.org/html/rfc4006#section-8.48-->
			<data type="UTF8String"/>
		</avp>

		<avp name="Subscription-Id-Type" code="450" must="M" may="P" must-not="V" may-encrypt="Y">
			<!-- http://tools.ietf.org/html/rfc4006#section-8.47-->
			<data type="Enumerated">
				<item code="0" name="END_USER_E164"/>
				<item code="1" name="END_USER_IMSI"/>
				<item code="2" name="END_USER_SIP_URI"/>
				<item code="3" name="END_USER_NAI"/>
			</data>
		</avp>

		<avp name="Tariff-Change-Usage" code="452" must="M" may="P" must-not="V" may-encrypt="Y">
			<!-- http://tools.ietf.org/html/rfc4006#section-8.27-->
			<data type="Enumerated">
				<item code="0" name="UNIT_BEFORE_TARIFF_CHANGE"/>
				<item code="1" name="UNIT_AFTER_TARIFF_CHANGE"/>
				<item code="2" name="UNIT_INDETERMINATE"/>
			</data>
		</avp>

		<avp name="Tariff-Time-Change" code="451" must="M" may="P" must-not="V" may-encrypt="Y">
			<!-- http://tools.ietf.org/html/rfc4006#section-8.20-->
			<data type="Time"/>
		</avp>

		<avp name="Unit-Value" code="445" must="M" may="P" must-not="V" may-encrypt="Y">
			<!-- http://tools.ietf.org/html/rfc4006#section-8.8-->
			<data type="Grouped">
				<rule avp="Value-Digits" required="true" max="1"/>
				<rule avp="Exponent" required="true" max="1"/>
			</data>
		</avp>

		<avp name="Used-Service-Unit" code="446" must="M" may="P" must-not="V" may-encrypt="Y">
			<!-- http://tools.ietf.org/html/rfc4006#section-8.19-->
			<data type="Grouped">
				<rule avp="Tariff-Change-Usage" required="false" max="1"/>
				<rule avp="CC-Time" required="false" max="1"/>
				<rule avp="CC-Money" required="false" max="1"/>
				<rule avp="CC-Total-Octets" required="false" max="1"/>
				<rule avp="CC-Input-Octets" required="false" max="1"/>
				<rule avp="CC-Output-Octets" required="false" max="1"/>
				<rule avp="CC-Service-Specific-Units" required="false" max="1"/>
				<!-- *[ AVP ]-->
			</data>
		</avp>

		<avp name="User-Equipment-Info" code="458" must="-" may="P,M" must-not="V" may-encrypt="Y">
			<!-- http://tools.ietf.org/html/rfc4006#section-8.49-->
			<data type="Grouped">
				<rule avp="User-Equipment-Info-Type" required="true" max="1"/>
				<rule avp="User-Equipment-Info-Value" required="true" max="1"/>
			</data>
		</avp>

		<avp name="User-Equipment-Info-Type" code="459" must="-" may="P,M" must-not="V" may-encrypt="Y">
			<!-- http://tools.ietf.org/html/rfc4006#section-8.50-->
			<data type="Enumerated">
				<item code="0" name="IMEISV"/>
				<item code="1" name="MAC"/>
				<item code="2" name="EUI64"/>
				<item code="3" name="MODIFIED_EUI64"/>
			</data>
		</avp>

		<avp name="User-Equipment-Info-Value" code="460" must="-" may="P,M" must-not="V" may-encrypt="Y">
			<!-- http://tools.ietf.org/html/rfc4006#section-8.51-->
			<data type="OctetString"/>
		</avp>

		<avp"#;

pub const DEFAULT_DICT_XML_10: &'static str = r#" name="Value-Digits" code="447" must="M" may="P" must-not="V" may-encrypt="Y">
			<!-- http://tools.ietf.org/html/rfc4006#section-8.10-->
			<data type="Integer64"/>
		</avp>

		<avp name="Validity-Time" code="448" must="M" may="P" must-not="V" may-encrypt="Y">
			<!-- http://tools.ietf.org/html/rfc4006#section-8.33-->
			<data type="Unsigned32"/>
		</avp>

		<avp name="Timezone-Offset" code="571" vendor-id="10415" must="V" may-encrypt="Y">
			<data type="Integer32"/>
		</avp>
    </application>
</diameter>
    "#;

/// The bundled default dictionary: the RFC 6733 base AVPs plus the
/// common charging AVPs, as one XML source. Applications extend it by
/// passing further XML sources to `Dictionary::new`.
pub fn default_dict_xml() -> (r: String)
    ensures
        r@ == DEFAULT_DICT_XML_0@ + DEFAULT_DICT_XML_1@ + DEFAULT_DICT_XML_2@ + DEFAULT_DICT_XML_3@ + DEFAULT_DICT_XML_4@ + DEFAULT_DICT_XML_5@ + DEFAULT_DICT_XML_6@ + DEFAULT_DICT_XML_7@ + DEFAULT_DICT_XML_8@ + DEFAULT_DICT_XML_9@ + DEFAULT_DICT_XML_10@,
{
    let mut out = String::new();
    out.append(DEFAULT_DICT_XML_0);
    out.append(DEFAULT_DICT_XML_1);
    out.append(DEFAULT_DICT_XML_2);
    out.append(DEFAULT_DICT_XML_3);
    out.append(DEFAULT_DICT_XML_4);
    out.append(DEFAULT_DICT_XML_5);
    out.append(DEFAULT_DICT_XML_6);
    out.append(DEFAULT_DICT_XML_7);
    out.append(DEFAULT_DICT_XML_8);
    out.append(DEFAULT_DICT_XML_9);
    out.append(DEFAULT_DICT_XML_10);
    out
}

} // verus!
