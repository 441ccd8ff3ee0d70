//! Byte-level scanning primitives for the dictionary's XML sources:
//! substring search, attribute-value extraction, and numeral parsing.

use vstd::prelude::*;

use crate::error::Error;

verus! {

/// Whether `pat` occurs in `bytes` starting exactly at `i`.
pub open spec fn matches_at(bytes: Seq<u8>, pat: Seq<u8>, i: int) -> bool {
    &&& 0 <= i
    &&& i + pat.len() <= bytes.len()
    &&& bytes.subrange(i, i + pat.len()) == pat
}

/// The first position at or after `from` where `pat` occurs, if any.
pub open spec fn find_from(bytes: Seq<u8>, pat: Seq<u8>, from: int) -> Option<int>
    decreases bytes.len() - from + 1,
{
    if from < 0 || from + pat.len() > bytes.len() {
        None
    } else if matches_at(bytes, pat, from) {
        Some(from)
    } else {
        find_from(bytes, pat, from + 1)
    }
}

/// A found position is within bounds and at or after `from`.
pub proof fn lemma_find_from_bounds(bytes: Seq<u8>, pat: Seq<u8>, from: int)
    ensures
        find_from(bytes, pat, from) matches Some(i) ==> from <= i && i + pat.len() <= bytes.len()
            && matches_at(bytes, pat, i),
    decreases bytes.len() - from + 1,
{
    if !(from < 0 || from + pat.len() > bytes.len()) && !matches_at(bytes, pat, from) {
        lemma_find_from_bounds(bytes, pat, from + 1);
    }
}

/// Whether `pat` occurs at `i`, decided byte by byte.
pub fn match_at(bytes: &Vec<u8>, pat: &[u8], i: usize) -> (r: bool)
    ensures
        r == matches_at(bytes@, pat@, i as int),
{
    if i > bytes.len() || pat.len() > bytes.len() - i {
        proof {
            assert(!matches_at(bytes@, pat@, i as int));
        }
        return false;
    }
    let n = pat.len();
    let mut j: usize = 0;
    while j < n
        invariant
            0 <= j <= n,
            n == pat@.len(),
            i + n <= bytes@.len(),
            bytes@.len() <= usize::MAX,
            forall|k: int| 0 <= k < j ==> bytes@[i + k] == pat@[k],
        decreases n - j,
    {
        if bytes[i + j] != pat[j] {
            proof {
                assert(bytes@.subrange(i as int, i + pat@.len())[j as int] != pat@[j as int]);
            }
            return false;
        }
        j = j + 1;
    }
    proof {
        assert(bytes@.subrange(i as int, i + pat@.len()) =~= pat@);
    }
    true
}

/// The first occurrence of `pat` at or after `from`, scanning forward.
pub fn find(bytes: &Vec<u8>, pat: &[u8], from: usize) -> (r: Option<usize>)
    requires
        pat@.len() >= 1,
    ensures
        r matches Some(i) ==> Some(i as int) == find_from(bytes@, pat@, from as int),
        r is None ==> find_from(bytes@, pat@, from as int) is None,
    decreases bytes@.len() - from + 1,
{
    if from > bytes.len() || pat.len() > bytes.len() - from {
        return None;
    }
    if match_at(bytes, pat, from) {
        return Some(from);
    }
    find(bytes, pat, from + 1)
}

/// ASCII whitespace as it separates attributes in an XML tag.
pub open spec fn spec_is_space(b: u8) -> bool {
    b == 32 || b == 9 || b == 10 || b == 13
}

/// ASCII whitespace, executable form.
pub fn is_space(b: u8) -> (r: bool)
    ensures
        r == spec_is_space(b),
{
    b == 32 || b == 9 || b == 10 || b == 13
}

/// Whether the byte `b` occurs anywhere in `bytes[lo..hi]`.
pub open spec fn contains_byte(bytes: Seq<u8>, lo: int, hi: int, b: u8) -> bool {
    exists|j: int| lo <= j < hi && j < bytes.len() && bytes[j] == b
}

/// Scans `bytes[lo..hi]` for the byte `b`.
pub fn range_contains(bytes: &Vec<u8>, lo: usize, hi: usize, b: u8) -> (r: bool)
    requires
        lo <= hi,
    ensures
        r == contains_byte(bytes@, lo as int, hi as int, b),
{
    let top = if hi > bytes.len() {
        bytes.len()
    } else {
        hi
    };
    if lo >= top {
        proof {
            assert(!contains_byte(bytes@, lo as int, hi as int, b));
        }
        return false;
    }
    let mut j: usize = lo;
    while j < top
        invariant
            lo <= j <= top,
            top <= bytes@.len(),
            top <= hi,
            hi > bytes@.len() ==> top == bytes@.len(),
            forall|k: int| lo <= k < j ==> bytes@[k] != b,
        decreases top - j,
    {
        if bytes[j] == b {
            return true;
        }
        j = j + 1;
    }
    proof {
        assert(!contains_byte(bytes@, lo as int, hi as int, b));
    }
    false
}

/// Byte-sequence equality, decided element by element.
pub fn bytes_eq(a: &Vec<u8>, b: &[u8]) -> (r: bool)
    ensures
        r == (a@ == b@),
{
    if a.len() != b.len() {
        return false;
    }
    let n = a.len();
    let mut j: usize = 0;
    while j < n
        invariant
            0 <= j <= n,
            n == a@.len() == b@.len(),
            forall|k: int| 0 <= k < j ==> a@[k] == b@[k],
        decreases n - j,
    {
        if a[j] != b[j] {
            return false;
        }
        j = j + 1;
    }
    proof {
        assert(a@ =~= b@);
    }
    true
}

/// The copy of `bytes[lo..hi]`.
pub fn copy_range(bytes: &Vec<u8>, lo: usize, hi: usize) -> (r: Vec<u8>)
    requires
        lo <= hi <= bytes@.len(),
    ensures
        r@ == bytes@.subrange(lo as int, hi as int),
{
    let mut out: Vec<u8> = Vec::new();
    let mut j: usize = lo;
    while j < hi
        invariant
            lo <= j <= hi <= bytes@.len(),
            out@ == bytes@.subrange(lo as int, j as int),
        decreases hi - j,
    {
        out.push(bytes[j]);
        j = j + 1;
        proof {
            assert(out@ =~= bytes@.subrange(lo as int, j as int));
        }
    }
    out
}

/// The decimal numeral in `bytes` read into a 32-bit value: every byte
/// must be a digit, the numeral must be non-empty and must not overflow.
pub open spec fn parse_u32_rec(bytes: Seq<u8>, i: int, acc: u32) -> Option<u32>
    decreases bytes.len() - i,
{
    if i < 0 || i > bytes.len() {
        None
    } else if i == bytes.len() {
        Some(acc)
    } else if bytes[i] < 48 || bytes[i] > 57 {
        None
    } else if (acc as int) * 10 + (bytes[i] - 48) > u32::MAX {
        None
    } else {
        parse_u32_rec(bytes, i + 1, (acc * 10 + (bytes[i] - 48)) as u32)
    }
}

/// The value of a whole decimal numeral, if the bytes form one.
pub open spec fn spec_parse_u32(bytes: Seq<u8>) -> Option<u32> {
    if bytes.len() == 0 {
        None
    } else {
        parse_u32_rec(bytes, 0, 0)
    }
}

/// Reads a decimal numeral; fails on an empty slice, a non-digit byte
/// or a value that does not fit 32 bits.
pub fn parse_u32(bytes: &Vec<u8>) -> (r: Result<u32, Error>)
    ensures
        r is Ok <==> spec_parse_u32(bytes@) is Some,
        r matches Ok(v) ==> Some(v) == spec_parse_u32(bytes@),
        r is Err ==> r->Err_0 is DecodeError,
{
    let n = bytes.len();
    if n == 0 {
        return Err(Error::DecodeError("empty numeral".to_owned()));
    }
    let mut acc: u32 = 0;
    let mut i: usize = 0;
    while i < n
        invariant
            0 <= i <= n,
            n == bytes@.len(),
            n > 0,
            parse_u32_rec(bytes@, 0, 0) == parse_u32_rec(bytes@, i as int, acc),
        decreases n - i,
    {
        let b = bytes[i];
        if b < 48 || b > 57 {
            return Err(Error::DecodeError("invalid numeral".to_owned()));
        }
        let d = b - 48;
        if acc > (u32::MAX - d as u32) / 10 {
            proof {
                assert((acc as int) * 10 + d > u32::MAX) by (nonlinear_arith)
                    requires
                        acc > (u32::MAX - d as u32) / 10,
                        0 <= d <= 9,
                ;
            }
            return Err(Error::DecodeError("numeral too large".to_owned()));
        }
        proof {
            assert((acc as int) * 10 + d <= u32::MAX) by (nonlinear_arith)
                requires
                    acc <= (u32::MAX - d as u32) / 10,
                    0 <= d <= 9,
            ;
        }
        acc = acc * 10 + d as u32;
        i = i + 1;
    }
    Ok(acc)
}

} // verus!
