//! Text helpers: the trusted bridges between bytes, characters and
//! `String`, and verified decimal/hexadecimal renderings used by the
//! display code.

use vstd::prelude::*;

use vstd::string::StringExecFns;
use vstd::string::StrSliceExecFns;

use vstd::utf8::{decode_utf8, encode_utf8, valid_utf8};

verus! {

/// Relies on `String::from_utf8`: it succeeds exactly on valid UTF-8 and
/// returns the string those bytes encode; on failure the error's rendering
/// (handed back as the `Err` string) describes the first offending byte.
#[verifier::external_body]
pub fn string_from_utf8(bytes: Vec<u8>) -> (r: Result<String, String>)
    ensures
        r is Ok <==> valid_utf8(bytes@),
        r matches Ok(s) ==> s@ == decode_utf8(bytes@),
{
    match String::from_utf8(bytes) {
        Ok(s) => Ok(s),
        Err(e) => Err(e.to_string()),
    }
}

/// Relies on `String::push`: it appends exactly the one character.
#[verifier::external_body]
pub fn push_char(out: &mut String, c: char)
    ensures
        final(out)@ == old(out)@ + seq![c],
{
    out.push(c);
}

/// String equality by characters, decided by comparing the UTF-8 bytes;
/// two strings agree on their characters exactly when their encodings do.
pub fn str_eq(a: &str, b: &str) -> (r: bool)
    ensures
        r == (a@ == b@),
{
    let ab = a.as_bytes();
    let bb = b.as_bytes();
    proof {
        vstd::utf8::encode_utf8_decode_utf8(a@);
        vstd::utf8::encode_utf8_decode_utf8(b@);
    }
    if ab.len() != bb.len() {
        proof {
            assert(encode_utf8(a@) != encode_utf8(b@));
        }
        return false;
    }
    let n = ab.len();
    let mut i: usize = 0;
    while i < n
        invariant
            0 <= i <= n,
            n == ab@.len() == bb@.len(),
            ab@ == encode_utf8(a@),
            bb@ == encode_utf8(b@),
            forall|j: int| 0 <= j < i ==> ab@[j] == bb@[j],
        decreases n - i,
    {
        if ab[i] != bb[i] {
            proof {
                assert(encode_utf8(a@) != encode_utf8(b@));
            }
            return false;
        }
        i = i + 1;
    }
    proof {
        assert(ab@ =~= bb@);
        assert(decode_utf8(encode_utf8(a@)) == decode_utf8(encode_utf8(b@)));
    }
    true
}

/// The decimal digit character for a value below ten, by its ASCII code.
pub open spec fn digit_char(d: int) -> char {
    ((d + 0x30) as u8) as char
}

/// The decimal rendering of a natural number, most significant digit first.
pub open spec fn dec_u64(v: u64) -> Seq<char>
    decreases v,
{
    if v < 10 {
        seq![digit_char(v as int)]
    } else {
        dec_u64((v / 10) as u64) + seq![digit_char((v % 10) as int)]
    }
}

/// The decimal rendering of a signed value: a minus sign before the
/// rendering of the magnitude.
pub open spec fn dec_i64(v: i64) -> Seq<char> {
    if v >= 0 {
        dec_u64(v as u64)
    } else {
        seq!['-'] + dec_u64((-(v as int)) as u64)
    }
}

/// Appends the decimal rendering of `v` to `out`.
pub fn push_dec_u64(v: u64, out: &mut String)
    ensures
        final(out)@ == old(out)@ + dec_u64(v),
    decreases v,
{
    if v >= 10 {
        push_dec_u64(v / 10, out);
    }
    let d = (v % 10) as u8;
    let c = (d + 48) as char;
    push_char(out, c);
    proof {
        assert(c == digit_char((v % 10) as int));
        assert(final(out)@ =~= old(out)@ + dec_u64(v));
    }
}

/// Appends the decimal rendering of a signed value to `out`.
pub fn push_dec_i64(v: i64, out: &mut String)
    ensures
        final(out)@ == old(out)@ + dec_i64(v),
{
    if v >= 0 {
        push_dec_u64(v as u64, out);
    } else {
        push_char(out, '-');
        let m: u64 = if v == i64::MIN {
            0x8000000000000000u64
        } else {
            (-v) as u64
        };
        push_dec_u64(m, out);
        proof {
            assert(final(out)@ =~= old(out)@ + dec_i64(v));
        }
    }
}

/// The lower-case hexadecimal digit character for a value below sixteen.
pub open spec fn hex_char(d: int) -> char {
    if d < 10 {
        ((d + 0x30) as u8) as char
    } else {
        ((d + 0x57) as u8) as char
    }
}

/// Two lower-case hexadecimal digits for one byte.
pub open spec fn hex_byte(b: u8) -> Seq<char> {
    seq![hex_char((b / 16) as int), hex_char((b % 16) as int)]
}

/// Appends the two hexadecimal digits of `b` to `out`.
pub fn push_hex_byte(b: u8, out: &mut String)
    ensures
        final(out)@ == old(out)@ + hex_byte(b),
{
    let hi = b / 16;
    let lo = b % 16;
    let c0 = if hi < 10 {
        (hi + 48) as char
    } else {
        (hi + 87) as char
    };
    let c1 = if lo < 10 {
        (lo + 48) as char
    } else {
        (lo + 87) as char
    };
    push_char(out, c0);
    push_char(out, c1);
    proof {
        assert(c0 == hex_char((b / 16) as int));
        assert(c1 == hex_char((b % 16) as int));
        assert(final(out)@ =~= old(out)@ + hex_byte(b));
    }
}


/// A run of `n` spaces (none for a non-positive count).
pub open spec fn spaces(n: int) -> Seq<char> {
    Seq::new(
        if n < 0 {
            0
        } else {
            n as nat
        },
        |i: int| ' ',
    )
}

/// `s` padded with spaces on the left up to width `w`.
pub open spec fn pad_left_chars(s: Seq<char>, w: int) -> Seq<char> {
    spaces(w - s.len()) + s
}

/// `s` padded with spaces on the right up to width `w`.
pub open spec fn pad_right_chars(s: Seq<char>, w: int) -> Seq<char> {
    s + spaces(w - s.len())
}

/// Appends `n` spaces to `out`.
pub fn push_spaces(out: &mut String, n: usize)
    ensures
        final(out)@ == old(out)@ + spaces(n as int),
{
    let mut i: usize = 0;
    while i < n
        invariant
            0 <= i <= n,
            out@ == old(out)@ + spaces(i as int),
        decreases n - i,
    {
        push_char(out, ' ');
        i = i + 1;
        proof {
            assert(out@ =~= old(out)@ + spaces(i as int));
        }
    }
    proof {
        assert(out@ =~= old(out)@ + spaces(n as int));
    }
}

/// Appends `s` left-padded to width `w`.
pub fn push_pad_left(out: &mut String, s: &str, w: usize)
    ensures
        final(out)@ == old(out)@ + pad_left_chars(s@, w as int),
{
    let len = s.unicode_len();
    if len < w {
        push_spaces(out, w - len);
    } else {
        proof {
            assert(spaces(w - s@.len()) =~= Seq::<char>::empty());
        }
    }
    out.append(s);
    proof {
        assert(final(out)@ =~= old(out)@ + pad_left_chars(s@, w as int));
    }
}

/// Appends `s` right-padded to width `w`.
pub fn push_pad_right(out: &mut String, s: &str, w: usize)
    ensures
        final(out)@ == old(out)@ + pad_right_chars(s@, w as int),
{
    let len = s.unicode_len();
    out.append(s);
    if len < w {
        push_spaces(out, w - len);
    } else {
        proof {
            assert(spaces(w - s@.len()) =~= Seq::<char>::empty());
        }
    }
    proof {
        assert(final(out)@ =~= old(out)@ + pad_right_chars(s@, w as int));
    }
}

/// The lower-case hexadecimal rendering of a 16-bit value, most
/// significant digit first, without leading zeros.
pub open spec fn hex_u16(v: u16) -> Seq<char>
    decreases v,
{
    if v < 16 {
        seq![hex_char(v as int)]
    } else {
        hex_u16(v / 16) + seq![hex_char((v % 16) as int)]
    }
}

/// Appends the hexadecimal rendering of `v` to `out`.
pub fn push_hex_u16(v: u16, out: &mut String)
    ensures
        final(out)@ == old(out)@ + hex_u16(v),
    decreases v,
{
    if v >= 16 {
        push_hex_u16(v / 16, out);
    }
    let d = (v % 16) as u8;
    let c = if d < 10 {
        (d + 48) as char
    } else {
        (d + 87) as char
    };
    push_char(out, c);
    proof {
        assert(c == hex_char((v % 16) as int));
        assert(final(out)@ =~= old(out)@ + hex_u16(v));
    }
}


/// Hex pairs for a byte string, separated by single spaces.
pub open spec fn hex_bytes_spaced(b: Seq<u8>) -> Seq<char>
    decreases b.len(),
{
    if b.len() == 0 {
        Seq::<char>::empty()
    } else if b.len() == 1 {
        hex_byte(b[0])
    } else {
        hex_byte(b[0]) + seq![' '] + hex_bytes_spaced(b.drop_first())
    }
}

/// Appends the spaced hex rendering of `b[from..]` to `out`.
pub fn push_hex_bytes_spaced(b: &[u8], from: usize, out: &mut String)
    requires
        from <= b@.len(),
    ensures
        final(out)@ == old(out)@ + hex_bytes_spaced(b@.skip(from as int)),
    decreases b@.len() - from,
{
    if from >= b.len() {
        proof {
            assert(final(out)@ =~= old(out)@ + hex_bytes_spaced(b@.skip(from as int)));
        }
        return ;
    }
    push_hex_byte(b[from], out);
    if from + 1 < b.len() {
        push_char(out, ' ');
        push_hex_bytes_spaced(b, from + 1, out);
    }
    proof {
        assert(b@.skip(from as int)[0] == b@[from as int]);
        assert(b@.skip(from as int).drop_first() =~= b@.skip(from as int + 1));
        if from + 1 >= b@.len() {
            assert(b@.skip(from as int).len() == 1);
        }
        assert(final(out)@ =~= old(out)@ + hex_bytes_spaced(b@.skip(from as int)));
    }
}


/// The UTF-8 encoding of a string takes between one and four bytes per
/// character; callers use this to bound a string value's wire length.
pub proof fn lemma_encode_utf8_len(s: Seq<char>)
    ensures
        s.len() <= encode_utf8(s).len() <= 4 * s.len(),
    decreases s.len(),
{
    if s.len() > 0 {
        lemma_encode_utf8_len(s.drop_first());
    }
}

} // verus!
