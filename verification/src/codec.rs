//! The compact binary form in which values are kept on disk and sent over
//! the local socket.
//!
//! A number takes one byte where it is at most 250; a larger one takes a
//! marker byte (251, 252 or 253) and then two, four or eight bytes, lowest
//! first. A signed number is folded onto the unsigned ones first, so that
//! small negative numbers stay short. A text is its length in bytes and then
//! its UTF-8 bytes.
//!
//! This is the form that the `bincode` crate writes in its standard
//! configuration, so that files and messages of programs that use that crate
//! are read here, and what is written here is read by them. The form is
//! written out in this module, so that what is written is proved to be read
//! back.

use vstd::prelude::*;
use vstd::bytes::*;
use vstd::slice::*;
use vstd::utf8::*;

verus! {

/// The largest number that is written as a single byte.
pub const SINGLE_BYTE_MAX: u8 = 250;

/// The marker before a number of two bytes.
pub const U16_BYTE: u8 = 251;

/// The marker before a number of four bytes.
pub const U32_BYTE: u8 = 252;

/// The marker before a number of eight bytes.
pub const U64_BYTE: u8 = 253;

/// The bytes of the number `v`.
#[verifier::opaque]
pub open spec fn varint(v: u64) -> Seq<u8> {
    if v <= 250 {
        seq![v as u8]
    } else if v <= 0xFFFF {
        seq![251u8] + spec_u16_to_le_bytes(v as u16)
    } else if v <= 0xFFFF_FFFF {
        seq![252u8] + spec_u32_to_le_bytes(v as u32)
    } else {
        seq![253u8] + spec_u64_to_le_bytes(v)
    }
}

/// The number at the start of `b` and how many bytes it takes, if `b`
/// starts with a number. A number of eight bytes is read only where `wide`
/// is set. A number may stand in more bytes than it needs.
#[verifier::opaque]
pub open spec fn parse_varint(b: Seq<u8>, wide: bool) -> Option<(u64, nat)> {
    if b.len() == 0 {
        None
    } else if b[0] <= 250 {
        Some((b[0] as u64, 1nat))
    } else if b[0] == 251 {
        if b.len() >= 3 {
            Some((spec_u16_from_le_bytes(b.subrange(1, 3)) as u64, 3nat))
        } else {
            None
        }
    } else if b[0] == 252 {
        if b.len() >= 5 {
            Some((spec_u32_from_le_bytes(b.subrange(1, 5)) as u64, 5nat))
        } else {
            None
        }
    } else if b[0] == 253 && wide {
        if b.len() >= 9 {
            Some((spec_u64_from_le_bytes(b.subrange(1, 9)), 9nat))
        } else {
            None
        }
    } else {
        None
    }
}

/// A number that was written is read back, whatever follows it.
pub proof fn lemma_parse_varint(v: u64, wide: bool, rest: Seq<u8>)
    requires
        wide || v <= u32::MAX,
    ensures
        parse_varint(varint(v) + rest, wide) == Some((v, varint(v).len())),
        1 <= varint(v).len() <= 9,
{
    reveal(varint);
    reveal(parse_varint);
    lemma_auto_spec_u16_to_from_le_bytes();
    lemma_auto_spec_u32_to_from_le_bytes();
    lemma_auto_spec_u64_to_from_le_bytes();
    let b = varint(v) + rest;
    if v <= 250 {
    } else if v <= 0xFFFF {
        assert(b.subrange(1, 3) =~= spec_u16_to_le_bytes(v as u16));
    } else if v <= 0xFFFF_FFFF {
        assert(b.subrange(1, 5) =~= spec_u32_to_le_bytes(v as u32));
    } else {
        assert(b.subrange(1, 9) =~= spec_u64_to_le_bytes(v));
    }
}

/// What is read as a number lies within the bytes.
pub proof fn lemma_parse_varint_bound(b: Seq<u8>, wide: bool)
    ensures
        parse_varint(b, wide) matches Some((v, used)) ==> 1 <= used <= b.len() && (!wide ==> v
            <= u32::MAX),
{
    reveal(parse_varint);
}

/// The unsigned number onto which the signed number `v` is folded.
pub open spec fn zigzag(v: i64) -> u64 {
    if v < 0 {
        (-2 * v - 1) as u64
    } else {
        (2 * v) as u64
    }
}

/// The signed number that is folded onto `n`.
pub open spec fn unzigzag(n: u64) -> i64 {
    if n % 2 == 0 {
        (n / 2) as i64
    } else {
        (-(n / 2) - 1) as i64
    }
}

/// Folding and unfolding give the number back.
pub proof fn lemma_zigzag(v: i64)
    ensures
        unzigzag(zigzag(v)) == v,
{
}

/// The bytes of the text `s`.
#[verifier::opaque]
pub open spec fn text(s: Seq<char>) -> Seq<u8> {
    varint(encode_utf8(s).len() as u64) + encode_utf8(s)
}

/// The text at the start of `b` and how many bytes it takes, if `b` starts
/// with a text.
#[verifier::opaque]
pub open spec fn parse_text(b: Seq<u8>) -> Option<(Seq<char>, nat)> {
    match parse_varint(b, true) {
        None => None,
        Some((len, used)) => {
            if used + len <= b.len() && valid_utf8(b.subrange(used as int, (used + len) as int)) {
                Some((decode_utf8(b.subrange(used as int, (used + len) as int)), (used + len) as nat))
            } else {
                None
            }
        },
    }
}

/// A text that was written is read back, whatever follows it.
pub proof fn lemma_parse_text(s: Seq<char>, rest: Seq<u8>)
    requires
        encode_utf8(s).len() <= u64::MAX,
    ensures
        parse_text(text(s) + rest) == Some((s, text(s).len())),
{
    reveal(text);
    reveal(parse_text);
    let body = encode_utf8(s);
    let head = varint(body.len() as u64);
    let b = text(s) + rest;
    assert(b =~= head + (body + rest));
    lemma_parse_varint(body.len() as u64, true, body + rest);
    assert(b.subrange(head.len() as int, (head.len() + body.len()) as int) =~= body);
    encode_utf8_valid_utf8(s);
    encode_utf8_decode_utf8(s);
}

/// What is read as a text lies within the bytes.
pub proof fn lemma_parse_text_bound(b: Seq<u8>)
    ensures
        parse_text(b) matches Some((s, used)) ==> used <= b.len(),
{
    reveal(parse_text);
}

/// Appends the bytes of the number `v` to `out`.
pub fn put_varint(out: &mut Vec<u8>, v: u64)
    ensures
        final(out)@ == old(out)@ + varint(v),
{
    proof {
        reveal(varint);
    }
    if v <= 250 {
        out.push(v as u8);
        assert(final(out)@ =~= old(out)@ + varint(v));
    } else if v <= 0xFFFF {
        out.push(U16_BYTE);
        let tail = u16_to_le_bytes(v as u16);
        out.extend_from_slice(tail.as_slice());
        assert(final(out)@ =~= old(out)@ + varint(v));
    } else if v <= 0xFFFF_FFFF {
        out.push(U32_BYTE);
        let tail = u32_to_le_bytes(v as u32);
        out.extend_from_slice(tail.as_slice());
        assert(final(out)@ =~= old(out)@ + varint(v));
    } else {
        out.push(U64_BYTE);
        let tail = u64_to_le_bytes(v);
        out.extend_from_slice(tail.as_slice());
        assert(final(out)@ =~= old(out)@ + varint(v));
    }
}

/// Appends the bytes of the signed number `v` to `out`.
pub fn put_signed(out: &mut Vec<u8>, v: i64)
    ensures
        final(out)@ == old(out)@ + varint(zigzag(v)),
{
    let folded: u64 = if v < 0 {
        ((-(v + 1)) as u64) * 2 + 1
    } else {
        (v as u64) * 2
    };
    put_varint(out, folded);
}

/// Appends the bytes of the text `s` to `out`.
pub fn put_text(out: &mut Vec<u8>, s: &str)
    ensures
        final(out)@ == old(out)@ + text(s@),
        encode_utf8(s@).len() <= u64::MAX,
{
    proof {
        reveal(text);
    }
    let body = s.as_bytes();
    put_varint(out, body.len() as u64);
    out.extend_from_slice(body);
    assert(final(out)@ =~= old(out)@ + text(s@));
}

/// Reads the number that starts at `pos`, and says where what follows it
/// starts.
pub fn take_varint(b: &[u8], pos: usize, wide: bool) -> (r: Option<(u64, usize)>)
    requires
        pos <= b@.len(),
    ensures
        match parse_varint(b@.skip(pos as int), wide) {
            None => r is None,
            Some((v, used)) => r matches Some((got, next)) && got == v && next == pos + used
                && next <= b@.len(),
        },
{
    proof {
        reveal(parse_varint);
    }
    let n = b.len();
    let ghost tail = b@.skip(pos as int);
    if pos >= n {
        return None;
    }
    let first = b[pos];
    assert(tail[0] == first);
    let left = n - pos;
    if first <= SINGLE_BYTE_MAX {
        Some((first as u64, pos + 1))
    } else if first == U16_BYTE {
        if left >= 3 {
            let raw = slice_subrange(b, pos + 1, pos + 3);
            assert(raw@ =~= tail.subrange(1, 3));
            Some((u16_from_le_bytes(raw) as u64, pos + 3))
        } else {
            None
        }
    } else if first == U32_BYTE {
        if left >= 5 {
            let raw = slice_subrange(b, pos + 1, pos + 5);
            assert(raw@ =~= tail.subrange(1, 5));
            Some((u32_from_le_bytes(raw) as u64, pos + 5))
        } else {
            None
        }
    } else if first == U64_BYTE && wide {
        if left >= 9 {
            let raw = slice_subrange(b, pos + 1, pos + 9);
            assert(raw@ =~= tail.subrange(1, 9));
            Some((u64_from_le_bytes(raw), pos + 9))
        } else {
            None
        }
    } else {
        None
    }
}

/// Reads the signed number that starts at `pos`.
pub fn take_signed(b: &[u8], pos: usize) -> (r: Option<(i64, usize)>)
    requires
        pos <= b@.len(),
    ensures
        match parse_varint(b@.skip(pos as int), true) {
            None => r is None,
            Some((v, used)) => r matches Some((got, next)) && got == unzigzag(v) && next == pos
                + used && next <= b@.len(),
        },
{
    match take_varint(b, pos, true) {
        None => None,
        Some((n, next)) => {
            let v: i64 = if n % 2 == 0 {
                (n / 2) as i64
            } else {
                -((n / 2) as i64) - 1
            };
            Some((v, next))
        },
    }
}

/// The text that `bytes` hold in UTF-8, if they hold one.
///
/// Trusted: this is `String::from_utf8` of the standard library, which
/// succeeds exactly on well-formed UTF-8 and then yields the characters that
/// the bytes encode.
#[verifier::external_body]
fn string_from_utf8(bytes: Vec<u8>) -> (r: Option<String>)
    ensures
        r is Some <==> valid_utf8(bytes@),
        r matches Some(s) ==> s@ == decode_utf8(bytes@),
{
    String::from_utf8(bytes).ok()
}

/// Reads the text that starts at `pos`.
pub fn take_text(b: &[u8], pos: usize) -> (r: Option<(String, usize)>)
    requires
        pos <= b@.len(),
    ensures
        match parse_text(b@.skip(pos as int)) {
            None => r is None,
            Some((s, used)) => r matches Some((got, next)) && got@ == s && next == pos + used
                && next <= b@.len(),
        },
{
    proof {
        reveal(parse_text);
    }
    let ghost tail = b@.skip(pos as int);
    match take_varint(b, pos, true) {
        None => None,
        Some((len, start)) => {
            let left = b.len() - start;
            if len > left as u64 {
                return None;
            }
            let end = start + len as usize;
            let raw = slice_subrange(b, start, end);
            assert(raw@ =~= tail.subrange(start - pos, start - pos + len));
            match string_from_utf8(slice_to_vec(raw)) {
                None => None,
                Some(s) => Some((s, end)),
            }
        },
    }
}

/// Without the bytes that stand before it, what follows them is left.
pub proof fn lemma_skip_prefix(first: Seq<u8>, rest: Seq<u8>)
    ensures
        (first + rest).skip(first.len() as int) == rest,
{
    assert((first + rest).skip(first.len() as int) =~= rest);
}

} // verus!
