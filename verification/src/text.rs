//! Small verified helpers on text: comparing, joining, searching and
//! converting between strings and numbers.

use vstd::prelude::*;
use vstd::std_specs::iter::IteratorSpec;
use vstd::string::StringExecFns;
use vstd::string::StringSliceAdditionalSpecFns;
use vstd::string::StrSliceExecFns;
use vstd::utf8::encode_utf8;
use vstd::utf8::encode_utf8_decode_utf8;
use crate::wire::plain_list;

verus! {

/// The characters of `s`, in order.
pub fn chars_of(s: &str) -> (v: Vec<char>)
    ensures
        v@ == s@,
{
    let mut v: Vec<char> = Vec::new();
    let mut it = s.chars();
    for c in iter: it
        invariant
            v@ == iter.seq().take(iter.index()),
    {
        v.push(c);
    }
    v
}

/// Two texts with the same UTF-8 bytes hold the same characters.
pub proof fn lemma_same_bytes_same_text(a: Seq<char>, b: Seq<char>)
    requires
        encode_utf8(a) == encode_utf8(b),
    ensures
        a == b,
{
    encode_utf8_decode_utf8(a);
    encode_utf8_decode_utf8(b);
}

/// Whether `a` and `b` hold the same characters.
pub fn str_equal(a: &str, b: &str) -> (r: bool)
    ensures
        r == (a@ == b@),
{
    let x = a.as_bytes();
    let y = b.as_bytes();
    if x.len() != y.len() {
        return false;
    }
    let n = x.len();
    let mut i: usize = 0;
    while i < n
        invariant
            i <= n,
            n == x@.len(),
            n == y@.len(),
            x@ == a.spec_bytes(),
            y@ == b.spec_bytes(),
            forall|j: int| 0 <= j < i ==> x@[j] == y@[j],
        decreases n - i,
    {
        if x[i] != y[i] {
            return false;
        }
        i = i + 1;
    }
    proof {
        assert(x@ =~= y@);
        lemma_same_bytes_same_text(a@, b@);
    }
    true
}

/// `a` followed by `b`.
pub fn concat2(a: &str, b: &str) -> (r: String)
    ensures
        r@ == a@ + b@,
{
    let mut r = String::from_str(a);
    r.append(b);
    r
}

/// `a`, `b` and `c` in a row.
pub fn concat3(a: &str, b: &str, c: &str) -> (r: String)
    ensures
        r@ == a@ + b@ + c@,
{
    let mut r = String::from_str(a);
    r.append(b);
    r.append(c);
    r
}

/// Whether `prefix` stands at the start of `s`.
pub open spec fn is_prefix(prefix: Seq<char>, s: Seq<char>) -> bool {
    prefix.len() <= s.len() && s.take(prefix.len() as int) == prefix
}

/// Whether `needle` stands in `s` at position `at`.
pub open spec fn occurs_at(needle: Seq<char>, s: Seq<char>, at: int) -> bool {
    0 <= at && at + needle.len() <= s.len() && s.subrange(at, at + needle.len()) == needle
}

/// Whether `needle` stands somewhere in `s`.
pub open spec fn occurs_in(needle: Seq<char>, s: Seq<char>) -> bool {
    exists|at: int| occurs_at(needle, s, at)
}

/// Whether `needle` stands in `s` at position `at`.
pub fn matches_at(needle: &[char], s: &[char], at: usize) -> (r: bool)
    ensures
        r == occurs_at(needle@, s@, at as int),
{
    let m = needle.len();
    let n = s.len();
    if at > n || m > n - at {
        return false;
    }
    let mut j: usize = 0;
    while j < m
        invariant
            j <= m,
            m == needle@.len(),
            n == s@.len(),
            at + m <= n,
            forall|k: int| 0 <= k < j ==> s@[at + k] == needle@[k],
        decreases m - j,
    {
        if s[at + j] != needle[j] {
            proof {
                let sub = s@.subrange(at as int, at + m);
                assert(sub[j as int] == s@[at + j]);
            }
            return false;
        }
        j = j + 1;
    }
    proof {
        assert(s@.subrange(at as int, at + m) =~= needle@);
    }
    true
}

/// Whether `s` starts with `prefix`.
pub fn starts_with(s: &[char], prefix: &[char]) -> (r: bool)
    ensures
        r == is_prefix(prefix@, s@),
{
    let r = matches_at(prefix, s, 0);
    proof {
        if prefix@.len() <= s@.len() {
            assert(s@.take(prefix@.len() as int) =~= s@.subrange(0, prefix@.len() as int));
        }
    }
    r
}

/// Whether `needle` stands somewhere in `s`.
pub fn contains(s: &[char], needle: &[char]) -> (r: bool)
    ensures
        r == occurs_in(needle@, s@),
{
    let n = s.len();
    let mut at: usize = 0;
    while at < n
        invariant
            at <= n,
            n == s@.len(),
            forall|k: int| 0 <= k < at ==> !occurs_at(needle@, s@, k),
        decreases n - at,
    {
        if matches_at(needle, s, at) {
            return true;
        }
        at = at + 1;
    }
    matches_at(needle, s, n)
}

/// The decimal digit that stands for `d`.
pub open spec fn digit_char(d: nat) -> char {
    if d == 0 {
        '0'
    } else if d == 1 {
        '1'
    } else if d == 2 {
        '2'
    } else if d == 3 {
        '3'
    } else if d == 4 {
        '4'
    } else if d == 5 {
        '5'
    } else if d == 6 {
        '6'
    } else if d == 7 {
        '7'
    } else if d == 8 {
        '8'
    } else {
        '9'
    }
}

/// `n` written in decimal digits, without leading zeros.
pub open spec fn decimal(n: nat) -> Seq<char>
    decreases n,
{
    if n < 10 {
        seq![digit_char(n)]
    } else {
        decimal(n / 10).push(digit_char(n % 10))
    }
}

fn digit_str(d: u64) -> (r: &'static str)
    requires
        d < 10,
    ensures
        r@ == seq![digit_char(d as nat)],
{
    proof {
        reveal_strlit("0");
        reveal_strlit("1");
        reveal_strlit("2");
        reveal_strlit("3");
        reveal_strlit("4");
        reveal_strlit("5");
        reveal_strlit("6");
        reveal_strlit("7");
        reveal_strlit("8");
        reveal_strlit("9");
    }
    let r = if d == 0 {
        "0"
    } else if d == 1 {
        "1"
    } else if d == 2 {
        "2"
    } else if d == 3 {
        "3"
    } else if d == 4 {
        "4"
    } else if d == 5 {
        "5"
    } else if d == 6 {
        "6"
    } else if d == 7 {
        "7"
    } else if d == 8 {
        "8"
    } else {
        "9"
    };
    assert(r@ =~= seq![digit_char(d as nat)]);
    r
}

/// Appends `n` in decimal digits to `out`.
pub fn push_decimal(out: &mut String, n: u64)
    ensures
        final(out)@ == old(out)@ + decimal(n as nat),
    decreases n,
{
    if n >= 10 {
        push_decimal(out, n / 10);
    }
    out.append(digit_str(n % 10));
    proof {
        if n >= 10 {
            assert(old(out)@ + decimal((n / 10) as nat) + seq![digit_char((n % 10) as nat)]
                =~= old(out)@ + decimal(n as nat));
        }
    }
}

/// `n` in decimal digits.
pub fn decimal_string(n: u64) -> (r: String)
    ensures
        r@ == decimal(n as nat),
{
    let mut r = String::new();
    push_decimal(&mut r, n);
    assert(Seq::<char>::empty() + decimal(n as nat) =~= decimal(n as nat));
    r
}

/// The path `name` below the directory `base`, as the file system joins
/// them: a `name` that starts at the root stands for itself, and a slash is
/// put between the two only where `base` does not end in one.
pub open spec fn joined(base: Seq<char>, name: Seq<char>) -> Seq<char> {
    if name.len() > 0 && name[0] == '/' {
        name
    } else if base.len() == 0 || base.last() == '/' {
        base + name
    } else {
        base + seq!['/'] + name
    }
}

/// The path `name` below the directory `base`.
pub fn join_path(base: &str, name: &str) -> (r: String)
    ensures
        r@ == joined(base@, name@),
{
    let n = chars_of(name);
    if n.len() > 0 && n[0] == '/' {
        return String::from_str(name);
    }
    let b = chars_of(base);
    if b.len() == 0 || b[b.len() - 1] == '/' {
        concat2(base, name)
    } else {
        proof {
            reveal_strlit("/");
            assert("/"@ =~= seq!['/']);
        }
        concat3(base, "/", name)
    }
}

/// Whether a line starts at position `p` of `text`: at the very start, and
/// behind each line feed.
pub open spec fn is_line_start(text: Seq<char>, p: int) -> bool {
    p == 0 || (0 < p <= text.len() && text[p - 1] == '\n')
}

/// Whether some line of `text` starts with `prefix`. A line is what stands
/// between two line feeds, so a `prefix` that holds a line feed starts no
/// line.
pub open spec fn some_line_starts_with(text: Seq<char>, prefix: Seq<char>) -> bool {
    !prefix.contains('\n') && exists|p: int|
        is_line_start(text, p) && #[trigger] occurs_at(prefix, text, p)
}

/// Whether `s` holds the character `c`.
pub fn has_char(s: &[char], c: char) -> (r: bool)
    ensures
        r == s@.contains(c),
{
    let n = s.len();
    let mut i: usize = 0;
    while i < n
        invariant
            i <= n,
            n == s@.len(),
            forall|k: int| 0 <= k < i ==> s@[k] != c,
        decreases n - i,
    {
        if s[i] == c {
            return true;
        }
        i = i + 1;
    }
    false
}

/// Whether some line of `text` starts with `prefix`.
pub fn line_starts_with(text: &[char], prefix: &[char]) -> (r: bool)
    ensures
        r == some_line_starts_with(text@, prefix@),
{
    if has_char(prefix, '\n') {
        return false;
    }
    let n = text.len();
    let mut p: usize = 0;
    while p < n
        invariant
            p <= n,
            n == text@.len(),
            !prefix@.contains('\n'),
            forall|k: int|
                0 <= k < p ==> !(is_line_start(text@, k) && #[trigger] occurs_at(
                    prefix@,
                    text@,
                    k,
                )),
        decreases n - p,
    {
        if (p == 0 || text[p - 1] == '\n') && matches_at(prefix, text, p) {
            return true;
        }
        p = p + 1;
    }
    let last = (n == 0 || text[n - 1] == '\n') && matches_at(prefix, text, n);
    proof {
        if !last {
            assert forall|k: int| !(is_line_start(text@, k) && #[trigger] occurs_at(
                prefix@,
                text@,
                k,
            )) by {
                if k > n {
                    assert(!occurs_at(prefix@, text@, k));
                }
            }
        }
    }
    last
}

/// `s` with its letters in lower case, as the standard library turns them.
pub uninterp spec fn lowercase(s: Seq<char>) -> Seq<char>;

/// `s` with its letters in lower case.
///
/// Trusted: this is `str::to_lowercase` of the standard library, which
/// follows the Unicode rules for lower case. The result is given the name
/// [`lowercase`]; nothing more is said of it.
#[verifier::external_body]
pub(crate) fn to_lowercase(s: &str) -> (r: String)
    ensures
        r@ == lowercase(s@),
{
    s.to_lowercase()
}

/// The pieces of `s` between the separators `sep`, in order. A text with
/// `n` separators has `n + 1` pieces, empty ones among them where two
/// separators meet or one stands at either end.
pub open spec fn split_on(s: Seq<char>, sep: char) -> Seq<Seq<char>>
    decreases s.len(),
{
    if s.len() == 0 {
        seq![Seq::<char>::empty()]
    } else {
        let front = split_on(s.drop_last(), sep);
        if s.last() == sep {
            front.push(Seq::<char>::empty())
        } else {
            front.update(front.len() - 1, front.last().push(s.last()))
        }
    }
}

/// The pieces of `s` between the separators `sep`, in order.
pub fn split(s: &str, sep: char) -> (r: Vec<String>)
    ensures
        plain_list(r@) == split_on(s@, sep),
        r@.len() >= 1,
{
    let chars = chars_of(s);
    let n = chars.len();
    let mut pieces: Vec<String> = Vec::new();
    let mut start: usize = 0;
    let mut i: usize = 0;
    proof {
        assert(s@.take(0) =~= Seq::<char>::empty());
        assert(plain_list(pieces@).push(s@.subrange(0, 0)) =~= split_on(s@.take(0), sep));
    }
    while i < n
        invariant
            start <= i <= n,
            n == s@.len(),
            chars@ == s@,
            plain_list(pieces@).push(s@.subrange(start as int, i as int)) == split_on(
                s@.take(i as int),
                sep,
            ),
        decreases n - i,
    {
        let ghost before = plain_list(pieces@);
        let ghost piece = s@.subrange(start as int, i as int);
        proof {
            assert(s@.take(i + 1).drop_last() =~= s@.take(i as int));
            assert(s@.take(i + 1).last() == s@[i as int]);
        }
        if chars[i] == sep {
            pieces.push(String::from_str(s.substring_char(start, i)));
            start = i + 1;
            proof {
                assert(plain_list(pieces@) =~= before.push(piece));
                assert(s@.subrange(start as int, i + 1) =~= Seq::<char>::empty());
            }
        } else {
            proof {
                let front = before.push(piece);
                assert(front.last() == piece);
                assert(s@.subrange(start as int, i + 1) =~= piece.push(s@[i as int]));
                assert(front.update(front.len() - 1, piece.push(s@[i as int])) =~= before.push(
                    s@.subrange(start as int, i + 1),
                ));
            }
        }
        i = i + 1;
    }
    let ghost before = plain_list(pieces@);
    pieces.push(String::from_str(s.substring_char(start, n)));
    proof {
        assert(s@.take(n as int) =~= s@);
        assert(plain_list(pieces@) =~= before.push(s@.subrange(start as int, n as int)));
    }
    pieces
}

/// Whether `c` is a decimal digit.
pub open spec fn is_digit(c: char) -> bool {
    '0' <= c && c <= '9'
}

/// The number that the digit `c` stands for.
pub open spec fn digit_value(c: char) -> nat {
    (c as u32 - '0' as u32) as nat
}

/// The number that the digits `s` stand for.
pub open spec fn digits_value(s: Seq<char>) -> nat
    decreases s.len(),
{
    if s.len() == 0 {
        0
    } else {
        digits_value(s.drop_last()) * 10 + digit_value(s.last())
    }
}

/// Whether `s` holds digits only.
pub open spec fn all_digits(s: Seq<char>) -> bool {
    forall|i: int| 0 <= i < s.len() ==> is_digit(#[trigger] s[i])
}

/// The number that `s` stands for, if it stands for one that fits in 32
/// bits: one digit or more, with a plus sign before them or without.
pub open spec fn parse_u32_spec(s: Seq<char>) -> Option<u32> {
    let digits = if s.len() > 0 && s[0] == '+' {
        s.drop_first()
    } else {
        s
    };
    if digits.len() > 0 && all_digits(digits) && digits_value(digits) <= u32::MAX {
        Some(digits_value(digits) as u32)
    } else {
        None
    }
}

/// More digits do not stand for a smaller number.
pub proof fn lemma_digits_value_grows(s: Seq<char>, i: int)
    requires
        0 <= i <= s.len(),
    ensures
        digits_value(s.take(i)) <= digits_value(s),
    decreases s.len() - i,
{
    if i < s.len() {
        lemma_digits_value_grows(s, i + 1);
        assert(s.take(i + 1).drop_last() =~= s.take(i));
        assert(digits_value(s.take(i + 1)) == digits_value(s.take(i)) * 10 + digit_value(s[i]));
    } else {
        assert(s.take(i) =~= s);
    }
}

/// The number that `s` stands for, if it stands for one that fits in 32
/// bits.
pub fn parse_u32(s: &[char]) -> (r: Option<u32>)
    ensures
        r == parse_u32_spec(s@),
{
    let n = s.len();
    let from: usize = if n > 0 && s[0] == '+' {
        1
    } else {
        0
    };
    let ghost digits = if from == 1 {
        s@.drop_first()
    } else {
        s@
    };
    assert(digits =~= s@.subrange(from as int, n as int));
    if from == n {
        return None;
    }
    let mut acc: u64 = 0;
    let mut i: usize = from;
    proof {
        assert(digits.take(0) =~= Seq::<char>::empty());
    }
    while i < n
        invariant
            from <= i <= n,
            from < n,
            n == s@.len(),
            from == (if s@.len() > 0 && s@[0] == '+' {
                1int
            } else {
                0int
            }),
            digits == (if from == 1 {
                s@.drop_first()
            } else {
                s@
            }),
            digits == s@.subrange(from as int, n as int),
            all_digits(digits.take(i - from)),
            acc == digits_value(digits.take(i - from)),
            acc <= u32::MAX,
        decreases n - i,
    {
        let c = s[i];
        proof {
            assert(digits[i - from] == c);
            assert(digits.take(i - from + 1).drop_last() =~= digits.take(i - from));
            assert(digits.take(i - from + 1).last() == c);
        }
        if !('0' <= c && c <= '9') {
            proof {
                assert(!is_digit(digits[i - from]));
            }
            return None;
        }
        let d: u64 = (c as u32 - '0' as u32) as u64;
        acc = acc * 10 + d;
        assert(acc == digits_value(digits.take(i - from + 1)));
        if acc > u32::MAX as u64 {
            proof {
                lemma_digits_value_grows(digits, i - from + 1);
            }
            return None;
        }
        proof {
            assert forall|k: int| 0 <= k < i - from + 1 implies is_digit(
                #[trigger] digits.take(i - from + 1)[k],
            ) by {
                if k < i - from {
                    assert(digits.take(i - from)[k] == digits.take(i - from + 1)[k]);
                }
            }
        }
        i = i + 1;
    }
    proof {
        assert(digits.take(n - from) =~= digits);
    }
    Some(acc as u32)
}

/// `p` without the carriage return at its end, if it ends in one.
pub open spec fn strip_cr(p: Seq<char>) -> Seq<char> {
    if p.len() > 0 && p.last() == '\r' {
        p.drop_last()
    } else {
        p
    }
}

/// The lines of `s`. A line ends in a line feed, or in a carriage return
/// and a line feed, neither of which belongs to the line; the last line
/// may end with the text. A text that ends in a line feed has no line after
/// it.
pub open spec fn lines_of(s: Seq<char>) -> Seq<Seq<char>> {
    let pieces = split_on(s, '\n');
    let n = pieces.len();
    Seq::new(
        if pieces.last().len() == 0 {
            (n - 1) as nat
        } else {
            n
        },
        |i: int|
            if i < n - 1 {
                strip_cr(pieces[i])
            } else {
                pieces[i]
            },
    )
}

/// The lines of `s`.
pub fn lines(s: &str) -> (r: Vec<String>)
    ensures
        plain_list(r@) == lines_of(s@),
{
    let mut pieces = split(s, '\n');
    let ghost all = plain_list(pieces@);
    let n = pieces.len();
    let mut out: Vec<String> = Vec::new();
    let mut i: usize = 0;
    while i < n - 1
        invariant
            i <= n - 1,
            n == pieces@.len(),
            n >= 1,
            all == plain_list(pieces@),
            plain_list(out@) == Seq::new(i as nat, |k: int| strip_cr(all[k])),
        decreases n - 1 - i,
    {
        let ghost before = plain_list(out@);
        let piece = chars_of(pieces[i].as_str());
        let m = piece.len();
        if m > 0 && piece[m - 1] == '\r' {
            out.push(String::from_str(pieces[i].as_str().substring_char(0, m - 1)));
            proof {
                assert(all[i as int] == pieces@[i as int]@);
                assert(all[i as int].subrange(0, m - 1) =~= strip_cr(all[i as int]));
            }
        } else {
            out.push(pieces[i].clone());
            proof {
                assert(all[i as int] == pieces@[i as int]@);
            }
        }
        proof {
            assert(plain_list(out@) =~= before.push(strip_cr(all[i as int])));
            assert(plain_list(out@) =~= Seq::new((i + 1) as nat, |k: int| strip_cr(all[k])));
        }
        i = i + 1;
    }
    let last = pieces.pop().unwrap();
    proof {
        assert(all.last() == last@);
        assert(plain_list(pieces@) =~= all.take(n - 1));
    }
    if !last.as_str().is_empty() {
        let ghost before = plain_list(out@);
        out.push(last);
        proof {
            assert(plain_list(out@) =~= before.push(all.last()));
            assert(plain_list(out@) =~= lines_of(s@));
        }
    } else {
        proof {
            assert(plain_list(out@) =~= lines_of(s@));
        }
    }
    out
}

} // verus!
