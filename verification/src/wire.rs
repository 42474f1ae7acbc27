//! Values that have a binary form, and lists of them. A list is the number
//! of its values and then the values, one after the other.

use vstd::prelude::*;
use vstd::utf8::encode_utf8;
use crate::codec::lemma_parse_text;
use crate::codec::lemma_parse_text_bound;
use crate::codec::lemma_parse_varint;
use crate::codec::lemma_skip_prefix;
use crate::codec::parse_text;
use crate::codec::parse_varint;
use crate::codec::put_text;
use crate::codec::put_varint;
use crate::codec::take_text;
use crate::codec::take_varint;
use crate::codec::text;
use crate::codec::varint;

verus! {

/// A type whose values can be written as bytes and read back.
pub trait Wire: Sized {
    /// The value as plain data.
    type Plain;

    /// The plain data of a value.
    spec fn plain(&self) -> Self::Plain;

    /// Whether a value can be written: its lengths fit the numbers that
    /// stand before them. This holds of every value in memory.
    spec fn fits(v: Self::Plain) -> bool;

    /// The bytes of a value.
    spec fn wire(v: Self::Plain) -> Seq<u8>;

    /// The value at the start of `b` and how many bytes it takes, if `b`
    /// starts with a value.
    spec fn parse(b: Seq<u8>) -> Option<(Self::Plain, nat)>;

    /// A value that was written is read back, whatever follows it.
    proof fn lemma_round_trip(v: Self::Plain, rest: Seq<u8>)
        requires
            Self::fits(v),
        ensures
            Self::parse(Self::wire(v) + rest) == Some((v, Self::wire(v).len())),
    ;

    /// What is read lies within the bytes.
    proof fn lemma_parse_bound(b: Seq<u8>)
        ensures
            Self::parse(b) matches Some((v, used)) ==> used <= b.len(),
    ;

    /// Appends the bytes of the value to `out`.
    fn put(&self, out: &mut Vec<u8>)
        ensures
            final(out)@ == old(out)@ + Self::wire(self.plain()),
            Self::fits(self.plain()),
    ;

    /// Reads the value that starts at `pos`, and says where what follows
    /// it starts.
    fn take(b: &[u8], pos: usize) -> (r: Option<(Self, usize)>)
        requires
            pos <= b@.len(),
        ensures
            match Self::parse(b@.skip(pos as int)) {
                None => r is None,
                Some((v, used)) => r matches Some((got, next)) && got.plain() == v && next == pos
                    + used && next <= b@.len(),
            },
    ;
}

/// The plain data of the values of `l`.
pub open spec fn plain_list<T: Wire>(l: Seq<T>) -> Seq<T::Plain> {
    Seq::new(l.len(), |i: int| l[i].plain())
}

/// Whether every value of `l` can be written, and their number too.
pub open spec fn list_fits<T: Wire>(l: Seq<T::Plain>) -> bool {
    &&& l.len() <= u64::MAX
    &&& forall|i: int| 0 <= i < l.len() ==> T::fits(#[trigger] l[i])
}

/// The bytes of the values `l`, one after the other.
pub open spec fn items<T: Wire>(l: Seq<T::Plain>) -> Seq<u8>
    decreases l.len(),
{
    if l.len() == 0 {
        Seq::<u8>::empty()
    } else {
        items::<T>(l.drop_last()) + T::wire(l.last())
    }
}

/// The bytes of the list `l`: the number of its values, then the values.
pub open spec fn list<T: Wire>(l: Seq<T::Plain>) -> Seq<u8> {
    varint(l.len() as u64) + items::<T>(l)
}

/// The first `n` values at the start of `b` and how many bytes they take,
/// if `b` starts with `n` values.
pub open spec fn parse_items<T: Wire>(b: Seq<u8>, n: nat) -> Option<(Seq<T::Plain>, nat)>
    decreases n,
{
    if n == 0 {
        Some((Seq::<T::Plain>::empty(), 0nat))
    } else {
        match parse_items::<T>(b, (n - 1) as nat) {
            None => None,
            Some((front, used)) => {
                if used > b.len() {
                    None
                } else {
                    match T::parse(b.skip(used as int)) {
                        None => None,
                        Some((item, more)) => Some((front.push(item), used + more)),
                    }
                }
            },
        }
    }
}

/// The list at the start of `b` and how many bytes it takes, if `b` starts
/// with a list.
pub open spec fn parse_list<T: Wire>(b: Seq<u8>) -> Option<(Seq<T::Plain>, nat)> {
    match parse_varint(b, true) {
        None => None,
        Some((n, used)) => match parse_items::<T>(b.skip(used as int), n as nat) {
            None => None,
            Some((l, more)) => Some((l, used + more)),
        },
    }
}

/// Values that were written are read back, whatever follows them.
pub proof fn lemma_parse_items<T: Wire>(l: Seq<T::Plain>, rest: Seq<u8>)
    requires
        list_fits::<T>(l),
    ensures
        parse_items::<T>(items::<T>(l) + rest, l.len()) == Some((l, items::<T>(l).len())),
    decreases l.len(),
{
    if l.len() == 0 {
        assert(l =~= Seq::<T::Plain>::empty());
    } else {
        let front = l.drop_last();
        let b = items::<T>(l) + rest;
        assert(b =~= items::<T>(front) + (T::wire(l.last()) + rest));
        lemma_parse_items::<T>(front, T::wire(l.last()) + rest);
        lemma_skip_prefix(items::<T>(front), T::wire(l.last()) + rest);
        T::lemma_round_trip(l.last(), rest);
        assert(front.push(l.last()) =~= l);
    }
}

/// A list that was written is read back, whatever follows it.
pub proof fn lemma_parse_list<T: Wire>(l: Seq<T::Plain>, rest: Seq<u8>)
    requires
        list_fits::<T>(l),
    ensures
        parse_list::<T>(list::<T>(l) + rest) == Some((l, list::<T>(l).len())),
{
    let head = varint(l.len() as u64);
    let b = list::<T>(l) + rest;
    assert(b =~= head + (items::<T>(l) + rest));
    lemma_parse_varint(l.len() as u64, true, items::<T>(l) + rest);
    lemma_skip_prefix(head, items::<T>(l) + rest);
    lemma_parse_items::<T>(l, rest);
}

/// Where fewer values cannot be read, more cannot be read either.
pub proof fn lemma_parse_items_fails_on<T: Wire>(b: Seq<u8>, k: nat, n: nat)
    requires
        k <= n,
        parse_items::<T>(b, k) is None,
    ensures
        parse_items::<T>(b, n) is None,
    decreases n,
{
    if k < n {
        lemma_parse_items_fails_on::<T>(b, k, (n - 1) as nat);
    }
}

/// What is read as a list lies within the bytes.
pub proof fn lemma_parse_items_bound<T: Wire>(b: Seq<u8>, n: nat)
    ensures
        parse_items::<T>(b, n) matches Some((l, used)) ==> used <= b.len() && l.len() == n,
    decreases n,
{
    if n > 0 {
        lemma_parse_items_bound::<T>(b, (n - 1) as nat);
        match parse_items::<T>(b, (n - 1) as nat) {
            None => {},
            Some((front, used)) => {
                if used <= b.len() {
                    T::lemma_parse_bound(b.skip(used as int));
                }
            },
        }
    }
}

/// What is read as a list lies within the bytes.
pub proof fn lemma_parse_list_bound<T: Wire>(b: Seq<u8>)
    ensures
        parse_list::<T>(b) matches Some((l, used)) ==> used <= b.len(),
{
    match parse_varint(b, true) {
        None => {},
        Some((n, used)) => {
            crate::codec::lemma_parse_varint_bound(b, true);
            lemma_parse_items_bound::<T>(b.skip(used as int), n as nat);
        },
    }
}

/// Appends the bytes of the list `l` to `out`.
pub fn put_list<T: Wire>(out: &mut Vec<u8>, l: &Vec<T>)
    ensures
        final(out)@ == old(out)@ + list::<T>(plain_list(l@)),
        list_fits::<T>(plain_list(l@)),
{
    let n = l.len();
    put_varint(out, n as u64);
    let ghost start = out@;
    let ghost all = plain_list(l@);
    let mut i: usize = 0;
    while i < n
        invariant
            i <= n,
            n == l@.len(),
            all == plain_list(l@),
            out@ == start + items::<T>(all.take(i as int)),
            list_fits::<T>(all.take(i as int)),
        decreases n - i,
    {
        l[i].put(out);
        proof {
            assert(all[i as int] == l@[i as int].plain());
            assert(all.take(i + 1).drop_last() =~= all.take(i as int));
            assert(all.take(i + 1).last() == all[i as int]);
            assert(out@ =~= start + items::<T>(all.take(i + 1)));
        }
        i = i + 1;
    }
    proof {
        assert(all.take(n as int) =~= all);
        assert(final(out)@ =~= old(out)@ + list::<T>(all));
    }
}

/// Reads the list that starts at `pos`.
pub fn take_list<T: Wire>(b: &[u8], pos: usize) -> (r: Option<(Vec<T>, usize)>)
    requires
        pos <= b@.len(),
    ensures
        match parse_list::<T>(b@.skip(pos as int)) {
            None => r is None,
            Some((l, used)) => r matches Some((got, next)) && plain_list(got@) == l && next == pos
                + used && next <= b@.len(),
        },
{
    let ghost tail = b@.skip(pos as int);
    match take_varint(b, pos, true) {
        None => None,
        Some((count, start)) => {
            let ghost body = b@.skip(start as int);
            assert(tail.skip(start - pos) =~= body);
            let mut got: Vec<T> = Vec::new();
            let mut at: usize = start;
            let mut i: u64 = 0;
            assert(plain_list(got@) =~= Seq::<T::Plain>::empty());
            while i < count
                invariant
                    i <= count,
                    pos <= start <= at <= b@.len(),
                    body == b@.skip(start as int),
                    body == b@.skip(pos as int).skip(start - pos),
                    parse_varint(b@.skip(pos as int), true) == Some(
                        (count, (start - pos) as nat),
                    ),
                    parse_items::<T>(body, i as nat) == Some(
                        (plain_list(got@), (at - start) as nat),
                    ),
                decreases count - i,
            {
                assert(body.skip(at - start) =~= b@.skip(at as int));
                match T::take(b, at) {
                    None => {
                        proof {
                            assert(parse_items::<T>(body, (i + 1) as nat) is None);
                            lemma_parse_items_fails_on::<T>(body, (i + 1) as nat, count as nat);
                        }
                        return None;
                    },
                    Some((item, next)) => {
                        let ghost before = plain_list(got@);
                        got.push(item);
                        assert(plain_list(got@) =~= before.push(item.plain()));
                        at = next;
                    },
                }
                i = i + 1;
            }
            Some((got, at))
        },
    }
}

impl Wire for String {
    type Plain = Seq<char>;

    open spec fn plain(&self) -> Seq<char> {
        self@
    }

    open spec fn fits(v: Seq<char>) -> bool {
        encode_utf8(v).len() <= u64::MAX
    }

    open spec fn wire(v: Seq<char>) -> Seq<u8> {
        text(v)
    }

    open spec fn parse(b: Seq<u8>) -> Option<(Seq<char>, nat)> {
        parse_text(b)
    }

    proof fn lemma_round_trip(v: Seq<char>, rest: Seq<u8>) {
        lemma_parse_text(v, rest);
    }

    proof fn lemma_parse_bound(b: Seq<u8>) {
        lemma_parse_text_bound(b);
    }

    fn put(&self, out: &mut Vec<u8>) {
        put_text(out, self.as_str());
    }

    fn take(b: &[u8], pos: usize) -> (r: Option<(String, usize)>) {
        take_text(b, pos)
    }
}

/// The bytes of `value`. Read back by [`deserialize`], they give the value
/// again.
pub fn serialize<T: Wire>(value: &T) -> (r: Vec<u8>)
    ensures
        r@ == T::wire(value.plain()),
        T::parse(r@) == Some((value.plain(), r@.len())),
{
    let mut r: Vec<u8> = Vec::new();
    value.put(&mut r);
    proof {
        assert(r@ =~= T::wire(value.plain()));
        T::lemma_round_trip(value.plain(), Seq::<u8>::empty());
        assert(T::wire(value.plain()) + Seq::<u8>::empty() =~= T::wire(value.plain()));
    }
    r
}

/// The value that `bytes` start with, if they start with one.
pub fn deserialize<T: Wire>(bytes: &[u8]) -> (r: Option<T>)
    ensures
        match T::parse(bytes@) {
            None => r is None,
            Some((v, used)) => r matches Some(got) && got.plain() == v,
        },
{
    assert(bytes@.skip(0) =~= bytes@);
    match T::take(bytes, 0) {
        None => None,
        Some((value, _)) => Some(value),
    }
}

} // verus!
