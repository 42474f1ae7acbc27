//! What the proxy remembers of the directory's answers, each for a time.

use vstd::prelude::*;
use crate::clock::unix_now;

verus! {

/// What is remembered under a key.
#[derive(Debug, Clone, PartialEq, Eq)]
pub struct CacheValue {
    /// The second, counted from 1970-01-01 UTC, from which on the value is
    /// not good any more.
    pub exp: i64,
    /// The bytes of the answer, or `None` where the directory had no
    /// answer: that there is none is remembered too.
    pub value: Option<Vec<u8>>,
}

/// What is remembered under a key, as plain data.
pub struct CacheValueView {
    pub exp: i64,
    pub value: Option<Seq<u8>>,
}

/// The bytes of an answer as plain data.
pub open spec fn bytes_view(value: Option<Vec<u8>>) -> Option<Seq<u8>> {
    match value {
        Some(v) => Some(v@),
        None => None,
    }
}

impl View for CacheValue {
    type V = CacheValueView;

    open spec fn view(&self) -> CacheValueView {
        CacheValueView { exp: self.exp, value: bytes_view(self.value) }
    }
}

/// A request to the store.
#[derive(Debug, Clone, PartialEq, Eq)]
pub enum CacheReq {
    Get { key: String },
    Put { key: String, value: Option<Vec<u8>>, ttl: u32 },
    Flush,
}

/// The store's answer to a request.
#[derive(Debug, Clone, PartialEq, Eq)]
pub enum CacheReply {
    /// Nothing good is remembered under the key.
    Miss,
    /// What is remembered under the key.
    Hit(Option<Vec<u8>>),
    /// The request was carried out.
    Done,
}

/// An answer of the store as plain data.
pub enum CacheReplyView {
    Miss,
    Hit(Option<Seq<u8>>),
    Done,
}

impl View for CacheReply {
    type V = CacheReplyView;

    open spec fn view(&self) -> CacheReplyView {
        match self {
            CacheReply::Miss => CacheReplyView::Miss,
            CacheReply::Hit(value) => CacheReplyView::Hit(bytes_view(*value)),
            CacheReply::Done => CacheReplyView::Done,
        }
    }
}

/// The store: a value under each key, each key once. The entries stand in
/// a list, and the view reads them as a map from key to value.
#[derive(Debug)]
pub struct Cache {
    entries: Vec<(String, CacheValue)>,
}

/// The second at which a value that is stored at `now` for `ttl` seconds
/// stops being good. The sum stays at the last second that can be counted
/// where it would pass it.
pub open spec fn expiry(now: i64, ttl: u32) -> i64 {
    if now + ttl > i64::MAX {
        i64::MAX
    } else {
        (now + ttl) as i64
    }
}

/// The entries from the place `from` on that a flush at the time `now`
/// leaves, last first.
spec fn left_over(entries: Seq<(String, CacheValue)>, from: int, now: i64) -> Seq<
    (String, CacheValue),
>
    decreases entries.len() - from,
{
    if from < 0 || from >= entries.len() {
        Seq::<(String, CacheValue)>::empty()
    } else {
        let rest = left_over(entries, from + 1, now);
        if entries[from].1.exp > now {
            rest.push(entries[from])
        } else {
            rest
        }
    }
}

/// Whether `entry` stands in `entries` at the place `from` or later, and
/// is still good at the time `now`.
spec fn good_in(
    entries: Seq<(String, CacheValue)>,
    from: int,
    now: i64,
    entry: (String, CacheValue),
) -> bool {
    exists|j: int| from <= j < entries.len() && entries[j] == entry && entries[j].1.exp > now
}

/// Whether `entry` stands in `kept`.
spec fn stands_in(kept: Seq<(String, CacheValue)>, entry: (String, CacheValue)) -> bool {
    exists|a: int| 0 <= a < kept.len() && kept[a] == entry
}

/// Whether no key stands twice in `entries`.
spec fn keys_once(entries: Seq<(String, CacheValue)>) -> bool {
    forall|i: int, j: int|
        0 <= i < j < entries.len() ==> (#[trigger] entries[i]).0@ != (#[trigger] entries[j]).0@
}

/// Every entry that a flush leaves is still good.
proof fn lemma_left_over_good(entries: Seq<(String, CacheValue)>, from: int, now: i64)
    requires
        0 <= from <= entries.len(),
    ensures
        forall|a: int|
            0 <= a < left_over(entries, from, now).len() ==> good_in(
                entries,
                from,
                now,
                #[trigger] left_over(entries, from, now)[a],
            ),
    decreases entries.len() - from,
{
    if from < entries.len() {
        lemma_left_over_good(entries, from + 1, now);
        let rest = left_over(entries, from + 1, now);
        let all = left_over(entries, from, now);
        assert forall|a: int| 0 <= a < all.len() implies good_in(
            entries,
            from,
            now,
            #[trigger] all[a],
        ) by {
            if a < rest.len() {
                assert(good_in(entries, from + 1, now, rest[a]));
                let j = choose|j: int|
                    from + 1 <= j < entries.len() && entries[j] == rest[a] && entries[j].1.exp
                        > now;
                assert(from <= j < entries.len() && entries[j] == all[a] && entries[j].1.exp
                    > now);
            } else {
                assert(from <= from < entries.len() && entries[from] == all[a]
                    && entries[from].1.exp > now);
            }
        }
    }
}

/// Every entry that is still good is left by a flush.
proof fn lemma_good_is_left_over(
    entries: Seq<(String, CacheValue)>,
    from: int,
    now: i64,
    j: int,
)
    requires
        0 <= from <= j < entries.len(),
        entries[j].1.exp > now,
    ensures
        stands_in(left_over(entries, from, now), entries[j]),
    decreases entries.len() - from,
{
    let rest = left_over(entries, from + 1, now);
    let all = left_over(entries, from, now);
    if j == from {
        assert(all[rest.len() as int] == entries[j]);
    } else {
        lemma_good_is_left_over(entries, from + 1, now, j);
        let a = choose|a: int| 0 <= a < rest.len() && rest[a] == entries[j];
        assert(0 <= a < all.len() && all[a] == entries[j]);
    }
}

/// A flush leaves no key twice.
proof fn lemma_left_over_keys_once(entries: Seq<(String, CacheValue)>, from: int, now: i64)
    requires
        0 <= from <= entries.len(),
        keys_once(entries),
    ensures
        keys_once(left_over(entries, from, now)),
    decreases entries.len() - from,
{
    if from < entries.len() {
        lemma_left_over_keys_once(entries, from + 1, now);
        lemma_left_over_good(entries, from + 1, now);
        let rest = left_over(entries, from + 1, now);
        let all = left_over(entries, from, now);
        assert forall|a: int, b: int| 0 <= a < b < all.len() implies (#[trigger] all[a]).0@ != (
        #[trigger] all[b]).0@ by {
            if b == rest.len() {
                assert(good_in(entries, from + 1, now, rest[a]));
                let j = choose|j: int|
                    from + 1 <= j < entries.len() && entries[j] == rest[a] && entries[j].1.exp
                        > now;
                assert(entries[from].0@ != entries[j].0@);
            } else {
                assert(rest[a].0@ != rest[b].0@);
            }
        }
    }
}

impl Cache {
    /// Whether each key stands in the store once.
    pub closed spec fn wf(&self) -> bool {
        keys_once(self.entries@)
    }

    /// Whether the store holds `key` at the place `i`.
    closed spec fn holds_at(&self, key: Seq<char>, i: int) -> bool {
        0 <= i < self.entries@.len() && self.entries@[i].0@ == key
    }

    /// What is remembered, by key.
    pub closed spec fn view(&self) -> Map<Seq<char>, CacheValueView> {
        Map::new(
            |key: Seq<char>| exists|i: int| self.holds_at(key, i),
            |key: Seq<char>| self.entries@[choose|i: int| self.holds_at(key, i)].1@,
        )
    }

    /// What is remembered under a key that stands at the place `i`.
    proof fn lemma_value_at(&self, i: int)
        requires
            self.wf(),
            0 <= i < self.entries@.len(),
        ensures
            self@.contains_key(self.entries@[i].0@),
            self@[self.entries@[i].0@] == self.entries@[i].1@,
    {
        let key = self.entries@[i].0@;
        assert(self.holds_at(key, i));
        let j = choose|j: int| self.holds_at(key, j);
        assert(self.holds_at(key, j));
        if i < j {
            assert(self.entries@[i].0@ != self.entries@[j].0@);
        } else if j < i {
            assert(self.entries@[j].0@ != self.entries@[i].0@);
        }
    }

    /// An empty store.
    pub fn init() -> (r: Cache)
        ensures
            r.wf(),
            r@ == Map::<Seq<char>, CacheValueView>::empty(),
    {
        let r = Cache { entries: Vec::with_capacity(128) };
        assert(r@ =~= Map::<Seq<char>, CacheValueView>::empty()) by {
            assert forall|key: Seq<char>| !r@.contains_key(key) by {
                assert forall|i: int| !r.holds_at(key, i) by {}
            }
        }
        r
    }

    /// The place at which `key` stands, if it stands in the store.
    fn position(&self, key: &str) -> (r: Option<usize>)
        requires
            self.wf(),
        ensures
            match r {
                Some(i) => self.holds_at(key@, i as int) && self@.contains_key(key@) && self@[key@]
                    == self.entries@[i as int].1@,
                None => !self@.contains_key(key@) && forall|i: int| !self.holds_at(key@, i),
            },
    {
        let n = self.entries.len();
        let mut i: usize = 0;
        while i < n
            invariant
                i <= n,
                n == self.entries@.len(),
                self.wf(),
                forall|k: int| 0 <= k < i ==> self.entries@[k].0@ != key@,
            decreases n - i,
        {
            if crate::text::str_equal(self.entries[i].0.as_str(), key) {
                proof {
                    self.lemma_value_at(i as int);
                }
                return Some(i);
            }
            i = i + 1;
        }
        proof {
            assert forall|k: int| !self.holds_at(key@, k) by {}
        }
        None
    }

    /// What is remembered under `key` at the time `now`.
    pub open spec fn lookup(map: Map<Seq<char>, CacheValueView>, key: Seq<char>, now: i64)
        -> Option<Option<Seq<u8>>> {
        if map.contains_key(key) && map[key].exp > now {
            Some(map[key].value)
        } else {
            None
        }
    }

    /// What is remembered under `key` at the time `now`: the value, if one
    /// is stored and still good, else `None`.
    pub fn get(&self, key: &str, now: i64) -> (r: Option<Option<Vec<u8>>>)
        requires
            self.wf(),
        ensures
            match Self::lookup(self@, key@, now) {
                None => r is None,
                Some(None) => r == Some(None::<Vec<u8>>),
                Some(Some(bytes)) => r matches Some(Some(got)) && got@ == bytes,
            },
    {
        match self.position(key) {
            None => None,
            Some(i) => {
                if self.entries[i].1.exp > now {
                    match &self.entries[i].1.value {
                        None => Some(None),
                        Some(bytes) => Some(Some(bytes.clone())),
                    }
                } else {
                    None
                }
            },
        }
    }

    /// Remembers `value` under `key` for `ttl` seconds from `now` on. What
    /// was remembered under the key before is lost.
    pub fn set(&mut self, key: String, value: Option<Vec<u8>>, ttl: u32, now: i64)
        requires
            old(self).wf(),
        ensures
            final(self).wf(),
            final(self)@ == old(self)@.insert(
                key@,
                CacheValueView { exp: expiry(now, ttl), value: bytes_view(value) },
            ),
    {
        let exp: i64 = if now > i64::MAX - (ttl as i64) {
            i64::MAX
        } else {
            now + ttl as i64
        };
        let ghost stored = CacheValueView { exp, value: bytes_view(value) };
        let ghost before = *self;
        match self.position(key.as_str()) {
            Some(i) => {
                self.entries[i] = (key, CacheValue { exp, value });
                proof {
                    let after = *self;
                    assert(after.wf()) by {
                        assert forall|a: int, b: int|
                            0 <= a < b < after.entries@.len() implies (
                        #[trigger] after.entries@[a]).0@ != (#[trigger] after.entries@[b]).0@ by {
                            assert(before.entries@[a].0@ != before.entries@[b].0@);
                        }
                    }
                    assert(after@ =~= before@.insert(key@, stored)) by {
                        assert forall|k: Seq<char>| after@.contains_key(k) <==> before@.insert(
                            key@,
                            stored,
                        ).contains_key(k) by {
                            if after@.contains_key(k) {
                                let j = choose|j: int| after.holds_at(k, j);
                                assert(after.holds_at(k, j));
                                if j != i {
                                    assert(before.holds_at(k, j));
                                }
                            }
                            if before@.contains_key(k) {
                                let j = choose|j: int| before.holds_at(k, j);
                                assert(before.holds_at(k, j));
                                assert(after.holds_at(k, j));
                            }
                            if k == key@ {
                                assert(after.holds_at(k, i as int));
                            }
                        }
                        assert forall|k: Seq<char>| after@.contains_key(k) implies after@[k]
                            == before@.insert(key@, stored)[k] by {
                            let j = choose|j: int| after.holds_at(k, j);
                            assert(after.holds_at(k, j));
                            after.lemma_value_at(j);
                            if j != i {
                                assert(before.holds_at(k, j));
                                before.lemma_value_at(j);
                            }
                        }
                    }
                }
            },
            None => {
                self.entries.push((key, CacheValue { exp, value }));
                proof {
                    let after = *self;
                    let last = before.entries@.len() as int;
                    assert(after.wf()) by {
                        assert forall|a: int, b: int|
                            0 <= a < b < after.entries@.len() implies (
                        #[trigger] after.entries@[a]).0@ != (#[trigger] after.entries@[b]).0@ by {
                            if b < last {
                                assert(before.entries@[a].0@ != before.entries@[b].0@);
                            } else {
                                assert(!before.holds_at(key@, a));
                            }
                        }
                    }
                    assert(after@ =~= before@.insert(key@, stored)) by {
                        assert forall|k: Seq<char>| after@.contains_key(k) <==> before@.insert(
                            key@,
                            stored,
                        ).contains_key(k) by {
                            if after@.contains_key(k) {
                                let j = choose|j: int| after.holds_at(k, j);
                                assert(after.holds_at(k, j));
                                if j != last {
                                    assert(before.holds_at(k, j));
                                }
                            }
                            if before@.contains_key(k) {
                                let j = choose|j: int| before.holds_at(k, j);
                                assert(before.holds_at(k, j));
                                assert(after.holds_at(k, j));
                            }
                            if k == key@ {
                                assert(after.holds_at(k, last));
                            }
                        }
                        assert forall|k: Seq<char>| after@.contains_key(k) implies after@[k]
                            == before@.insert(key@, stored)[k] by {
                            let j = choose|j: int| after.holds_at(k, j);
                            assert(after.holds_at(k, j));
                            after.lemma_value_at(j);
                            if j != last {
                                assert(before.holds_at(k, j));
                                before.lemma_value_at(j);
                            }
                        }
                    }
                }
            },
        }
    }
}

impl Cache {
    /// What is remembered after a flush at the time `now`: what is still
    /// good then, each value with its time. What has run out is dropped.
    pub open spec fn flushed(map: Map<Seq<char>, CacheValueView>, now: i64) -> Map<
        Seq<char>,
        CacheValueView,
    > {
        Map::new(|key: Seq<char>| map.contains_key(key) && map[key].exp > now, |key: Seq<char>|
            map[key])
    }

    /// Drops every value that has run out at the time `now`. What is still
    /// good stays as it is.
    pub fn flush(&mut self, now: i64)
        requires
            old(self).wf(),
        ensures
            final(self).wf(),
            final(self)@ == Self::flushed(old(self)@, now),
    {
        let ghost before = *self;
        let ghost orig = self.entries@;
        let mut kept: Vec<(String, CacheValue)> = Vec::new();
        while self.entries.len() > 0
            invariant
                self.entries@.len() <= orig.len(),
                self.entries@ == orig.take(self.entries@.len() as int),
                kept@ == left_over(orig, self.entries@.len() as int, now),
            decreases self.entries@.len(),
        {
            let entry = self.entries.pop().unwrap();
            if entry.1.exp > now {
                kept.push(entry);
            }
        }
        self.entries = kept;
        proof {
            let after = *self;
            lemma_left_over_good(orig, 0, now);
            lemma_left_over_keys_once(orig, 0, now);
            assert(after@ =~= Self::flushed(before@, now)) by {
                assert forall|k: Seq<char>| after@.contains_key(k) <==> Self::flushed(
                    before@,
                    now,
                ).contains_key(k) by {
                    if after@.contains_key(k) {
                        let a = choose|a: int| after.holds_at(k, a);
                        assert(after.holds_at(k, a));
                        assert(good_in(orig, 0, now, kept@[a]));
                        let j = choose|j: int|
                            0 <= j < orig.len() && orig[j] == kept@[a] && orig[j].1.exp > now;
                        assert(before.holds_at(k, j));
                        before.lemma_value_at(j);
                    }
                    if before@.contains_key(k) && before@[k].exp > now {
                        let j = choose|j: int| before.holds_at(k, j);
                        assert(before.holds_at(k, j));
                        before.lemma_value_at(j);
                        lemma_good_is_left_over(orig, 0, now, j);
                        let a = choose|a: int| 0 <= a < kept@.len() && kept@[a] == orig[j];
                        assert(after.holds_at(k, a));
                    }
                }
                assert forall|k: Seq<char>| after@.contains_key(k) implies after@[k]
                    == Self::flushed(before@, now)[k] by {
                    let a = choose|a: int| after.holds_at(k, a);
                    assert(after.holds_at(k, a));
                    after.lemma_value_at(a);
                    assert(good_in(orig, 0, now, kept@[a]));
                    let j = choose|j: int|
                        0 <= j < orig.len() && orig[j] == kept@[a] && orig[j].1.exp > now;
                    assert(before.holds_at(k, j));
                    before.lemma_value_at(j);
                }
            }
        }
    }

    /// A flush at the time `now` drops only what has run out: nothing that
    /// it leaves has run out, what is still good stays with its value and
    /// its time, and at `now` or later every key is answered as it would be
    /// without the flush.
    pub proof fn law_flush_drops_only_what_ran_out(
        map: Map<Seq<char>, CacheValueView>,
        now: i64,
        key: Seq<char>,
        later: i64,
    )
        requires
            now <= later,
        ensures
            Self::flushed(map, now).contains_key(key) <==> map.contains_key(key) && map[key].exp
                > now,
            Self::flushed(map, now).contains_key(key) ==> Self::flushed(map, now)[key] == map[key],
            Self::lookup(Self::flushed(map, now), key, later) == Self::lookup(map, key, later),
    {
    }

    /// What is stored is found under its key as long as it is good, and
    /// not after.
    pub proof fn law_stored_value_is_found_while_good(
        map: Map<Seq<char>, CacheValueView>,
        key: Seq<char>,
        value: Option<Seq<u8>>,
        ttl: u32,
        now: i64,
        at: i64,
    )
        ensures
            Self::lookup(
                map.insert(key, CacheValueView { exp: expiry(now, ttl), value }),
                key,
                at,
            ) == if at < expiry(now, ttl) {
                Some(value)
            } else {
                None
            },
    {
    }

    /// What a request does to the store at the time `now`, and the answer
    /// to it.
    pub open spec fn handled(map: Map<Seq<char>, CacheValueView>, req: CacheReq, now: i64) -> (
        Map<Seq<char>, CacheValueView>,
        CacheReplyView,
    ) {
        match req {
            CacheReq::Get { key } => (
                map,
                match Self::lookup(map, key@, now) {
                    None => CacheReplyView::Miss,
                    Some(value) => CacheReplyView::Hit(value),
                },
            ),
            CacheReq::Put { key, value, ttl } => (
                map.insert(
                    key@,
                    CacheValueView { exp: expiry(now, ttl), value: bytes_view(value) },
                ),
                CacheReplyView::Done,
            ),
            CacheReq::Flush => (Self::flushed(map, now), CacheReplyView::Done),
        }
    }

    /// Carries out one request at the time `now`.
    pub fn handle_at(&mut self, req: CacheReq, now: i64) -> (r: CacheReply)
        requires
            old(self).wf(),
        ensures
            final(self).wf(),
            (final(self)@, r@) == Self::handled(old(self)@, req, now),
    {
        match req {
            CacheReq::Get { key } => match self.get(key.as_str(), now) {
                None => CacheReply::Miss,
                Some(value) => CacheReply::Hit(value),
            },
            CacheReq::Put { key, value, ttl } => {
                self.set(key, value, ttl, now);
                CacheReply::Done
            },
            CacheReq::Flush => {
                self.flush(now);
                CacheReply::Done
            },
        }
    }

    /// Carries out one request, by the machine's clock.
    pub fn handler(&mut self, req: CacheReq) -> (r: CacheReply)
        requires
            old(self).wf(),
        ensures
            final(self).wf(),
            exists|now: i64| (final(self)@, r@) == Self::handled(old(self)@, req, now),
    {
        let now = unix_now();
        let r = self.handle_at(req, now);
        assert((self@, r@) == Self::handled(old(self)@, req, now));
        r
    }
}

} // verus!
