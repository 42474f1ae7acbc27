//! The groups of the machine itself, as its group file lists them.

use vstd::prelude::*;
use vstd::string::StringExecFns;
use vstd::utf8::encode_utf8;
use crate::clock::unix_now;
use crate::codec::lemma_parse_text;
use crate::codec::lemma_parse_text_bound;
use crate::codec::lemma_parse_varint;
use crate::codec::lemma_parse_varint_bound;
use crate::codec::lemma_skip_prefix;
use crate::codec::parse_text;
use crate::codec::parse_varint;
use crate::codec::put_text;
use crate::codec::put_varint;
use crate::codec::take_text;
use crate::codec::take_varint;
use crate::codec::text;
use crate::codec::varint;
use crate::proxy::cache::Cache;
use crate::proxy::cache::CacheValueView;
use crate::proxy::cache::expiry;
use crate::text::chars_of;
use crate::text::lines;
use crate::text::lines_of;
use crate::text::parse_u32;
use crate::text::parse_u32_spec;
use crate::text::split;
use crate::text::split_on;
use crate::text::str_equal;
use crate::wire::lemma_parse_list;
use crate::wire::lemma_parse_list_bound;
use crate::wire::list;
use crate::wire::list_fits;
use crate::wire::parse_list;
use crate::wire::plain_list;
use crate::wire::put_list;
use crate::wire::take_list;
use crate::wire::Wire;

verus! {

/// The key under which the groups of the machine are remembered.
pub const CACHE_KEY: &'static str = "$groups_local_all$";

/// A group of the machine.
#[derive(Debug, Clone, PartialEq, Eq)]
pub struct GroupLocal {
    pub id: u32,
    pub name: String,
    pub members: Vec<String>,
}

/// A group of the machine as plain data.
pub struct GroupLocalView {
    pub id: u32,
    pub name: Seq<char>,
    pub members: Seq<Seq<char>>,
}

impl View for GroupLocal {
    type V = GroupLocalView;

    open spec fn view(&self) -> GroupLocalView {
        GroupLocalView { id: self.id, name: self.name@, members: plain_list(self.members@) }
    }
}

impl Wire for GroupLocal {
    type Plain = GroupLocalView;

    open spec fn plain(&self) -> GroupLocalView {
        self@
    }

    open spec fn fits(v: GroupLocalView) -> bool {
        &&& encode_utf8(v.name).len() <= u64::MAX
        &&& list_fits::<String>(v.members)
    }

    /// The fields in the order in which the record declares them.
    open spec fn wire(v: GroupLocalView) -> Seq<u8> {
        varint(v.id as u64) + (text(v.name) + list::<String>(v.members))
    }

    open spec fn parse(b: Seq<u8>) -> Option<(GroupLocalView, nat)> {
        match parse_varint(b, false) {
            None => None,
            Some((id, n1)) => {
                let b1 = b.skip(n1 as int);
                match parse_text(b1) {
                    None => None,
                    Some((name, n2)) => match parse_list::<String>(b1.skip(n2 as int)) {
                        None => None,
                        Some((members, n3)) => Some(
                            (GroupLocalView { id: id as u32, name, members }, n1 + n2 + n3),
                        ),
                    },
                }
            },
        }
    }

    proof fn lemma_round_trip(v: GroupLocalView, rest: Seq<u8>) {
        let b = Self::wire(v) + rest;
        let r2 = list::<String>(v.members) + rest;
        let r1 = text(v.name) + r2;
        assert(b =~= varint(v.id as u64) + r1);
        lemma_parse_varint(v.id as u64, false, r1);
        lemma_skip_prefix(varint(v.id as u64), r1);
        lemma_parse_text(v.name, r2);
        lemma_skip_prefix(text(v.name), r2);
        lemma_parse_list::<String>(v.members, rest);
    }

    proof fn lemma_parse_bound(b: Seq<u8>) {
        lemma_parse_varint_bound(b, false);
        match parse_varint(b, false) {
            None => {},
            Some((id, n1)) => {
                let b1 = b.skip(n1 as int);
                lemma_parse_text_bound(b1);
                match parse_text(b1) {
                    None => {},
                    Some((name, n2)) => {
                        lemma_parse_list_bound::<String>(b1.skip(n2 as int));
                    },
                }
            },
        }
    }

    fn put(&self, out: &mut Vec<u8>) {
        put_varint(out, self.id as u64);
        put_text(out, self.name.as_str());
        put_list(out, &self.members);
        assert(final(out)@ =~= old(out)@ + Self::wire(self.plain()));
    }

    fn take(b: &[u8], pos: usize) -> (r: Option<(GroupLocal, usize)>) {
        let (id, at1) = match take_varint(b, pos, false) {
            None => { return None; },
            Some(x) => x,
        };
        assert(b@.skip(pos as int).skip(at1 - pos) =~= b@.skip(at1 as int));
        let (name, at2) = match take_text(b, at1) {
            None => { return None; },
            Some(x) => x,
        };
        assert(b@.skip(at1 as int).skip(at2 - at1) =~= b@.skip(at2 as int));
        let (members, at3) = match take_list::<String>(b, at2) {
            None => { return None; },
            Some(x) => x,
        };
        proof {
            lemma_parse_varint_bound(b@.skip(pos as int), false);
        }
        Some((GroupLocal { id: id as u32, name, members }, at3))
    }
}

/// What is remembered of the groups of the machine.
#[derive(Debug, Clone, PartialEq, Eq)]
pub enum CachedGroups {
    /// Nothing good is remembered: the group file has to be read.
    Miss,
    /// That there are none.
    NoGroups,
    /// The groups.
    Groups(Vec<GroupLocal>),
    /// What is remembered cannot be read.
    Garbled,
}

impl GroupLocal {
    /// The group that a line of the group file stands for, if it stands
    /// for one: the name, a field that is not looked at, the number, and
    /// the members with commas between them, with a colon between each two
    /// fields. What follows a fourth colon is not looked at.
    pub open spec fn parse_line(s: Seq<char>) -> Option<GroupLocalView> {
        let fields = split_on(s, ':');
        if fields.len() >= 4 {
            match parse_u32_spec(fields[2]) {
                Some(id) => Some(
                    GroupLocalView { id, name: fields[0], members: split_on(fields[3], ',') },
                ),
                None => None,
            }
        } else {
            None
        }
    }

    /// The group that a line of the group file stands for, if it stands
    /// for one.
    pub fn maybe_from_str(s: &str) -> (r: Option<GroupLocal>)
        ensures
            match Self::parse_line(s@) {
                None => r is None,
                Some(v) => r matches Some(g) && g@ == v,
            },
    {
        let fields = split(s, ':');
        if fields.len() < 4 {
            return None;
        }
        let ghost all = plain_list(fields@);
        proof {
            assert(all[0] == fields@[0]@);
            assert(all[2] == fields@[2]@);
            assert(all[3] == fields@[3]@);
        }
        let number = chars_of(fields[2].as_str());
        let id = match parse_u32(number.as_slice()) {
            None => { return None; },
            Some(id) => id,
        };
        let members = split(fields[3].as_str(), ',');
        let name = fields[0].clone();
        Some(GroupLocal { id, name, members })
    }

    /// The groups that the lines `lines` stand for, in their order. Empty
    /// lines and lines that stand for no group are passed over.
    pub open spec fn parse_all(lines: Seq<Seq<char>>) -> Seq<GroupLocalView>
        decreases lines.len(),
    {
        if lines.len() == 0 {
            Seq::<GroupLocalView>::empty()
        } else {
            let front = Self::parse_all(lines.drop_last());
            if lines.last().len() > 0 && Self::parse_line(lines.last()) is Some {
                front.push(Self::parse_line(lines.last())->0)
            } else {
                front
            }
        }
    }

    /// The groups that the group file with the content `content` lists.
    pub fn read_convert_groups(content: &str) -> (r: Vec<GroupLocal>)
        ensures
            plain_list(r@) == Self::parse_all(lines_of(content@)),
    {
        let all = lines(content);
        let ghost texts = plain_list(all@);
        let n = all.len();
        let mut r: Vec<GroupLocal> = Vec::new();
        let mut i: usize = 0;
        proof {
            assert(texts.take(0) =~= Seq::<Seq<char>>::empty());
            assert(plain_list(r@) =~= Self::parse_all(texts.take(0)));
        }
        while i < n
            invariant
                i <= n,
                n == all@.len(),
                texts == plain_list(all@),
                plain_list(r@) == Self::parse_all(texts.take(i as int)),
            decreases n - i,
        {
            let ghost before = plain_list(r@);
            proof {
                assert(texts.take(i + 1).drop_last() =~= texts.take(i as int));
                assert(texts.take(i + 1).last() == all@[i as int]@);
            }
            if !all[i].as_str().is_empty() {
                match Self::maybe_from_str(all[i].as_str()) {
                    Some(group) => {
                        r.push(group);
                        proof {
                            assert(plain_list(r@) =~= before.push(group@));
                        }
                    },
                    None => {},
                }
            }
            i = i + 1;
        }
        proof {
            assert(texts.take(n as int) =~= texts);
        }
        r
    }

    /// The place of the last group of `groups` with the name `name`, if
    /// there is one. Where a name is listed twice, the last one counts.
    pub open spec fn last_named(groups: Seq<GroupLocalView>, name: Seq<char>) -> Option<int>
        decreases groups.len(),
    {
        if groups.len() == 0 {
            None
        } else if groups.last().name == name {
            Some(groups.len() - 1)
        } else {
            Self::last_named(groups.drop_last(), name)
        }
    }

    /// The group of `groups` with the name `name`, if there is one.
    pub fn read_id<'a>(groups: &'a Vec<GroupLocal>, name: &str) -> (r: Option<&'a GroupLocal>)
        ensures
            match Self::last_named(plain_list(groups@), name@) {
                None => r is None,
                Some(i) => 0 <= i < groups@.len() && r == Some(&groups@[i]),
            },
    {
        let ghost all = plain_list(groups@);
        let mut i: usize = groups.len();
        proof {
            assert(all.take(i as int) =~= all);
        }
        while i > 0
            invariant
                i <= groups@.len(),
                all == plain_list(groups@),
                Self::last_named(all, name@) == Self::last_named(all.take(i as int), name@),
            decreases i,
        {
            proof {
                assert(all.take(i as int).last() == groups@[i - 1]@);
                assert(all.take(i as int).drop_last() =~= all.take(i - 1));
            }
            if str_equal(groups[i - 1].name.as_str(), name) {
                return Some(&groups[i - 1]);
            }
            i = i - 1;
        }
        None
    }

    /// Whether `r` is what the store `map` remembers of the groups of the
    /// machine at the time `now`.
    pub open spec fn remembered_as(map: Map<Seq<char>, CacheValueView>, now: i64, r: CachedGroups)
        -> bool {
        match Cache::lookup(map, CACHE_KEY@, now) {
            None => r is Miss,
            Some(None) => r is NoGroups,
            Some(Some(bytes)) => match parse_list::<GroupLocal>(bytes) {
                None => r is Garbled,
                Some((l, used)) => r matches CachedGroups::Groups(groups) && plain_list(groups@)
                    == l,
            },
        }
    }

    /// What the store remembers of the groups of the machine at the time
    /// `now`.
    pub fn read_at(cache: &Cache, now: i64) -> (r: CachedGroups)
        requires
            cache.wf(),
        ensures
            Self::remembered_as(cache@, now, r),
    {
        match cache.get(CACHE_KEY, now) {
            None => CachedGroups::Miss,
            Some(None) => CachedGroups::NoGroups,
            Some(Some(bytes)) => {
                assert(bytes@.skip(0) =~= bytes@);
                match take_list::<GroupLocal>(bytes.as_slice(), 0) {
                    None => CachedGroups::Garbled,
                    Some((groups, _)) => CachedGroups::Groups(groups),
                }
            },
        }
    }

    /// What the store remembers of the groups of the machine, by the
    /// machine's clock.
    pub fn read(cache: &Cache) -> (r: CachedGroups)
        requires
            cache.wf(),
        ensures
            exists|now: i64| Self::remembered_as(cache@, now, r),
    {
        let now = unix_now();
        let r = Self::read_at(cache, now);
        assert(Self::remembered_as(cache@, now, r));
        r
    }

    /// The store `map` once the groups `groups` have been put into it at
    /// the time `now`, to be remembered for `ttl` seconds.
    pub open spec fn stored(
        map: Map<Seq<char>, CacheValueView>,
        groups: Seq<GroupLocalView>,
        ttl: u32,
        now: i64,
    ) -> Map<Seq<char>, CacheValueView> {
        map.insert(
            CACHE_KEY@,
            CacheValueView { exp: expiry(now, ttl), value: Some(list::<GroupLocal>(groups)) },
        )
    }

    /// The groups that the group file with the content `content` lists.
    /// They are remembered in the store for `ttl` seconds from `now` on.
    pub fn read_fresh_at(cache: &mut Cache, content: &str, ttl: u32, now: i64) -> (r: Vec<
        GroupLocal,
    >)
        requires
            old(cache).wf(),
        ensures
            final(cache).wf(),
            plain_list(r@) == Self::parse_all(lines_of(content@)),
            final(cache)@ == Self::stored(old(cache)@, plain_list(r@), ttl, now),
            parse_list::<GroupLocal>(list::<GroupLocal>(plain_list(r@))) == Some(
                (plain_list(r@), list::<GroupLocal>(plain_list(r@)).len()),
            ),
    {
        let r = Self::read_convert_groups(content);
        let mut bytes: Vec<u8> = Vec::new();
        put_list(&mut bytes, &r);
        proof {
            let l = plain_list(r@);
            assert(bytes@ =~= list::<GroupLocal>(l));
            lemma_parse_list::<GroupLocal>(l, Seq::<u8>::empty());
            assert(list::<GroupLocal>(l) + Seq::<u8>::empty() =~= list::<GroupLocal>(l));
        }
        cache.set(String::from_str(CACHE_KEY), Some(bytes), ttl, now);
        r
    }

    /// The groups that the group file with the content `content` lists.
    /// They are remembered in the store for `ttl` seconds from now on, by
    /// the machine's clock.
    pub fn read_fresh(cache: &mut Cache, content: &str, ttl: u32) -> (r: Vec<GroupLocal>)
        requires
            old(cache).wf(),
        ensures
            final(cache).wf(),
            plain_list(r@) == Self::parse_all(lines_of(content@)),
            exists|now: i64| final(cache)@ == Self::stored(old(cache)@, plain_list(r@), ttl, now),
    {
        let now = unix_now();
        let r = Self::read_fresh_at(cache, content, ttl, now);
        assert(cache@ == Self::stored(old(cache)@, plain_list(r@), ttl, now));
        r
    }

    /// Groups that were put into the store are found there as they were,
    /// for as long as they are remembered.
    pub proof fn law_groups_are_remembered(
        map: Map<Seq<char>, CacheValueView>,
        groups: Vec<GroupLocal>,
        found: CachedGroups,
        ttl: u32,
        now: i64,
        later: i64,
    )
        requires
            list_fits::<GroupLocal>(plain_list(groups@)),
            later < expiry(now, ttl),
            Self::remembered_as(Self::stored(map, plain_list(groups@), ttl, now), later, found),
        ensures
            found matches CachedGroups::Groups(l) && plain_list(l@) == plain_list(groups@),
    {
        let l = plain_list(groups@);
        lemma_parse_list::<GroupLocal>(l, Seq::<u8>::empty());
        assert(list::<GroupLocal>(l) + Seq::<u8>::empty() =~= list::<GroupLocal>(l));
    }
}

} // verus!
