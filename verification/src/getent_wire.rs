//! The binary form of the directory's answers, as the name-service proxy
//! sends them over the local socket.

use vstd::prelude::*;
use vstd::utf8::encode_utf8;
use crate::api_types::GetentResponse;
use crate::api_types::GetentResponseView;
use crate::api_types::GroupResponse;
use crate::api_types::GroupType;
use crate::api_types::GroupView;
use crate::api_types::HostResponse;
use crate::api_types::HostView;
use crate::api_types::IpAddress;
use crate::api_types::IpAddressView;
use crate::api_types::UserResponse;
use crate::api_types::UserView;
use crate::codec::lemma_parse_text;
use crate::codec::lemma_parse_text_bound;
use crate::codec::lemma_parse_varint;
use crate::codec::lemma_parse_varint_bound;
use crate::codec::lemma_skip_prefix;
use crate::codec::parse_text;
use crate::codec::parse_varint;
use crate::codec::put_text;
use crate::codec::put_varint;
use crate::codec::take_text;
use crate::codec::take_varint;
use crate::codec::text;
use crate::codec::varint;
use crate::wire::lemma_parse_list;
use crate::wire::lemma_parse_list_bound;
use crate::wire::list;
use crate::wire::list_fits;
use crate::wire::parse_list;
use crate::wire::put_list;
use crate::wire::take_list;
use crate::wire::Wire;

verus! {

impl Wire for IpAddress {
    type Plain = IpAddressView;

    open spec fn plain(&self) -> IpAddressView {
        self@
    }

    open spec fn fits(v: IpAddressView) -> bool {
        match v {
            IpAddressView::V4(a) => a.len() == 4,
            IpAddressView::V6(a) => a.len() == 16,
        }
    }

    /// A number that tells the two kinds apart, then the bytes.
    open spec fn wire(v: IpAddressView) -> Seq<u8> {
        match v {
            IpAddressView::V4(a) => varint(0) + a,
            IpAddressView::V6(a) => varint(1) + a,
        }
    }

    open spec fn parse(b: Seq<u8>) -> Option<(IpAddressView, nat)> {
        match parse_varint(b, false) {
            None => None,
            Some((kind, used)) => {
                if kind == 0 && used + 4 <= b.len() {
                    Some((IpAddressView::V4(b.subrange(used as int, used + 4int)), used + 4))
                } else if kind == 1 && used + 16 <= b.len() {
                    Some((IpAddressView::V6(b.subrange(used as int, used + 16int)), used + 16))
                } else {
                    None
                }
            },
        }
    }

    proof fn lemma_round_trip(v: IpAddressView, rest: Seq<u8>) {
        match v {
            IpAddressView::V4(a) => {
                let b = varint(0) + a + rest;
                assert(b =~= varint(0) + (a + rest));
                lemma_parse_varint(0, false, a + rest);
                assert(b.subrange(varint(0).len() as int, varint(0).len() + 4int) =~= a);
            },
            IpAddressView::V6(a) => {
                let b = varint(1) + a + rest;
                assert(b =~= varint(1) + (a + rest));
                lemma_parse_varint(1, false, a + rest);
                assert(b.subrange(varint(1).len() as int, varint(1).len() + 16int) =~= a);
            },
        }
    }

    proof fn lemma_parse_bound(b: Seq<u8>) {
    }

    fn put(&self, out: &mut Vec<u8>) {
        match self {
            IpAddress::V4(a) => {
                put_varint(out, 0);
                out.extend_from_slice(a.as_slice());
                assert(final(out)@ =~= old(out)@ + Self::wire(self.plain()));
            },
            IpAddress::V6(a) => {
                put_varint(out, 1);
                out.extend_from_slice(a.as_slice());
                assert(final(out)@ =~= old(out)@ + Self::wire(self.plain()));
            },
        }
    }

    fn take(b: &[u8], pos: usize) -> (r: Option<(IpAddress, usize)>) {
        let ghost tail = b@.skip(pos as int);
        match take_varint(b, pos, false) {
            None => None,
            Some((kind, at)) => {
                let left = b.len() - at;
                if kind == 0 && left >= 4 {
                    let a = [b[at], b[at + 1], b[at + 2], b[at + 3]];
                    assert(a@ =~= tail.subrange(at - pos, at - pos + 4));
                    Some((IpAddress::V4(a), at + 4))
                } else if kind == 1 && left >= 16 {
                    let a = [
                        b[at],
                        b[at + 1],
                        b[at + 2],
                        b[at + 3],
                        b[at + 4],
                        b[at + 5],
                        b[at + 6],
                        b[at + 7],
                        b[at + 8],
                        b[at + 9],
                        b[at + 10],
                        b[at + 11],
                        b[at + 12],
                        b[at + 13],
                        b[at + 14],
                        b[at + 15],
                    ];
                    assert(a@ =~= tail.subrange(at - pos, at - pos + 16));
                    Some((IpAddress::V6(a), at + 16))
                } else {
                    None
                }
            },
        }
    }
}

impl Wire for UserResponse {
    type Plain = UserView;

    open spec fn plain(&self) -> UserView {
        self@
    }

    open spec fn fits(v: UserView) -> bool {
        &&& encode_utf8(v.name).len() <= u64::MAX
        &&& encode_utf8(v.email).len() <= u64::MAX
        &&& encode_utf8(v.shell).len() <= u64::MAX
    }

    /// The fields in the order in which the record declares them.
    open spec fn wire(v: UserView) -> Seq<u8> {
        varint(v.id as u64) + (text(v.name) + (varint(v.gid as u64) + (text(v.email) + text(
            v.shell,
        ))))
    }

    open spec fn parse(b: Seq<u8>) -> Option<(UserView, nat)> {
        match parse_varint(b, false) {
            None => None,
            Some((id, n1)) => {
                let b1 = b.skip(n1 as int);
                match parse_text(b1) {
                    None => None,
                    Some((name, n2)) => {
                        let b2 = b1.skip(n2 as int);
                        match parse_varint(b2, false) {
                            None => None,
                            Some((gid, n3)) => {
                                let b3 = b2.skip(n3 as int);
                                match parse_text(b3) {
                                    None => None,
                                    Some((email, n4)) => match parse_text(b3.skip(n4 as int)) {
                                        None => None,
                                        Some((shell, n5)) => Some(
                                            (
                                                UserView {
                                                    id: id as u32,
                                                    name,
                                                    gid: gid as u32,
                                                    email,
                                                    shell,
                                                },
                                                n1 + n2 + n3 + n4 + n5,
                                            ),
                                        ),
                                    },
                                }
                            },
                        }
                    },
                }
            },
        }
    }

    proof fn lemma_round_trip(v: UserView, rest: Seq<u8>) {
        let b = Self::wire(v) + rest;
        let r4 = text(v.shell) + rest;
        let r3 = text(v.email) + r4;
        let r2 = varint(v.gid as u64) + r3;
        let r1 = text(v.name) + r2;
        assert(b =~= varint(v.id as u64) + r1);
        lemma_parse_varint(v.id as u64, false, r1);
        lemma_skip_prefix(varint(v.id as u64), r1);
        lemma_parse_text(v.name, r2);
        lemma_skip_prefix(text(v.name), r2);
        lemma_parse_varint(v.gid as u64, false, r3);
        lemma_skip_prefix(varint(v.gid as u64), r3);
        lemma_parse_text(v.email, r4);
        lemma_skip_prefix(text(v.email), r4);
        lemma_parse_text(v.shell, rest);
    }

    proof fn lemma_parse_bound(b: Seq<u8>) {
        lemma_parse_varint_bound(b, false);
        match parse_varint(b, false) {
            None => {},
            Some((id, n1)) => {
                let b1 = b.skip(n1 as int);
                lemma_parse_text_bound(b1);
                match parse_text(b1) {
                    None => {},
                    Some((name, n2)) => {
                        let b2 = b1.skip(n2 as int);
                        lemma_parse_varint_bound(b2, false);
                        match parse_varint(b2, false) {
                            None => {},
                            Some((gid, n3)) => {
                                let b3 = b2.skip(n3 as int);
                                lemma_parse_text_bound(b3);
                                match parse_text(b3) {
                                    None => {},
                                    Some((email, n4)) => {
                                        lemma_parse_text_bound(b3.skip(n4 as int));
                                    },
                                }
                            },
                        }
                    },
                }
            },
        }
    }

    fn put(&self, out: &mut Vec<u8>) {
        put_varint(out, self.id as u64);
        put_text(out, self.name.as_str());
        put_varint(out, self.gid as u64);
        put_text(out, self.email.as_str());
        put_text(out, self.shell.as_str());
        assert(final(out)@ =~= old(out)@ + Self::wire(self.plain()));
    }

    fn take(b: &[u8], pos: usize) -> (r: Option<(UserResponse, usize)>) {
        let (id, at1) = match take_varint(b, pos, false) {
            None => { return None; },
            Some(x) => x,
        };
        assert(b@.skip(pos as int).skip(at1 - pos) =~= b@.skip(at1 as int));
        let (name, at2) = match take_text(b, at1) {
            None => { return None; },
            Some(x) => x,
        };
        assert(b@.skip(at1 as int).skip(at2 - at1) =~= b@.skip(at2 as int));
        let (gid, at3) = match take_varint(b, at2, false) {
            None => { return None; },
            Some(x) => x,
        };
        assert(b@.skip(at2 as int).skip(at3 - at2) =~= b@.skip(at3 as int));
        let (email, at4) = match take_text(b, at3) {
            None => { return None; },
            Some(x) => x,
        };
        assert(b@.skip(at3 as int).skip(at4 - at3) =~= b@.skip(at4 as int));
        let (shell, at5) = match take_text(b, at4) {
            None => { return None; },
            Some(x) => x,
        };
        proof {
            lemma_parse_varint_bound(b@.skip(pos as int), false);
            lemma_parse_varint_bound(b@.skip(at2 as int), false);
        }
        Some((UserResponse { id: id as u32, name, gid: gid as u32, email, shell }, at5))
    }
}

/// The number that stands for a kind of group.
pub open spec fn group_type_number(t: GroupType) -> u64 {
    match t {
        GroupType::Immutable => 0,
        GroupType::Host => 1,
        GroupType::User => 2,
        GroupType::Generic => 3,
        GroupType::Local => 4,
    }
}

/// The kind of group that a number stands for, if it stands for one.
pub open spec fn group_type_of(n: u64) -> Option<GroupType> {
    if n == 0 {
        Some(GroupType::Immutable)
    } else if n == 1 {
        Some(GroupType::Host)
    } else if n == 2 {
        Some(GroupType::User)
    } else if n == 3 {
        Some(GroupType::Generic)
    } else if n == 4 {
        Some(GroupType::Local)
    } else {
        None
    }
}

impl GroupType {
    /// The number that stands for the kind.
    pub fn number(self) -> (r: u64)
        ensures
            r == group_type_number(self),
    {
        match self {
            GroupType::Immutable => 0,
            GroupType::Host => 1,
            GroupType::User => 2,
            GroupType::Generic => 3,
            GroupType::Local => 4,
        }
    }

    /// The kind that `n` stands for, if it stands for one.
    pub fn from_number(n: u64) -> (r: Option<GroupType>)
        ensures
            r == group_type_of(n),
    {
        if n == 0 {
            Some(GroupType::Immutable)
        } else if n == 1 {
            Some(GroupType::Host)
        } else if n == 2 {
            Some(GroupType::User)
        } else if n == 3 {
            Some(GroupType::Generic)
        } else if n == 4 {
            Some(GroupType::Local)
        } else {
            None
        }
    }
}

impl Wire for GroupResponse {
    type Plain = GroupView;

    open spec fn plain(&self) -> GroupView {
        self@
    }

    open spec fn fits(v: GroupView) -> bool {
        &&& encode_utf8(v.name).len() <= u64::MAX
        &&& list_fits::<String>(v.members)
    }

    /// The fields in the order in which the record declares them.
    open spec fn wire(v: GroupView) -> Seq<u8> {
        varint(v.id as u64) + (text(v.name) + (varint(group_type_number(v.typ)) + list::<String>(
            v.members,
        )))
    }

    open spec fn parse(b: Seq<u8>) -> Option<(GroupView, nat)> {
        match parse_varint(b, false) {
            None => None,
            Some((id, n1)) => {
                let b1 = b.skip(n1 as int);
                match parse_text(b1) {
                    None => None,
                    Some((name, n2)) => {
                        let b2 = b1.skip(n2 as int);
                        match parse_varint(b2, false) {
                            None => None,
                            Some((kind, n3)) => match group_type_of(kind) {
                                None => None,
                                Some(typ) => match parse_list::<String>(b2.skip(n3 as int)) {
                                    None => None,
                                    Some((members, n4)) => Some(
                                        (
                                            GroupView { id: id as u32, name, typ, members },
                                            n1 + n2 + n3 + n4,
                                        ),
                                    ),
                                },
                            },
                        }
                    },
                }
            },
        }
    }

    proof fn lemma_round_trip(v: GroupView, rest: Seq<u8>) {
        let b = Self::wire(v) + rest;
        let r3 = list::<String>(v.members) + rest;
        let r2 = varint(group_type_number(v.typ)) + r3;
        let r1 = text(v.name) + r2;
        assert(b =~= varint(v.id as u64) + r1);
        lemma_parse_varint(v.id as u64, false, r1);
        lemma_skip_prefix(varint(v.id as u64), r1);
        lemma_parse_text(v.name, r2);
        lemma_skip_prefix(text(v.name), r2);
        lemma_parse_varint(group_type_number(v.typ), false, r3);
        lemma_skip_prefix(varint(group_type_number(v.typ)), r3);
        lemma_parse_list::<String>(v.members, rest);
    }

    proof fn lemma_parse_bound(b: Seq<u8>) {
        lemma_parse_varint_bound(b, false);
        match parse_varint(b, false) {
            None => {},
            Some((id, n1)) => {
                let b1 = b.skip(n1 as int);
                lemma_parse_text_bound(b1);
                match parse_text(b1) {
                    None => {},
                    Some((name, n2)) => {
                        let b2 = b1.skip(n2 as int);
                        lemma_parse_varint_bound(b2, false);
                        match parse_varint(b2, false) {
                            None => {},
                            Some((kind, n3)) => {
                                lemma_parse_list_bound::<String>(b2.skip(n3 as int));
                            },
                        }
                    },
                }
            },
        }
    }

    fn put(&self, out: &mut Vec<u8>) {
        put_varint(out, self.id as u64);
        put_text(out, self.name.as_str());
        put_varint(out, self.typ.number());
        put_list(out, &self.members);
        assert(final(out)@ =~= old(out)@ + Self::wire(self.plain()));
    }

    fn take(b: &[u8], pos: usize) -> (r: Option<(GroupResponse, usize)>) {
        let (id, at1) = match take_varint(b, pos, false) {
            None => { return None; },
            Some(x) => x,
        };
        assert(b@.skip(pos as int).skip(at1 - pos) =~= b@.skip(at1 as int));
        let (name, at2) = match take_text(b, at1) {
            None => { return None; },
            Some(x) => x,
        };
        assert(b@.skip(at1 as int).skip(at2 - at1) =~= b@.skip(at2 as int));
        let (kind, at3) = match take_varint(b, at2, false) {
            None => { return None; },
            Some(x) => x,
        };
        assert(b@.skip(at2 as int).skip(at3 - at2) =~= b@.skip(at3 as int));
        let typ = match GroupType::from_number(kind) {
            None => { return None; },
            Some(x) => x,
        };
        let (members, at4) = match take_list::<String>(b, at3) {
            None => { return None; },
            Some(x) => x,
        };
        proof {
            lemma_parse_varint_bound(b@.skip(pos as int), false);
        }
        Some((GroupResponse { id: id as u32, name, typ, members }, at4))
    }
}

impl Wire for HostResponse {
    type Plain = HostView;

    open spec fn plain(&self) -> HostView {
        self@
    }

    open spec fn fits(v: HostView) -> bool {
        &&& encode_utf8(v.id).len() <= u64::MAX
        &&& encode_utf8(v.name).len() <= u64::MAX
        &&& list_fits::<String>(v.aliases)
        &&& list_fits::<IpAddress>(v.addresses)
    }

    /// The fields in the order in which the record declares them.
    open spec fn wire(v: HostView) -> Seq<u8> {
        text(v.id) + (text(v.name) + (list::<String>(v.aliases) + list::<IpAddress>(v.addresses)))
    }

    open spec fn parse(b: Seq<u8>) -> Option<(HostView, nat)> {
        match parse_text(b) {
            None => None,
            Some((id, n1)) => {
                let b1 = b.skip(n1 as int);
                match parse_text(b1) {
                    None => None,
                    Some((name, n2)) => {
                        let b2 = b1.skip(n2 as int);
                        match parse_list::<String>(b2) {
                            None => None,
                            Some((aliases, n3)) => match parse_list::<IpAddress>(
                                b2.skip(n3 as int),
                            ) {
                                None => None,
                                Some((addresses, n4)) => Some(
                                    (HostView { id, name, aliases, addresses }, n1 + n2 + n3 + n4),
                                ),
                            },
                        }
                    },
                }
            },
        }
    }

    proof fn lemma_round_trip(v: HostView, rest: Seq<u8>) {
        let b = Self::wire(v) + rest;
        let r3 = list::<IpAddress>(v.addresses) + rest;
        let r2 = list::<String>(v.aliases) + r3;
        let r1 = text(v.name) + r2;
        assert(b =~= text(v.id) + r1);
        lemma_parse_text(v.id, r1);
        lemma_skip_prefix(text(v.id), r1);
        lemma_parse_text(v.name, r2);
        lemma_skip_prefix(text(v.name), r2);
        lemma_parse_list::<String>(v.aliases, r3);
        lemma_skip_prefix(list::<String>(v.aliases), r3);
        lemma_parse_list::<IpAddress>(v.addresses, rest);
    }

    proof fn lemma_parse_bound(b: Seq<u8>) {
        lemma_parse_text_bound(b);
        match parse_text(b) {
            None => {},
            Some((id, n1)) => {
                let b1 = b.skip(n1 as int);
                lemma_parse_text_bound(b1);
                match parse_text(b1) {
                    None => {},
                    Some((name, n2)) => {
                        let b2 = b1.skip(n2 as int);
                        lemma_parse_list_bound::<String>(b2);
                        match parse_list::<String>(b2) {
                            None => {},
                            Some((aliases, n3)) => {
                                lemma_parse_list_bound::<IpAddress>(b2.skip(n3 as int));
                            },
                        }
                    },
                }
            },
        }
    }

    fn put(&self, out: &mut Vec<u8>) {
        put_text(out, self.id.as_str());
        put_text(out, self.name.as_str());
        put_list(out, &self.aliases);
        put_list(out, &self.addresses);
        assert(final(out)@ =~= old(out)@ + Self::wire(self.plain()));
    }

    fn take(b: &[u8], pos: usize) -> (r: Option<(HostResponse, usize)>) {
        let (id, at1) = match take_text(b, pos) {
            None => { return None; },
            Some(x) => x,
        };
        assert(b@.skip(pos as int).skip(at1 - pos) =~= b@.skip(at1 as int));
        let (name, at2) = match take_text(b, at1) {
            None => { return None; },
            Some(x) => x,
        };
        assert(b@.skip(at1 as int).skip(at2 - at1) =~= b@.skip(at2 as int));
        let (aliases, at3) = match take_list::<String>(b, at2) {
            None => { return None; },
            Some(x) => x,
        };
        assert(b@.skip(at2 as int).skip(at3 - at2) =~= b@.skip(at3 as int));
        let (addresses, at4) = match take_list::<IpAddress>(b, at3) {
            None => { return None; },
            Some(x) => x,
        };
        Some((HostResponse { id, name, aliases, addresses }, at4))
    }
}

impl GetentResponseView {
    /// Whether the answer can be written. This holds of every answer in
    /// memory.
    pub open spec fn fits(self) -> bool {
        match self {
            GetentResponseView::Users(l) => list_fits::<UserResponse>(l),
            GetentResponseView::User(u) => UserResponse::fits(u),
            GetentResponseView::Groups(l) => list_fits::<GroupResponse>(l),
            GetentResponseView::Group(g) => GroupResponse::fits(g),
            GetentResponseView::Hosts(l) => list_fits::<HostResponse>(l),
            GetentResponseView::Host(h) => HostResponse::fits(h),
        }
    }
}

/// The bytes of an answer: a number that tells the six kinds apart, in the
/// order in which they are declared, then the content.
pub open spec fn response_bytes(v: GetentResponseView) -> Seq<u8> {
    match v {
        GetentResponseView::Users(l) => varint(0) + list::<UserResponse>(l),
        GetentResponseView::User(u) => varint(1) + UserResponse::wire(u),
        GetentResponseView::Groups(l) => varint(2) + list::<GroupResponse>(l),
        GetentResponseView::Group(g) => varint(3) + GroupResponse::wire(g),
        GetentResponseView::Hosts(l) => varint(4) + list::<HostResponse>(l),
        GetentResponseView::Host(h) => varint(5) + HostResponse::wire(h),
    }
}

/// The answer at the start of `b`, if `b` starts with one. What follows
/// the answer is not looked at.
pub open spec fn parse_response(b: Seq<u8>) -> Option<GetentResponseView> {
    match parse_varint(b, false) {
        None => None,
        Some((kind, used)) => {
            let body = b.skip(used as int);
            if kind == 0 {
                match parse_list::<UserResponse>(body) {
                    None => None,
                    Some((l, n)) => Some(GetentResponseView::Users(l)),
                }
            } else if kind == 1 {
                match UserResponse::parse(body) {
                    None => None,
                    Some((u, n)) => Some(GetentResponseView::User(u)),
                }
            } else if kind == 2 {
                match parse_list::<GroupResponse>(body) {
                    None => None,
                    Some((l, n)) => Some(GetentResponseView::Groups(l)),
                }
            } else if kind == 3 {
                match GroupResponse::parse(body) {
                    None => None,
                    Some((g, n)) => Some(GetentResponseView::Group(g)),
                }
            } else if kind == 4 {
                match parse_list::<HostResponse>(body) {
                    None => None,
                    Some((l, n)) => Some(GetentResponseView::Hosts(l)),
                }
            } else if kind == 5 {
                match HostResponse::parse(body) {
                    None => None,
                    Some((h, n)) => Some(GetentResponseView::Host(h)),
                }
            } else {
                None
            }
        },
    }
}

/// An answer that was written is read back as it was, whatever follows it.
pub proof fn law_response_round_trip(v: GetentResponseView, rest: Seq<u8>)
    requires
        v.fits(),
    ensures
        parse_response(response_bytes(v) + rest) == Some(v),
{
    match v {
        GetentResponseView::Users(l) => {
            let body = list::<UserResponse>(l) + rest;
            assert(response_bytes(v) + rest =~= varint(0) + body);
            lemma_parse_varint(0, false, body);
            lemma_skip_prefix(varint(0), body);
            lemma_parse_list::<UserResponse>(l, rest);
        },
        GetentResponseView::User(u) => {
            let body = UserResponse::wire(u) + rest;
            assert(response_bytes(v) + rest =~= varint(1) + body);
            lemma_parse_varint(1, false, body);
            lemma_skip_prefix(varint(1), body);
            UserResponse::lemma_round_trip(u, rest);
        },
        GetentResponseView::Groups(l) => {
            let body = list::<GroupResponse>(l) + rest;
            assert(response_bytes(v) + rest =~= varint(2) + body);
            lemma_parse_varint(2, false, body);
            lemma_skip_prefix(varint(2), body);
            lemma_parse_list::<GroupResponse>(l, rest);
        },
        GetentResponseView::Group(g) => {
            let body = GroupResponse::wire(g) + rest;
            assert(response_bytes(v) + rest =~= varint(3) + body);
            lemma_parse_varint(3, false, body);
            lemma_skip_prefix(varint(3), body);
            GroupResponse::lemma_round_trip(g, rest);
        },
        GetentResponseView::Hosts(l) => {
            let body = list::<HostResponse>(l) + rest;
            assert(response_bytes(v) + rest =~= varint(4) + body);
            lemma_parse_varint(4, false, body);
            lemma_skip_prefix(varint(4), body);
            lemma_parse_list::<HostResponse>(l, rest);
        },
        GetentResponseView::Host(h) => {
            let body = HostResponse::wire(h) + rest;
            assert(response_bytes(v) + rest =~= varint(5) + body);
            lemma_parse_varint(5, false, body);
            lemma_skip_prefix(varint(5), body);
            HostResponse::lemma_round_trip(h, rest);
        },
    }
}

impl GetentResponse {
    /// The bytes of the answer. Read back, they give the answer again.
    pub fn encode(&self) -> (r: Vec<u8>)
        ensures
            r@ == response_bytes(self@),
            parse_response(r@) == Some(self@),
            self@.fits(),
    {
        let mut r: Vec<u8> = Vec::new();
        match self {
            GetentResponse::Users(l) => {
                put_varint(&mut r, 0);
                put_list(&mut r, l);
            },
            GetentResponse::User(u) => {
                put_varint(&mut r, 1);
                u.put(&mut r);
            },
            GetentResponse::Groups(l) => {
                put_varint(&mut r, 2);
                put_list(&mut r, l);
            },
            GetentResponse::Group(g) => {
                put_varint(&mut r, 3);
                g.put(&mut r);
            },
            GetentResponse::Hosts(l) => {
                put_varint(&mut r, 4);
                put_list(&mut r, l);
            },
            GetentResponse::Host(h) => {
                put_varint(&mut r, 5);
                h.put(&mut r);
            },
        }
        proof {
            assert(r@ =~= response_bytes(self@));
            law_response_round_trip(self@, Seq::<u8>::empty());
            assert(response_bytes(self@) + Seq::<u8>::empty() =~= response_bytes(self@));
        }
        r
    }

    /// The answer that `bytes` start with, if they start with one.
    pub fn decode(bytes: &[u8]) -> (r: Option<GetentResponse>)
        ensures
            match parse_response(bytes@) {
                None => r is None,
                Some(v) => r matches Some(got) && got@ == v,
            },
    {
        assert(bytes@.skip(0) =~= bytes@);
        let (kind, at) = match take_varint(bytes, 0, false) {
            None => { return None; },
            Some(x) => x,
        };
        assert(bytes@.skip(at as int) =~= bytes@.skip(0).skip(at as int));
        if kind == 0 {
            match take_list::<UserResponse>(bytes, at) {
                None => None,
                Some((l, _)) => Some(GetentResponse::Users(l)),
            }
        } else if kind == 1 {
            match UserResponse::take(bytes, at) {
                None => None,
                Some((u, _)) => Some(GetentResponse::User(u)),
            }
        } else if kind == 2 {
            match take_list::<GroupResponse>(bytes, at) {
                None => None,
                Some((l, _)) => Some(GetentResponse::Groups(l)),
            }
        } else if kind == 3 {
            match GroupResponse::take(bytes, at) {
                None => None,
                Some((g, _)) => Some(GetentResponse::Group(g)),
            }
        } else if kind == 4 {
            match take_list::<HostResponse>(bytes, at) {
                None => None,
                Some((l, _)) => Some(GetentResponse::Hosts(l)),
            }
        } else if kind == 5 {
            match HostResponse::take(bytes, at) {
                None => None,
                Some((h, _)) => Some(GetentResponse::Host(h)),
            }
        } else {
            None
        }
    }
}

} // verus!
