//! The name-service module: it turns the machine's questions about users,
//! groups and hosts into requests to the proxy, and the proxy's answers
//! into the entries that the machine expects.

use vstd::prelude::*;
use vstd::string::StringExecFns;
use crate::api_types::GetentResponse;
use crate::api_types::GroupResponse;
use crate::api_types::HostResponse;
use crate::api_types::IpAddress;
use crate::api_types::UserResponse;
use crate::getent_wire::parse_response;
use crate::remote::is_success;
use crate::remote::spec_is_success;
use crate::text::concat2;
use crate::text::decimal;
use crate::text::push_decimal;

verus! {

/// The lowest number that the directory gives to a user or a group. A
/// lower number is not the directory's, and is not asked after.
pub const MIN_ID: u32 = 100_000;

/// The name-service module.
#[derive(Debug, Clone, PartialEq, Eq)]
pub struct RauthyNss;

/// What the module answers the machine.
#[derive(Debug, Clone, PartialEq, Eq)]
pub enum Response<T> {
    Success(T),
    /// There is no such entry.
    NotFound,
    /// The directory cannot be used.
    Unavail,
    /// The directory could not be reached; it may be later.
    TryAgain,
}

/// An entry of the user database.
#[derive(Debug, Clone, PartialEq, Eq)]
pub struct Passwd {
    pub name: String,
    pub passwd: String,
    pub uid: u32,
    pub gid: u32,
    pub gecos: String,
    pub dir: String,
    pub shell: String,
}

/// An entry of the group database.
#[derive(Debug, Clone, PartialEq, Eq)]
pub struct Group {
    pub name: String,
    pub passwd: String,
    pub gid: u32,
    pub members: Vec<String>,
}

/// The kind of address that is asked for.
#[derive(Debug, Clone, Copy, PartialEq, Eq, Structural)]
pub enum AddressFamily {
    IPv4,
    IPv6,
    Unspecified,
}

/// The addresses of a host, all of one kind.
#[derive(Debug, Clone, PartialEq, Eq)]
pub enum Addresses {
    V4(Vec<[u8; 4]>),
    V6(Vec<[u8; 16]>),
}

/// An entry of the host database.
#[derive(Debug, Clone, PartialEq, Eq)]
pub struct Host {
    pub name: String,
    pub aliases: Vec<String>,
    pub addresses: Addresses,
}

/// The addresses of four bytes among `addrs`, in their order.
pub open spec fn v4_of(addrs: Seq<IpAddress>) -> Seq<[u8; 4]>
    decreases addrs.len(),
{
    if addrs.len() == 0 {
        Seq::<[u8; 4]>::empty()
    } else {
        match addrs.last() {
            IpAddress::V4(a) => v4_of(addrs.drop_last()).push(a),
            IpAddress::V6(_) => v4_of(addrs.drop_last()),
        }
    }
}

/// The addresses of sixteen bytes among `addrs`, in their order.
pub open spec fn v6_of(addrs: Seq<IpAddress>) -> Seq<[u8; 16]>
    decreases addrs.len(),
{
    if addrs.len() == 0 {
        Seq::<[u8; 16]>::empty()
    } else {
        match addrs.last() {
            IpAddress::V4(_) => v6_of(addrs.drop_last()),
            IpAddress::V6(a) => v6_of(addrs.drop_last()).push(a),
        }
    }
}

/// The addresses of `addrs`, those of four bytes apart from those of
/// sixteen.
pub fn split_addrs(addrs: &Vec<IpAddress>) -> (r: (Vec<[u8; 4]>, Vec<[u8; 16]>))
    ensures
        r.0@ == v4_of(addrs@),
        r.1@ == v6_of(addrs@),
{
    let mut v4: Vec<[u8; 4]> = Vec::new();
    let mut v6: Vec<[u8; 16]> = Vec::new();
    let n = addrs.len();
    let mut i: usize = 0;
    proof {
        assert(addrs@.take(0) =~= Seq::<IpAddress>::empty());
    }
    while i < n
        invariant
            i <= n,
            n == addrs@.len(),
            v4@ == v4_of(addrs@.take(i as int)),
            v6@ == v6_of(addrs@.take(i as int)),
        decreases n - i,
    {
        proof {
            assert(addrs@.take(i + 1).drop_last() =~= addrs@.take(i as int));
            assert(addrs@.take(i + 1).last() == addrs@[i as int]);
        }
        match addrs[i] {
            IpAddress::V4(a) => v4.push(a),
            IpAddress::V6(a) => v6.push(a),
        }
        i = i + 1;
    }
    proof {
        assert(addrs@.take(n as int) =~= addrs@);
    }
    (v4, v6)
}

/// The addresses to answer with where no kind was asked for: those of four
/// bytes if there are any, else those of sixteen.
pub fn dyn_addr(v4: Vec<[u8; 4]>, v6: Vec<[u8; 16]>) -> (r: Addresses)
    ensures
        r == if v4@.len() == 0 {
            Addresses::V6(v6)
        } else {
            Addresses::V4(v4)
        },
{
    if v4.is_empty() {
        Addresses::V6(v6)
    } else {
        Addresses::V4(v4)
    }
}

/// Whether a host with the addresses `addrs` is answered with its
/// addresses of four bytes, where the kind `family` is asked for.
pub open spec fn answers_v4(addrs: Seq<IpAddress>, family: AddressFamily) -> bool {
    match family {
        AddressFamily::IPv4 => true,
        AddressFamily::IPv6 => false,
        AddressFamily::Unspecified => v4_of(addrs).len() != 0,
    }
}

impl RauthyNss {
    /// Whether a number may be the directory's.
    pub open spec fn spec_is_directory_id(id: u32) -> bool {
        id >= MIN_ID
    }

    /// Whether a number may be the directory's. For one that may not, the
    /// answer is [`Response::NotFound`], and the proxy is not asked.
    #[verifier::when_used_as_spec(spec_is_directory_id)]
    pub fn is_directory_id(id: u32) -> (r: bool)
        ensures
            r == Self::spec_is_directory_id(id),
    {
        id >= MIN_ID
    }

    /// The path at which the proxy lists all users.
    pub fn path_users() -> (r: &'static str)
        ensures
            r@ == "/getent/users"@,
    {
        "/getent/users"
    }

    /// The path at which the proxy tells of the user with the number
    /// `uid`.
    pub fn path_user_by_uid(uid: u32) -> (r: String)
        ensures
            r@ == "/getent/users/uid/"@ + decimal(uid as nat),
    {
        let mut r = String::from_str("/getent/users/uid/");
        push_decimal(&mut r, uid as u64);
        r
    }

    /// What to ask the proxy for the user with the number `uid`: the path,
    /// or that there is no such user, where the number is not the
    /// directory's. The proxy is not asked then.
    pub fn request_user_by_uid(uid: u32) -> (r: Response<String>)
        ensures
            match r {
                Response::Success(path) => Self::spec_is_directory_id(uid) && path@
                    == "/getent/users/uid/"@ + decimal(uid as nat),
                Response::NotFound => !Self::spec_is_directory_id(uid),
                _ => false,
            },
    {
        if Self::is_directory_id(uid) {
            Response::Success(Self::path_user_by_uid(uid))
        } else {
            Response::NotFound
        }
    }

    /// What to ask the proxy for the group with the number `gid`: the
    /// path, or that there is no such group, where the number is not the
    /// directory's. The proxy is not asked then.
    pub fn request_group_by_gid(gid: u32) -> (r: Response<String>)
        ensures
            match r {
                Response::Success(path) => Self::spec_is_directory_id(gid) && path@
                    == "/getent/groups/gid/"@ + decimal(gid as nat),
                Response::NotFound => !Self::spec_is_directory_id(gid),
                _ => false,
            },
    {
        if Self::is_directory_id(gid) {
            Response::Success(Self::path_group_by_gid(gid))
        } else {
            Response::NotFound
        }
    }

    /// The path at which the proxy tells of the user with the name `name`.
    pub fn path_user_by_name(name: &str) -> (r: String)
        ensures
            r@ == "/getent/users/name/"@ + name@,
    {
        concat2("/getent/users/name/", name)
    }

    /// The path at which the proxy lists all groups.
    pub fn path_groups() -> (r: &'static str)
        ensures
            r@ == "/getent/groups"@,
    {
        "/getent/groups"
    }

    /// The path at which the proxy tells of the group with the number
    /// `gid`.
    pub fn path_group_by_gid(gid: u32) -> (r: String)
        ensures
            r@ == "/getent/groups/gid/"@ + decimal(gid as nat),
    {
        let mut r = String::from_str("/getent/groups/gid/");
        push_decimal(&mut r, gid as u64);
        r
    }

    /// The path at which the proxy tells of the group with the name
    /// `name`.
    pub fn path_group_by_name(name: &str) -> (r: String)
        ensures
            r@ == "/getent/groups/name/"@ + name@,
    {
        concat2("/getent/groups/name/", name)
    }

    /// The path at which the proxy lists all hosts.
    pub fn path_hosts() -> (r: &'static str)
        ensures
            r@ == "/getent/hosts"@,
    {
        "/getent/hosts"
    }

    /// The path at which the proxy tells of the host with the name `name`.
    pub fn path_host_by_name(name: &str) -> (r: String)
        ensures
            r@ == "/getent/hosts/name/"@ + name@,
    {
        concat2("/getent/hosts/name/", name)
    }

    /// The path at which the proxy tells of the host with the address
    /// `addr`, written as text.
    pub fn path_host_by_addr(addr: &str) -> (r: String)
        ensures
            r@ == "/getent/hosts/ip/"@ + addr@,
    {
        concat2("/getent/hosts/ip/", addr)
    }

    /// The answer that the proxy's reply holds, or what to answer the
    /// machine in its place. `reply` is the status and the body, or `None`
    /// where the proxy could not be reached.
    pub fn read_reply(reply: Option<(u16, &[u8])>) -> (r: Response<GetentResponse>)
        ensures
            match reply {
                None => r is TryAgain,
                Some((status, body)) => {
                    if !spec_is_success(status) {
                        r is Unavail
                    } else {
                        match parse_response(body@) {
                            None => r is Unavail,
                            Some(v) => r matches Response::Success(answer) && answer@ == v,
                        }
                    }
                },
            },
    {
        match reply {
            None => Response::TryAgain,
            Some((status, body)) => {
                if !is_success(status) {
                    Response::Unavail
                } else {
                    match GetentResponse::decode(body) {
                        None => Response::Unavail,
                        Some(answer) => Response::Success(answer),
                    }
                }
            },
        }
    }

    /// The entry of the user database for `user`. The home directory is
    /// the user's name below `/home`.
    pub fn passwd_of(user: UserResponse) -> (r: Passwd)
        ensures
            passwd_matches(r, user),
    {
        let dir = concat2("/home/", user.name.as_str());
        Passwd {
            name: user.name,
            passwd: String::from_str("x"),
            uid: user.id,
            gid: user.gid,
            gecos: user.email,
            dir,
            shell: user.shell,
        }
    }

    /// The entry of the group database for `group`.
    pub fn group_of(group: GroupResponse) -> (r: Group)
        ensures
            group_matches(r, group),
    {
        Group {
            name: group.name,
            passwd: String::from_str("x"),
            gid: group.id,
            members: group.members,
        }
    }

    /// The entry of the host database for `host`, with its addresses of the
    /// kind `family`. Where no kind is asked for, the addresses of four
    /// bytes are given if there are any, else those of sixteen.
    pub fn host_of(host: HostResponse, family: AddressFamily) -> (r: Host)
        ensures
            host_matches(r, host, family),
    {
        let (v4, v6) = split_addrs(&host.addresses);
        let addresses = match family {
            AddressFamily::IPv4 => Addresses::V4(v4),
            AddressFamily::IPv6 => Addresses::V6(v6),
            AddressFamily::Unspecified => dyn_addr(v4, v6),
        };
        Host { name: host.name, aliases: host.aliases, addresses }
    }
}

/// The questions about users.
pub trait PasswdHooks {
    /// The entries of all users of `answer`.
    fn get_all_entries(answer: GetentResponse) -> (r: Response<Vec<Passwd>>)
        requires
            answer is Users,
        ensures
            r matches Response::Success(entries) && entries@.len() == answer->Users_0@.len()
                && forall|i: int|
                0 <= i < entries@.len() ==> passwd_matches(
                    #[trigger] entries@[i],
                    answer->Users_0@[i],
                ),
    ;

    /// The entry of the user with the number `uid`. Where the number is not
    /// the directory's there is no such user, whatever `answer` holds: the
    /// proxy need not be asked then. Otherwise `answer` is what the proxy
    /// said of that user.
    fn get_entry_by_uid(uid: u32, answer: Option<GetentResponse>) -> (r: Response<Passwd>)
        requires
            RauthyNss::spec_is_directory_id(uid) ==> (answer matches Some(a) && a is User),
        ensures
            !RauthyNss::spec_is_directory_id(uid) ==> r is NotFound,
            RauthyNss::spec_is_directory_id(uid) ==> (r matches Response::Success(entry)
                && passwd_matches(entry, answer->Some_0->User_0)),
    ;

    /// The entry of the user of `answer`.
    fn get_entry_by_name(answer: GetentResponse) -> (r: Response<Passwd>)
        requires
            answer is User,
        ensures
            r matches Response::Success(entry) && passwd_matches(entry, answer->User_0),
    ;
}

/// Whether `entry` is the entry of the user database for `user`.
pub open spec fn passwd_matches(entry: Passwd, user: UserResponse) -> bool {
    &&& entry.name == user.name
    &&& entry.passwd@ == "x"@
    &&& entry.uid == user.id
    &&& entry.gid == user.gid
    &&& entry.gecos == user.email
    &&& entry.dir@ == "/home/"@ + user.name@
    &&& entry.shell == user.shell
}

/// Whether `entry` is the entry of the group database for `group`.
pub open spec fn group_matches(entry: Group, group: GroupResponse) -> bool {
    &&& entry.name == group.name
    &&& entry.passwd@ == "x"@
    &&& entry.gid == group.id
    &&& entry.members == group.members
}

/// Whether `entry` is the entry of the host database for `host` with its
/// addresses of the kind `family`.
pub open spec fn host_matches(entry: Host, host: HostResponse, family: AddressFamily) -> bool {
    &&& entry.name == host.name
    &&& entry.aliases == host.aliases
    &&& match entry.addresses {
        Addresses::V4(a) => answers_v4(host.addresses@, family) && a@ == v4_of(host.addresses@),
        Addresses::V6(a) => !answers_v4(host.addresses@, family) && a@ == v6_of(host.addresses@),
    }
}

impl PasswdHooks for RauthyNss {
    fn get_all_entries(answer: GetentResponse) -> (r: Response<Vec<Passwd>>) {
        match answer {
            GetentResponse::Users(users) => {
                let ghost all = users@;
                let mut entries: Vec<Passwd> = Vec::new();
                for user in it: users
                    invariant
                        it.seq() == all,
                        entries@.len() == it.index(),
                        forall|k: int|
                            0 <= k < entries@.len() ==> passwd_matches(
                                #[trigger] entries@[k],
                                all[k],
                            ),
                {
                    entries.push(Self::passwd_of(user));
                }
                Response::Success(entries)
            },
            _ => Response::Unavail,
        }
    }

    fn get_entry_by_uid(uid: u32, answer: Option<GetentResponse>) -> (r: Response<Passwd>) {
        if !Self::is_directory_id(uid) {
            return Response::NotFound;
        }
        match answer {
            Some(GetentResponse::User(user)) => Response::Success(Self::passwd_of(user)),
            _ => Response::Unavail,
        }
    }

    fn get_entry_by_name(answer: GetentResponse) -> (r: Response<Passwd>) {
        match answer {
            GetentResponse::User(user) => Response::Success(Self::passwd_of(user)),
            _ => Response::Unavail,
        }
    }
}

/// The questions about groups.
pub trait GroupHooks {
    /// The entries of all groups of `answer`.
    fn get_all_entries(answer: GetentResponse) -> (r: Response<Vec<Group>>)
        requires
            answer is Groups,
        ensures
            r matches Response::Success(entries) && entries@.len() == answer->Groups_0@.len()
                && forall|i: int|
                0 <= i < entries@.len() ==> group_matches(
                    #[trigger] entries@[i],
                    answer->Groups_0@[i],
                ),
    ;

    /// The entry of the group with the number `gid`. Where the number is
    /// not the directory's there is no such group, whatever `answer` holds:
    /// the proxy need not be asked then. Otherwise `answer` is what the
    /// proxy said of that group.
    fn get_entry_by_gid(gid: u32, answer: Option<GetentResponse>) -> (r: Response<Group>)
        requires
            RauthyNss::spec_is_directory_id(gid) ==> (answer matches Some(a) && a is Group),
        ensures
            !RauthyNss::spec_is_directory_id(gid) ==> r is NotFound,
            RauthyNss::spec_is_directory_id(gid) ==> (r matches Response::Success(entry)
                && group_matches(entry, answer->Some_0->Group_0)),
    ;

    /// The entry of the group of `answer`.
    fn get_entry_by_name(answer: GetentResponse) -> (r: Response<Group>)
        requires
            answer is Group,
        ensures
            r matches Response::Success(entry) && group_matches(entry, answer->Group_0),
    ;
}

impl GroupHooks for RauthyNss {
    fn get_all_entries(answer: GetentResponse) -> (r: Response<Vec<Group>>) {
        match answer {
            GetentResponse::Groups(groups) => {
                let ghost all = groups@;
                let mut entries: Vec<Group> = Vec::new();
                for group in it: groups
                    invariant
                        it.seq() == all,
                        entries@.len() == it.index(),
                        forall|k: int|
                            0 <= k < entries@.len() ==> group_matches(
                                #[trigger] entries@[k],
                                all[k],
                            ),
                {
                    entries.push(Self::group_of(group));
                }
                Response::Success(entries)
            },
            _ => Response::Unavail,
        }
    }

    fn get_entry_by_gid(gid: u32, answer: Option<GetentResponse>) -> (r: Response<Group>) {
        if !Self::is_directory_id(gid) {
            return Response::NotFound;
        }
        match answer {
            Some(GetentResponse::Group(group)) => Response::Success(Self::group_of(group)),
            _ => Response::Unavail,
        }
    }

    fn get_entry_by_name(answer: GetentResponse) -> (r: Response<Group>) {
        match answer {
            GetentResponse::Group(group) => Response::Success(Self::group_of(group)),
            _ => Response::Unavail,
        }
    }
}

/// The questions about hosts.
pub trait HostHooks {
    /// The entries of all hosts of `answer`, each with the addresses that
    /// are given where no kind is asked for.
    fn get_all_entries(answer: GetentResponse) -> (r: Response<Vec<Host>>)
        requires
            answer is Hosts,
        ensures
            r matches Response::Success(entries) && entries@.len() == answer->Hosts_0@.len()
                && forall|i: int|
                0 <= i < entries@.len() ==> host_matches(
                    #[trigger] entries@[i],
                    answer->Hosts_0@[i],
                    AddressFamily::Unspecified,
                ),
    ;

    /// The entry of the host of `answer`, with its addresses of the kind
    /// `family`.
    fn get_host_by_name(answer: GetentResponse, family: AddressFamily) -> (r: Response<Host>)
        requires
            answer is Host,
        ensures
            r matches Response::Success(entry) && host_matches(entry, answer->Host_0, family),
    ;

    /// The entry of the host of `answer`, with the addresses that are
    /// given where no kind is asked for.
    fn get_host_by_addr(answer: GetentResponse) -> (r: Response<Host>)
        requires
            answer is Host,
        ensures
            r matches Response::Success(entry) && host_matches(
                entry,
                answer->Host_0,
                AddressFamily::Unspecified,
            ),
    ;
}

impl HostHooks for RauthyNss {
    fn get_all_entries(answer: GetentResponse) -> (r: Response<Vec<Host>>) {
        match answer {
            GetentResponse::Hosts(hosts) => {
                let ghost all = hosts@;
                let mut entries: Vec<Host> = Vec::new();
                for host in it: hosts
                    invariant
                        it.seq() == all,
                        entries@.len() == it.index(),
                        forall|k: int|
                            0 <= k < entries@.len() ==> host_matches(
                                #[trigger] entries@[k],
                                all[k],
                                AddressFamily::Unspecified,
                            ),
                {
                    entries.push(Self::host_of(host, AddressFamily::Unspecified));
                }
                Response::Success(entries)
            },
            _ => Response::Unavail,
        }
    }

    fn get_host_by_name(answer: GetentResponse, family: AddressFamily) -> (r: Response<Host>) {
        match answer {
            GetentResponse::Host(host) => Response::Success(Self::host_of(host, family)),
            _ => Response::Unavail,
        }
    }

    fn get_host_by_addr(answer: GetentResponse) -> (r: Response<Host>) {
        match answer {
            GetentResponse::Host(host) => Response::Success(
                Self::host_of(host, AddressFamily::Unspecified),
            ),
            _ => Response::Unavail,
        }
    }
}

} // verus!
