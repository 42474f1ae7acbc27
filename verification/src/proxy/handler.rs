//! How the proxy answers a question about users, groups or hosts: from what
//! it remembers where it can, else from the provider's directory.
//!
//! One question is a state machine. The caller asks the directory and
//! reads the machine's group file when the machine says so, and hands the
//! result back as the next event.

use vstd::prelude::*;
use vstd::string::StringExecFns;
use crate::api_types::Getent;
use crate::api_types::GetentResponse;
use crate::api_types::GetentResponseView;
use crate::api_types::GroupResponse;
use crate::api_types::GroupType;
use crate::api_types::GroupView;
use crate::api_types::IpAddress;
use crate::api_types::IpAddressView;
use crate::clock::unix_now;
use crate::getent_wire::response_bytes;
use crate::proxy::cache::Cache;
use crate::proxy::cache::CacheValueView;
use crate::proxy::cache::expiry;
use crate::proxy::config::Config;
use crate::proxy::error::Error;
use crate::proxy::error::ErrorType;
use crate::proxy::groups_local::GroupLocal;
use crate::proxy::groups_local::GroupLocalView;
use crate::text::concat2;
use crate::text::decimal;
use crate::text::push_decimal;
use crate::wire::plain_list;

verus! {

/// The answer to a question: the bytes of the body of a successful answer,
/// or the failure.
pub type ApiResponse = Result<Vec<u8>, Error>;

/// The key under which the list of all users is remembered.
pub const CACHE_KEY_USERS: &'static str = "$users$";

/// The key under which the list of all groups is remembered.
pub const CACHE_KEY_GROUPS: &'static str = "$groups$";

/// The key under which the list of all hosts is remembered.
pub const CACHE_KEY_HOSTS: &'static str = "$hosts$";

/// For how many seconds it is remembered that the directory could not be
/// asked.
pub const FAILURE_TTL: u32 = 10;

/// The bytes `bytes` as numbers with dots between them.
pub open spec fn dotted(bytes: Seq<u8>) -> Seq<char>
    decreases bytes.len(),
{
    if bytes.len() == 0 {
        Seq::<char>::empty()
    } else if bytes.len() == 1 {
        decimal(bytes[0] as nat)
    } else {
        dotted(bytes.drop_last()) + "."@ + decimal(bytes.last() as nat)
    }
}

/// Appends the bytes `bytes` to `out` as numbers with dots between them.
pub fn push_dotted(out: &mut String, bytes: &[u8])
    ensures
        final(out)@ == old(out)@ + dotted(bytes@),
{
    let n = bytes.len();
    let mut i: usize = 0;
    proof {
        assert(bytes@.take(0) =~= Seq::<u8>::empty());
        assert(old(out)@ + dotted(bytes@.take(0)) =~= old(out)@);
    }
    while i < n
        invariant
            i <= n,
            n == bytes@.len(),
            out@ == old(out)@ + dotted(bytes@.take(i as int)),
        decreases n - i,
    {
        let ghost before = out@;
        proof {
            assert(bytes@.take(i + 1).drop_last() =~= bytes@.take(i as int));
            assert(bytes@.take(i + 1).last() == bytes@[i as int]);
        }
        if i > 0 {
            out.append(".");
        }
        push_decimal(out, bytes[i] as u64);
        proof {
            if i > 0 {
                assert(out@ =~= old(out)@ + (dotted(bytes@.take(i as int)) + "."@ + decimal(
                    bytes@[i as int] as nat,
                )));
            } else {
                assert(dotted(bytes@.take(0)) =~= Seq::<char>::empty());
                assert(out@ =~= old(out)@ + decimal(bytes@[0] as nat));
            }
        }
        i = i + 1;
    }
    proof {
        assert(bytes@.take(n as int) =~= bytes@);
    }
}

/// The bytes of an address.
pub open spec fn address_bytes(ip: IpAddressView) -> Seq<u8> {
    match ip {
        IpAddressView::V4(a) => a,
        IpAddressView::V6(a) => a,
    }
}

/// The key under which the answer to `getent` is remembered.
pub open spec fn spec_cache_key(getent: Getent) -> Seq<char> {
    match getent {
        Getent::Users => CACHE_KEY_USERS@,
        Getent::Username(name) => "u_"@ + name@,
        Getent::UserId(uid) => "u_"@ + decimal(uid as nat),
        Getent::Groups => CACHE_KEY_GROUPS@,
        Getent::Groupname(name) => "g_"@ + name@,
        Getent::GroupId(gid) => "g_"@ + decimal(gid as nat),
        Getent::Hosts => CACHE_KEY_HOSTS@,
        Getent::Hostname(name) => "h_"@ + name@,
        Getent::HostIp(ip) => "h_"@ + dotted(address_bytes(ip@)),
    }
}

/// The key under which the answer to `getent` is remembered.
pub fn cache_key(getent: &Getent) -> (r: String)
    ensures
        r@ == spec_cache_key(*getent),
{
    match getent {
        Getent::Users => String::from_str(CACHE_KEY_USERS),
        Getent::Username(name) => concat2("u_", name.as_str()),
        Getent::UserId(uid) => {
            let mut r = String::from_str("u_");
            push_decimal(&mut r, *uid as u64);
            r
        },
        Getent::Groups => String::from_str(CACHE_KEY_GROUPS),
        Getent::Groupname(name) => concat2("g_", name.as_str()),
        Getent::GroupId(gid) => {
            let mut r = String::from_str("g_");
            push_decimal(&mut r, *gid as u64);
            r
        },
        Getent::Hosts => String::from_str(CACHE_KEY_HOSTS),
        Getent::Hostname(name) => concat2("h_", name.as_str()),
        Getent::HostIp(ip) => {
            let mut r = String::from_str("h_");
            match ip {
                IpAddress::V4(a) => push_dotted(&mut r, a.as_slice()),
                IpAddress::V6(a) => push_dotted(&mut r, a.as_slice()),
            }
            r
        },
    }
}

/// For how many seconds the answer to `getent` is remembered.
pub open spec fn spec_ttl(getent: Getent, config: Config) -> u32 {
    match getent {
        Getent::Users | Getent::UserId(_) | Getent::Username(_) => config.cache_ttl_users,
        Getent::Groups | Getent::GroupId(_) | Getent::Groupname(_) => config.cache_ttl_groups,
        Getent::Hosts | Getent::Hostname(_) | Getent::HostIp(_) => config.cache_ttl_hosts,
    }
}

/// For how many seconds the answer to `getent` is remembered.
pub fn ttl(getent: &Getent, config: &Config) -> (r: u32)
    ensures
        r == spec_ttl(*getent, *config),
{
    match getent {
        Getent::Users | Getent::UserId(_) | Getent::Username(_) => config.cache_ttl_users,
        Getent::Groups | Getent::GroupId(_) | Getent::Groupname(_) => config.cache_ttl_groups,
        Getent::Hosts | Getent::Hostname(_) | Getent::HostIp(_) => config.cache_ttl_hosts,
    }
}

/// The group `g` with the number of the machine's own group of that name,
/// if `g` stands for a group of the machine and the machine has one of
/// that name; else `g` as it is.
pub open spec fn with_local_id(g: GroupView, locals: Seq<GroupLocalView>) -> GroupView {
    if g.typ == GroupType::Local {
        match GroupLocal::last_named(locals, g.name) {
            Some(i) => GroupView { id: locals[i].id, ..g },
            None => g,
        }
    } else {
        g
    }
}

/// The answer `v` with each of its groups turned by [`with_local_id`].
pub open spec fn with_local_ids(v: GetentResponseView, locals: Seq<GroupLocalView>)
    -> GetentResponseView {
    match v {
        GetentResponseView::Groups(l) => GetentResponseView::Groups(
            Seq::new(l.len(), |i: int| with_local_id(l[i], locals)),
        ),
        GetentResponseView::Group(g) => GetentResponseView::Group(with_local_id(g, locals)),
        other => other,
    }
}

/// Gives `group` the number of the machine's own group of its name, where
/// it stands for one.
pub fn apply_local_id(group: &mut GroupResponse, locals: &Vec<GroupLocal>)
    ensures
        final(group)@ == with_local_id(old(group)@, plain_list(locals@)),
{
    if group.typ == GroupType::Local {
        match GroupLocal::read_id(locals, group.name.as_str()) {
            Some(local) => {
                proof {
                    let i = GroupLocal::last_named(plain_list(locals@), group.name@)->0;
                    assert(plain_list(locals@)[i] == locals@[i]@);
                }
                group.id = local.id;
            },
            None => {},
        }
    }
}

/// Gives each group of `answer` the number of the machine's own group of
/// its name, where it stands for one.
pub fn apply_local_groups(answer: &mut GetentResponse, locals: &Vec<GroupLocal>)
    ensures
        final(answer)@ == with_local_ids(old(answer)@, plain_list(locals@)),
{
    match answer {
        GetentResponse::Groups(groups) => {
            let ghost before = plain_list(groups@);
            let n = groups.len();
            let mut i: usize = 0;
            while i < n
                invariant
                    i <= n,
                    n == groups@.len(),
                    before.len() == n,
                    forall|k: int|
                        0 <= k < i ==> (#[trigger] groups@[k])@ == with_local_id(
                            before[k],
                            plain_list(locals@),
                        ),
                    forall|k: int| i <= k < n ==> (#[trigger] groups@[k])@ == before[k],
                decreases n - i,
            {
                apply_local_id(&mut groups[i], locals);
                i = i + 1;
            }
            proof {
                assert(plain_list(groups@) =~= Seq::new(
                    before.len(),
                    |k: int| with_local_id(before[k], plain_list(locals@)),
                ));
            }
        },
        GetentResponse::Group(group) => {
            apply_local_id(group, locals);
        },
        _ => {},
    }
}

/// Whether the machine's own groups are needed to answer with `answer`.
pub open spec fn spec_needs_local_groups(answer: GetentResponse) -> bool {
    match answer {
        GetentResponse::Groups(_) => true,
        GetentResponse::Group(g) => g.typ == GroupType::Local,
        _ => false,
    }
}

/// Whether the machine's own groups are needed to answer with `answer`.
pub fn needs_local_groups(answer: &GetentResponse) -> (r: bool)
    ensures
        r == spec_needs_local_groups(*answer),
{
    match answer {
        GetentResponse::Groups(_) => true,
        GetentResponse::Group(g) => g.typ == GroupType::Local,
        _ => false,
    }
}

/// Where the answering of a question stands.
#[derive(Debug, PartialEq, Eq)]
pub enum FetchState {
    Idle,
    /// The directory is being asked.
    AwaitDirectory { getent: Getent },
    /// The machine's own groups are being read.
    AwaitLocalGroups { getent: Getent, answer: GetentResponse },
    Finished,
}

/// What happened since the last action.
#[derive(Debug, PartialEq, Eq)]
pub enum FetchEvent {
    /// A question arrived. `healthy` says whether the provider was well
    /// when it was last checked.
    Begin { getent: Getent, healthy: bool },
    /// What the directory said: an answer, that it has none, or that it
    /// could not be asked.
    Directory(Result<Option<GetentResponse>, Error>),
    /// The machine's own groups, `None` where there are none, or why they
    /// could not be read.
    LocalGroups(Result<Option<Vec<GroupLocal>>, Error>),
}

/// What the caller has to do next.
#[derive(Debug, PartialEq, Eq)]
pub enum FetchAction {
    /// Ask the directory.
    AskDirectory,
    /// Read the machine's own groups.
    ReadLocalGroups,
    /// Answer the question.
    Respond(ApiResponse),
}

/// An action as plain data.
pub enum FetchActionView {
    AskDirectory,
    ReadLocalGroups,
    /// The bytes of the answer.
    Answer(Seq<u8>),
    /// The failure, by kind and message.
    Failure(ErrorType, Seq<char>),
}

impl View for FetchAction {
    type V = FetchActionView;

    open spec fn view(&self) -> FetchActionView {
        match self {
            FetchAction::AskDirectory => FetchActionView::AskDirectory,
            FetchAction::ReadLocalGroups => FetchActionView::ReadLocalGroups,
            FetchAction::Respond(Ok(bytes)) => FetchActionView::Answer(bytes@),
            FetchAction::Respond(Err(e)) => FetchActionView::Failure(e.error, e.message@),
        }
    }
}

/// The failure that is told where there is no answer.
pub open spec fn not_found() -> FetchActionView {
    FetchActionView::Failure(ErrorType::NotFound, "value not found"@)
}

/// What is remembered and what is answered once it is settled what the
/// directory has to say to `getent`: `answer`, or nothing.
pub open spec fn settled(
    map: Map<Seq<char>, CacheValueView>,
    config: Config,
    getent: Getent,
    answer: Option<GetentResponseView>,
    now: i64,
) -> (Map<Seq<char>, CacheValueView>, FetchActionView) {
    let exp = expiry(now, spec_ttl(getent, config));
    match answer {
        None => (
            map.insert(spec_cache_key(getent), CacheValueView { exp, value: None }),
            not_found(),
        ),
        Some(v) => (
            map.insert(
                spec_cache_key(getent),
                CacheValueView { exp, value: Some(response_bytes(v)) },
            ),
            FetchActionView::Answer(response_bytes(v)),
        ),
    }
}

/// What follows `event` in `state` at the time `now`: what is remembered
/// then, the new state, and the action.
///
/// - A question is answered from what is remembered, if anything good is:
///   with the bytes, or, where it is remembered that there is no answer,
///   with the failure that tells so.
/// - Else, while the provider is not well, the question is answered with
///   that same failure, and nothing is asked.
/// - Else the directory is asked. Where it could not be asked, this is
///   remembered for [`FAILURE_TTL`] seconds as there being no answer.
/// - An answer that holds groups gets the numbers of the machine's own
///   groups first, for which these are read.
/// - The answer is remembered for the time that the settings give its
///   kind, and handed out.
pub open spec fn fetch_step(
    map: Map<Seq<char>, CacheValueView>,
    config: Config,
    state: FetchState,
    event: FetchEvent,
    now: i64,
) -> (Map<Seq<char>, CacheValueView>, FetchState, FetchActionView) {
    match (state, event) {
        (FetchState::Idle, FetchEvent::Begin { getent, healthy }) => {
            match Cache::lookup(map, spec_cache_key(getent), now) {
                Some(Some(bytes)) => (map, FetchState::Finished, FetchActionView::Answer(bytes)),
                Some(None) => (map, FetchState::Finished, not_found()),
                None => if healthy {
                    (map, FetchState::AwaitDirectory { getent }, FetchActionView::AskDirectory)
                } else {
                    (map, FetchState::Finished, not_found())
                },
            }
        },
        (FetchState::AwaitDirectory { getent }, FetchEvent::Directory(said)) => {
            match said {
                Err(_) => (
                    map.insert(
                        spec_cache_key(getent),
                        CacheValueView { exp: expiry(now, FAILURE_TTL), value: None },
                    ),
                    FetchState::Finished,
                    not_found(),
                ),
                Ok(None) => {
                    let end = settled(map, config, getent, None, now);
                    (end.0, FetchState::Finished, end.1)
                },
                Ok(Some(answer)) => {
                    if spec_needs_local_groups(answer) {
                        (
                            map,
                            FetchState::AwaitLocalGroups { getent, answer },
                            FetchActionView::ReadLocalGroups,
                        )
                    } else {
                        let end = settled(map, config, getent, Some(answer@), now);
                        (end.0, FetchState::Finished, end.1)
                    }
                },
            }
        },
        (FetchState::AwaitLocalGroups { getent, answer }, FetchEvent::LocalGroups(read)) => {
            match read {
                Err(e) => (map, FetchState::Finished, FetchActionView::Failure(e.error, e.message@)),
                Ok(None) => {
                    let end = settled(map, config, getent, Some(answer@), now);
                    (end.0, FetchState::Finished, end.1)
                },
                Ok(Some(locals)) => {
                    let end = settled(
                        map,
                        config,
                        getent,
                        Some(with_local_ids(answer@, plain_list(locals@))),
                        now,
                    );
                    (end.0, FetchState::Finished, end.1)
                },
            }
        },
        _ => (
            map,
            FetchState::Finished,
            FetchActionView::Failure(ErrorType::Internal, "unexpected event"@),
        ),
    }
}

/// Remembers what the directory has to say to `getent`, and gives the
/// answer to hand out.
fn settle(
    cache: &mut Cache,
    config: &Config,
    getent: &Getent,
    answer: Option<&GetentResponse>,
    now: i64,
) -> (r: FetchAction)
    requires
        old(cache).wf(),
    ensures
        final(cache).wf(),
        (final(cache)@, r@) == settled(
            old(cache)@,
            *config,
            *getent,
            match answer {
                Some(a) => Some(a@),
                None => None,
            },
            now,
        ),
{
    let key = cache_key(getent);
    let keep = ttl(getent, config);
    match answer {
        None => {
            cache.set(key, None, keep, now);
            FetchAction::Respond(Err(Error::not_found()))
        },
        Some(a) => {
            let bytes = a.encode();
            cache.set(key, Some(bytes.clone()), keep, now);
            FetchAction::Respond(Ok(bytes))
        },
    }
}

/// Takes one step in answering a question, at the time `now`.
pub fn fetch_getent_at(
    cache: &mut Cache,
    config: &Config,
    state: FetchState,
    event: FetchEvent,
    now: i64,
) -> (r: (FetchState, FetchAction))
    requires
        old(cache).wf(),
    ensures
        final(cache).wf(),
        (final(cache)@, r.0, r.1@) == fetch_step(old(cache)@, *config, state, event, now),
{
    match (state, event) {
        (FetchState::Idle, FetchEvent::Begin { getent, healthy }) => {
            let key = cache_key(&getent);
            match cache.get(key.as_str(), now) {
                Some(Some(bytes)) => (FetchState::Finished, FetchAction::Respond(Ok(bytes))),
                Some(None) => (
                    FetchState::Finished,
                    FetchAction::Respond(Err(Error::not_found())),
                ),
                None => if healthy {
                    (FetchState::AwaitDirectory { getent }, FetchAction::AskDirectory)
                } else {
                    (FetchState::Finished, FetchAction::Respond(Err(Error::not_found())))
                },
            }
        },
        (FetchState::AwaitDirectory { getent }, FetchEvent::Directory(said)) => {
            match said {
                Err(_) => {
                    let key = cache_key(&getent);
                    cache.set(key, None, FAILURE_TTL, now);
                    (FetchState::Finished, FetchAction::Respond(Err(Error::not_found())))
                },
                Ok(None) => {
                    let action = settle(cache, config, &getent, None, now);
                    (FetchState::Finished, action)
                },
                Ok(Some(answer)) => {
                    if needs_local_groups(&answer) {
                        (
                            FetchState::AwaitLocalGroups { getent, answer },
                            FetchAction::ReadLocalGroups,
                        )
                    } else {
                        let action = settle(cache, config, &getent, Some(&answer), now);
                        (FetchState::Finished, action)
                    }
                },
            }
        },
        (FetchState::AwaitLocalGroups { getent, answer }, FetchEvent::LocalGroups(read)) => {
            match read {
                Err(e) => (FetchState::Finished, FetchAction::Respond(Err(e))),
                Ok(None) => {
                    let action = settle(cache, config, &getent, Some(&answer), now);
                    (FetchState::Finished, action)
                },
                Ok(Some(locals)) => {
                    let mut mapped = answer;
                    apply_local_groups(&mut mapped, &locals);
                    let action = settle(cache, config, &getent, Some(&mapped), now);
                    (FetchState::Finished, action)
                },
            }
        },
        _ => (
            FetchState::Finished,
            FetchAction::Respond(Err(Error::new(ErrorType::Internal, "unexpected event"))),
        ),
    }
}

/// Takes one step in answering a question, by the machine's clock.
pub fn fetch_getent(cache: &mut Cache, config: &Config, state: FetchState, event: FetchEvent) -> (r:
    (FetchState, FetchAction))
    requires
        old(cache).wf(),
    ensures
        final(cache).wf(),
        exists|now: i64|
            (final(cache)@, r.0, r.1@) == fetch_step(old(cache)@, *config, state, event, now),
{
    let now = unix_now();
    let r = fetch_getent_at(cache, config, state, event, now);
    assert((cache@, r.0, r.1@) == fetch_step(old(cache)@, *config, state, event, now));
    r
}

/// What is answered from the store is what was remembered: an answer that
/// [`fetch_getent_at`] handed out for a question is handed out again for the
/// same question, without the directory being asked, for as long as the
/// settings say.
pub proof fn law_answer_is_remembered(
    map: Map<Seq<char>, CacheValueView>,
    config: Config,
    getent: Getent,
    answer: GetentResponseView,
    now: i64,
    later: i64,
    healthy: bool,
)
    requires
        later < expiry(now, spec_ttl(getent, config)),
    ensures
        ({
            let first = settled(map, config, getent, Some(answer), now);
            let again = fetch_step(
                first.0,
                config,
                FetchState::Idle,
                FetchEvent::Begin { getent, healthy },
                later,
            );
            &&& first.1 == FetchActionView::Answer(response_bytes(answer))
            &&& again.2 == first.1
            &&& again.0 == first.0
            &&& again.1 == FetchState::Finished
        }),
{
}

/// A flush of the store takes no answer away while the settings still
/// have it good: after a flush at `flushed_at`, the answer that
/// [`fetch_getent_at`] handed out is handed out again at `later`, without
/// the directory being asked.
pub proof fn law_answer_outlasts_flush(
    map: Map<Seq<char>, CacheValueView>,
    config: Config,
    getent: Getent,
    answer: GetentResponseView,
    now: i64,
    flushed_at: i64,
    later: i64,
    healthy: bool,
)
    requires
        flushed_at <= later,
        later < expiry(now, spec_ttl(getent, config)),
    ensures
        ({
            let first = settled(map, config, getent, Some(answer), now);
            let kept = Cache::flushed(first.0, flushed_at);
            let again = fetch_step(
                kept,
                config,
                FetchState::Idle,
                FetchEvent::Begin { getent, healthy },
                later,
            );
            &&& first.1 == FetchActionView::Answer(response_bytes(answer))
            &&& again.2 == first.1
            &&& again.0 == kept
            &&& again.1 == FetchState::Finished
        }),
{
}

/// The question after all groups.
pub fn get_groups(healthy: bool) -> (r: FetchEvent)
    ensures
        r == (FetchEvent::Begin { getent: Getent::Groups, healthy }),
{
    FetchEvent::Begin { getent: Getent::Groups, healthy }
}

/// The question after the group with the number `gid`.
pub fn get_group_by_gid(gid: u32, healthy: bool) -> (r: FetchEvent)
    ensures
        r == (FetchEvent::Begin { getent: Getent::GroupId(gid), healthy }),
{
    FetchEvent::Begin { getent: Getent::GroupId(gid), healthy }
}

/// The question after the group with the name `groupname`.
pub fn get_group_by_name(groupname: String, healthy: bool) -> (r: FetchEvent)
    ensures
        r == (FetchEvent::Begin { getent: Getent::Groupname(groupname), healthy }),
{
    FetchEvent::Begin { getent: Getent::Groupname(groupname), healthy }
}

/// The question after all hosts.
pub fn get_hosts(healthy: bool) -> (r: FetchEvent)
    ensures
        r == (FetchEvent::Begin { getent: Getent::Hosts, healthy }),
{
    FetchEvent::Begin { getent: Getent::Hosts, healthy }
}

/// The question after the host with the address `ip`.
pub fn get_host_by_ip(ip: IpAddress, healthy: bool) -> (r: FetchEvent)
    ensures
        r == (FetchEvent::Begin { getent: Getent::HostIp(ip), healthy }),
{
    FetchEvent::Begin { getent: Getent::HostIp(ip), healthy }
}

/// The question after the host with the name `hostname`.
pub fn get_host_by_name(hostname: String, healthy: bool) -> (r: FetchEvent)
    ensures
        r == (FetchEvent::Begin { getent: Getent::Hostname(hostname), healthy }),
{
    FetchEvent::Begin { getent: Getent::Hostname(hostname), healthy }
}

/// The question after all users.
pub fn get_users(healthy: bool) -> (r: FetchEvent)
    ensures
        r == (FetchEvent::Begin { getent: Getent::Users, healthy }),
{
    FetchEvent::Begin { getent: Getent::Users, healthy }
}

/// The question after the user with the number `uid`.
pub fn get_user_by_uid(uid: u32, healthy: bool) -> (r: FetchEvent)
    ensures
        r == (FetchEvent::Begin { getent: Getent::UserId(uid), healthy }),
{
    FetchEvent::Begin { getent: Getent::UserId(uid), healthy }
}

/// The question after the user with the name `username`.
pub fn get_user_by_name(username: String, healthy: bool) -> (r: FetchEvent)
    ensures
        r == (FetchEvent::Begin { getent: Getent::Username(username), healthy }),
{
    FetchEvent::Begin { getent: Getent::Username(username), healthy }
}

/// The words with which the proxy answers at its root, for the version
/// `version`.
pub fn get_root(version: &str) -> (r: String)
    ensures
        r@ == "Rauthy NSS Proxy v"@ + version@,
{
    concat2("Rauthy NSS Proxy v", version)
}

} // verus!
