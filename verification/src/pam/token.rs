//! The session token: the proof of a successful login that is kept on the
//! machine and checked again with the provider.

use vstd::prelude::*;
use vstd::utf8::encode_utf8;
use crate::clock::unix_now;
use crate::codec::lemma_parse_text;
use crate::codec::lemma_parse_varint;
use crate::codec::lemma_parse_varint_bound;
use crate::codec::lemma_skip_prefix;
use crate::codec::lemma_zigzag;
use crate::codec::parse_text;
use crate::codec::parse_varint;
use crate::codec::put_signed;
use crate::codec::put_text;
use crate::codec::put_varint;
use crate::codec::take_signed;
use crate::codec::take_text;
use crate::codec::take_varint;
use crate::codec::text;
use crate::codec::unzigzag;
use crate::codec::varint;
use crate::codec::zigzag;
use crate::config::Config;
use crate::config::USER_DATA_DIR_MODE;
use crate::remote::RemoteReply;
use crate::text::concat2;
use crate::text::concat3;
use crate::text::join_path;
use crate::text::joined;
use crate::wire::lemma_parse_list;
use crate::wire::list;
use crate::wire::list_fits;
use crate::wire::parse_list;
use crate::wire::plain_list;
use crate::wire::put_list;
use crate::wire::take_list;

verus! {

/// What a successful login yields. It is never changed after it was issued.
#[derive(Debug, Clone, PartialEq, Eq)]
pub struct PamToken {
    pub id: String,
    /// The second, counted from 1970-01-01 UTC, after which the token is
    /// no longer good.
    pub exp: i64,
    pub user_id: String,
    pub user_email: String,
    pub uid: u32,
    pub gid: u32,
    pub username: String,
    pub roles: Vec<String>,
    pub groups: Vec<String>,
}

/// A token as plain values.
pub struct PamTokenView {
    pub id: Seq<char>,
    pub exp: i64,
    pub user_id: Seq<char>,
    pub user_email: Seq<char>,
    pub uid: u32,
    pub gid: u32,
    pub username: Seq<char>,
    pub roles: Seq<Seq<char>>,
    pub groups: Seq<Seq<char>>,
}

impl View for PamToken {
    type V = PamTokenView;

    open spec fn view(&self) -> PamTokenView {
        PamTokenView {
            id: self.id@,
            exp: self.exp,
            user_id: self.user_id@,
            user_email: self.user_email@,
            uid: self.uid,
            gid: self.gid,
            username: self.username@,
            roles: plain_list(self.roles@),
            groups: plain_list(self.groups@),
        }
    }
}

impl PamTokenView {
    /// Whether the token can be written: each length fits the number that
    /// stands before it. This holds of every token in memory.
    pub open spec fn writable(self) -> bool {
        &&& encode_utf8(self.id).len() <= u64::MAX
        &&& encode_utf8(self.user_id).len() <= u64::MAX
        &&& encode_utf8(self.user_email).len() <= u64::MAX
        &&& encode_utf8(self.username).len() <= u64::MAX
        &&& list_fits::<String>(self.roles)
        &&& list_fits::<String>(self.groups)
    }
}

/// The bytes of a token as it is kept in its file: the fields in the order
/// in which the token declares them.
pub open spec fn token_bytes(t: PamTokenView) -> Seq<u8> {
    text(t.id) + (varint(zigzag(t.exp)) + (text(t.user_id) + (text(t.user_email)
        + account_bytes(t))))
}

/// The token at the start of `b`, if `b` starts with one. What follows the
/// token is not looked at.
pub open spec fn parse_token(b: Seq<u8>) -> Option<PamTokenView> {
    match parse_text(b) {
        None => None,
        Some((id, n1)) => {
            let b1 = b.skip(n1 as int);
            match parse_varint(b1, true) {
                None => None,
                Some((exp, n2)) => {
                    let b2 = b1.skip(n2 as int);
                    match parse_text(b2) {
                        None => None,
                        Some((user_id, n3)) => {
                            let b3 = b2.skip(n3 as int);
                            match parse_text(b3) {
                                None => None,
                                Some((user_email, n4)) => match parse_account(
                                    b3.skip(n4 as int),
                                ) {
                                    None => None,
                                    Some(account) => Some(
                                        PamTokenView {
                                            id,
                                            exp: unzigzag(exp),
                                            user_id,
                                            user_email,
                                            uid: account.0,
                                            gid: account.1,
                                            username: account.2,
                                            roles: account.3,
                                            groups: account.4,
                                        },
                                    ),
                                },
                            }
                        },
                    }
                },
            }
        },
    }
}

/// The local account at the start of `b`: the numbers of the user and of
/// the group, the user's name, the roles and the groups.
pub open spec fn parse_account(b: Seq<u8>) -> Option<
    (u32, u32, Seq<char>, Seq<Seq<char>>, Seq<Seq<char>>),
> {
    match parse_varint(b, false) {
        None => None,
        Some((uid, n1)) => {
            let b1 = b.skip(n1 as int);
            match parse_varint(b1, false) {
                None => None,
                Some((gid, n2)) => {
                    let b2 = b1.skip(n2 as int);
                    match parse_text(b2) {
                        None => None,
                        Some((username, n3)) => {
                            let b3 = b2.skip(n3 as int);
                            match parse_list::<String>(b3) {
                                None => None,
                                Some((roles, n4)) => match parse_list::<String>(b3.skip(n4 as int)) {
                                    None => None,
                                    Some((groups, n5)) => Some(
                                        (uid as u32, gid as u32, username, roles, groups),
                                    ),
                                },
                            }
                        },
                    }
                },
            }
        },
    }
}

/// The bytes of the local account of a token.
pub open spec fn account_bytes(t: PamTokenView) -> Seq<u8> {
    varint(t.uid as u64) + (varint(t.gid as u64) + (text(t.username) + (list::<String>(t.roles)
        + list::<String>(t.groups))))
}

/// An account that was written is read back, whatever follows it.
pub proof fn lemma_parse_account(t: PamTokenView, rest: Seq<u8>)
    requires
        t.writable(),
    ensures
        parse_account(account_bytes(t) + rest) == Some(
            (t.uid, t.gid, t.username, t.roles, t.groups),
        ),
{
    let b = account_bytes(t) + rest;
    let r4 = list::<String>(t.groups) + rest;
    let r3 = list::<String>(t.roles) + r4;
    let r2 = text(t.username) + r3;
    let r1 = varint(t.gid as u64) + r2;
    assert(b =~= varint(t.uid as u64) + r1);
    lemma_parse_varint(t.uid as u64, false, r1);
    lemma_skip_prefix(varint(t.uid as u64), r1);
    lemma_parse_varint(t.gid as u64, false, r2);
    lemma_skip_prefix(varint(t.gid as u64), r2);
    lemma_parse_text(t.username, r3);
    lemma_skip_prefix(text(t.username), r3);
    lemma_parse_list::<String>(t.roles, r4);
    lemma_skip_prefix(list::<String>(t.roles), r4);
    lemma_parse_list::<String>(t.groups, rest);
}

/// A token that was written is read back as it was, whatever follows it in
/// the file.
pub proof fn law_token_round_trip(t: PamTokenView, rest: Seq<u8>)
    requires
        t.writable(),
    ensures
        parse_token(token_bytes(t) + rest) == Some(t),
{
    let b = token_bytes(t) + rest;
    let r4 = account_bytes(t) + rest;
    let r3 = text(t.user_email) + r4;
    let r2 = text(t.user_id) + r3;
    let r1 = varint(zigzag(t.exp)) + r2;
    assert(b =~= text(t.id) + r1);
    lemma_parse_text(t.id, r1);
    lemma_skip_prefix(text(t.id), r1);
    lemma_parse_varint(zigzag(t.exp), true, r2);
    lemma_zigzag(t.exp);
    lemma_skip_prefix(varint(zigzag(t.exp)), r2);
    lemma_parse_text(t.user_id, r3);
    lemma_skip_prefix(text(t.user_id), r3);
    lemma_parse_text(t.user_email, r4);
    lemma_skip_prefix(text(t.user_email), r4);
    lemma_parse_account(t, rest);
}

impl PamToken {
    /// The bytes of the token as it is kept in its file. Read back, they
    /// give the token again.
    pub fn encode(&self) -> (r: Vec<u8>)
        ensures
            r@ == token_bytes(self@),
            parse_token(r@) == Some(self@),
            self@.writable(),
    {
        let mut tail: Vec<u8> = Vec::new();
        put_list(&mut tail, &self.groups);
        let ghost f9 = tail@;
        let mut r: Vec<u8> = Vec::new();
        put_text(&mut r, self.id.as_str());
        put_signed(&mut r, self.exp);
        put_text(&mut r, self.user_id.as_str());
        put_text(&mut r, self.user_email.as_str());
        put_varint(&mut r, self.uid as u64);
        put_varint(&mut r, self.gid as u64);
        put_text(&mut r, self.username.as_str());
        put_list(&mut r, &self.roles);
        r.extend_from_slice(tail.as_slice());
        proof {
            assert(f9 =~= list::<String>(self@.groups));
            assert(r@ =~= token_bytes(self@));
            law_token_round_trip(self@, Seq::<u8>::empty());
            assert(token_bytes(self@) + Seq::<u8>::empty() =~= token_bytes(self@));
        }
        r
    }

    /// The token that `bytes` start with, if they start with one.
    pub fn decode(bytes: &[u8]) -> (r: Option<PamToken>)
        ensures
            match parse_token(bytes@) {
                None => r is None,
                Some(v) => r matches Some(t) && t@ == v,
            },
    {
        assert(bytes@.skip(0) =~= bytes@);
        let (id, at1) = match take_text(bytes, 0) {
            None => { return None; },
            Some(x) => x,
        };
        assert(bytes@.skip(at1 as int) =~= bytes@.skip(0).skip(at1 as int));
        let (exp, at2) = match take_signed(bytes, at1) {
            None => { return None; },
            Some(x) => x,
        };
        assert(bytes@.skip(at1 as int).skip(at2 - at1) =~= bytes@.skip(at2 as int));
        let (user_id, at3) = match take_text(bytes, at2) {
            None => { return None; },
            Some(x) => x,
        };
        assert(bytes@.skip(at2 as int).skip(at3 - at2) =~= bytes@.skip(at3 as int));
        let (user_email, at4) = match take_text(bytes, at3) {
            None => { return None; },
            Some(x) => x,
        };
        assert(bytes@.skip(at3 as int).skip(at4 - at3) =~= bytes@.skip(at4 as int));
        let (uid, at5) = match take_varint(bytes, at4, false) {
            None => { return None; },
            Some(x) => x,
        };
        assert(bytes@.skip(at4 as int).skip(at5 - at4) =~= bytes@.skip(at5 as int));
        let (gid, at6) = match take_varint(bytes, at5, false) {
            None => { return None; },
            Some(x) => x,
        };
        assert(bytes@.skip(at5 as int).skip(at6 - at5) =~= bytes@.skip(at6 as int));
        let (username, at7) = match take_text(bytes, at6) {
            None => { return None; },
            Some(x) => x,
        };
        assert(bytes@.skip(at6 as int).skip(at7 - at6) =~= bytes@.skip(at7 as int));
        let (roles, at8) = match take_list::<String>(bytes, at7) {
            None => { return None; },
            Some(x) => x,
        };
        assert(bytes@.skip(at7 as int).skip(at8 - at7) =~= bytes@.skip(at8 as int));
        let (groups, _at9) = match take_list::<String>(bytes, at8) {
            None => { return None; },
            Some(x) => x,
        };
        proof {
            lemma_parse_varint_bound(bytes@.skip(at4 as int), false);
            lemma_parse_varint_bound(bytes@.skip(at5 as int), false);
        }
        Some(
            PamToken {
                id,
                exp,
                user_id,
                user_email,
                uid: uid as u32,
                gid: gid as u32,
                username,
                roles,
                groups,
            },
        )
    }
}

/// What is to be done to check a token.
#[derive(Debug, Clone, Copy, PartialEq, Eq, Structural)]
pub enum ValidateStep {
    /// The token's time is over: it is not good, and the provider is not
    /// asked.
    Expired,
    /// The token's time is not over: the provider has the last word.
    AskProvider,
}

/// The request that asks the provider whether a token is still good.
#[derive(Debug, Clone, PartialEq, Eq)]
pub struct ValidateRequest {
    /// The address to send a GET request to.
    pub url: String,
    /// The value of the `Authorization` header.
    pub authorization: String,
}

/// What is to be written so that a token outlasts the process.
#[derive(Debug, Clone, PartialEq, Eq)]
pub struct SaveRequest {
    /// The user's directory. It is made if it is not there.
    pub dir: String,
    /// The permission bits of that directory.
    pub dir_mode: u32,
    /// The file that holds the token.
    pub path: String,
    /// Whether what the file held before is to be lost.
    pub overwrite: bool,
    /// The content of the file.
    pub bytes: Vec<u8>,
}

/// One step in providing a home directory.
#[derive(Debug, Clone, Copy, PartialEq, Eq, Structural)]
pub enum HomeDirStep {
    /// Make the directory and what is missing above it.
    CreateDir,
    /// Give the directory to the user and the group.
    SetOwner { uid: u32, gid: u32 },
    /// Set the permission bits of the directory.
    SetMode { mode: u32 },
    /// Set the labels of the access-control layer anew, below the
    /// directory. The step may fail, and the layer may be missing: the
    /// steps that follow are taken all the same.
    Relabel,
    /// Copy the skeleton into the directory, every entry owned by the user
    /// and the group.
    CopySkeleton { uid: u32, gid: u32 },
}

/// The permission bits of a home directory.
pub const HOME_DIR_MODE: u32 = 0o700;

impl HomeDirStep {
    /// Whether the step may fail without the steps that follow being given
    /// up.
    pub open spec fn spec_is_best_effort(&self) -> bool {
        self is Relabel
    }

    /// Whether the step may fail without the steps that follow being given
    /// up.
    #[verifier::when_used_as_spec(spec_is_best_effort)]
    pub fn is_best_effort(&self) -> (r: bool)
        ensures
            r == self.spec_is_best_effort(),
    {
        matches!(self, HomeDirStep::Relabel)
    }
}

impl PamToken {
    /// Whether the token's time was over at `now`.
    pub open spec fn spec_is_expired(&self, now: i64) -> bool {
        self.exp < now
    }

    /// Whether the token's time was over at `now`.
    #[verifier::when_used_as_spec(spec_is_expired)]
    pub fn is_expired(&self, now: i64) -> (r: bool)
        ensures
            r == self.spec_is_expired(now),
    {
        self.exp < now
    }

    /// What is to be done to check the token at the time `now`.
    pub open spec fn spec_validate_at(&self, now: i64) -> ValidateStep {
        if self.spec_is_expired(now) {
            ValidateStep::Expired
        } else {
            ValidateStep::AskProvider
        }
    }

    /// What is to be done to check the token at the time `now`.
    #[verifier::when_used_as_spec(spec_validate_at)]
    pub fn validate_at(&self, now: i64) -> (r: ValidateStep)
        ensures
            r == self.spec_validate_at(now),
    {
        if self.is_expired(now) {
            ValidateStep::Expired
        } else {
            ValidateStep::AskProvider
        }
    }

    /// What is to be done to check the token now, by the machine's clock.
    pub fn validate(&self) -> (r: ValidateStep)
        ensures
            exists|now: i64| r == self.spec_validate_at(now),
    {
        let now = unix_now();
        let r = self.validate_at(now);
        assert(r == self.spec_validate_at(now));
        r
    }

    /// The request that asks the provider whether the token is still good.
    pub fn validate_request(&self, config: &Config) -> (r: ValidateRequest)
        ensures
            r.url@ == config.rauthy_url@ + "auth/v1/pam/validate/"@ + self.user_id@,
            r.authorization@ == "PamToken "@ + self.id@,
    {
        ValidateRequest {
            url: concat3(config.rauthy_url.as_str(), "auth/v1/pam/validate/", self.user_id.as_str()),
            authorization: concat2("PamToken ", self.id.as_str()),
        }
    }

    /// What is to be written so that the token outlasts the process: one
    /// file named `token` in the user's directory.
    pub fn save(&self, config: &Config) -> (r: SaveRequest)
        ensures
            r.dir@ == joined(config.data_path@, self.username@),
            r.dir_mode == USER_DATA_DIR_MODE,
            r.path@ == joined(r.dir@, "token"@),
            r.overwrite,
            r.bytes@ == token_bytes(self@),
            parse_token(r.bytes@) == Some(self@),
    {
        let dir = config.data_path_user(self.username.as_str());
        let path = join_path(dir.as_str(), "token");
        SaveRequest {
            dir,
            dir_mode: USER_DATA_DIR_MODE,
            path,
            overwrite: true,
            bytes: self.encode(),
        }
    }

    /// The file that holds the token of `username`.
    pub fn token_path(config: &Config, username: &str) -> (r: String)
        ensures
            r@ == joined(joined(config.data_path@, username@), "token"@),
    {
        let dir = config.data_path_user(username);
        join_path(dir.as_str(), "token")
    }

    /// The user's home directory.
    pub fn home_dir(&self) -> (r: String)
        ensures
            r@ == joined("/home"@, self.username@),
    {
        join_path("/home", self.username.as_str())
    }

    /// The steps that provide the home directory.
    pub open spec fn home_dir_plan(&self, exists: bool, skeleton: bool) -> Seq<HomeDirStep> {
        if exists {
            Seq::<HomeDirStep>::empty()
        } else {
            let base = seq![
                HomeDirStep::CreateDir,
                HomeDirStep::SetOwner { uid: self.uid, gid: self.gid },
                HomeDirStep::SetMode { mode: HOME_DIR_MODE },
                HomeDirStep::Relabel,
            ];
            if skeleton {
                base.push(HomeDirStep::CopySkeleton { uid: self.uid, gid: self.gid })
            } else {
                base
            }
        }
    }

    /// The steps that provide the home directory, in their order. `exists`
    /// says whether [`Self::home_dir`] is there already, `skeleton` whether
    /// the settings name a skeleton. Where the directory is there, nothing
    /// is done.
    pub fn create_home_dir(&self, exists: bool, skeleton: bool) -> (r: Vec<HomeDirStep>)
        ensures
            r@ == self.home_dir_plan(exists, skeleton),
            exists ==> r@.len() == 0,
    {
        let mut r: Vec<HomeDirStep> = Vec::new();
        if !exists {
            r.push(HomeDirStep::CreateDir);
            r.push(HomeDirStep::SetOwner { uid: self.uid, gid: self.gid });
            r.push(HomeDirStep::SetMode { mode: HOME_DIR_MODE });
            r.push(HomeDirStep::Relabel);
            if skeleton {
                r.push(HomeDirStep::CopySkeleton { uid: self.uid, gid: self.gid });
            }
        }
        assert(r@ =~= self.home_dir_plan(exists, skeleton));
        r
    }
}

/// The place in memory in which a process keeps the token once it has
/// loaded it. It is filled at most once and not changed afterwards.
#[derive(Debug, PartialEq, Eq)]
pub struct TokenStore {
    pub slot: Option<PamToken>,
}

/// Where the loading of a token stands.
#[derive(Debug, PartialEq, Eq)]
pub enum LoadState {
    Idle,
    /// The file is being read.
    AwaitFile { with_validation: bool },
    /// The provider is being asked about this token.
    AwaitProvider { token: PamToken },
    Finished,
}

/// What happened since the last action of a loading.
#[derive(Debug, PartialEq, Eq)]
pub enum LoadEvent {
    /// The loading starts. `with_validation` says whether the token has to
    /// be checked.
    Begin { with_validation: bool },
    /// The file could not be read.
    Unreadable,
    /// The file was read, but does not hold a token.
    Garbled,
    /// The file held this token.
    Read(PamToken),
    /// The provider's answer about the token.
    Provider(RemoteReply<()>),
}

/// What the caller of a loading has to do next.
#[derive(Debug, Clone, Copy, PartialEq, Eq, Structural)]
pub enum LoadAction {
    /// Read the token's file.
    ReadFile,
    /// Ask the provider about the token that the state holds.
    Revalidate,
    /// The token is in the store.
    Present,
    /// There is no token that is good.
    Absent,
    /// The token could not be loaded.
    Failed,
}

impl LoadEvent {
    /// The event that stands for what reading the token's file gave:
    /// `None` where it could not be read, else its bytes.
    pub fn from_file(bytes: Option<&[u8]>) -> (r: LoadEvent)
        ensures
            match bytes {
                None => r is Unreadable,
                Some(b) => match parse_token(b@) {
                    None => r is Garbled,
                    Some(v) => r matches LoadEvent::Read(t) && t@ == v,
                },
            },
    {
        match bytes {
            None => LoadEvent::Unreadable,
            Some(b) => match PamToken::decode(b) {
                None => LoadEvent::Garbled,
                Some(t) => LoadEvent::Read(t),
            },
        }
    }
}

impl PamToken {
    /// What follows `event` in `state` of a loading, at the time `now`:
    /// what the store holds then, the new state, and the action.
    ///
    /// - A store that holds a token answers with it, whatever was asked.
    /// - Else the file is read. A file that cannot be read or does not hold
    ///   a token ends the loading as failed.
    /// - Without validation the token goes into the store as it was read.
    /// - With validation, a token whose time is over counts as absent and
    ///   the provider is not asked; else the provider is asked, and the
    ///   token goes into the store only if the provider accepts it.
    pub open spec fn load_step(
        slot: Option<PamToken>,
        state: LoadState,
        event: LoadEvent,
        now: i64,
    ) -> (Option<PamToken>, LoadState, LoadAction) {
        if slot is Some {
            (slot, LoadState::Finished, LoadAction::Present)
        } else {
            match (state, event) {
                (LoadState::Idle, LoadEvent::Begin { with_validation }) => (
                    None,
                    LoadState::AwaitFile { with_validation },
                    LoadAction::ReadFile,
                ),
                (LoadState::AwaitFile { with_validation }, LoadEvent::Read(token)) => {
                    if !with_validation {
                        (Some(token), LoadState::Finished, LoadAction::Present)
                    } else if token.spec_is_expired(now) {
                        (None, LoadState::Finished, LoadAction::Absent)
                    } else {
                        (None, LoadState::AwaitProvider { token }, LoadAction::Revalidate)
                    }
                },
                (LoadState::AwaitProvider { token }, LoadEvent::Provider(reply)) => {
                    if reply is Decoded {
                        (Some(token), LoadState::Finished, LoadAction::Present)
                    } else {
                        (None, LoadState::Finished, LoadAction::Absent)
                    }
                },
                _ => (None, LoadState::Finished, LoadAction::Failed),
            }
        }
    }

    /// Takes one step of the loading of a token, at the time `now`.
    pub fn try_load_at(store: &mut TokenStore, state: LoadState, event: LoadEvent, now: i64) -> (r:
        (LoadState, LoadAction))
        ensures
            (final(store).slot, r.0, r.1) == Self::load_step(old(store).slot, state, event, now),
    {
        if store.slot.is_some() {
            return (LoadState::Finished, LoadAction::Present);
        }
        match (state, event) {
            (LoadState::Idle, LoadEvent::Begin { with_validation }) => (
                LoadState::AwaitFile { with_validation },
                LoadAction::ReadFile,
            ),
            (LoadState::AwaitFile { with_validation }, LoadEvent::Read(token)) => {
                if !with_validation {
                    store.slot = Some(token);
                    (LoadState::Finished, LoadAction::Present)
                } else if token.is_expired(now) {
                    (LoadState::Finished, LoadAction::Absent)
                } else {
                    (LoadState::AwaitProvider { token }, LoadAction::Revalidate)
                }
            },
            (LoadState::AwaitProvider { token }, LoadEvent::Provider(reply)) => {
                if matches!(reply, RemoteReply::Decoded(_)) {
                    store.slot = Some(token);
                    (LoadState::Finished, LoadAction::Present)
                } else {
                    (LoadState::Finished, LoadAction::Absent)
                }
            },
            _ => (LoadState::Finished, LoadAction::Failed),
        }
    }

    /// Takes one step of the loading of a token, by the machine's clock.
    pub fn try_load(store: &mut TokenStore, state: LoadState, event: LoadEvent) -> (r: (
        LoadState,
        LoadAction,
    ))
        ensures
            exists|now: i64|
                (final(store).slot, r.0, r.1) == Self::load_step(
                    old(store).slot,
                    state,
                    event,
                    now,
                ),
    {
        let now = unix_now();
        let r = Self::try_load_at(store, state, event, now);
        assert((store.slot, r.0, r.1) == Self::load_step(old(store).slot, state, event, now));
        r
    }

    /// A token whose time is over counts as absent when it is loaded with
    /// validation: the store stays empty, and the provider is not asked.
    pub proof fn law_expired_token_is_absent(token: PamToken, now: i64)
        requires
            token.exp < now,
        ensures
            Self::load_step(
                None,
                LoadState::AwaitFile { with_validation: true },
                LoadEvent::Read(token),
                now,
            ) == (None::<PamToken>, LoadState::Finished, LoadAction::Absent),
            token.spec_validate_at(now) == ValidateStep::Expired,
    {
    }

    /// The store is filled at most once: a token that it holds stays, and
    /// is the answer to every loading.
    pub proof fn law_store_is_written_once(
        held: PamToken,
        state: LoadState,
        event: LoadEvent,
        now: i64,
    )
        ensures
            Self::load_step(Some(held), state, event, now) == (
                Some(held),
                LoadState::Finished,
                LoadAction::Present,
            ),
    {
    }

    /// A token goes into the store only as it was read from the file, and,
    /// where validation was asked for, only after the provider accepted it.
    pub proof fn law_store_holds_what_was_read(state: LoadState, event: LoadEvent, now: i64)
        ensures
            ({
                let after = Self::load_step(None, state, event, now);
                after.0 matches Some(token) ==> {
                    ||| state == (LoadState::AwaitFile { with_validation: false }) && event
                        == LoadEvent::Read(token)
                    ||| state == (LoadState::AwaitProvider { token }) && event is Provider
                        && event->Provider_0 is Decoded
                }
            }),
    {
    }
}

} // verus!
