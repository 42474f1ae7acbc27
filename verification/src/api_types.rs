//! The records exchanged with the remote identity provider.

use vstd::prelude::*;
use crate::wire::plain_list;

verus! {

/// The body of a login request. Exactly one of `password`,
/// `remote_password` and `webauthn_code` is filled.
#[derive(Debug, Clone, PartialEq, Eq)]
pub struct PamLoginRequest {
    pub host_id: String,
    pub host_secret: String,
    pub username: String,
    pub password: Option<String>,
    pub remote_password: Option<String>,
    pub webauthn_code: Option<String>,
}

impl PamLoginRequest {
    /// How many of the three credential fields are filled.
    pub open spec fn credentials_filled(&self) -> nat {
        (if self.password is Some { 1nat } else { 0nat })
            + (if self.remote_password is Some { 1nat } else { 0nat })
            + (if self.webauthn_code is Some { 1nat } else { 0nat })
    }
}

/// The body of a preflight request.
#[derive(Debug, Clone, PartialEq, Eq)]
pub struct PamPreflightRequest {
    pub host_id: String,
    pub host_secret: String,
    pub username: String,
}

/// What the provider says of an account before any credential is asked for.
#[derive(Debug, Clone, Copy, PartialEq, Eq, Structural)]
pub struct PamPreflightResponse {
    pub login_allowed: bool,
    pub local_password_only: bool,
    pub mfa_required: bool,
}

/// The body of the request that starts a hardware-key ceremony.
#[derive(Debug, Clone, PartialEq, Eq)]
pub struct PamMfaStartRequest {
    pub username: String,
}

/// A challenge for a hardware key. `options` is what the key's driver takes;
/// the engine hands it on unread.
#[derive(Debug, Clone, PartialEq, Eq)]
pub struct HardwareChallenge<C> {
    /// The time the provider gives the ceremony, in milliseconds.
    pub timeout: Option<u32>,
    pub options: C,
}

/// The provider's answer to the start of a ceremony.
#[derive(Debug, Clone, PartialEq, Eq)]
pub struct WebauthnAuthStartResponse<C> {
    pub code: String,
    pub rcr: HardwareChallenge<C>,
    pub user_id: String,
}

/// A signed assertion together with the code of the ceremony it answers.
#[derive(Debug, Clone, PartialEq, Eq)]
pub struct WebauthnAuthFinishRequest<A> {
    pub code: String,
    pub data: A,
}

/// The body of the request that ends a hardware-key ceremony.
#[derive(Debug, Clone, PartialEq, Eq)]
pub struct PamMfaFinishRequest<A> {
    pub user_id: String,
    pub data: WebauthnAuthFinishRequest<A>,
}

/// The one-time code that a completed ceremony yields. A login request
/// takes it in place of a password.
#[derive(Debug, Clone, PartialEq, Eq)]
pub struct WebauthnServiceReq {
    pub code: String,
}

/// The address of a host: four bytes or sixteen, highest first.
#[derive(Debug, Clone, Copy, PartialEq, Eq)]
pub enum IpAddress {
    V4([u8; 4]),
    V6([u8; 16]),
}

/// An address as plain data.
pub enum IpAddressView {
    V4(Seq<u8>),
    V6(Seq<u8>),
}

impl View for IpAddress {
    type V = IpAddressView;

    open spec fn view(&self) -> IpAddressView {
        match self {
            IpAddress::V4(a) => IpAddressView::V4(a@),
            IpAddress::V6(a) => IpAddressView::V6(a@),
        }
    }
}

/// What is asked of the directory of users, groups and hosts.
#[derive(Debug, Clone, PartialEq, Eq)]
pub enum Getent {
    Users,
    Username(String),
    UserId(u32),
    Groups,
    Groupname(String),
    GroupId(u32),
    Hosts,
    Hostname(String),
    HostIp(IpAddress),
}

/// The body of a request to the provider's directory.
#[derive(Debug, Clone, PartialEq, Eq)]
pub struct GetentRequest {
    pub host_id: String,
    pub host_secret: String,
    pub getent: Getent,
}

/// The body of the request with which a machine asks the provider what it
/// knows of it.
#[derive(Debug, Clone, PartialEq, Eq)]
pub struct HostWhoamiRequest {
    pub host_secret: String,
}

/// A host of the directory.
#[derive(Debug, Clone, PartialEq, Eq)]
pub struct HostResponse {
    pub id: String,
    pub name: String,
    pub aliases: Vec<String>,
    pub addresses: Vec<IpAddress>,
}

/// A host as plain data.
pub struct HostView {
    pub id: Seq<char>,
    pub name: Seq<char>,
    pub aliases: Seq<Seq<char>>,
    pub addresses: Seq<IpAddressView>,
}

impl View for HostResponse {
    type V = HostView;

    open spec fn view(&self) -> HostView {
        HostView {
            id: self.id@,
            name: self.name@,
            aliases: plain_list(self.aliases@),
            addresses: plain_list(self.addresses@),
        }
    }
}

/// What the provider knows of the machine that asks.
#[derive(Debug, Clone, PartialEq, Eq)]
pub struct HostDetailsResponse {
    pub id: String,
    pub hostname: String,
    pub gid: u32,
    pub force_mfa: bool,
    pub notes: Option<String>,
    pub ips: Vec<IpAddress>,
    pub aliases: Vec<String>,
}

/// What kind of group a group is. A group of the kind `Local` stands for a
/// group of the machine itself, and takes that group's number.
#[derive(Debug, Clone, Copy, PartialEq, Eq, Structural)]
pub enum GroupType {
    Immutable,
    Host,
    User,
    Generic,
    Local,
}

/// A group of the directory.
#[derive(Debug, Clone, PartialEq, Eq)]
pub struct GroupResponse {
    pub id: u32,
    pub name: String,
    pub typ: GroupType,
    pub members: Vec<String>,
}

/// A group as plain data.
pub struct GroupView {
    pub id: u32,
    pub name: Seq<char>,
    pub typ: GroupType,
    pub members: Seq<Seq<char>>,
}

impl View for GroupResponse {
    type V = GroupView;

    open spec fn view(&self) -> GroupView {
        GroupView {
            id: self.id,
            name: self.name@,
            typ: self.typ,
            members: plain_list(self.members@),
        }
    }
}

/// A user of the directory.
#[derive(Debug, Clone, PartialEq, Eq)]
pub struct UserResponse {
    pub id: u32,
    pub name: String,
    pub gid: u32,
    pub email: String,
    pub shell: String,
}

/// A user as plain data.
pub struct UserView {
    pub id: u32,
    pub name: Seq<char>,
    pub gid: u32,
    pub email: Seq<char>,
    pub shell: Seq<char>,
}

impl View for UserResponse {
    type V = UserView;

    open spec fn view(&self) -> UserView {
        UserView {
            id: self.id,
            name: self.name@,
            gid: self.gid,
            email: self.email@,
            shell: self.shell@,
        }
    }
}

/// An answer of the directory.
#[derive(Debug, Clone, PartialEq, Eq)]
pub enum GetentResponse {
    Users(Vec<UserResponse>),
    User(UserResponse),
    Groups(Vec<GroupResponse>),
    Group(GroupResponse),
    Hosts(Vec<HostResponse>),
    Host(HostResponse),
}

/// An answer as plain data.
pub enum GetentResponseView {
    Users(Seq<UserView>),
    User(UserView),
    Groups(Seq<GroupView>),
    Group(GroupView),
    Hosts(Seq<HostView>),
    Host(HostView),
}

impl View for GetentResponse {
    type V = GetentResponseView;

    open spec fn view(&self) -> GetentResponseView {
        match self {
            GetentResponse::Users(l) => GetentResponseView::Users(plain_list(l@)),
            GetentResponse::User(u) => GetentResponseView::User(u@),
            GetentResponse::Groups(l) => GetentResponseView::Groups(plain_list(l@)),
            GetentResponse::Group(g) => GetentResponseView::Group(g@),
            GetentResponse::Hosts(l) => GetentResponseView::Hosts(plain_list(l@)),
            GetentResponse::Host(h) => GetentResponseView::Host(h@),
        }
    }
}

/// The body of a request to the directory, under the name that the combined
/// login and name-service module has for it.
pub type PamGetentRequest = GetentRequest;

/// A host of the directory, under the name that the combined login and
/// name-service module has for it.
pub type PamHostResponse = HostResponse;

/// A user of the directory, under the name that the combined login and
/// name-service module has for it.
pub type PamUserResponse = UserResponse;

/// A group of the directory as the combined login and name-service module
/// reads it: without its kind.
#[derive(Debug, Clone, PartialEq, Eq)]
pub struct PamGroupResponse {
    pub id: u32,
    pub name: String,
    pub members: Vec<String>,
}

impl PamGroupResponse {
    /// What the combined module reads of `group`.
    pub open spec fn spec_of(group: GroupResponse) -> PamGroupResponse {
        PamGroupResponse { id: group.id, name: group.name, members: group.members }
    }

    /// What the combined module reads of `group`: all but its kind.
    pub fn of(group: GroupResponse) -> (r: PamGroupResponse)
        ensures
            r == Self::spec_of(group),
    {
        PamGroupResponse { id: group.id, name: group.name, members: group.members }
    }
}

/// An answer of the directory as the combined login and name-service module
/// reads it.
#[derive(Debug, Clone, PartialEq, Eq)]
pub enum PamGetentResponse {
    Users(Vec<PamUserResponse>),
    User(PamUserResponse),
    Groups(Vec<PamGroupResponse>),
    Group(PamGroupResponse),
    Hosts(Vec<PamHostResponse>),
    Host(PamHostResponse),
}

impl PamGetentResponse {
    /// Whether `self` is what the combined module reads of `answer`: the
    /// same answer, its groups without their kind.
    pub open spec fn reads(&self, answer: GetentResponse) -> bool {
        match answer {
            GetentResponse::Users(l) => *self == PamGetentResponse::Users(l),
            GetentResponse::User(u) => *self == PamGetentResponse::User(u),
            GetentResponse::Groups(l) => {
                &&& *self matches PamGetentResponse::Groups(out)
                &&& out@.len() == l@.len()
                &&& forall|i: int|
                    0 <= i < l@.len() ==> #[trigger] out@[i] == PamGroupResponse::spec_of(l@[i])
            },
            GetentResponse::Group(g) => *self == PamGetentResponse::Group(
                PamGroupResponse::spec_of(g),
            ),
            GetentResponse::Hosts(l) => *self == PamGetentResponse::Hosts(l),
            GetentResponse::Host(h) => *self == PamGetentResponse::Host(h),
        }
    }

    /// What the combined module reads of `answer`.
    pub fn of(answer: GetentResponse) -> (r: PamGetentResponse)
        ensures
            r.reads(answer),
    {
        match answer {
            GetentResponse::Users(l) => PamGetentResponse::Users(l),
            GetentResponse::User(u) => PamGetentResponse::User(u),
            GetentResponse::Groups(l) => {
                let ghost all = l@;
                let mut out: Vec<PamGroupResponse> = Vec::new();
                for group in it: l
                    invariant
                        it.seq() == all,
                        out@.len() == it.index(),
                        forall|k: int|
                            0 <= k < out@.len() ==> #[trigger] out@[k] == PamGroupResponse::spec_of(
                                all[k],
                            ),
                {
                    out.push(PamGroupResponse::of(group));
                }
                PamGetentResponse::Groups(out)
            },
            GetentResponse::Group(g) => PamGetentResponse::Group(PamGroupResponse::of(g)),
            GetentResponse::Hosts(l) => PamGetentResponse::Hosts(l),
            GetentResponse::Host(h) => PamGetentResponse::Host(h),
        }
    }
}

} // verus!
