use rauthy_pam_nss::api_types::{
    GetentResponse, GroupResponse, GroupType, HostResponse, IpAddress, PamGetentResponse,
    PamGroupResponse, UserResponse,
};
use rauthy_pam_nss::nss::{
    dyn_addr, split_addrs, AddressFamily, Addresses, Group, GroupHooks, Host, HostHooks, Passwd,
    PasswdHooks, RauthyNss, Response, MIN_ID,
};

fn std_bytes<T: bincode::Encode>(v: T) -> Vec<u8> {
    bincode::encode_to_vec(v, bincode::config::standard()).unwrap()
}

fn user(name: &str, id: u32) -> UserResponse {
    UserResponse {
        id,
        name: name.to_string(),
        gid: id + 1,
        email: format!("{name}@example.com"),
        shell: "/bin/zsh".to_string(),
    }
}

fn passwd(name: &str, id: u32) -> Passwd {
    Passwd {
        name: name.to_string(),
        passwd: "x".to_string(),
        uid: id,
        gid: id + 1,
        gecos: format!("{name}@example.com"),
        dir: format!("/home/{name}"),
        shell: "/bin/zsh".to_string(),
    }
}

fn group(name: &str, id: u32) -> GroupResponse {
    GroupResponse {
        id,
        name: name.to_string(),
        typ: GroupType::Generic,
        members: vec!["alice".to_string(), "bob".to_string()],
    }
}

fn host() -> HostResponse {
    HostResponse {
        id: "h1".to_string(),
        name: "web".to_string(),
        aliases: vec!["www".to_string()],
        addresses: vec![
            IpAddress::V6([0x20, 0x01, 0x0d, 0xb8, 0, 0, 0, 0, 0, 0, 0, 0, 0, 0, 0, 1]),
            IpAddress::V4([10, 0, 0, 1]),
            IpAddress::V4([10, 0, 0, 2]),
        ],
    }
}

fn v6_only() -> HostResponse {
    HostResponse { addresses: vec![IpAddress::V6([0; 16])], ..host() }
}

#[test]
fn numbers_below_the_directorys_are_not_asked_after() {
    assert_eq!(MIN_ID, 100_000);
    assert!(!RauthyNss::is_directory_id(0));
    assert!(!RauthyNss::is_directory_id(99_999));
    assert!(RauthyNss::is_directory_id(100_000));
    assert!(RauthyNss::is_directory_id(u32::MAX));
}

#[test]
fn low_numbers_are_answered_without_asking() {
    assert_eq!(RauthyNss::request_user_by_uid(0), Response::NotFound);
    assert_eq!(RauthyNss::request_user_by_uid(99_999), Response::NotFound);
    assert_eq!(
        RauthyNss::request_user_by_uid(100_000),
        Response::Success("/getent/users/uid/100000".to_string())
    );
    assert_eq!(RauthyNss::request_group_by_gid(1_000), Response::NotFound);
    assert_eq!(RauthyNss::request_group_by_gid(99_999), Response::NotFound);
    assert_eq!(
        RauthyNss::request_group_by_gid(4_294_967_295),
        Response::Success("/getent/groups/gid/4294967295".to_string())
    );
}

#[test]
fn paths_of_the_questions() {
    assert_eq!(RauthyNss::path_users(), "/getent/users");
    assert_eq!(RauthyNss::path_user_by_uid(100_001), "/getent/users/uid/100001");
    assert_eq!(RauthyNss::path_user_by_name("alice"), "/getent/users/name/alice");
    assert_eq!(RauthyNss::path_groups(), "/getent/groups");
    assert_eq!(RauthyNss::path_group_by_gid(100_002), "/getent/groups/gid/100002");
    assert_eq!(RauthyNss::path_group_by_name("wheel"), "/getent/groups/name/wheel");
    assert_eq!(RauthyNss::path_hosts(), "/getent/hosts");
    assert_eq!(RauthyNss::path_host_by_name("web"), "/getent/hosts/name/web");
    assert_eq!(RauthyNss::path_host_by_addr("10.0.0.1"), "/getent/hosts/ip/10.0.0.1");
}

#[test]
fn replies_of_the_proxy_are_read() {
    let answer = GetentResponse::User(user("alice", 100_001));
    let bytes = answer.encode();
    assert_eq!(RauthyNss::read_reply(None), Response::TryAgain);
    assert_eq!(RauthyNss::read_reply(Some((200, &bytes))), Response::Success(answer.clone()));
    assert_eq!(RauthyNss::read_reply(Some((299, &bytes))), Response::Success(answer));
    assert_eq!(RauthyNss::read_reply(Some((404, &bytes))), Response::Unavail);
    assert_eq!(RauthyNss::read_reply(Some((199, &bytes))), Response::Unavail);
    assert_eq!(RauthyNss::read_reply(Some((300, &bytes))), Response::Unavail);
    assert_eq!(RauthyNss::read_reply(Some((200, &bytes[..3]))), Response::Unavail);
    assert_eq!(RauthyNss::read_reply(Some((200, &[]))), Response::Unavail);
    assert_eq!(RauthyNss::read_reply(Some((200, &[6, 0]))), Response::Unavail);
}

#[test]
fn users_become_passwd_entries() {
    let answer = GetentResponse::Users(vec![user("alice", 100_001), user("bob", 100_003)]);
    assert_eq!(
        <RauthyNss as PasswdHooks>::get_all_entries(answer),
        Response::Success(vec![passwd("alice", 100_001), passwd("bob", 100_003)])
    );
    assert_eq!(
        <RauthyNss as PasswdHooks>::get_all_entries(GetentResponse::Users(vec![])),
        Response::Success(vec![])
    );
    assert_eq!(
        <RauthyNss as PasswdHooks>::get_entry_by_uid(
            100_005,
            Some(GetentResponse::User(user("carol", 100_005)))
        ),
        Response::Success(passwd("carol", 100_005))
    );
    assert_eq!(
        <RauthyNss as PasswdHooks>::get_entry_by_name(GetentResponse::User(user("dan", 100_007))),
        Response::Success(passwd("dan", 100_007))
    );
    assert_eq!(RauthyNss::passwd_of(user("eve", 100_009)).dir, "/home/eve");
}

#[test]
fn groups_become_group_entries() {
    let entry = |name: &str, gid: u32| Group {
        name: name.to_string(),
        passwd: "x".to_string(),
        gid,
        members: vec!["alice".to_string(), "bob".to_string()],
    };
    assert_eq!(
        <RauthyNss as GroupHooks>::get_all_entries(GetentResponse::Groups(vec![
            group("devs", 100_010),
            group("ops", 100_011)
        ])),
        Response::Success(vec![entry("devs", 100_010), entry("ops", 100_011)])
    );
    assert_eq!(
        <RauthyNss as GroupHooks>::get_entry_by_gid(
            100_010,
            Some(GetentResponse::Group(group("devs", 100_010)))
        ),
        Response::Success(entry("devs", 100_010))
    );
    assert_eq!(
        <RauthyNss as GroupHooks>::get_entry_by_name(GetentResponse::Group(group("ops", 100_011))),
        Response::Success(entry("ops", 100_011))
    );
}

#[test]
fn hosts_become_host_entries() {
    let v4 = Addresses::V4(vec![[10, 0, 0, 1], [10, 0, 0, 2]]);
    let v6 = Addresses::V6(vec![[0x20, 0x01, 0x0d, 0xb8, 0, 0, 0, 0, 0, 0, 0, 0, 0, 0, 0, 1]]);
    let entry = |addresses: Addresses| Host {
        name: "web".to_string(),
        aliases: vec!["www".to_string()],
        addresses,
    };
    assert_eq!(
        RauthyNss::get_host_by_name(GetentResponse::Host(host()), AddressFamily::IPv4),
        Response::Success(entry(v4.clone()))
    );
    assert_eq!(
        RauthyNss::get_host_by_name(GetentResponse::Host(host()), AddressFamily::IPv6),
        Response::Success(entry(v6))
    );
    assert_eq!(
        RauthyNss::get_host_by_name(GetentResponse::Host(host()), AddressFamily::Unspecified),
        Response::Success(entry(v4.clone()))
    );
    assert_eq!(
        RauthyNss::get_host_by_addr(GetentResponse::Host(host())),
        Response::Success(entry(v4.clone()))
    );
    assert_eq!(
        RauthyNss::get_host_by_addr(GetentResponse::Host(v6_only())),
        Response::Success(entry(Addresses::V6(vec![[0; 16]])))
    );
    assert_eq!(
        RauthyNss::get_host_by_name(GetentResponse::Host(v6_only()), AddressFamily::IPv4),
        Response::Success(entry(Addresses::V4(vec![])))
    );
    assert_eq!(
        <RauthyNss as HostHooks>::get_all_entries(GetentResponse::Hosts(vec![host(), v6_only()])),
        Response::Success(vec![entry(v4), entry(Addresses::V6(vec![[0; 16]]))])
    );
}

#[test]
fn addresses_are_told_apart_by_their_kind() {
    let mixed = host().addresses;
    let (v4, v6) = split_addrs(&mixed);
    assert_eq!(v4, vec![[10, 0, 0, 1], [10, 0, 0, 2]]);
    assert_eq!(v6.len(), 1);
    assert_eq!(split_addrs(&vec![]), (vec![], vec![]));
    assert_eq!(dyn_addr(vec![], vec![[1; 16]]), Addresses::V6(vec![[1; 16]]));
    assert_eq!(dyn_addr(vec![[1; 4]], vec![[1; 16]]), Addresses::V4(vec![[1; 4]]));
    assert_eq!(dyn_addr(vec![], vec![]), Addresses::V6(vec![]));
}

#[test]
fn answers_round_trip_through_their_bytes() {
    let answers = vec![
        GetentResponse::Users(vec![user("alice", 100_001), user("bób", u32::MAX - 1)]),
        GetentResponse::Users(vec![]),
        GetentResponse::User(user("alice", 0)),
        GetentResponse::Groups(vec![
            group("devs", 100_010),
            GroupResponse { typ: GroupType::Local, members: vec![], ..group("wheel", 10) },
        ]),
        GetentResponse::Group(GroupResponse { typ: GroupType::Immutable, ..group("g", 1) }),
        GetentResponse::Group(GroupResponse { typ: GroupType::Host, ..group("g", 300) }),
        GetentResponse::Group(GroupResponse { typ: GroupType::User, ..group("g", 70_000) }),
        GetentResponse::Hosts(vec![host(), v6_only()]),
        GetentResponse::Host(host()),
        GetentResponse::Host(HostResponse { aliases: vec![], addresses: vec![], ..host() }),
    ];
    for answer in answers {
        let bytes = answer.encode();
        assert_eq!(GetentResponse::decode(&bytes), Some(answer.clone()));
        for cut in 0..bytes.len() {
            assert_eq!(GetentResponse::decode(&bytes[..cut]), None);
        }
    }
}

#[test]
fn answer_bytes_are_those_of_bincode() {
    let users = vec![user("alice", 100_001), user("bob", 7)];
    let as_tuples: Vec<(u32, String, u32, String, String)> = users
        .iter()
        .map(|u| (u.id, u.name.clone(), u.gid, u.email.clone(), u.shell.clone()))
        .collect();
    assert_eq!(GetentResponse::Users(users.clone()).encode(), std_bytes((0u32, as_tuples.clone())));
    assert_eq!(
        GetentResponse::User(users[0].clone()).encode(),
        std_bytes((1u32, as_tuples[0].clone()))
    );

    let g = GroupResponse { typ: GroupType::Local, ..group("wheel", 100_010) };
    let g_tuple = (g.id, g.name.clone(), 4u32, g.members.clone());
    assert_eq!(GetentResponse::Groups(vec![g.clone()]).encode(), std_bytes((2u32, vec![g_tuple.clone()])));
    assert_eq!(GetentResponse::Group(g).encode(), std_bytes((3u32, g_tuple)));

    let h = host();
    let addrs: Vec<(u32, Vec<u8>)> = Vec::new();
    let _ = addrs;
    let mut expected = std_bytes((5u32, h.id.clone(), h.name.clone(), h.aliases.clone()));
    expected.push(3);
    expected.extend_from_slice(&std_bytes((1u32, [0x20u8, 0x01, 0x0d, 0xb8, 0, 0, 0, 0, 0, 0, 0, 0, 0, 0, 0, 1])));
    expected.extend_from_slice(&std_bytes((0u32, [10u8, 0, 0, 1])));
    expected.extend_from_slice(&std_bytes((0u32, [10u8, 0, 0, 2])));
    assert_eq!(GetentResponse::Host(h.clone()).encode(), expected);
    let mut list = vec![4u8, 1];
    list.extend_from_slice(&expected[1..]);
    assert_eq!(GetentResponse::Hosts(vec![h]).encode(), list);
}

#[test]
fn kinds_of_groups_have_numbers() {
    let kinds = [
        (GroupType::Immutable, 0u64),
        (GroupType::Host, 1),
        (GroupType::User, 2),
        (GroupType::Generic, 3),
        (GroupType::Local, 4),
    ];
    for (kind, number) in kinds {
        assert_eq!(kind.number(), number);
        assert_eq!(GroupType::from_number(number), Some(kind));
    }
    assert_eq!(GroupType::from_number(5), None);
    assert_eq!(GroupType::from_number(u64::MAX), None);
}

#[test]
fn answer_exact_bytes() {
    let answer = GetentResponse::Group(GroupResponse {
        id: 10,
        name: "w".to_string(),
        typ: GroupType::Local,
        members: vec!["a".to_string()],
    });
    assert_eq!(answer.encode(), vec![3, 10, 1, b'w', 4, 1, 1, b'a']);
    assert_eq!(GetentResponse::decode(&[3, 10, 1, b'w', 5, 1, 1, b'a']), None);
    assert_eq!(GetentResponse::decode(&[6]), None);
    let addr = GetentResponse::Host(HostResponse {
        id: String::new(),
        name: String::new(),
        aliases: vec![],
        addresses: vec![IpAddress::V4([1, 2, 3, 4])],
    });
    assert_eq!(addr.encode(), vec![5, 0, 0, 0, 1, 0, 1, 2, 3, 4]);
    assert_eq!(GetentResponse::decode(&[5, 0, 0, 0, 1, 2, 1, 2, 3, 4]), None);
    assert_eq!(GetentResponse::decode(&[5, 0, 0, 0, 1, 1, 1, 2, 3, 4]), None);
}

#[test]
fn the_hooks_know_no_entry_below_the_directory_numbers() {
    for id in [0, 1, 1_000, 65_534, 99_999] {
        assert_eq!(<RauthyNss as PasswdHooks>::get_entry_by_uid(id, None), Response::NotFound);
        assert_eq!(
            <RauthyNss as PasswdHooks>::get_entry_by_uid(
                id,
                Some(GetentResponse::User(user("root", id)))
            ),
            Response::NotFound
        );
        assert_eq!(<RauthyNss as GroupHooks>::get_entry_by_gid(id, None), Response::NotFound);
        assert_eq!(
            <RauthyNss as GroupHooks>::get_entry_by_gid(
                id,
                Some(GetentResponse::Group(group("wheel", id)))
            ),
            Response::NotFound
        );
    }
    assert_eq!(
        <RauthyNss as PasswdHooks>::get_entry_by_uid(
            100_000,
            Some(GetentResponse::User(user("first", 100_000)))
        ),
        Response::Success(passwd("first", 100_000))
    );
}

#[test]
fn the_combined_module_reads_groups_without_their_kind() {
    let read = PamGroupResponse::of(group("devs", 100_010));
    assert_eq!(
        read,
        PamGroupResponse {
            id: 100_010,
            name: "devs".to_string(),
            members: vec!["alice".to_string(), "bob".to_string()],
        }
    );
    assert_eq!(
        PamGetentResponse::of(GetentResponse::Groups(vec![
            group("devs", 100_010),
            group("ops", 100_011)
        ])),
        PamGetentResponse::Groups(vec![
            PamGroupResponse::of(group("devs", 100_010)),
            PamGroupResponse::of(group("ops", 100_011)),
        ])
    );
    assert_eq!(
        PamGetentResponse::of(GetentResponse::Group(group("ops", 100_011))),
        PamGetentResponse::Group(PamGroupResponse::of(group("ops", 100_011)))
    );
    assert_eq!(
        PamGetentResponse::of(GetentResponse::User(user("carol", 100_005))),
        PamGetentResponse::User(user("carol", 100_005))
    );
    assert_eq!(
        PamGetentResponse::of(GetentResponse::Users(vec![user("carol", 100_005)])),
        PamGetentResponse::Users(vec![user("carol", 100_005)])
    );
    assert_eq!(
        PamGetentResponse::of(GetentResponse::Hosts(vec![host(), v6_only()])),
        PamGetentResponse::Hosts(vec![host(), v6_only()])
    );
    assert_eq!(PamGetentResponse::of(GetentResponse::Host(host())), PamGetentResponse::Host(host()));
}
