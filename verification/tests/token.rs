use rauthy_pam_nss::config::{data_path, Config};
use rauthy_pam_nss::pam::token::{
    HomeDirStep, LoadAction, LoadEvent, LoadState, PamToken, TokenStore, ValidateStep,
};
use rauthy_pam_nss::remote::RemoteReply;

fn sample() -> PamToken {
    PamToken {
        id: "tok-1".to_string(),
        exp: 1_900_000_000,
        user_id: "u-abc".to_string(),
        user_email: "alice@example.com".to_string(),
        uid: 100_001,
        gid: 100_002,
        username: "alice".to_string(),
        roles: vec!["admin".to_string(), "dev".to_string()],
        groups: vec!["wheel".to_string()],
    }
}

fn config() -> Config {
    Config {
        rauthy_url: "https://iam.example.com/".to_string(),
        host_id: "host-1".to_string(),
        host_secret: "SECRET-REDACTED".to_string(),
        data_path: data_path(),
        home_dir_skel: Some("/etc/skel".to_string()),
        exec_session_open: None,
        exec_session_close: None,
    }
}

fn same(a: &PamToken, b: &PamToken) -> bool {
    a.id == b.id
        && a.exp == b.exp
        && a.user_id == b.user_id
        && a.user_email == b.user_email
        && a.uid == b.uid
        && a.gid == b.gid
        && a.username == b.username
        && a.roles == b.roles
        && a.groups == b.groups
}

fn bincode_of(token: &PamToken) -> Vec<u8> {
    bincode::encode_to_vec(
        (
            token.id.clone(),
            token.exp,
            token.user_id.clone(),
            token.user_email.clone(),
            token.uid,
            token.gid,
            token.username.clone(),
            token.roles.clone(),
            token.groups.clone(),
        ),
        bincode::config::standard(),
    )
    .unwrap()
}

#[test]
fn token_round_trips_through_its_file_form() {
    let token = sample();
    let bytes = token.encode();
    let back = PamToken::decode(&bytes).expect("decodes");
    assert!(same(&back, &token));
    assert_eq!(back.encode(), bytes);
}

#[test]
fn token_bytes_are_those_of_bincode() {
    let token = sample();
    assert_eq!(token.encode(), bincode_of(&token));
}

#[test]
fn token_with_extreme_values_round_trips() {
    let long = "ä-€-𝄞-".repeat(200);
    for exp in [i64::MIN, -1, 0, 1, 125, 126, 32_767, 32_768, i64::MAX] {
        for id in [0u32, 250, 251, 65_535, 65_536, u32::MAX] {
            let token = PamToken {
                id: long.clone(),
                exp,
                user_id: String::new(),
                user_email: "é@example.com".to_string(),
                uid: id,
                gid: u32::MAX - id,
                username: "u".to_string(),
                roles: vec![String::new(), long.clone()],
                groups: vec![],
            };
            let bytes = token.encode();
            assert_eq!(bytes, bincode_of(&token));
            let back = PamToken::decode(&bytes).expect("decodes");
            assert!(same(&back, &token));
        }
    }
}

#[test]
fn token_is_read_by_bincode() {
    let token = sample();
    let bytes = token.encode();
    type Fields = (String, i64, String, String, u32, u32, String, Vec<String>, Vec<String>);
    let (fields, used): (Fields, usize) =
        bincode::decode_from_slice(&bytes, bincode::config::standard()).unwrap();
    assert_eq!(used, bytes.len());
    assert_eq!(fields.0, token.id);
    assert_eq!(fields.1, token.exp);
    assert_eq!(fields.6, token.username);
    assert_eq!(fields.7, token.roles);
}

#[test]
fn token_exact_bytes() {
    let token = PamToken {
        id: "a".to_string(),
        exp: -3,
        user_id: "".to_string(),
        user_email: "é".to_string(),
        uid: 300,
        gid: 70_000,
        username: "bo".to_string(),
        roles: vec!["r".to_string()],
        groups: vec![],
    };
    let expected: Vec<u8> = vec![
        1, b'a', // id
        5,    // exp: -3 folds onto 5
        0,    // user_id
        2, 0xC3, 0xA9, // user_email
        251, 0x2C, 0x01, // uid 300
        252, 0x70, 0x11, 0x01, 0x00, // gid 70000
        2, b'b', b'o', // username
        1, 1, b'r', // roles
        0,    // groups
    ];
    assert_eq!(token.encode(), expected);
}

#[test]
fn trailing_bytes_are_not_looked_at() {
    let token = sample();
    let mut bytes = token.encode();
    bytes.extend_from_slice(&[1, 2, 3]);
    let back = PamToken::decode(&bytes).expect("decodes");
    assert!(same(&back, &token));
}

#[test]
fn broken_files_do_not_decode() {
    let token = sample();
    let bytes = token.encode();
    assert!(PamToken::decode(&[]).is_none());
    for cut in 0..bytes.len() {
        assert!(PamToken::decode(&bytes[..cut]).is_none(), "cut at {cut}");
    }
    // a text that is not UTF-8
    assert!(PamToken::decode(&[1, 0xFF, 0, 0, 0, 0, 0, 0, 0, 0]).is_none());
    // a reserved marker
    assert!(PamToken::decode(&[255, 0, 0, 0]).is_none());
    // a number of eight bytes where four are the most
    let narrow = PamToken { uid: 7, ..sample() };
    let mut wide = Vec::new();
    wide.extend_from_slice(&bincode::encode_to_vec("tok-1", bincode::config::standard()).unwrap());
    wide.extend_from_slice(&bincode::encode_to_vec(narrow.exp, bincode::config::standard()).unwrap());
    wide.extend_from_slice(&bincode::encode_to_vec("u-abc", bincode::config::standard()).unwrap());
    wide.extend_from_slice(
        &bincode::encode_to_vec("alice@example.com", bincode::config::standard()).unwrap(),
    );
    wide.extend_from_slice(&[253, 7, 0, 0, 0, 0, 0, 0, 0]);
    wide.extend_from_slice(&[1, 1, b'a', 0, 0]);
    assert!(PamToken::decode(&wide).is_none());
}

#[test]
fn numbers_in_more_bytes_than_needed_are_read() {
    // uid 7 written with the two-byte marker
    let mut bytes = Vec::new();
    bytes.extend_from_slice(&[1, b'i']); // id
    bytes.push(2); // exp 1
    bytes.extend_from_slice(&[0, 0]); // user_id, user_email
    bytes.extend_from_slice(&[251, 7, 0]); // uid
    bytes.extend_from_slice(&[252, 9, 0, 0, 0]); // gid
    bytes.extend_from_slice(&[1, b'n']); // username
    bytes.extend_from_slice(&[0, 0]); // roles, groups
    let token = PamToken::decode(&bytes).expect("decodes");
    assert_eq!(token.uid, 7);
    assert_eq!(token.gid, 9);
    assert_eq!(token.exp, 1);
    assert_eq!(token.username, "n");
}

#[test]
fn expiry_is_checked_against_the_given_time() {
    let token = sample();
    assert!(!token.is_expired(1_900_000_000));
    assert!(token.is_expired(1_900_000_001));
    assert_eq!(token.validate_at(1_899_999_999), ValidateStep::AskProvider);
    assert_eq!(token.validate_at(1_900_000_000), ValidateStep::AskProvider);
    assert_eq!(token.validate_at(1_900_000_001), ValidateStep::Expired);
}

#[test]
fn expiry_is_checked_against_the_clock() {
    let old = PamToken { exp: 0, ..sample() };
    assert_eq!(old.validate(), ValidateStep::Expired);
    let young = PamToken { exp: i64::MAX, ..sample() };
    assert_eq!(young.validate(), ValidateStep::AskProvider);
}

#[test]
fn validate_request_names_the_token() {
    let request = sample().validate_request(&config());
    assert_eq!(request.url, "https://iam.example.com/auth/v1/pam/validate/u-abc");
    assert_eq!(request.authorization, "PamToken tok-1");
}

#[test]
fn save_writes_the_token_file_in_the_users_directory() {
    let token = sample();
    let request = token.save(&config());
    assert_eq!(request.dir, "/var/lib/pam_rauthy/alice");
    assert_eq!(request.dir_mode, 0o600);
    assert_eq!(request.path, "/var/lib/pam_rauthy/alice/token");
    assert!(request.overwrite);
    assert_eq!(request.bytes, token.encode());
    assert_eq!(
        PamToken::token_path(&config(), "alice"),
        "/var/lib/pam_rauthy/alice/token"
    );
    let event = LoadEvent::from_file(Some(&request.bytes));
    match event {
        LoadEvent::Read(back) => assert!(same(&back, &token)),
        other => panic!("unexpected event {other:?}"),
    }
}

#[test]
fn expired_token_is_absent_without_asking_the_provider() {
    let mut store = TokenStore { slot: None };
    let (state, action) = PamToken::try_load_at(
        &mut store,
        LoadState::Idle,
        LoadEvent::Begin { with_validation: true },
        2_000_000_000,
    );
    assert_eq!(action, LoadAction::ReadFile);
    let (state, action) =
        PamToken::try_load_at(&mut store, state, LoadEvent::Read(sample()), 2_000_000_000);
    assert_eq!(action, LoadAction::Absent);
    assert!(matches!(state, LoadState::Finished));
    assert!(store.slot.is_none());
}

#[test]
fn expired_token_is_absent_by_the_clock() {
    let mut store = TokenStore { slot: None };
    let (state, action) = PamToken::try_load(
        &mut store,
        LoadState::Idle,
        LoadEvent::Begin { with_validation: true },
    );
    assert_eq!(action, LoadAction::ReadFile);
    let old = PamToken { exp: 1, ..sample() };
    let (_, action) = PamToken::try_load(&mut store, state, LoadEvent::Read(old));
    assert_eq!(action, LoadAction::Absent);
    assert!(store.slot.is_none());
}

#[test]
fn good_token_is_stored_once_the_provider_accepts_it() {
    let mut store = TokenStore { slot: None };
    let now = 1_800_000_000;
    let (state, _) = PamToken::try_load_at(
        &mut store,
        LoadState::Idle,
        LoadEvent::Begin { with_validation: true },
        now,
    );
    let (state, action) = PamToken::try_load_at(&mut store, state, LoadEvent::Read(sample()), now);
    assert_eq!(action, LoadAction::Revalidate);
    assert!(store.slot.is_none());
    let (state, action) = PamToken::try_load_at(
        &mut store,
        state,
        LoadEvent::Provider(RemoteReply::Decoded(())),
        now,
    );
    assert_eq!(action, LoadAction::Present);
    assert!(matches!(state, LoadState::Finished));
    assert!(same(store.slot.as_ref().unwrap(), &sample()));
}

#[test]
fn rejected_token_is_absent() {
    let mut store = TokenStore { slot: None };
    let now = 1_800_000_000;
    let (state, action) = PamToken::try_load_at(
        &mut store,
        LoadState::AwaitFile { with_validation: true },
        LoadEvent::Read(sample()),
        now,
    );
    assert_eq!(action, LoadAction::Revalidate);
    let (_, action) = PamToken::try_load_at(
        &mut store,
        state,
        LoadEvent::Provider(RemoteReply::Refused { status: 401, body: "no".to_string() }),
        now,
    );
    assert_eq!(action, LoadAction::Absent);
    assert!(store.slot.is_none());
}

#[test]
fn without_validation_the_token_is_stored_as_read() {
    let mut store = TokenStore { slot: None };
    let (state, action) = PamToken::try_load_at(
        &mut store,
        LoadState::Idle,
        LoadEvent::Begin { with_validation: false },
        3_000_000_000,
    );
    assert_eq!(action, LoadAction::ReadFile);
    let (_, action) =
        PamToken::try_load_at(&mut store, state, LoadEvent::Read(sample()), 3_000_000_000);
    assert_eq!(action, LoadAction::Present);
    assert!(store.slot.is_some());
}

#[test]
fn store_is_filled_only_once() {
    let mut store = TokenStore { slot: Some(sample()) };
    let other = PamToken { id: "other".to_string(), ..sample() };
    let (state, action) = PamToken::try_load_at(
        &mut store,
        LoadState::AwaitFile { with_validation: false },
        LoadEvent::Read(other),
        0,
    );
    assert_eq!(action, LoadAction::Present);
    assert!(matches!(state, LoadState::Finished));
    assert_eq!(store.slot.as_ref().unwrap().id, "tok-1");
    let (_, action) = PamToken::try_load_at(
        &mut store,
        LoadState::Idle,
        LoadEvent::Begin { with_validation: true },
        5_000_000_000,
    );
    assert_eq!(action, LoadAction::Present);
}

#[test]
fn unreadable_and_garbled_files_fail_the_loading() {
    assert!(matches!(LoadEvent::from_file(None), LoadEvent::Unreadable));
    assert!(matches!(LoadEvent::from_file(Some(&[9, 9])), LoadEvent::Garbled));
    for event in [LoadEvent::Unreadable, LoadEvent::Garbled] {
        let mut store = TokenStore { slot: None };
        let (state, action) = PamToken::try_load_at(
            &mut store,
            LoadState::AwaitFile { with_validation: true },
            event,
            0,
        );
        assert_eq!(action, LoadAction::Failed);
        assert!(matches!(state, LoadState::Finished));
        assert!(store.slot.is_none());
    }
}

#[test]
fn home_directory_steps() {
    let token = sample();
    assert_eq!(token.home_dir(), "/home/alice");
    assert_eq!(
        token.create_home_dir(false, true),
        vec![
            HomeDirStep::CreateDir,
            HomeDirStep::SetOwner { uid: 100_001, gid: 100_002 },
            HomeDirStep::SetMode { mode: 0o700 },
            HomeDirStep::Relabel,
            HomeDirStep::CopySkeleton { uid: 100_001, gid: 100_002 },
        ]
    );
    assert_eq!(
        token.create_home_dir(false, false),
        vec![
            HomeDirStep::CreateDir,
            HomeDirStep::SetOwner { uid: 100_001, gid: 100_002 },
            HomeDirStep::SetMode { mode: 0o700 },
            HomeDirStep::Relabel,
        ]
    );
    assert!(token.create_home_dir(true, true).is_empty());
    assert!(token.create_home_dir(true, false).is_empty());
    for step in token.create_home_dir(false, true) {
        assert_eq!(step.is_best_effort(), step == HomeDirStep::Relabel);
    }
}

#[test]
fn data_path_of_a_user() {
    let mut config = config();
    assert_eq!(config.data_path, "/var/lib/pam_rauthy");
    assert_eq!(config.data_path_user("bob"), "/var/lib/pam_rauthy/bob");
    config.data_path = "/srv/data/".to_string();
    assert_eq!(config.data_path_user("bob"), "/srv/data/bob");
    assert_eq!(config.data_path_user("/abs"), "/abs");
    config.data_path = String::new();
    assert_eq!(config.data_path_user("bob"), "bob");
    assert!(Config::needs_mode_repair(0o600));
    assert!(!Config::needs_mode_repair(0o644));
}
