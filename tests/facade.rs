use chat_auth::app::authenticate;
use chat_auth::credentials::{check_password, digests_equal, hash_password, make_salt};
use chat_auth::{App, AuthError, DatabaseError, Device, Inserter, MemoryStore, Retriever};

fn fresh() -> App<MemoryStore> {
    App::new(MemoryStore::new())
}

#[test]
fn register_login_heartbeat_logout_scenario() {
    let mut app = fresh();
    let u = app.register("Alice", "Smith", "secret").expect("registered");
    let s = app.login(u, "secret").expect("logged in");
    assert_eq!(app.session_validate_str(&s.to_string()), Some(u));

    // Put the stored activity time back to 0 so that the heartbeat visibly sets it.
    assert!(app.storage.update_last_activity(u, 0).is_none());
    assert_eq!(app.storage.get_user(u).unwrap().last_active, 0);
    assert_eq!(app.set_activity(s), Some(()));
    assert!(app.storage.get_user(u).unwrap().last_active > 0);

    assert_eq!(app.logout(s), Some(()));
    assert_eq!(app.session_validate_str(&s.to_string()), None);
}

#[test]
fn register_stores_digest_and_salt_not_password() {
    let mut app = fresh();
    let u = app.register("Alice", "Smith", "secret").unwrap();
    let user = app.storage.get_user(u).unwrap();
    assert_eq!(user.name, "Alice");
    assert_eq!(user.surname, "Smith");
    assert_eq!(user.salt.len(), 16);
    assert!(user.salt.chars().all(|c| c.is_ascii_hexdigit() && !c.is_ascii_uppercase()));
    assert_ne!(user.password, "secret");
    let mut salted = user.salt.clone();
    salted.push_str("secret");
    assert_eq!(user.password, blake3::hash(salted.as_bytes()).to_hex().as_str());
    assert!(user.last_active > 0);
}

#[test]
fn register_salted_uses_seed_as_salt() {
    let mut app = fresh();
    let u = app.register_salted("Bob", "Jones", "pw", 0xdead_beef, 1234).unwrap();
    let user = app.storage.get_user(u).unwrap();
    assert_eq!(user.salt, "00000000deadbeef");
    assert_eq!(
        user.password,
        blake3::hash(b"00000000deadbeefpw").to_hex().as_str()
    );
    assert_eq!(user.last_active, 1234);
}

#[test]
fn login_right_and_wrong_password() {
    let mut app = fresh();
    let u = app.register("Alice", "Smith", "secret").unwrap();
    assert!(app.login(u, "secret").is_ok());
    assert_eq!(app.login(u, "Secret"), Err(AuthError::InvalidCredentials));
    assert_eq!(app.login(u, ""), Err(AuthError::InvalidCredentials));
    assert_eq!(app.login(u, "secretx"), Err(AuthError::InvalidCredentials));
}

#[test]
fn login_unknown_user() {
    let mut app = fresh();
    assert_eq!(app.login(1, "secret"), Err(AuthError::UserNotFound));
    assert_eq!(app.login(-7, "secret"), Err(AuthError::UserNotFound));
    assert_eq!(app.sessions.len(), 0);
}

#[test]
fn failed_login_opens_no_session() {
    let mut app = fresh();
    let u = app.register("Alice", "Smith", "secret").unwrap();
    let _ = app.login(u, "nope");
    assert_eq!(app.sessions.len(), 0);
    assert_eq!(app.is_active(u), Some(false));
}

#[test]
fn two_logins_are_distinct_and_independent() {
    let mut app = fresh();
    let u = app.register("Alice", "Smith", "secret").unwrap();
    let s1 = app.login(u, "secret").unwrap();
    let s2 = app.login(u, "secret").unwrap();
    assert_ne!(s1, s2);
    assert_eq!(app.session_validate_str(&s1.to_string()), Some(u));
    assert_eq!(app.session_validate_str(&s2.to_string()), Some(u));
    app.logout(s1);
    assert_eq!(app.session_validate_str(&s1.to_string()), None);
    assert_eq!(app.session_validate_str(&s2.to_string()), Some(u));
    assert_eq!(app.is_active(u), Some(true));
    app.logout(s2);
    assert_eq!(app.is_active(u), Some(false));
}

#[test]
fn logout_twice_is_no_error() {
    let mut app = fresh();
    let u = app.register("Alice", "Smith", "secret").unwrap();
    let s = app.login(u, "secret").unwrap();
    assert_eq!(app.logout(s), Some(()));
    assert_eq!(app.logout(s), Some(()));
    assert_eq!(app.sessions.len(), 0);
}

#[test]
fn logout_of_unknown_session_is_no_error() {
    let mut app = fresh();
    assert_eq!(app.logout(42), Some(()));
}

#[test]
fn malformed_session_ids_are_no_session() {
    let mut app = fresh();
    let u = app.register("Alice", "Smith", "secret").unwrap();
    let _ = app.login(u, "secret").unwrap();
    assert_eq!(app.session_validate_str("not-a-number"), None);
    assert_eq!(app.session_validate_str(""), None);
    assert_eq!(app.session_validate_str("+"), None);
    assert_eq!(app.session_validate_str("-"), None);
    assert_eq!(app.session_validate_str(" 12"), None);
    assert_eq!(app.session_validate_str("12a"), None);
    assert_eq!(app.session_validate_str("1_000"), None);
    assert_eq!(app.session_validate_str("99999999999999999999"), None);
}

#[test]
fn session_ids_parse_with_sign() {
    let mut app = fresh();
    assert!(app.sessions.insert_with_id(5, 10, 100));
    assert!(app.sessions.insert_with_id(-5, 11, 100));
    assert_eq!(app.session_validate_str("5"), Some(10));
    assert_eq!(app.session_validate_str("+5"), Some(10));
    assert_eq!(app.session_validate_str("005"), Some(10));
    assert_eq!(app.session_validate_str("-5"), Some(11));
    assert_eq!(app.session_validate_str("6"), None);
}

#[test]
fn extreme_session_ids() {
    let mut app = fresh();
    assert!(app.sessions.insert_with_id(i64::MAX, 1, 0));
    assert!(app.sessions.insert_with_id(i64::MIN, 2, 0));
    assert_eq!(app.session_validate_str("9223372036854775807"), Some(1));
    assert_eq!(app.session_validate_str("-9223372036854775808"), Some(2));
    assert_eq!(app.session_validate_str("9223372036854775808"), None);
}

#[test]
fn live_session_id_is_never_overwritten() {
    let mut app = fresh();
    assert!(app.sessions.insert_with_id(7, 1, 100));
    assert!(!app.sessions.insert_with_id(7, 2, 200));
    assert_eq!(app.sessions.lookup(7), Some(1));
}

#[test]
fn sweep_removes_idle_and_keeps_recent() {
    let mut app = fresh();
    assert!(app.sessions.insert_with_id(1, 10, 1000));
    assert!(app.sessions.insert_with_id(2, 20, 1000));
    assert!(app.sessions.insert_with_id(3, 30, 1000));
    // Session 2 was refreshed 90 seconds before the sweep: it stays.
    assert_eq!(app.sessions.touch(2, 1001), Some(20));
    let mut removed = app.sweep(1091);
    removed.sort();
    assert_eq!(removed, vec![1, 3]);
    assert_eq!(app.sessions.lookup(1), None);
    assert_eq!(app.sessions.lookup(2), Some(20));
    assert_eq!(app.sessions.lookup(3), None);
    assert_eq!(app.sessions.len(), 1);
}

#[test]
fn sweep_at_exactly_the_limit_keeps() {
    let mut app = fresh();
    assert!(app.sessions.insert_with_id(1, 10, 1000));
    assert!(app.sweep(1090).is_empty());
    assert_eq!(app.sweep(1091), vec![1]);
}

#[test]
fn sweep_of_empty_table() {
    let mut app = fresh();
    assert!(app.sweep(i64::MAX).is_empty());
    assert!(app.sweep(i64::MIN).is_empty());
}

#[test]
fn sweep_near_integer_limits() {
    let mut app = fresh();
    assert!(app.sessions.insert_with_id(1, 10, i64::MAX));
    assert!(app.sessions.insert_with_id(2, 20, i64::MIN));
    assert_eq!(app.sweep(i64::MIN + 90), Vec::<i64>::new());
    assert_eq!(app.sweep(i64::MIN + 91), vec![2]);
    assert_eq!(app.sweep(i64::MAX), Vec::<i64>::new());
}

#[test]
fn reaper_keeps_fresh_sessions() {
    let mut app = fresh();
    let u = app.register("Alice", "Smith", "secret").unwrap();
    let s = app.login(u, "secret").unwrap();
    app.reaper();
    assert_eq!(app.session_validate_str(&s.to_string()), Some(u));
}

#[test]
fn reaper_removes_stale_sessions() {
    let mut app = fresh();
    assert!(app.sessions.insert_with_id(9, 1, 0));
    app.reaper();
    assert_eq!(app.sessions.lookup(9), None);
}

#[test]
fn heartbeat_of_unknown_session() {
    let mut app = fresh();
    let u = app.register("Alice", "Smith", "secret").unwrap();
    assert_eq!(app.set_activity(12345), None);
    assert_eq!(app.heartbeat_at(12345, 99), None);
    assert_ne!(app.storage.get_user(u).unwrap().last_active, 99);
}

#[test]
fn heartbeat_refreshes_session_and_owner() {
    let mut app = fresh();
    let u = app.register_salted("Alice", "Smith", "secret", 1, 10).unwrap();
    assert!(app.sessions.insert_with_id(77, u, 10));
    assert_eq!(app.heartbeat_at(77, 500), Some(()));
    assert_eq!(app.storage.get_user(u).unwrap().last_active, 500);
    assert_eq!(app.sweep(590), Vec::<i64>::new());
    assert_eq!(app.sessions.lookup(77), Some(u));
}

#[test]
fn heartbeat_for_session_of_missing_user() {
    let mut app = fresh();
    assert!(app.sessions.insert_with_id(77, 5, 10));
    assert_eq!(app.heartbeat_at(77, 500), None);
    // The session itself is still refreshed.
    assert_eq!(app.sweep(590), Vec::<i64>::new());
}

#[test]
fn is_active_reports_live_sessions() {
    let mut app = fresh();
    assert_eq!(app.is_active(1), Some(false));
    assert!(app.sessions.insert_with_id(3, 1, 0));
    assert_eq!(app.is_active(1), Some(true));
    assert_eq!(app.is_active(2), Some(false));
}

#[test]
fn create_chat_invite_then_listed() {
    let mut app = fresh();
    let u = app.register("Alice", "Smith", "secret").unwrap();
    let c = app.create_chat("Team", "desc").unwrap();
    assert_eq!(app.invite(u, c), Some(()));
    let chats = app.storage.get_chats(u).unwrap();
    assert_eq!(chats.len(), 1);
    assert_eq!(chats[0].id, c);
    assert_eq!(chats[0].title, "Team");
    assert_eq!(chats[0].description, "desc");
}

#[test]
fn chat_not_listed_before_invite() {
    let mut app = fresh();
    let u = app.register("Alice", "Smith", "secret").unwrap();
    let _ = app.create_chat("Team", "desc").unwrap();
    assert!(app.storage.get_chats(u).unwrap().is_empty());
}

#[test]
fn invite_to_missing_chat_fails() {
    let mut app = fresh();
    let u = app.register("Alice", "Smith", "secret").unwrap();
    assert_eq!(app.invite(u, 99), None);
    assert_eq!(app.invite(u + 1, 99), None);
}

#[test]
fn invite_twice_lists_chat_once() {
    let mut app = fresh();
    let u = app.register("Alice", "Smith", "secret").unwrap();
    let c = app.create_chat("Team", "desc").unwrap();
    assert_eq!(app.invite(u, c), Some(()));
    assert_eq!(app.invite(u, c), Some(()));
    assert_eq!(app.storage.get_chats(u).unwrap().len(), 1);
}

#[test]
fn create_chat_with_member_lists_for_creator() {
    let mut app = fresh();
    let u = app.register("Alice", "Smith", "secret").unwrap();
    let c = app.create_chat_with_member(u, "Team", "desc").unwrap();
    let chats = app.storage.get_chats(u).unwrap();
    assert_eq!(chats.len(), 1);
    assert_eq!(chats[0].id, c);
}

#[test]
fn create_chat_with_missing_member_reports_failure() {
    let mut app = fresh();
    assert_eq!(app.create_chat_with_member(5, "Team", "desc"), None);
}

#[test]
fn messages_are_stored_per_chat_in_order() {
    let mut app = fresh();
    let u = app.register("Alice", "Smith", "secret").unwrap();
    let c1 = app.create_chat("One", "").unwrap();
    let c2 = app.create_chat("Two", "").unwrap();
    assert_eq!(app.message_at(u, c1, "hello", 10), Some(()));
    assert_eq!(app.message_at(u, c2, "other", 11), Some(()));
    assert_eq!(app.message(u, c1, "again"), Some(()));
    let msgs = app.storage.get_messages(c1).unwrap();
    assert_eq!(msgs.len(), 2);
    assert_eq!(msgs[0].content, "hello");
    assert_eq!(msgs[0].timestamp, 10);
    assert_eq!(msgs[0].user_id, u);
    assert_eq!(msgs[0].chat_id, c1);
    assert_eq!(msgs[1].content, "again");
    assert_eq!(app.storage.get_messages(c2).unwrap().len(), 1);
}

#[test]
fn message_to_missing_chat_fails() {
    let mut app = fresh();
    assert_eq!(app.message_at(1, 3, "hello", 10), None);
    assert!(app.storage.get_messages(3).unwrap().is_empty());
}

#[test]
fn store_lists_users_and_devices() {
    let mut store = MemoryStore::new();
    let a = store.create_user("A", "a", "h1", "s1").unwrap();
    let b = store.create_user("B", "b", "h2", "s2").unwrap();
    assert_eq!((a, b), (1, 2));
    let users = store.get_users().unwrap();
    assert_eq!(users.len(), 2);
    assert_eq!(users[1].name, "B");
    assert!(store.get_user(3).is_err());
    assert!(store.get_user(0).is_err());
    store.add_device(Device::new(a, [10, 0, 0, 1], "laptop".to_string(), true));
    store.add_device(Device::new(b, [10, 0, 0, 2], "phone".to_string(), false));
    let devices = store.get_devices(a).unwrap();
    assert_eq!(devices.len(), 1);
    assert_eq!(devices[0].ip, [10, 0, 0, 1]);
    assert_eq!(devices[0].name, "laptop");
    assert!(store.get_devices(99).unwrap().is_empty());
    assert!(store.update_last_activity(3, 1).is_some());
}

#[test]
fn salt_is_sixteen_lowercase_hex_digits() {
    assert_eq!(make_salt(0), "0000000000000000");
    assert_eq!(make_salt(0xdead_beef), "00000000deadbeef");
    assert_eq!(make_salt(u64::MAX), "ffffffffffffffff");
    assert_eq!(make_salt(0x0123_4567_89ab_cdef), "0123456789abcdef");
}

#[test]
fn password_digest_is_blake3_of_salt_then_password() {
    let d = hash_password("ab", "cd");
    assert_eq!(d, blake3::hash(b"abcd").to_hex().as_str());
    assert_eq!(d.len(), 64);
    assert_ne!(d, "abcd");
    assert!(check_password(&d, "ab", "cd"));
    assert!(!check_password(&d, "ab", "ce"));
    // Only the concatenation is hashed, so the split between salt and password is not recorded.
    assert!(check_password(&d, "a", "bcd"));
}

#[test]
fn authenticate_decides_from_the_found_record() {
    let salt = make_salt(42);
    let digest = hash_password(&salt, "pw");
    let user = chat_auth::User::new(9, "A".to_string(), "B".to_string(), digest, salt, 0);
    let found: Result<chat_auth::User, DatabaseError> = Ok(user);
    assert_eq!(authenticate(&found, "pw"), Ok(9));
    assert_eq!(authenticate(&found, "px"), Err(AuthError::InvalidCredentials));
    let missing: Result<chat_auth::User, DatabaseError> =
        Err(DatabaseError::new("no such user".to_string()));
    assert_eq!(authenticate(&missing, "pw"), Err(AuthError::UserNotFound));
}

#[test]
fn digests_compare_by_characters() {
    assert!(digests_equal("", ""));
    assert!(digests_equal("abc", "abc"));
    assert!(!digests_equal("abc", "abd"));
    assert!(!digests_equal("abc", "ab"));
}

#[test]
fn constructors_keep_their_fields() {
    let s = chat_auth::Session::new(3, 44);
    assert_eq!((s.user_id, s.timestamp), (3, 44));
    let i = chat_auth::Invitation::new(1, 2);
    assert_eq!((i.chat_id, i.user_id), (1, 2));
    let c = chat_auth::Chat::new(5, "t".to_string(), "d".to_string());
    assert_eq!((c.id, c.title.as_str(), c.description.as_str()), (5, "t", "d"));
    let m = chat_auth::Message::new("hi".to_string(), 7, 1, 2);
    assert_eq!((m.content.as_str(), m.timestamp, m.chat_id, m.user_id), ("hi", 7, 1, 2));
    let e = DatabaseError::new("boom".to_string());
    assert_eq!(e.message, "boom");
}

#[test]
fn clock_reads_after_the_epoch() {
    assert!(chat_auth::unixepoch() > 1_600_000_000);
}

#[test]
fn insert_into_empty_table_succeeds() {
    let mut sessions = chat_auth::SessionStore::new();
    let sid = sessions.insert(4, 100).expect("an empty table has room");
    assert_eq!(sessions.lookup(sid), Some(4));
    assert_eq!(sessions.len(), 1);
    let other = sessions.insert(4, 101).expect("a fresh id");
    assert_ne!(sid, other);
}
