use session_auth::codec::CookieCodec;
use session_auth::credential::verify_password;
use session_auth::flows::{
    check_credentials, conclude_registration, login, logout, register, start_session,
    CredentialCheck, LoginOutcome, Lookup, NewUser, RegisterOutcome, StoreError, UserRecord,
};
use session_auth::guard::{authenticate, Identity};
use session_auth::session::SessionStore;
use session_auth::token::is_token;
use session_auth::transport::{expired_cookie, session_cookie, Page, Reply, SetCookie};

const PASSWORD_DIGEST: &str = "$2y$05$bvIG6Nmid91Mu9RcmmWZfO5HJIMCT8riNW0hEp8f6/FuA2/mHZFpe";

fn flow_codec() -> CookieCodec {
    CookieCodec::new((100..164u8).collect()).expect("a codec")
}

fn known_user(id: i64) -> UserRecord {
    UserRecord {
        id,
        username: "bob".to_string(),
        password_hash: PASSWORD_DIGEST.to_string(),
    }
}

fn insert_user(users: &mut Vec<UserRecord>, user: NewUser) -> Result<i64, StoreError> {
    if users.iter().any(|u| u.username == user.username) {
        return Err(StoreError::DuplicateUsername);
    }
    let id = users.len() as i64 + 1;
    users.push(UserRecord { id, username: user.username, password_hash: user.password_hash });
    Ok(id)
}

fn find_user(users: &[UserRecord], name: &str) -> Lookup {
    match users.iter().find(|u| u.username == name) {
        Some(user) => Lookup::Found(user.clone()),
        None => Lookup::Missing,
    }
}

fn cookie_value(outcome: &LoginOutcome) -> String {
    match outcome {
        LoginOutcome::LoggedIn { cookie, .. } => cookie.value.clone(),
        other => panic!("not logged in: {:?}", other),
    }
}

#[test]
fn register_hashes_the_password() {
    let user = register("alice", "pw123").expect("a record");
    assert_eq!(user.username, "alice");
    assert_ne!(user.password_hash, "pw123");
    assert_eq!(user.password_hash.len(), 60);
    assert!(user.password_hash.starts_with("$2b$12$"));
    assert!(verify_password("pw123", &user.password_hash));
}

#[test]
fn registered_password_logs_in_on_a_new_store() {
    let codec = flow_codec();
    let mut store = SessionStore::new();
    let record = register("carol", "s3cret").expect("a record");
    let user = UserRecord { id: 21, username: record.username, password_hash: record.password_hash };
    let check = check_credentials(&Lookup::Found(user), "s3cret");
    assert_eq!(check, CredentialCheck::Accepted(21));
    match login(&mut store, &codec, check) {
        LoginOutcome::LoggedIn { user_id, cookie } => {
            assert_eq!(user_id, 21);
            assert_eq!(cookie.name, "session_id");
            let token = codec.decode(&cookie.value).expect("a token");
            assert_eq!(store.resolve(&token), Some(21));
            store.invalidate(&token);
            assert_eq!(authenticate(&store, &codec, Some(&cookie.value)), Identity::Anonymous);
        }
        other => panic!("not logged in: {:?}", other),
    }
}

#[test]
fn check_credentials_refuses_every_password_for_a_text_that_is_no_digest() {
    for stored in ["", "pw", "password", "$2b$12$short", &"x".repeat(60)[..59], &"\u{e9}".repeat(60)] {
        let user = UserRecord { id: 1, username: "eve".to_string(), password_hash: stored.to_string() };
        let lookup = Lookup::Found(user);
        assert_eq!(check_credentials(&lookup, stored), CredentialCheck::Refused);
        assert_eq!(check_credentials(&lookup, ""), CredentialCheck::Refused);
        assert_eq!(check_credentials(&lookup, "password"), CredentialCheck::Refused);
    }
}

#[test]
fn check_credentials_accepts_the_right_password() {
    assert_eq!(
        check_credentials(&Lookup::Found(known_user(4)), "password"),
        CredentialCheck::Accepted(4)
    );
}

#[test]
fn check_credentials_refuses_alike() {
    assert_eq!(
        check_credentials(&Lookup::Found(known_user(4)), "Password"),
        CredentialCheck::Refused
    );
    assert_eq!(check_credentials(&Lookup::Missing, "password"), CredentialCheck::Refused);
}

#[test]
fn check_credentials_reports_an_unreachable_store() {
    assert_eq!(check_credentials(&Lookup::Unavailable, "password"), CredentialCheck::Unavailable);
}

#[test]
fn start_session_sets_a_cookie_that_opens_to_a_live_token() {
    let codec = flow_codec();
    let mut store = SessionStore::new();
    let cookie = start_session(&mut store, &codec, 12).expect("a cookie");
    assert_eq!(cookie, session_cookie(cookie.value.clone()));
    let token = codec.decode(&cookie.value).expect("a token");
    assert!(is_token(&token));
    assert_eq!(store.resolve(&token), Some(12));
}

#[test]
fn login_maps_each_check() {
    let codec = flow_codec();
    let mut store = SessionStore::new();
    assert_eq!(
        login(&mut store, &codec, CredentialCheck::Refused),
        LoginOutcome::InvalidCredentials
    );
    assert_eq!(
        login(&mut store, &codec, CredentialCheck::Unavailable),
        LoginOutcome::InternalError
    );
    match login(&mut store, &codec, CredentialCheck::Accepted(31)) {
        LoginOutcome::LoggedIn { user_id, cookie } => {
            assert_eq!(user_id, 31);
            assert_eq!(
                authenticate(&store, &codec, Some(&cookie.value)),
                Identity::Authenticated(31)
            );
        }
        other => panic!("not logged in: {:?}", other),
    }
}

#[test]
fn conclude_registration_maps_each_answer() {
    assert_eq!(conclude_registration(Ok(5)), RegisterOutcome::Registered(5));
    assert_eq!(
        conclude_registration(Err(StoreError::DuplicateUsername)),
        RegisterOutcome::DuplicateUsername
    );
    assert_eq!(
        conclude_registration(Err(StoreError::Unavailable)),
        RegisterOutcome::InternalError
    );
}

#[test]
fn register_replies() {
    assert_eq!(RegisterOutcome::Registered(1).reply(), Reply::Redirect(Page::Login));
    assert_eq!(RegisterOutcome::DuplicateUsername.reply(), Reply::Redirect(Page::Register));
    assert_eq!(RegisterOutcome::InternalError.reply(), Reply::ServerError);
}

#[test]
fn login_with_the_right_password_starts_a_session() {
    let codec = flow_codec();
    let mut store = SessionStore::new();
    let outcome = login(&mut store, &codec, check_credentials(&Lookup::Found(known_user(4)), "password"));
    match &outcome {
        LoginOutcome::LoggedIn { user_id, cookie } => {
            assert_eq!(*user_id, 4);
            assert_eq!(cookie.name, "session_id");
            assert!(cookie.http_only);
            assert!(cookie.same_site);
            assert!(!cookie.expire_now);
            let token = codec.decode(&cookie.value).expect("a token");
            assert!(is_token(&token));
            assert_eq!(store.resolve(&token), Some(4));
        }
        other => panic!("not logged in: {:?}", other),
    }
    assert_eq!(outcome.reply(), Reply::Redirect(Page::Index));
    assert_eq!(
        authenticate(&store, &codec, Some(&cookie_value(&outcome))),
        Identity::Authenticated(4)
    );
}

#[test]
fn login_with_a_wrong_password_is_refused() {
    let codec = flow_codec();
    let mut store = SessionStore::new();
    let outcome = login(&mut store, &codec, check_credentials(&Lookup::Found(known_user(4)), "Password"));
    assert_eq!(outcome, LoginOutcome::InvalidCredentials);
    assert_eq!(outcome.reply(), Reply::Redirect(Page::Login));
}

#[test]
fn login_of_a_missing_user_is_refused_alike() {
    let codec = flow_codec();
    let mut store = SessionStore::new();
    let missing = login(&mut store, &codec, check_credentials(&Lookup::Missing, "password"));
    let wrong = login(&mut store, &codec, check_credentials(&Lookup::Found(known_user(4)), "nope"));
    assert_eq!(missing, LoginOutcome::InvalidCredentials);
    assert_eq!(missing, wrong);
    assert_eq!(missing.reply(), wrong.reply());
}

#[test]
fn login_against_a_malformed_digest_is_refused() {
    let codec = flow_codec();
    let mut store = SessionStore::new();
    let user = UserRecord { id: 1, username: "eve".to_string(), password_hash: "pw".to_string() };
    assert_eq!(
        login(&mut store, &codec, check_credentials(&Lookup::Found(user), "pw")),
        LoginOutcome::InvalidCredentials
    );
}

#[test]
fn login_without_the_store_is_an_internal_error() {
    let codec = flow_codec();
    let mut store = SessionStore::new();
    let outcome = login(&mut store, &codec, check_credentials(&Lookup::Unavailable, "password"));
    assert_eq!(outcome, LoginOutcome::InternalError);
    assert_eq!(outcome.reply(), Reply::ServerError);
}

#[test]
fn failed_login_starts_no_session() {
    let codec = flow_codec();
    let mut store = SessionStore::new();
    let kept = store.create(4).expect("a token");
    let _ = login(&mut store, &codec, check_credentials(&Lookup::Found(known_user(4)), "nope"));
    let _ = login(&mut store, &codec, check_credentials(&Lookup::Missing, "password"));
    let _ = login(&mut store, &codec, check_credentials(&Lookup::Unavailable, "password"));
    assert_eq!(store.resolve(&kept), Some(4));
    store.invalidate(&kept);
    let first = store.create(1).expect("a token");
    assert_eq!(store.resolve(&first), Some(1));
}

#[test]
fn two_logins_give_two_sessions() {
    let codec = flow_codec();
    let mut store = SessionStore::new();
    let user = Lookup::Found(known_user(4));
    let first = cookie_value(&login(&mut store, &codec, check_credentials(&user, "password")));
    let second = cookie_value(&login(&mut store, &codec, check_credentials(&user, "password")));
    let first_token = codec.decode(&first).expect("a token");
    let second_token = codec.decode(&second).expect("a token");
    assert_ne!(first_token, second_token);
    assert_eq!(authenticate(&store, &codec, Some(&first)), Identity::Authenticated(4));
    assert_eq!(authenticate(&store, &codec, Some(&second)), Identity::Authenticated(4));
    let _ = logout(&mut store, &codec, Some(&first));
    assert_eq!(authenticate(&store, &codec, Some(&first)), Identity::Anonymous);
    assert_eq!(authenticate(&store, &codec, Some(&second)), Identity::Authenticated(4));
}

#[test]
fn logout_ends_the_session_and_clears_the_cookie() {
    let codec = flow_codec();
    let mut store = SessionStore::new();
    let cookie = cookie_value(&login(&mut store, &codec, check_credentials(&Lookup::Found(known_user(4)), "password")));
    let cleared = logout(&mut store, &codec, Some(&cookie));
    assert_eq!(cleared, expired_cookie());
    assert_eq!(authenticate(&store, &codec, Some(&cookie)), Identity::Anonymous);
}

#[test]
fn logout_is_idempotent() {
    let codec = flow_codec();
    let mut store = SessionStore::new();
    let kept = store.create(9).expect("a token");
    let cookie = cookie_value(&login(&mut store, &codec, check_credentials(&Lookup::Found(known_user(4)), "password")));
    assert_eq!(logout(&mut store, &codec, Some(&cookie)), expired_cookie());
    assert_eq!(logout(&mut store, &codec, Some(&cookie)), expired_cookie());
    assert_eq!(logout(&mut store, &codec, None), expired_cookie());
    assert_eq!(logout(&mut store, &codec, Some("tampered")), expired_cookie());
    assert_eq!(store.resolve(&kept), Some(9));
}

#[test]
fn cookie_directives() {
    let set = session_cookie("sealed".to_string());
    assert_eq!(
        set,
        SetCookie {
            name: "session_id".to_string(),
            value: "sealed".to_string(),
            http_only: true,
            same_site: true,
            expire_now: false,
        }
    );
    let cleared = expired_cookie();
    assert_eq!(
        cleared,
        SetCookie {
            name: "session_id".to_string(),
            value: String::new(),
            http_only: true,
            same_site: true,
            expire_now: true,
        }
    );
}

#[test]
fn end_to_end() {
    let codec = flow_codec();
    let mut store = SessionStore::new();
    let mut users: Vec<UserRecord> = Vec::new();
    // (record id, owner id)
    let forms: Vec<(i64, i64)> = vec![(1, 1), (2, 2)];

    let alice = register("alice", "pw123").expect("a record");
    let first = conclude_registration(insert_user(&mut users, alice));
    assert_eq!(first, RegisterOutcome::Registered(1));
    assert_eq!(first.reply(), Reply::Redirect(Page::Login));

    let again = register("alice", "other").expect("a record");
    let second = conclude_registration(insert_user(&mut users, again));
    assert_eq!(second, RegisterOutcome::DuplicateUsername);
    assert_eq!(users.len(), 1);
    assert!(verify_password("pw123", &users[0].password_hash));
    assert!(!verify_password("other", &users[0].password_hash));

    let outcome = login(&mut store, &codec, check_credentials(&find_user(&users, "alice"), "pw123"));
    let cookie = cookie_value(&outcome);
    assert_eq!(outcome.reply(), Reply::Redirect(Page::Index));

    let identity = authenticate(&store, &codec, Some(&cookie));
    assert_eq!(identity, Identity::Authenticated(1));
    let fetch = |identity: Identity, id: i64| {
        forms.iter().find(|(form, owner)| *form == id && identity.owns(*owner)).map(|(form, _)| *form)
    };
    assert_eq!(fetch(identity, 1), Some(1));
    assert_eq!(fetch(identity, 2), None);

    let cleared = logout(&mut store, &codec, Some(&cookie));
    assert!(cleared.expire_now);
    assert!(cleared.value.is_empty());
    let after = authenticate(&store, &codec, Some(&cookie));
    assert_eq!(after, Identity::Anonymous);
    assert_eq!(after.user_id(), None);
    assert_eq!(fetch(after, 1), None);
}
