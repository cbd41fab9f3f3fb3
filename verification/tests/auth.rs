use guild_access::auth::{
    get_user_by_id, get_user_by_id_resume, grant_session, login, login_resume, logout,
    judge_password, signup, signup_insert, signup_resume, LoginState, SignupState, UserLookupState,
};
use guild_access::clock::Timestamp;
use guild_access::error::{AuthError, StoreFault};
use guild_access::flow::Step;
use guild_access::memory::MemoryStore;
use guild_access::model::{AuthResponse, LoginPayload, SignupPayload, User, UserResponse};
use guild_access::password::verify_password;
use guild_access::store::{Reply, Request};
use guild_access::token::validate_token;

const SECRET: &str = "a server-wide secret";

fn at(secs: i64) -> Timestamp {
    Timestamp { secs, nanos: 0 }
}

fn ada() -> SignupPayload {
    SignupPayload {
        username: "ada".to_string(),
        email: "ada@example.org".to_string(),
        password: "analytical engine".to_string(),
    }
}

fn stored_user() -> User {
    User {
        id: 7,
        email: "ada@example.org".to_string(),
        password_hash: "$2y$05$bvIG6Nmid91Mu9RcmmWZfO5HJIMCT8riNW0hEp8f6/FuA2/mHZFpe".to_string(),
        username: "ada".to_string(),
        avatar_url: Some("https://example.org/ada.png".to_string()),
        created_at: at(1_700_000_000),
    }
}

fn run_signup(store: &mut MemoryStore, payload: SignupPayload) -> Result<AuthResponse, AuthError> {
    let mut step = signup(payload);
    loop {
        match step {
            Step::Done(result) => return result,
            Step::Ask(state, request) => {
                let reply = store.respond(request, at(1_700_000_000));
                step = signup_resume(state, reply, SECRET);
            }
        }
    }
}

fn run_login(store: &mut MemoryStore, payload: LoginPayload) -> Result<AuthResponse, AuthError> {
    let mut step = login(payload);
    loop {
        match step {
            Step::Done(result) => return result,
            Step::Ask(state, request) => {
                let reply = store.respond(request, at(1_700_000_100));
                step = login_resume(state, reply, SECRET);
            }
        }
    }
}

fn run_lookup(store: &mut MemoryStore, id: u128) -> Result<UserResponse, AuthError> {
    let mut step = get_user_by_id(id);
    loop {
        match step {
            Step::Done(result) => return result,
            Step::Ask(state, request) => {
                let reply = store.respond(request, at(1_700_000_200));
                step = get_user_by_id_resume(state, reply);
            }
        }
    }
}

#[test]
fn signup_first_asks_whether_the_email_exists() {
    match signup(ada()) {
        Step::Ask(SignupState::Checking(kept), Request::EmailExists { email }) => {
            assert_eq!(kept, ada());
            assert_eq!(email, "ada@example.org");
        }
        other => panic!("unexpected step: {:?}", other),
    }
}

#[test]
fn signup_with_a_fresh_email_succeeds() {
    let mut store = MemoryStore::new();
    let response = run_signup(&mut store, ada()).unwrap();
    assert_eq!(response.user.email, "ada@example.org");
    assert_eq!(response.user.username, "ada");
    assert_eq!(response.user.avatar_url, None);
    assert_eq!(response.user.created_at, at(1_700_000_000));
    assert_eq!(store.users.len(), 1);
    assert_eq!(store.users[0].id, response.user.id);
    assert_eq!(store.users[0].email, "ada@example.org");
    let claims = validate_token(&response.token, SECRET).unwrap();
    assert_eq!(claims.sub, response.user.id);
    assert_eq!(claims.email, "ada@example.org");
}

#[test]
fn signup_stores_a_hash_and_not_the_password() {
    let mut store = MemoryStore::new();
    run_signup(&mut store, ada()).unwrap();
    assert_ne!(store.users[0].password_hash, "analytical engine");
    assert!(verify_password("analytical engine", &store.users[0].password_hash).unwrap());
    assert!(!verify_password("difference engine", &store.users[0].password_hash).unwrap());
}

#[test]
fn signup_draws_a_random_uuid_for_the_user() {
    let mut store = MemoryStore::new();
    let first = run_signup(&mut store, ada()).unwrap();
    let mut other = ada();
    other.email = "grace@example.org".to_string();
    let second = run_signup(&mut store, other).unwrap();
    assert_ne!(first.user.id, second.user.id);
    for id in [first.user.id, second.user.id] {
        assert_eq!((id >> 76) & 0xf, 4);
        assert_eq!((id >> 62) & 0x3, 2);
    }
}

#[test]
fn second_signup_with_the_same_email_fails() {
    let mut store = MemoryStore::new();
    run_signup(&mut store, ada()).unwrap();
    let mut again = ada();
    again.username = "countess".to_string();
    again.password = "another".to_string();
    assert!(matches!(run_signup(&mut store, again), Err(AuthError::EmailExists)));
    assert_eq!(store.users.len(), 1);
    assert_eq!(store.users[0].username, "ada");
}

#[test]
fn signup_email_is_compared_as_stored() {
    let mut store = MemoryStore::new();
    run_signup(&mut store, ada()).unwrap();
    let mut upper = ada();
    upper.email = "Ada@example.org".to_string();
    assert!(run_signup(&mut store, upper).is_ok());
    assert_eq!(store.users.len(), 2);
}

#[test]
fn signup_reports_an_existing_email_from_the_check() {
    let step = signup_resume(SignupState::Checking(ada()), Reply::Exists(true), SECRET);
    assert!(matches!(step, Step::Done(Err(AuthError::EmailExists))));
}

#[test]
fn signup_asks_for_the_insert_when_the_email_is_free() {
    match signup_resume(SignupState::Checking(ada()), Reply::Exists(false), SECRET) {
        Step::Ask(SignupState::Inserting, Request::InsertUser { id: _, email, password_hash, username }) => {
            assert_eq!(email, "ada@example.org");
            assert_eq!(username, "ada");
            assert!(verify_password("analytical engine", &password_hash).unwrap());
        }
        other => panic!("unexpected step: {:?}", other),
    }
}

#[test]
fn signup_treats_a_conflict_at_insert_as_an_existing_email() {
    let step = signup_resume(SignupState::Inserting, Reply::Conflict, SECRET);
    assert!(matches!(step, Step::Done(Err(AuthError::EmailExists))));
}

#[test]
fn concurrent_signups_with_one_email_have_one_winner() {
    let mut store = MemoryStore::new();
    let (first_state, first_check) = match signup(ada()) {
        Step::Ask(state, request) => (state, request),
        other => panic!("unexpected step: {:?}", other),
    };
    let (second_state, second_check) = match signup(ada()) {
        Step::Ask(state, request) => (state, request),
        other => panic!("unexpected step: {:?}", other),
    };
    let first_reply = store.respond(first_check, at(10));
    let second_reply = store.respond(second_check, at(10));
    assert_eq!(first_reply, Reply::Exists(false));
    assert_eq!(second_reply, Reply::Exists(false));
    let (first_state, first_insert) = match signup_resume(first_state, first_reply, SECRET) {
        Step::Ask(state, request) => (state, request),
        other => panic!("unexpected step: {:?}", other),
    };
    let (second_state, second_insert) = match signup_resume(second_state, second_reply, SECRET) {
        Step::Ask(state, request) => (state, request),
        other => panic!("unexpected step: {:?}", other),
    };
    let second_reply = store.respond(second_insert, at(11));
    let first_reply = store.respond(first_insert, at(11));
    assert_eq!(first_reply, Reply::Conflict);
    assert!(matches!(signup_resume(second_state, second_reply, SECRET), Step::Done(Ok(_))));
    assert!(matches!(
        signup_resume(first_state, first_reply, SECRET),
        Step::Done(Err(AuthError::EmailExists))
    ));
    assert_eq!(store.users.len(), 1);
}

#[test]
fn signup_insert_reports_a_hashing_failure() {
    let failure = AuthError::PasswordHash(bcrypt::BcryptError::InvalidSaltLen(3));
    let step = signup_insert(ada(), Err(failure), 9);
    assert!(matches!(
        step,
        Step::Done(Err(AuthError::PasswordHash(bcrypt::BcryptError::InvalidSaltLen(3))))
    ));
}

#[test]
fn signup_insert_asks_the_store_with_the_values_given() {
    match signup_insert(ada(), Ok("hash".to_string()), 9) {
        Step::Ask(SignupState::Inserting, request) => assert_eq!(
            request,
            Request::InsertUser {
                id: 9,
                email: "ada@example.org".to_string(),
                password_hash: "hash".to_string(),
                username: "ada".to_string(),
            }
        ),
        other => panic!("unexpected step: {:?}", other),
    }
}

#[test]
fn grant_session_returns_the_outward_user_and_the_token() {
    let response = grant_session(stored_user(), Ok("token".to_string())).unwrap();
    assert_eq!(
        response,
        AuthResponse {
            user: UserResponse {
                id: 7,
                email: "ada@example.org".to_string(),
                username: "ada".to_string(),
                avatar_url: Some("https://example.org/ada.png".to_string()),
                created_at: at(1_700_000_000),
            },
            token: "token".to_string(),
        }
    );
}

#[test]
fn grant_session_reports_a_signing_failure() {
    let failure = jsonwebtoken::errors::Error::from(jsonwebtoken::errors::ErrorKind::InvalidKeyFormat);
    match grant_session(stored_user(), Err(AuthError::Jwt(failure.clone()))) {
        Err(AuthError::Jwt(e)) => assert_eq!(e, failure),
        other => panic!("unexpected result: {:?}", other),
    }
}

#[test]
fn user_response_is_the_user_without_the_hash() {
    let outward = UserResponse::from(stored_user());
    assert_eq!(outward.id, 7);
    assert_eq!(outward.email, "ada@example.org");
    assert_eq!(outward.username, "ada");
    assert_eq!(outward.avatar_url, Some("https://example.org/ada.png".to_string()));
    assert_eq!(outward.created_at, at(1_700_000_000));
    assert!(!format!("{:?}", outward).contains("$2y$"));
}

#[test]
fn login_first_asks_for_the_user_with_the_email() {
    let payload = LoginPayload { email: "ada@example.org".to_string(), password: "x".to_string() };
    match login(payload.clone()) {
        Step::Ask(LoginState::Finding(kept), Request::FindUserByEmail { email }) => {
            assert_eq!(kept, payload);
            assert_eq!(email, "ada@example.org");
        }
        other => panic!("unexpected step: {:?}", other),
    }
}

#[test]
fn login_after_signup_succeeds() {
    let mut store = MemoryStore::new();
    let signed_up = run_signup(&mut store, ada()).unwrap();
    let payload = LoginPayload {
        email: "ada@example.org".to_string(),
        password: "analytical engine".to_string(),
    };
    let logged_in = run_login(&mut store, payload).unwrap();
    assert_eq!(logged_in.user, signed_up.user);
    let claims = validate_token(&logged_in.token, SECRET).unwrap();
    assert_eq!(claims.sub, signed_up.user.id);
    assert_eq!(store.users.len(), 1);
}

#[test]
fn login_with_correct_email_wrong_password() {
    let mut store = MemoryStore::new();
    run_signup(&mut store, ada()).unwrap();
    let payload = LoginPayload {
        email: "ada@example.org".to_string(),
        password: "difference engine".to_string(),
    };
    assert!(matches!(run_login(&mut store, payload), Err(AuthError::InvalidCredentials)));
}

#[test]
fn login_with_nonexistent_email() {
    let mut store = MemoryStore::new();
    run_signup(&mut store, ada()).unwrap();
    let payload = LoginPayload {
        email: "nobody@example.org".to_string(),
        password: "analytical engine".to_string(),
    };
    assert!(matches!(run_login(&mut store, payload), Err(AuthError::InvalidCredentials)));
}

#[test]
fn login_failures_are_indistinguishable() {
    let mut store = MemoryStore::new();
    run_signup(&mut store, ada()).unwrap();
    let wrong_password = run_login(
        &mut store,
        LoginPayload { email: "ada@example.org".to_string(), password: "nope".to_string() },
    );
    let unknown_email = run_login(
        &mut store,
        LoginPayload { email: "nobody@example.org".to_string(), password: "nope".to_string() },
    );
    assert_eq!(format!("{:?}", wrong_password), format!("{:?}", unknown_email));
    assert_eq!(format!("{:?}", unknown_email), "Err(InvalidCredentials)");
}

#[test]
fn login_with_a_known_hash() {
    let state = LoginState::Finding(LoginPayload {
        email: "ada@example.org".to_string(),
        password: "password".to_string(),
    });
    match login_resume(state, Reply::MaybeUser(Some(stored_user())), SECRET) {
        Step::Done(Ok(response)) => {
            assert_eq!(response.user, UserResponse::from(stored_user()));
            assert_eq!(validate_token(&response.token, SECRET).unwrap().sub, 7);
        }
        other => panic!("unexpected step: {:?}", other),
    }
}

#[test]
fn login_reports_an_unreadable_stored_hash() {
    let mut user = stored_user();
    user.password_hash = "plain".to_string();
    let state = LoginState::Finding(LoginPayload {
        email: "ada@example.org".to_string(),
        password: "password".to_string(),
    });
    let step = login_resume(state, Reply::MaybeUser(Some(user)), SECRET);
    assert!(matches!(step, Step::Done(Err(AuthError::PasswordHash(_)))));
}

#[test]
fn matching_password_is_let_through() {
    assert!(matches!(judge_password(Ok(true)), Ok(())));
    assert!(matches!(judge_password(Ok(false)), Err(AuthError::InvalidCredentials)));
    assert!(matches!(
        judge_password(Err(AuthError::PasswordHash(bcrypt::BcryptError::InvalidSaltLen(1)))),
        Err(AuthError::PasswordHash(bcrypt::BcryptError::InvalidSaltLen(1)))
    ));
}

#[test]
fn get_user_by_id_finds_a_user() {
    let mut store = MemoryStore::new();
    let signed_up = run_signup(&mut store, ada()).unwrap();
    assert_eq!(run_lookup(&mut store, signed_up.user.id).unwrap(), signed_up.user);
}

#[test]
fn get_user_by_id_reports_a_missing_user() {
    let mut store = MemoryStore::new();
    run_signup(&mut store, ada()).unwrap();
    assert!(matches!(run_lookup(&mut store, 1), Err(AuthError::UserNotFound)));
}

#[test]
fn get_user_by_id_first_asks_for_the_user() {
    match get_user_by_id(42) {
        Step::Ask(UserLookupState::Finding, request) => {
            assert_eq!(request, Request::FindUserById { id: 42 })
        }
        other => panic!("unexpected step: {:?}", other),
    }
}

#[test]
fn logout_always_succeeds() {
    assert!(matches!(logout(7), Ok(())));
    assert!(matches!(logout(0), Ok(())));
}

#[test]
fn token_stays_valid_after_logout() {
    let mut store = MemoryStore::new();
    let response = run_signup(&mut store, ada()).unwrap();
    logout(response.user.id).unwrap();
    assert!(validate_token(&response.token, SECRET).is_ok());
}

#[test]
fn store_failure_is_propagated() {
    let failed = || Reply::Failed("connection reset".to_string());
    let expected = StoreFault::Failed("connection reset".to_string());
    match signup_resume(SignupState::Checking(ada()), failed(), SECRET) {
        Step::Done(Err(AuthError::Database(fault))) => assert_eq!(fault, expected),
        other => panic!("unexpected step: {:?}", other),
    }
    match signup_resume(SignupState::Inserting, failed(), SECRET) {
        Step::Done(Err(AuthError::Database(fault))) => assert_eq!(fault, expected),
        other => panic!("unexpected step: {:?}", other),
    }
    let state = LoginState::Finding(LoginPayload { email: "a".to_string(), password: "b".to_string() });
    match login_resume(state, failed(), SECRET) {
        Step::Done(Err(AuthError::Database(fault))) => assert_eq!(fault, expected),
        other => panic!("unexpected step: {:?}", other),
    }
    match get_user_by_id_resume(UserLookupState::Finding, failed()) {
        Step::Done(Err(AuthError::Database(fault))) => assert_eq!(fault, expected),
        other => panic!("unexpected step: {:?}", other),
    }
}

#[test]
fn reply_out_of_place_is_a_fault() {
    match signup_resume(SignupState::Checking(ada()), Reply::Unit, SECRET) {
        Step::Done(Err(AuthError::Database(fault))) => assert_eq!(fault, StoreFault::UnexpectedReply),
        other => panic!("unexpected step: {:?}", other),
    }
    match signup_resume(SignupState::Inserting, Reply::Exists(false), SECRET) {
        Step::Done(Err(AuthError::Database(fault))) => assert_eq!(fault, StoreFault::UnexpectedReply),
        other => panic!("unexpected step: {:?}", other),
    }
    let state = LoginState::Finding(LoginPayload { email: "a".to_string(), password: "b".to_string() });
    match login_resume(state, Reply::Conflict, SECRET) {
        Step::Done(Err(AuthError::Database(fault))) => assert_eq!(fault, StoreFault::UnexpectedReply),
        other => panic!("unexpected step: {:?}", other),
    }
    match get_user_by_id_resume(UserLookupState::Finding, Reply::Members(vec![])) {
        Step::Done(Err(AuthError::Database(fault))) => assert_eq!(fault, StoreFault::UnexpectedReply),
        other => panic!("unexpected step: {:?}", other),
    }
}
