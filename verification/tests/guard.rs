use rust_auth_api::error::AuthError;
use rust_auth_api::guard::{
    bearer_token, check_role, resolve, AccessGuard, GuardInput, GuardNeed, GuardState,
};
use rust_auth_api::role::{AccessPolicy, Route, UserRole};
use rust_auth_api::token::create_token_at;
use rust_auth_api::user::User;

const SECRET: &[u8] = b"guard-secret";
const NOW: i64 = 1_700_000_000;

fn user(id: &str, role: UserRole) -> User {
    User {
        id: id.to_string(),
        name: format!("name of {id}"),
        email: format!("{id}@example.com"),
        password: "hash".to_string(),
        role,
        photo: "default.png".to_string(),
        verified: true,
        created_at: 1_600_000_000_000_000,
        updated_at: 1_650_000_000_000_000,
    }
}

/// A user store held in memory that counts how often it is asked.
struct Store {
    users: Vec<(String, UserRole)>,
    lookups: usize,
}

impl Store {
    fn with(users: &[(&str, UserRole)]) -> Store {
        Store { users: users.iter().map(|(id, role)| (id.to_string(), *role)).collect(), lookups: 0 }
    }

    fn lookup_by_id(&mut self, id: &str) -> Option<User> {
        self.lookups += 1;
        self.users.iter().find(|(known, _)| known == id).map(|(known, role)| user(known, *role))
    }
}

/// Drives the guard as a server would: it reads what the guard needs and
/// hands it in, until the state is terminal.
fn authorize(
    guard: &AccessGuard,
    authorization: Option<&str>,
    now: i64,
    store: &mut Store,
) -> Result<User, AuthError> {
    let mut state = GuardState::Unauthenticated;
    let mut steps = 0;
    loop {
        steps += 1;
        assert!(steps <= 5, "the guard takes at most four steps");
        let input = match state.needs() {
            GuardNeed::Header => GuardInput::Header(authorization.map(String::from)),
            GuardNeed::Clock => GuardInput::Clock(now),
            GuardNeed::Lookup => match &state {
                GuardState::TokenVerified { subject } => {
                    GuardInput::Lookup(store.lookup_by_id(subject))
                }
                _ => unreachable!(),
            },
            GuardNeed::Nothing => GuardInput::Nothing,
            GuardNeed::Done => match state {
                GuardState::Authorized { identity } => return Ok(identity),
                GuardState::Denied { error } => return Err(error),
                _ => unreachable!(),
            },
        };
        state = guard.step(state, input);
    }
}

fn guard_for(roles: Vec<UserRole>) -> AccessGuard {
    AccessGuard::new(SECRET.to_vec(), AccessPolicy::allowed_roles(roles))
}

fn bearer(subject: &str, minutes: i64) -> String {
    format!("Bearer {}", create_token_at(subject, SECRET, minutes, NOW).unwrap())
}

#[test]
fn bearer_token_is_what_follows_the_scheme() {
    assert_eq!(bearer_token(Some("Bearer abc.def.ghi")), Ok("abc.def.ghi".to_string()));
    assert_eq!(bearer_token(Some("Bearer x")), Ok("x".to_string()));
    assert_eq!(bearer_token(Some("Bearer  x")), Ok(" x".to_string()));
    assert_eq!(bearer_token(Some("Bearer a b")), Ok("a b".to_string()));
    assert_eq!(bearer_token(Some("Bearer tökén")), Ok("tökén".to_string()));
}

#[test]
fn header_without_a_bearer_token_supplies_none() {
    assert_eq!(bearer_token(None), Err(AuthError::TokenNotProvided));
    for header in [
        "",
        "Bearer",
        "Bearer ",
        "bearer abc",
        "BEARER abc",
        "Basic dXNlcjpwYXNz",
        "Token abc",
        " Bearer abc",
        "Bearer\tabc",
        "Bearerabc",
        "abc",
        "Beare",
        "ünïcødé",
    ] {
        assert_eq!(bearer_token(Some(header)), Err(AuthError::TokenNotProvided), "{header:?}");
    }
}

#[test]
fn resolve_refuses_a_subject_the_store_does_not_know() {
    assert_eq!(resolve(None).unwrap_err(), AuthError::UserNotFound);
    let found = resolve(Some(user("u-1", UserRole::User))).unwrap();
    assert_eq!(found.id, "u-1");
    assert_eq!(found.role, UserRole::User);
}

#[test]
fn role_check_lets_listed_roles_through() {
    let policy = AccessPolicy::allowed_roles(vec![UserRole::Admin, UserRole::User]);
    let passed = check_role(user("u-1", UserRole::User), &policy).unwrap();
    assert_eq!(passed.id, "u-1");
    assert_eq!(passed.email, "u-1@example.com");
    assert_eq!(
        check_role(user("u-2", UserRole::Moderator), &policy).unwrap_err(),
        AuthError::PermissionDenied
    );
}

#[test]
fn user_against_admin_only_route_is_denied() {
    let mut store = Store::with(&[("u-7", UserRole::User)]);
    let header = bearer("u-7", 60);
    let guard = guard_for(vec![UserRole::Admin]);
    let err = authorize(&guard, Some(&header), NOW, &mut store).unwrap_err();
    assert_eq!(err, AuthError::PermissionDenied);
    assert_eq!(err.status_code(), 403);
}

#[test]
fn user_against_admin_and_user_route_succeeds() {
    let mut store = Store::with(&[("u-7", UserRole::User)]);
    let header = bearer("u-7", 60);
    let guard = guard_for(vec![UserRole::Admin, UserRole::User]);
    let identity = authorize(&guard, Some(&header), NOW, &mut store).unwrap();
    assert_eq!(identity.id, "u-7");
    assert_eq!(identity.role, UserRole::User);
}

#[test]
fn admin_is_not_granted_what_is_not_listed() {
    let mut store = Store::with(&[("root", UserRole::Admin)]);
    let header = bearer("root", 60);
    let guard = guard_for(vec![UserRole::Moderator, UserRole::User]);
    assert_eq!(
        authorize(&guard, Some(&header), NOW, &mut store).unwrap_err(),
        AuthError::PermissionDenied
    );
}

#[test]
fn missing_header_is_refused_before_the_store_is_asked() {
    let mut store = Store::with(&[("u-42", UserRole::Admin)]);
    let guard = guard_for(vec![UserRole::Admin]);
    let err = authorize(&guard, None, NOW, &mut store).unwrap_err();
    assert_eq!(err, AuthError::TokenNotProvided);
    assert_eq!(err.status_code(), 401);
    assert_eq!(store.lookups, 0);
}

#[test]
fn missing_header_is_denied_in_one_step() {
    let guard = guard_for(vec![UserRole::Admin]);
    let next = guard.step(GuardState::Unauthenticated, GuardInput::Header(None));
    assert!(matches!(next, GuardState::Denied { error: AuthError::TokenNotProvided }));
    assert_eq!(next.needs(), GuardNeed::Done);
}

#[test]
fn malformed_header_is_refused_before_the_store_is_asked() {
    let mut store = Store::with(&[("u-42", UserRole::Admin)]);
    let guard = guard_for(vec![UserRole::Admin]);
    let token = create_token_at("u-42", SECRET, 60, NOW).unwrap();
    for header in [token.clone(), format!("bearer {token}"), format!("Basic {token}"), "Bearer ".to_string()] {
        let err = authorize(&guard, Some(&header), NOW, &mut store).unwrap_err();
        assert_eq!(err, AuthError::TokenNotProvided);
    }
    assert_eq!(store.lookups, 0);
}

#[test]
fn invalid_token_is_refused_before_the_store_is_asked() {
    let mut store = Store::with(&[("u-42", UserRole::Admin)]);
    let guard = guard_for(vec![UserRole::Admin]);
    let forged = format!(
        "Bearer {}",
        create_token_at("u-42", b"another-secret", 60, NOW).unwrap()
    );
    let expired = bearer("u-42", 1);
    assert_eq!(
        authorize(&guard, Some(&forged), NOW, &mut store).unwrap_err(),
        AuthError::InvalidToken
    );
    assert_eq!(
        authorize(&guard, Some(&expired), NOW + 61, &mut store).unwrap_err(),
        AuthError::InvalidToken
    );
    assert_eq!(
        authorize(&guard, Some("Bearer garbage"), NOW, &mut store).unwrap_err(),
        AuthError::InvalidToken
    );
    assert_eq!(AuthError::InvalidToken.status_code(), 401);
    assert_eq!(store.lookups, 0);
}

#[test]
fn deleted_user_is_unauthorized_not_a_server_error() {
    let mut store = Store::with(&[]);
    let header = bearer("u-gone", 60);
    let guard = guard_for(vec![UserRole::Admin, UserRole::Moderator, UserRole::User]);
    let err = authorize(&guard, Some(&header), NOW, &mut store).unwrap_err();
    assert_eq!(err, AuthError::UserNotFound);
    assert_eq!(err.status_code(), 401);
    assert_eq!(store.lookups, 1);
}

#[test]
fn store_is_asked_on_every_request() {
    let mut store = Store::with(&[("u-42", UserRole::Moderator)]);
    let header = bearer("u-42", 60);
    let guard = guard_for(vec![UserRole::Moderator]);
    for _ in 0..3 {
        authorize(&guard, Some(&header), NOW, &mut store).unwrap();
    }
    assert_eq!(store.lookups, 3);
}

#[test]
fn role_change_takes_effect_on_the_next_request() {
    let mut store = Store::with(&[("u-42", UserRole::Moderator)]);
    let header = bearer("u-42", 60);
    let guard = guard_for(vec![UserRole::Moderator]);
    assert!(authorize(&guard, Some(&header), NOW, &mut store).is_ok());
    store.users[0].1 = UserRole::User;
    assert_eq!(
        authorize(&guard, Some(&header), NOW + 1, &mut store).unwrap_err(),
        AuthError::PermissionDenied
    );
}

#[test]
fn role_comes_from_the_store_not_from_the_token() {
    // A token whose payload claims a role is verified, and the claim ignored.
    let mut claims = serde_json::Map::new();
    claims.insert("sub".to_string(), serde_json::Value::from("u-7"));
    claims.insert("iat".to_string(), serde_json::Value::from(NOW));
    claims.insert("exp".to_string(), serde_json::Value::from(NOW + 60));
    claims.insert("role".to_string(), serde_json::Value::from("admin"));
    let token = jsonwebtoken::encode(
        &jsonwebtoken::Header::new(jsonwebtoken::Algorithm::HS256),
        &claims,
        &jsonwebtoken::EncodingKey::from_secret(SECRET),
    )
    .unwrap();
    let mut store = Store::with(&[("u-7", UserRole::User)]);
    let guard = guard_for(vec![UserRole::Admin]);
    assert_eq!(
        authorize(&guard, Some(&format!("Bearer {token}")), NOW, &mut store).unwrap_err(),
        AuthError::PermissionDenied
    );
}

#[test]
fn moderator_end_to_end() {
    let token = create_token_at("u-42", SECRET, 60, NOW).unwrap();
    let header = format!("Bearer {token}");
    let mut store = Store::with(&[("u-42", UserRole::Moderator)]);

    let open = guard_for(vec![UserRole::Admin, UserRole::Moderator]);
    let identity = authorize(&open, Some(&header), NOW + 10, &mut store).unwrap();
    assert_eq!(identity.id, "u-42");
    assert_eq!(identity.role, UserRole::Moderator);

    let admin_only = guard_for(vec![UserRole::Admin]);
    let err = authorize(&admin_only, Some(&header), NOW + 10, &mut store).unwrap_err();
    assert_eq!(err, AuthError::PermissionDenied);
    assert_eq!(err.to_http().status, 403);
}

#[test]
fn guard_walks_through_its_states_in_order() {
    let guard = guard_for(vec![UserRole::Moderator]);
    let token = create_token_at("u-42", SECRET, 60, NOW).unwrap();

    let state = GuardState::Unauthenticated;
    assert_eq!(state.needs(), GuardNeed::Header);
    let state = guard.step(state, GuardInput::Header(Some(format!("Bearer {token}"))));
    assert!(matches!(&state, GuardState::CredentialExtracted { token: t } if *t == token));
    assert_eq!(state.needs(), GuardNeed::Clock);
    let state = guard.step(state, GuardInput::Clock(NOW));
    assert!(matches!(&state, GuardState::TokenVerified { subject } if subject == "u-42"));
    assert_eq!(state.needs(), GuardNeed::Lookup);
    let state = guard.step(state, GuardInput::Lookup(Some(user("u-42", UserRole::Moderator))));
    assert!(matches!(&state, GuardState::IdentityResolved { identity } if identity.id == "u-42"));
    assert_eq!(state.needs(), GuardNeed::Nothing);
    let state = guard.step(state, GuardInput::Nothing);
    assert!(matches!(&state, GuardState::Authorized { identity } if identity.id == "u-42"));
    assert_eq!(state.needs(), GuardNeed::Done);
}

#[test]
fn terminal_states_do_not_move() {
    let guard = guard_for(vec![UserRole::Admin]);
    let inputs = || {
        vec![
            GuardInput::Header(Some(bearer("u-42", 60))),
            GuardInput::Header(None),
            GuardInput::Clock(NOW),
            GuardInput::Lookup(Some(user("u-42", UserRole::Admin))),
            GuardInput::Lookup(None),
            GuardInput::Nothing,
        ]
    };
    for input in inputs() {
        let denied = GuardState::Denied { error: AuthError::InvalidToken };
        let next = guard.step(denied, input);
        assert!(matches!(next, GuardState::Denied { error: AuthError::InvalidToken }));
    }
    for input in inputs() {
        let authorized = GuardState::Authorized { identity: user("u-1", UserRole::User) };
        let next = guard.step(authorized, input);
        assert!(matches!(&next, GuardState::Authorized { identity } if identity.id == "u-1"));
    }
}

#[test]
fn reading_that_a_state_does_not_need_changes_nothing() {
    let guard = guard_for(vec![UserRole::Admin]);
    let next = guard.step(GuardState::Unauthenticated, GuardInput::Clock(NOW));
    assert!(matches!(next, GuardState::Unauthenticated));
    let next = guard.step(
        GuardState::Unauthenticated,
        GuardInput::Lookup(Some(user("u-1", UserRole::Admin))),
    );
    assert!(matches!(next, GuardState::Unauthenticated));
    let next = guard.step(
        GuardState::TokenVerified { subject: "u-1".to_string() },
        GuardInput::Nothing,
    );
    assert!(matches!(&next, GuardState::TokenVerified { subject } if subject == "u-1"));
    let next = guard.step(
        GuardState::CredentialExtracted { token: "t".to_string() },
        GuardInput::Lookup(Some(user("u-1", UserRole::Admin))),
    );
    assert!(matches!(&next, GuardState::CredentialExtracted { token } if token == "t"));
    let next = guard.step(
        GuardState::IdentityResolved { identity: user("u-1", UserRole::Admin) },
        GuardInput::Clock(NOW),
    );
    assert!(matches!(&next, GuardState::IdentityResolved { identity } if identity.id == "u-1"));
}

#[test]
fn routes_are_guarded_as_declared() {
    let token = bearer("u-7", 60);
    let mut store = Store::with(&[("u-7", UserRole::User)]);
    let list = AccessGuard::new(SECRET.to_vec(), Route::ListUsers.policy().unwrap());
    assert_eq!(
        authorize(&list, Some(&token), NOW, &mut store).unwrap_err(),
        AuthError::PermissionDenied
    );
    let me = AccessGuard::new(SECRET.to_vec(), Route::CurrentUser.policy().unwrap());
    assert_eq!(authorize(&me, Some(&token), NOW, &mut store).unwrap().id, "u-7");
}
