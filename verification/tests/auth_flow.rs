use notes_backend::auth::{gate, get_me, login, register, TOKEN_TTL_SECONDS};
use notes_backend::errors::{ApiError, AuthError, UserStoreError};
use notes_backend::handler::{get_me_handler, login_user_handler, logout_handler, register_user_handler};
use notes_backend::schema::{LoginUserSchema, RegisterUserSchema};
use notes_backend::user_store::UserStore;

const SECRET: &str = "test-signing-secret";

fn register_body(email: &str) -> RegisterUserSchema {
    RegisterUserSchema {
        firstname: "Ada".to_owned(),
        lastname: "Lovelace".to_owned(),
        email: email.to_owned(),
        password: "correct horse".to_owned(),
    }
}

fn login_body(email: &str, password: &str) -> LoginUserSchema {
    LoginUserSchema { email: email.to_owned(), password: password.to_owned() }
}

#[test]
fn register_answers_the_public_profile() {
    let mut store = UserStore::new();
    let user = register_user_handler(&mut store, &register_body("ada@example.com"))
        .expect("fresh email must be accepted");
    assert_eq!(user.firstname, "Ada");
    assert_eq!(user.lastname, "Lovelace");
    assert_eq!(user.email, "ada@example.com");
    assert_eq!(user.role, "user");
}

#[test]
fn register_same_email_twice_is_conflict() {
    let mut store = UserStore::new();
    register_user_handler(&mut store, &register_body("dup@example.com")).expect("first is fresh");
    let second = register_user_handler(&mut store, &register_body("dup@example.com"));
    assert!(matches!(second, Err(ApiError::Conflict)));
}

#[test]
fn stored_row_never_echoes_the_password() {
    let mut store = UserStore::new();
    register_user_handler(&mut store, &register_body("hash@example.com")).expect("fresh email");
    let row = store.find_by_email("hash@example.com").expect("just registered");
    assert_ne!(row.password, "correct horse");
    assert!(row.password.starts_with("$argon2"));
}

#[test]
fn login_unknown_email_is_bad_request() {
    let store = UserStore::new();
    let r = login_user_handler(&store, &login_body("who@example.com", "pw"), SECRET);
    assert!(matches!(r, Err(ApiError::BadRequest)));
}

#[test]
fn login_wrong_password_is_conflict() {
    let mut store = UserStore::new();
    register_user_handler(&mut store, &register_body("ada@example.com")).expect("fresh email");
    let r = login_user_handler(&store, &login_body("ada@example.com", "wrong horse"), SECRET);
    assert!(matches!(r, Err(ApiError::Conflict)));
}

#[test]
fn login_correct_password_mints_a_token() {
    let mut store = UserStore::new();
    register_user_handler(&mut store, &register_body("ada@example.com")).expect("fresh email");
    let token = login_user_handler(&store, &login_body("ada@example.com", "correct horse"), SECRET)
        .expect("the stored hash must verify the same password");
    assert!(!token.is_empty());
}

#[test]
fn token_within_window_passes_the_gate_and_after_expiry_is_refused() {
    let mut store = UserStore::new();
    let profile = register(&mut store, "Ada", "Lovelace", "ada@example.com", "pw", 11, 1_000)
        .expect("fresh email");
    let token = login(&store, "ada@example.com", "pw", 50_000, SECRET).expect("right password");
    let granted = gate(&store, &token, 50_000 + TOKEN_TTL_SECONDS - 1, SECRET);
    assert_eq!(granted.expect("still inside the window"), profile.id);
    let refused = gate(&store, &token, 50_000 + TOKEN_TTL_SECONDS, SECRET);
    assert!(matches!(refused, Err(AuthError::TokenExpired)));
}

#[test]
fn get_me_identifies_the_token_holder() {
    let mut store = UserStore::new();
    register(&mut store, "Ada", "Lovelace", "ada@example.com", "pw", 11, 1_000)
        .expect("fresh email");
    register(&mut store, "Alan", "Turing", "alan@example.com", "pw", 22, 1_000)
        .expect("fresh email");
    let token = login(&store, "alan@example.com", "pw", 2_000, SECRET).expect("right password");
    let me = get_me(&store, &token, 2_001, SECRET).expect("fresh token");
    assert_eq!(me.email, "alan@example.com");
    assert_eq!(me.firstname, "Alan");
    assert_eq!(me.id, 22);
}

#[test]
fn get_me_handler_refuses_garbage_and_foreign_tokens() {
    let mut store = UserStore::new();
    register(&mut store, "Ada", "Lovelace", "ada@example.com", "pw", 11, 1_000)
        .expect("fresh email");
    let garbage = get_me_handler(&store, "not-a-token", SECRET);
    assert!(matches!(garbage, Err(ApiError::Unauthorized)));
    let token = login(&store, "ada@example.com", "pw", 2_000, SECRET).expect("right password");
    let forged = get_me_handler(&store, &token, "another-secret");
    assert!(matches!(forged, Err(ApiError::Unauthorized)));
    let mut tampered = token.clone();
    tampered.push('x');
    let refused = get_me_handler(&store, &tampered, SECRET);
    assert!(matches!(refused, Err(ApiError::Unauthorized)));
}

#[test]
fn gate_refuses_a_subject_that_no_longer_resolves() {
    let mut store = UserStore::new();
    register(&mut store, "Ada", "Lovelace", "ada@example.com", "pw", 11, 1_000)
        .expect("fresh email");
    let token = login(&store, "ada@example.com", "pw", 2_000, SECRET).expect("right password");
    assert!(store.delete_user("ada@example.com"));
    let r = gate(&store, &token, 2_001, SECRET);
    assert!(matches!(r, Err(AuthError::UnknownSubject)));
}

#[test]
fn logout_needs_a_valid_token() {
    let mut store = UserStore::new();
    register(&mut store, "Ada", "Lovelace", "ada@example.com", "pw", 11, 1_000)
        .expect("fresh email");
    let not_yet_expired = i64::MAX - TOKEN_TTL_SECONDS;
    let token =
        login(&store, "ada@example.com", "pw", not_yet_expired, SECRET).expect("right password");
    assert!(logout_handler(&store, &token, SECRET).is_ok());
    let refused = logout_handler(&store, "", SECRET);
    assert!(matches!(refused, Err(ApiError::Unauthorized)));
}

#[test]
fn update_user_rewrites_name_and_hash_only() {
    let mut store = UserStore::new();
    register(&mut store, "Ada", "Lovelace", "ada@example.com", "pw", 11, 1_000)
        .expect("fresh email");
    let updated = store
        .update_user("ada@example.com", "Augusta", "King", "new-hash")
        .expect("the email is present");
    assert_eq!(updated.firstname, "Augusta");
    assert_eq!(updated.lastname, "King");
    assert_eq!(updated.password, "new-hash");
    assert_eq!(updated.email, "ada@example.com");
    assert_eq!(updated.id, 11);
    assert!(store.update_user("nobody@example.com", "a", "b", "c").is_none());
}

#[test]
fn register_under_a_taken_id_is_a_key_violation() {
    let mut store = UserStore::new();
    register(&mut store, "Ada", "Lovelace", "ada@example.com", "pw", 11, 1_000)
        .expect("fresh email");
    let r = register(&mut store, "Alan", "Turing", "alan@example.com", "pw", 11, 1_000);
    assert!(matches!(r, Err(AuthError::IdTaken)));
    assert!(store.find_by_email("alan@example.com").is_none());
}

#[test]
fn create_user_refuses_taken_email_and_taken_id() {
    let mut store = UserStore::new();
    store.create_user("Ada", "Lovelace", "ada@example.com", "hash", 1, 0).expect("fresh");
    let dup_email = store.create_user("Alan", "Turing", "ada@example.com", "hash", 2, 0);
    assert!(matches!(dup_email, Err(UserStoreError::DuplicateEmail)));
    let dup_id = store.create_user("Alan", "Turing", "alan@example.com", "hash", 1, 0);
    assert!(matches!(dup_id, Err(UserStoreError::DuplicateId)));
}

#[test]
fn user_schema_trims_password_and_role() {
    let mut store = UserStore::new();
    register(&mut store, "Ada", "Lovelace", "ada@example.com", "pw", 11, 1_000)
        .expect("fresh email");
    let row = store.find_by_id(11).expect("just registered");
    let schema = notes_backend::model::user_schema_of(&row);
    assert_eq!(schema.id, 11);
    assert_eq!(schema.email, "ada@example.com");
    assert_eq!(schema.firstname, "Ada");
    assert_eq!(schema.created_at, 1_000);
}

#[test]
fn delete_user_reports_whether_a_row_went() {
    let mut store = UserStore::new();
    register(&mut store, "Ada", "Lovelace", "ada@example.com", "pw", 11, 1_000)
        .expect("fresh email");
    assert!(store.delete_user("ada@example.com"));
    assert!(!store.delete_user("ada@example.com"));
}
