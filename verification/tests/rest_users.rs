use shapeless_blog::data::store::Database;
use shapeless_blog::data::time::{Timestamp, MAX_MICROS, MICROS_PER_DAY};
use shapeless_blog::data::tokens::get_token_by_token_string;
use shapeless_blog::data::users::{get_user, get_user_by_username, insert_user, NewUser};
use shapeless_blog::data::DataError;
use shapeless_blog::rest::errors::ApiError;
use shapeless_blog::rest::users::{
    create_user_handler, create_user_token_handler, create_user_token_handler_at, delete_user,
    issue_token, show_user_handler, update_user, write_new_user, write_user_change, User,
    TOKEN_LIFETIME_MICROS,
};

fn at(micros: i64) -> Timestamp {
    Timestamp::from_micros(micros).unwrap()
}

fn person(username: &str, password: &str) -> NewUser {
    NewUser { username: username.to_string(), password: password.to_string() }
}

/// A store with the user `alice`, whose password is `secret1`, hashed at the
/// lowest cost so that a test may log in several times.
fn with_alice() -> Database {
    let mut db = Database::new();
    let hash = bcrypt::hash("secret1", 4).unwrap();
    insert_user("alice".to_string(), hash, &mut db).unwrap();
    db
}

#[test]
fn the_public_part_of_a_user_is_id_and_name() {
    let mut db = Database::new();
    let row = insert_user("alice".to_string(), "hash".to_string(), &mut db).unwrap();
    let shown = User::from_data_user(row);
    assert_eq!(shown.id, 1);
    assert_eq!(shown.username, "alice");
}

#[test]
fn registration_hashes_the_password() {
    let mut db = Database::new();
    let (status, user) = create_user_handler(person("alice", "secret1"), &mut db).unwrap();
    assert_eq!(status, 201);
    assert_eq!(user.id, 1);
    assert_eq!(user.username, "alice");
    let row = get_user(1, &db).unwrap();
    assert_eq!(row.version, 0);
    assert_ne!(row.hashed_password, "secret1");
    assert!(bcrypt::verify("secret1", &row.hashed_password).unwrap());
}

#[test]
fn a_taken_username_is_refused_and_uses_no_id_up() {
    let mut db = with_alice();
    let refused = create_user_handler(person("alice", "other"), &mut db);
    assert!(matches!(refused, Err(ApiError::DuplicatedUsername(name)) if name == "alice"));
    assert!(bcrypt::verify("secret1", &get_user(1, &db).unwrap().hashed_password).unwrap());
    assert_eq!(get_user(2, &db).unwrap_err(), DataError::RowNotFound);
    let bob = insert_user("bob".to_string(), "hash".to_string(), &mut db).unwrap();
    assert_eq!(bob.id, 2);
}

#[test]
fn a_user_is_shown_without_the_hash() {
    let db = with_alice();
    let shown = show_user_handler(1, &db).unwrap();
    assert_eq!(shown.id, 1);
    assert_eq!(shown.username, "alice");
    assert!(matches!(
        show_user_handler(2, &db),
        Err(ApiError::DataError(DataError::RowNotFound))
    ));
}

#[test]
fn a_user_changes_the_own_record() {
    let mut db = with_alice();
    assert!(matches!(update_user(1, 1, person("alicia", "secret2"), &mut db), Ok(204)));
    let row = get_user(1, &db).unwrap();
    assert_eq!(row.username, "alicia");
    assert_eq!(row.version, 1);
    assert!(bcrypt::verify("secret2", &row.hashed_password).unwrap());
    assert!(!bcrypt::verify("secret1", &row.hashed_password).unwrap());
}

#[test]
fn nobody_changes_the_record_of_another() {
    let mut db = with_alice();
    insert_user("bob".to_string(), "hash-b".to_string(), &mut db).unwrap();
    let refused = update_user(2, 1, person("mallory", "x"), &mut db);
    assert!(matches!(refused, Err(ApiError::Unauthorized)));
    let row = get_user(1, &db).unwrap();
    assert_eq!(row.username, "alice");
    assert_eq!(row.version, 0);
}

#[test]
fn a_change_to_a_taken_name_is_refused() {
    let mut db = with_alice();
    insert_user("bob".to_string(), "hash-b".to_string(), &mut db).unwrap();
    let refused = update_user(2, 2, person("alice", "x"), &mut db);
    assert!(matches!(refused, Err(ApiError::DataError(DataError::UniqueViolation))));
    assert_eq!(get_user(2, &db).unwrap().username, "bob");
    assert_eq!(get_user(2, &db).unwrap().hashed_password, "hash-b");
}

#[test]
fn a_change_of_a_missing_user_is_refused() {
    let mut db = with_alice();
    let refused = update_user(5, 5, person("eve", "x"), &mut db);
    assert!(matches!(refused, Err(ApiError::DataError(DataError::RowNotFound))));
}

#[test]
fn a_user_removes_the_own_record_only() {
    let mut db = with_alice();
    insert_user("bob".to_string(), "hash-b".to_string(), &mut db).unwrap();
    assert!(matches!(delete_user(2, 1, &mut db), Err(ApiError::Unauthorized)));
    assert!(get_user(1, &db).is_ok());
    assert!(matches!(delete_user(1, 1, &mut db), Ok(204)));
    assert_eq!(get_user(1, &db).unwrap_err(), DataError::RowNotFound);
    assert!(matches!(delete_user(1, 1, &mut db), Err(ApiError::Unauthorized)));
    assert!(get_user(2, &db).is_ok());
}

#[test]
fn a_login_issues_a_token_for_one_day() {
    let mut db = with_alice();
    let now = at(1_700_000_000_000_000);
    let (status, token) =
        create_user_token_handler_at(person("alice", "secret1"), &now, &mut db).unwrap();
    assert_eq!(status, 201);
    assert_eq!(token.user_id, 1);
    assert_eq!(token.token.len(), 64);
    assert!(token.token.chars().all(|c| c.is_ascii_digit() || ('a'..='f').contains(&c)));
    assert_eq!(TOKEN_LIFETIME_MICROS, 86_400_000_000);
    assert_eq!(token.expired_time.micros(), 1_700_086_400_000_000);
    let found = get_token_by_token_string(&token.token, &db).unwrap();
    assert_eq!(found.user_id, 1);
    assert_eq!(found.expired_time, token.expired_time);
    assert!(!found.is_expired_at(&now));
    assert!(!found.is_expired_at(&at(1_700_086_399_999_999)));
    assert!(found.is_expired_at(&at(1_700_086_400_000_000)));
}

#[test]
fn a_login_with_the_text_given_writes_that_token() {
    let mut db = with_alice();
    let (status, token) =
        issue_token(person("alice", "secret1"), &at(0), "chosen".to_string(), &mut db).unwrap();
    assert_eq!(status, 201);
    assert_eq!(token.token, "chosen");
    assert_eq!(token.expired_time.micros(), MICROS_PER_DAY);
    let again = issue_token(person("alice", "secret1"), &at(0), "chosen".to_string(), &mut db);
    assert!(matches!(again, Err(ApiError::DataError(DataError::UniqueViolation))));
}

#[test]
fn a_login_with_the_wrong_password_is_refused() {
    let mut db = with_alice();
    let refused = create_user_token_handler_at(person("alice", "secret2"), &at(0), &mut db);
    assert!(matches!(refused, Err(ApiError::Unauthorized)));
    let refused = create_user_token_handler_at(person("alice", ""), &at(0), &mut db);
    assert!(matches!(refused, Err(ApiError::Unauthorized)));
}

#[test]
fn a_login_of_an_unknown_user_is_refused() {
    let mut db = with_alice();
    let refused = create_user_token_handler_at(person("bob", "secret1"), &at(0), &mut db);
    assert!(matches!(refused, Err(ApiError::DataError(DataError::RowNotFound))));
}

#[test]
fn a_login_against_a_hash_that_is_none_is_an_error() {
    let mut db = Database::new();
    insert_user("carol".to_string(), "plain text".to_string(), &mut db).unwrap();
    let refused = create_user_token_handler_at(person("carol", "plain text"), &at(0), &mut db);
    assert!(matches!(refused, Err(ApiError::BcryptError(_))));
}

#[test]
fn a_login_on_the_last_day_of_the_calendar_is_an_error() {
    let mut db = with_alice();
    let refused =
        create_user_token_handler_at(person("alice", "secret1"), &at(MAX_MICROS), &mut db);
    assert!(matches!(
        refused,
        Err(ApiError::InternalServerError(message)) if message == "datetime conversion error"
    ));
    let last = at(MAX_MICROS - MICROS_PER_DAY);
    let (_, token) =
        create_user_token_handler_at(person("alice", "secret1"), &last, &mut db).unwrap();
    assert_eq!(token.expired_time.micros(), MAX_MICROS);
}

#[test]
fn a_login_by_the_clock_issues_a_token_that_counts() {
    let mut db = with_alice();
    let before = chrono::Utc::now().timestamp_micros();
    let (status, token) = create_user_token_handler(person("alice", "secret1"), &mut db).unwrap();
    let after = chrono::Utc::now().timestamp_micros();
    assert_eq!(status, 201);
    assert!(token.expired_time.micros() >= before + MICROS_PER_DAY);
    assert!(token.expired_time.micros() <= after + MICROS_PER_DAY);
    assert!(!token.is_expired());
    assert!(get_user_by_username("alice".to_string(), &db).is_ok());
}

#[test]
fn a_new_user_is_written_with_the_hash_given() {
    let mut db = Database::new();
    let (status, user) = write_new_user("alice".to_string(), "hash-a".to_string(), &mut db).unwrap();
    assert_eq!(status, 201);
    assert_eq!(user.id, 1);
    assert_eq!(user.username, "alice");
    let row = get_user(1, &db).unwrap();
    assert_eq!(row.hashed_password, "hash-a");
    assert_eq!(row.version, 0);
    let refused = write_new_user("alice".to_string(), "hash-b".to_string(), &mut db);
    assert!(matches!(refused, Err(ApiError::DataError(DataError::UniqueViolation))));
    assert_eq!(get_user(1, &db).unwrap().hashed_password, "hash-a");
    let (_, next) = write_new_user("bob".to_string(), "hash-b".to_string(), &mut db).unwrap();
    assert_eq!(next.id, 3);
}

#[test]
fn a_change_is_written_with_the_hash_given() {
    let mut db = Database::new();
    insert_user("alice".to_string(), "hash-a".to_string(), &mut db).unwrap();
    insert_user("bob".to_string(), "hash-b".to_string(), &mut db).unwrap();
    let stored = get_user(1, &db).unwrap();
    let stale = get_user(1, &db).unwrap();
    let done = write_user_change(stored, "alicia".to_string(), "hash-c".to_string(), &mut db);
    assert!(matches!(done, Ok(204)));
    let row = get_user(1, &db).unwrap();
    assert_eq!(row.username, "alicia");
    assert_eq!(row.hashed_password, "hash-c");
    assert_eq!(row.version, 1);
    let late = write_user_change(stale, "late".to_string(), "hash-d".to_string(), &mut db);
    assert!(matches!(late, Err(ApiError::DataError(DataError::RowNotFound))));
    let taken = write_user_change(row, "bob".to_string(), "hash-e".to_string(), &mut db);
    assert!(matches!(taken, Err(ApiError::DataError(DataError::UniqueViolation))));
    let row = get_user(1, &db).unwrap();
    assert_eq!(row.username, "alicia");
    assert_eq!(row.hashed_password, "hash-c");
    assert_eq!(row.version, 1);
    assert_eq!(get_user(2, &db).unwrap().hashed_password, "hash-b");
}

#[test]
fn a_wrong_user_or_a_missing_record_is_refused_before_the_password_is_hashed() {
    let mut db = with_alice();
    let started = std::time::Instant::now();
    for _ in 0..40 {
        assert!(matches!(
            update_user(2, 1, person("mallory", "x"), &mut db),
            Err(ApiError::Unauthorized)
        ));
        assert!(matches!(
            update_user(9, 9, person("nobody", "x"), &mut db),
            Err(ApiError::DataError(DataError::RowNotFound))
        ));
        assert!(matches!(
            create_user_handler(person("alice", "x"), &mut db),
            Err(ApiError::DuplicatedUsername(_))
        ));
    }
    assert!(started.elapsed() < std::time::Duration::from_secs(5));
    assert_eq!(get_user(2, &db).unwrap_err(), DataError::RowNotFound);
}
