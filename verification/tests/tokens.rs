use shapeless_blog::data::store::Database;
use shapeless_blog::data::time::{Timestamp, MICROS_PER_DAY};
use shapeless_blog::data::tokens::{
    _delete_all_tokens_for_user, delete_all_expired_tokens, generate_token,
    get_token_by_token_string, insert_token, insert_token_for_user, report_issue_refusal, Token,
};
use shapeless_blog::data::users::insert_user;
use shapeless_blog::data::DataError;

fn at(micros: i64) -> Timestamp {
    Timestamp::from_micros(micros).unwrap()
}

fn with_two_users() -> Database {
    let mut db = Database::new();
    insert_user("alice".to_string(), "hash-a".to_string(), &mut db).unwrap();
    insert_user("bob".to_string(), "hash-b".to_string(), &mut db).unwrap();
    db
}

#[test]
fn a_generated_token_is_64_lowercase_hex_digits() {
    let token = generate_token();
    assert_eq!(token.len(), 64);
    assert!(token.chars().all(|c| c.is_ascii_digit() || ('a'..='f').contains(&c)));
    assert_eq!(hex::decode(&token).unwrap().len(), 32);
}

#[test]
fn generated_tokens_differ() {
    assert_ne!(generate_token(), generate_token());
}

#[test]
fn a_token_is_found_by_its_text() {
    let mut db = with_two_users();
    let token = insert_token(2, "abc".to_string(), at(500), &mut db).unwrap();
    assert_eq!(token.user_id, 2);
    assert_eq!(token.token, "abc");
    assert_eq!(token.expired_time, at(500));
    let found = get_token_by_token_string("abc", &db).unwrap();
    assert_eq!(found.user_id, 2);
    assert_eq!(found.token, "abc");
    assert_eq!(found.expired_time.micros(), 500);
    assert_eq!(get_token_by_token_string("abd", &db).unwrap_err(), DataError::RowNotFound);
    assert_eq!(get_token_by_token_string("", &db).unwrap_err(), DataError::RowNotFound);
}

#[test]
fn a_token_text_is_held_once() {
    let mut db = with_two_users();
    insert_token(1, "abc".to_string(), at(500), &mut db).unwrap();
    let refused = insert_token(2, "abc".to_string(), at(900), &mut db);
    assert_eq!(refused.unwrap_err(), DataError::UniqueViolation);
    assert_eq!(get_token_by_token_string("abc", &db).unwrap().user_id, 1);
}

#[test]
fn a_token_needs_its_user() {
    let mut db = with_two_users();
    let refused = insert_token(3, "abc".to_string(), at(500), &mut db);
    assert_eq!(refused.unwrap_err(), DataError::RowNotFound);
    assert_eq!(get_token_by_token_string("abc", &db).unwrap_err(), DataError::RowNotFound);
    let refused = insert_token_for_user(3, at(500), &mut db);
    assert_eq!(refused.unwrap_err(), DataError::RowNotFound);
    assert_eq!(report_issue_refusal(DataError::ForeignKeyViolation), DataError::RowNotFound);
    assert_eq!(report_issue_refusal(DataError::UniqueViolation), DataError::UniqueViolation);
    assert_eq!(report_issue_refusal(DataError::Unavailable), DataError::Unavailable);
    assert_eq!(report_issue_refusal(DataError::RowNotFound), DataError::RowNotFound);
}

#[test]
fn a_token_text_that_is_taken_is_refused_before_the_user_is_looked_up() {
    let mut db = with_two_users();
    insert_token(1, "abc".to_string(), at(500), &mut db).unwrap();
    let refused = insert_token(9, "abc".to_string(), at(500), &mut db);
    assert_eq!(refused.unwrap_err(), DataError::UniqueViolation);
}

#[test]
fn a_user_may_hold_several_tokens() {
    let mut db = with_two_users();
    let first = insert_token_for_user(1, at(500), &mut db).unwrap();
    let second = insert_token_for_user(1, at(700), &mut db).unwrap();
    assert_ne!(first.token, second.token);
    assert_eq!(first.token.len(), 64);
    assert_eq!(get_token_by_token_string(&first.token, &db).unwrap().expired_time, at(500));
    assert_eq!(get_token_by_token_string(&second.token, &db).unwrap().expired_time, at(700));
}

#[test]
fn a_token_is_expired_from_its_expiry_time_on() {
    let token = Token { user_id: 1, token: "abc".to_string(), expired_time: at(1_000) };
    assert!(!token.is_expired_at(&at(999)));
    assert!(token.is_expired_at(&at(1_000)));
    assert!(token.is_expired_at(&at(1_001)));
}

#[test]
fn the_clock_decides_whether_a_token_is_expired() {
    let now = chrono::Utc::now().timestamp_micros();
    let old = Token { user_id: 1, token: "old".to_string(), expired_time: at(now - MICROS_PER_DAY) };
    let fresh =
        Token { user_id: 1, token: "new".to_string(), expired_time: at(now + MICROS_PER_DAY) };
    assert!(old.is_expired());
    assert!(!fresh.is_expired());
}

#[test]
fn the_sweep_takes_the_tokens_whose_time_lies_before_now() {
    let mut db = with_two_users();
    insert_token(1, "early".to_string(), at(100), &mut db).unwrap();
    insert_token(2, "exact".to_string(), at(200), &mut db).unwrap();
    insert_token(1, "late".to_string(), at(300), &mut db).unwrap();
    assert_eq!(delete_all_expired_tokens(&at(200), &mut db), Ok(true));
    assert_eq!(get_token_by_token_string("early", &db).unwrap_err(), DataError::RowNotFound);
    assert_eq!(get_token_by_token_string("exact", &db).unwrap().user_id, 2);
    assert_eq!(get_token_by_token_string("late", &db).unwrap().user_id, 1);
    assert_eq!(delete_all_expired_tokens(&at(200), &mut db), Ok(false));
    assert_eq!(delete_all_expired_tokens(&at(201), &mut db), Ok(true));
    assert_eq!(get_token_by_token_string("exact", &db).unwrap_err(), DataError::RowNotFound);
    assert_eq!(get_token_by_token_string("late", &db).unwrap().user_id, 1);
}

#[test]
fn the_tokens_of_one_user_can_be_removed() {
    let mut db = with_two_users();
    insert_token(1, "a1".to_string(), at(100), &mut db).unwrap();
    insert_token(2, "b1".to_string(), at(100), &mut db).unwrap();
    insert_token(1, "a2".to_string(), at(100), &mut db).unwrap();
    assert_eq!(_delete_all_tokens_for_user(1, &mut db), Ok(true));
    assert_eq!(_delete_all_tokens_for_user(1, &mut db), Ok(false));
    assert_eq!(get_token_by_token_string("a1", &db).unwrap_err(), DataError::RowNotFound);
    assert_eq!(get_token_by_token_string("a2", &db).unwrap_err(), DataError::RowNotFound);
    assert_eq!(get_token_by_token_string("b1", &db).unwrap().user_id, 2);
}

#[test]
fn the_tokens_of_a_removed_user_stay() {
    let mut db = with_two_users();
    insert_token(1, "a1".to_string(), at(100), &mut db).unwrap();
    shapeless_blog::data::users::delete_user(1, &mut db).unwrap();
    assert_eq!(get_token_by_token_string("a1", &db).unwrap().user_id, 1);
}
