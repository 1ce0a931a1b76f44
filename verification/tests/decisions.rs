use shapeless_blog::data::blogs::Blog;
use shapeless_blog::data::time::{Timestamp, MAX_MICROS, MICROS_PER_DAY};
use shapeless_blog::data::tokens::Token;
use shapeless_blog::data::users::User;
use shapeless_blog::data::DataError;
use shapeless_blog::rest::blogs::{apply_patch, blog_removal_answer, check_id};
use shapeless_blog::rest::errors::ApiError;
use shapeless_blog::rest::middlewares::check_token;
use shapeless_blog::rest::users::{
    authorize, check_name_is_free, check_password, token_expiry, user_removal_answer,
};
use shapeless_blog::web::blogs::check_address;
use shapeless_blog::web::errors::WebError;

fn at(micros: i64) -> Timestamp {
    Timestamp::from_micros(micros).unwrap()
}

fn stored_blog() -> Blog {
    Blog {
        id: 3,
        user_id: 1,
        url: "hello".to_string(),
        title: "Hi".to_string(),
        preview: "p".to_string(),
        content: "c".to_string(),
        create_time: at(10),
        edit_time: at(20),
        version: 4,
    }
}

#[test]
fn a_negative_id_is_not_found() {
    assert!(matches!(check_id(-1), Err(ApiError::NotFound)));
    assert!(matches!(check_id(i64::MIN), Err(ApiError::NotFound)));
    assert!(matches!(check_id(0), Ok(())));
    assert!(matches!(check_id(1), Ok(())));
    assert!(matches!(check_id(i64::MAX), Ok(())));
}

#[test]
fn only_the_same_user_is_authorized() {
    assert!(matches!(authorize(1, 1), Ok(())));
    assert!(matches!(authorize(-3, -3), Ok(())));
    assert!(matches!(authorize(1, 2), Err(ApiError::Unauthorized)));
    assert!(matches!(authorize(2, 1), Err(ApiError::Unauthorized)));
}

#[test]
fn a_patch_touches_only_what_it_gives() {
    let same = apply_patch(stored_blog(), None, None, None, None);
    assert_eq!(same.url, "hello");
    assert_eq!(same.title, "Hi");
    assert_eq!(same.preview, "p");
    assert_eq!(same.content, "c");
    assert_eq!(same.version, 4);
    let some = apply_patch(
        stored_blog(),
        Some("u2".to_string()),
        None,
        Some("".to_string()),
        None,
    );
    assert_eq!(some.url, "u2");
    assert_eq!(some.title, "Hi");
    assert_eq!(some.preview, "");
    assert_eq!(some.content, "c");
    let all = apply_patch(
        stored_blog(),
        Some("u".to_string()),
        Some("t".to_string()),
        Some("p2".to_string()),
        Some("c2".to_string()),
    );
    assert_eq!(all.id, 3);
    assert_eq!(all.user_id, 1);
    assert_eq!(all.url, "u");
    assert_eq!(all.title, "t");
    assert_eq!(all.preview, "p2");
    assert_eq!(all.content, "c2");
    assert_eq!(all.create_time, at(10));
    assert_eq!(all.edit_time, at(20));
    assert_eq!(all.version, 4);
}

#[test]
fn a_removed_blog_is_answered_with_no_content() {
    assert!(matches!(blog_removal_answer(true), Ok(204)));
    assert!(matches!(blog_removal_answer(false), Err(ApiError::NotFound)));
}

#[test]
fn a_removed_user_is_answered_with_no_content() {
    assert!(matches!(user_removal_answer(true), Ok(204)));
    assert!(matches!(user_removal_answer(false), Err(ApiError::Unauthorized)));
}

#[test]
fn a_name_is_free_when_no_row_was_found() {
    assert!(matches!(check_name_is_free(Err(DataError::RowNotFound)), Ok(())));
    let found = User {
        id: 1,
        username: "alice".to_string(),
        hashed_password: "h".to_string(),
        version: 0,
    };
    assert!(matches!(
        check_name_is_free(Ok(found)),
        Err(ApiError::DuplicatedUsername(name)) if name == "alice"
    ));
    assert!(matches!(
        check_name_is_free(Err(DataError::Unavailable)),
        Err(ApiError::DataError(DataError::Unavailable))
    ));
}

#[test]
fn a_password_is_held_against_the_hash() {
    let hash = bcrypt::hash("secret1", 4).unwrap();
    assert!(matches!(check_password("secret1", &hash), Ok(())));
    assert!(matches!(check_password("secret2", &hash), Err(ApiError::Unauthorized)));
    assert!(matches!(check_password("secret1", "secret1"), Err(ApiError::BcryptError(_))));
    assert!(matches!(check_password("", ""), Err(ApiError::BcryptError(_))));
}

#[test]
fn a_token_runs_out_one_day_after_it_was_issued() {
    assert_eq!(token_expiry(&at(0)).unwrap().micros(), 86_400_000_000);
    assert_eq!(token_expiry(&at(-5)).unwrap().micros(), 86_399_999_995);
    assert_eq!(token_expiry(&at(MAX_MICROS - MICROS_PER_DAY)).unwrap().micros(), MAX_MICROS);
    assert!(matches!(
        token_expiry(&at(MAX_MICROS - MICROS_PER_DAY + 1)),
        Err(ApiError::InternalServerError(message)) if message == "datetime conversion error"
    ));
}

#[test]
fn a_token_names_its_user_until_it_runs_out() {
    let token = Token { user_id: 8, token: "abc".to_string(), expired_time: at(100) };
    assert!(matches!(check_token(&token, &at(99)), Ok(8)));
    assert!(matches!(check_token(&token, &at(100)), Err(ApiError::ExpiredToken)));
    assert!(matches!(check_token(&token, &at(101)), Err(ApiError::ExpiredToken)));
}

#[test]
fn an_empty_address_names_no_post() {
    assert!(matches!(check_address(""), Err(WebError::NotFound)));
    assert!(matches!(check_address("a"), Ok(())));
    assert!(matches!(check_address(" "), Ok(())));
}
