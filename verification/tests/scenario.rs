use shapeless_blog::data::blogs::{get_blog, get_full_blog_by_url};
use shapeless_blog::data::store::Database;
use shapeless_blog::data::time::{Timestamp, MICROS_PER_DAY};
use shapeless_blog::data::tokens::insert_token_for_user;
use shapeless_blog::data::users::{insert_user, NewUser};
use shapeless_blog::rest::blogs::{
    create_blog_handler, delete_blog_handler, update_blog_handler, NewBlogWithTags,
    UpdatedBlogWithTags,
};
use shapeless_blog::rest::errors::ApiError;
use shapeless_blog::rest::middlewares::auth_at;
use shapeless_blog::rest::users::{create_user_handler, create_user_token_handler_at};

fn at(micros: i64) -> Timestamp {
    Timestamp::from_micros(micros).unwrap()
}

fn bearer(token: &str) -> String {
    format!("Bearer {}", token)
}

#[test]
fn alice_writes_a_blog_and_bob_cannot_remove_it() {
    let mut db = Database::new();
    let start = 1_700_000_000_000_000;

    let alice = NewUser { username: "alice".to_string(), password: "secret1".to_string() };
    let (status, registered) = create_user_handler(alice, &mut db).unwrap();
    assert_eq!(status, 201);
    assert_eq!(registered.username, "alice");

    let alice = NewUser { username: "alice".to_string(), password: "secret1".to_string() };
    let (status, token) = create_user_token_handler_at(alice, &at(start), &mut db).unwrap();
    assert_eq!(status, 201);
    assert_eq!(token.token.len(), 64);
    assert!(token.token.chars().all(|c| c.is_ascii_digit() || ('a'..='f').contains(&c)));
    assert_eq!(token.expired_time.micros(), start + MICROS_PER_DAY);
    assert!(!token.is_expired_at(&at(start)));

    let alice_id = auth_at(Some(&bearer(&token.token)), &at(start + 1), &mut db).unwrap();
    assert_eq!(alice_id, registered.id);
    let new_blog = NewBlogWithTags {
        url: "hello".to_string(),
        title: "Hi".to_string(),
        preview: "p".to_string(),
        content: "c".to_string(),
        tags: vec!["intro".to_string()],
    };
    let (status, created) = create_blog_handler(alice_id, new_blog, at(start + 2), &mut db).unwrap();
    assert_eq!(status, 201);

    let fetched = get_full_blog_by_url("hello".to_string(), &db).unwrap();
    assert_eq!(fetched.id, created.id);
    assert_eq!(fetched.tags, vec!["intro".to_string()]);

    let patch = UpdatedBlogWithTags {
        url: None,
        title: Some("Hi2".to_string()),
        preview: None,
        content: None,
        tags: None,
    };
    let status = update_blog_handler(alice_id, created.id, patch, at(start + 3), &mut db).unwrap();
    assert_eq!(status, 204);
    let fetched = get_full_blog_by_url("hello".to_string(), &db).unwrap();
    assert_eq!(fetched.title, "Hi2");
    assert_eq!(fetched.tags, vec!["intro".to_string()]);
    assert_eq!(get_blog(created.id, &db).unwrap().version, 1);

    let bob = insert_user("bob".to_string(), "hash-b".to_string(), &mut db).unwrap();
    let bob_token = insert_token_for_user(bob.id, at(start + MICROS_PER_DAY), &mut db).unwrap();
    assert_ne!(bob_token.token, token.token);
    let bob_id = auth_at(Some(&bearer(&bob_token.token)), &at(start + 4), &mut db).unwrap();
    assert_eq!(bob_id, bob.id);
    let refused = delete_blog_handler(bob_id, created.id, &mut db).unwrap_err();
    assert!(matches!(refused, ApiError::Unauthorized));
    assert_eq!(refused.into_response().0, 401);
    let fetched = get_full_blog_by_url("hello".to_string(), &db).unwrap();
    assert_eq!(fetched.title, "Hi2");
    assert_eq!(get_blog(created.id, &db).unwrap().version, 1);

    let late = auth_at(Some(&bearer(&token.token)), &at(start + MICROS_PER_DAY), &mut db);
    assert!(matches!(late, Err(ApiError::ExpiredToken)));
}
