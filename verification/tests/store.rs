use shapeless_blog::data::blogs::{create_blog, get_blog, NewBlog};
use shapeless_blog::data::store::Database;
use shapeless_blog::data::tags::{create_some_tags, get_all_tag_names};
use shapeless_blog::data::time::Timestamp;
use shapeless_blog::data::tokens::{get_token_by_token_string, insert_token};
use shapeless_blog::data::users::{get_user, insert_user};
use shapeless_blog::data::DataError;

fn at(micros: i64) -> Timestamp {
    Timestamp::from_micros(micros).unwrap()
}

fn blog(url: &str) -> NewBlog {
    NewBlog::new(1, url.to_string(), "t".to_string(), "p".to_string(), "c".to_string())
}

#[test]
fn a_new_store_is_empty() {
    let db = Database::new();
    assert_eq!(get_user(1, &db).unwrap_err(), DataError::RowNotFound);
    assert_eq!(get_blog(1, &db).unwrap_err(), DataError::RowNotFound);
    assert_eq!(get_token_by_token_string("x", &db).unwrap_err(), DataError::RowNotFound);
    assert!(get_all_tag_names(&db).unwrap().is_empty());
}

#[test]
fn a_transaction_is_not_seen_until_it_is_committed() {
    let mut db = Database::new();
    insert_user("alice".to_string(), "h".to_string(), &mut db).unwrap();
    let mut work = db.begin();
    assert_eq!(get_user(1, &work).unwrap().username, "alice");
    create_blog(blog("hello"), at(5), &mut work).unwrap();
    create_some_tags(&["t".to_string()], 1, &mut work).unwrap();
    insert_token(1, "abc".to_string(), at(9), &mut work).unwrap();
    assert_eq!(get_blog(1, &work).unwrap().url, "hello");
    assert_eq!(get_blog(1, &db).unwrap_err(), DataError::RowNotFound);
    db.commit(work);
    assert_eq!(get_blog(1, &db).unwrap().url, "hello");
    assert_eq!(get_all_tag_names(&db).unwrap(), vec!["t".to_string()]);
    assert_eq!(get_token_by_token_string("abc", &db).unwrap().user_id, 1);
}

#[test]
fn a_transaction_that_is_given_up_leaves_the_rows_and_keeps_the_ids_used() {
    let mut db = Database::new();
    insert_user("alice".to_string(), "h".to_string(), &mut db).unwrap();
    let mut work = db.begin();
    create_blog(blog("hello"), at(5), &mut work).unwrap();
    insert_user("bob".to_string(), "h".to_string(), &mut work).unwrap();
    create_some_tags(&["t".to_string()], 1, &mut work).unwrap();
    db.rollback(work);
    assert_eq!(get_blog(1, &db).unwrap_err(), DataError::RowNotFound);
    assert_eq!(get_user(2, &db).unwrap_err(), DataError::RowNotFound);
    assert!(get_all_tag_names(&db).unwrap().is_empty());
    assert_eq!(create_blog(blog("next"), at(6), &mut db).unwrap().id, 2);
    assert_eq!(insert_user("carol".to_string(), "h".to_string(), &mut db).unwrap().id, 3);
}

#[test]
fn counters_may_start_at_any_id_from_one() {
    assert!(Database::starting_at(0, 1).is_none());
    assert!(Database::starting_at(1, 0).is_none());
    assert!(Database::starting_at(-4, -4).is_none());
    let mut db = Database::starting_at(10, 20).unwrap();
    assert_eq!(insert_user("alice".to_string(), "h".to_string(), &mut db).unwrap().id, 10);
    let first = NewBlog::new(10, "a".to_string(), "t".to_string(), "p".to_string(), "c".to_string());
    assert_eq!(create_blog(first, at(1), &mut db).unwrap().id, 20);
    assert_eq!(insert_user("bob".to_string(), "h".to_string(), &mut db).unwrap().id, 11);
}

#[test]
fn a_counter_at_its_end_gives_no_id_out() {
    let mut db = Database::starting_at(i64::MAX - 1, i64::MAX).unwrap();
    let last = insert_user("alice".to_string(), "h".to_string(), &mut db).unwrap();
    assert_eq!(last.id, i64::MAX - 1);
    let refused = insert_user("bob".to_string(), "h".to_string(), &mut db);
    assert_eq!(refused.unwrap_err(), DataError::OutOfRange);
    let owned = NewBlog::new(
        i64::MAX - 1,
        "a".to_string(),
        "t".to_string(),
        "p".to_string(),
        "c".to_string(),
    );
    assert_eq!(create_blog(owned, at(1), &mut db).unwrap_err(), DataError::OutOfRange);
    assert_eq!(get_user(i64::MAX - 1, &db).unwrap().username, "alice");
    assert_eq!(get_blog(i64::MAX, &db).unwrap_err(), DataError::RowNotFound);
}
