use shapeless_blog::data::store::Database;
use shapeless_blog::data::users::{
    delete_user, get_user, get_user_by_username, hash_password, insert_user, update_user,
};
use shapeless_blog::data::DataError;

fn with_two_users() -> Database {
    let mut db = Database::new();
    insert_user("alice".to_string(), "hash-a".to_string(), &mut db).unwrap();
    insert_user("bob".to_string(), "hash-b".to_string(), &mut db).unwrap();
    db
}

#[test]
fn first_user_gets_id_one_and_version_zero() {
    let mut db = Database::new();
    let user = insert_user("alice".to_string(), "hash".to_string(), &mut db).unwrap();
    assert_eq!(user.id, 1);
    assert_eq!(user.username, "alice");
    assert_eq!(user.hashed_password, "hash");
    assert_eq!(user.version, 0);
    let second = insert_user("bob".to_string(), "hash".to_string(), &mut db).unwrap();
    assert_eq!(second.id, 2);
}

#[test]
fn get_user_finds_by_id() {
    let db = with_two_users();
    let bob = get_user(2, &db).unwrap();
    assert_eq!(bob.username, "bob");
    assert_eq!(bob.hashed_password, "hash-b");
    assert_eq!(get_user(3, &db).unwrap_err(), DataError::RowNotFound);
    assert_eq!(get_user(0, &db).unwrap_err(), DataError::RowNotFound);
    assert_eq!(get_user(-1, &db).unwrap_err(), DataError::RowNotFound);
}

#[test]
fn get_user_by_username_finds_by_name() {
    let db = with_two_users();
    assert_eq!(get_user_by_username("alice".to_string(), &db).unwrap().id, 1);
    assert_eq!(get_user_by_username("bob".to_string(), &db).unwrap().id, 2);
    assert_eq!(
        get_user_by_username("carol".to_string(), &db).unwrap_err(),
        DataError::RowNotFound
    );
    assert_eq!(
        get_user_by_username("Alice".to_string(), &db).unwrap_err(),
        DataError::RowNotFound
    );
}

#[test]
fn a_taken_username_is_refused_and_uses_an_id_up() {
    let mut db = with_two_users();
    let refused = insert_user("alice".to_string(), "other".to_string(), &mut db);
    assert_eq!(refused.unwrap_err(), DataError::UniqueViolation);
    assert_eq!(get_user_by_username("alice".to_string(), &db).unwrap().hashed_password, "hash-a");
    assert_eq!(get_user(3, &db).unwrap_err(), DataError::RowNotFound);
    let carol = insert_user("carol".to_string(), "hash-c".to_string(), &mut db).unwrap();
    assert_eq!(carol.id, 4);
}

#[test]
fn update_raises_the_version_by_one() {
    let mut db = with_two_users();
    let mut alice = get_user(1, &db).unwrap();
    assert_eq!(alice.version, 0);
    alice.username = "alicia".to_string();
    alice.hashed_password = "new-hash".to_string();
    let updated = update_user(alice, &mut db).unwrap();
    assert_eq!(updated.id, 1);
    assert_eq!(updated.username, "alicia");
    assert_eq!(updated.hashed_password, "new-hash");
    assert_eq!(updated.version, 1);
    let stored = get_user(1, &db).unwrap();
    assert_eq!(stored.username, "alicia");
    assert_eq!(stored.version, 1);
    let again = update_user(stored, &mut db).unwrap();
    assert_eq!(again.version, 2);
}

#[test]
fn update_with_a_stale_version_is_refused() {
    let mut db = with_two_users();
    let first = get_user(1, &db).unwrap();
    let mut second = get_user(1, &db).unwrap();
    update_user(first, &mut db).unwrap();
    second.username = "late".to_string();
    assert_eq!(update_user(second, &mut db).unwrap_err(), DataError::RowNotFound);
    let stored = get_user(1, &db).unwrap();
    assert_eq!(stored.username, "alice");
    assert_eq!(stored.version, 1);
}

#[test]
fn update_of_a_missing_user_is_refused() {
    let mut db = with_two_users();
    let mut ghost = get_user(1, &db).unwrap();
    ghost.id = 7;
    assert_eq!(update_user(ghost, &mut db).unwrap_err(), DataError::RowNotFound);
}

#[test]
fn update_to_the_name_of_another_user_is_refused() {
    let mut db = with_two_users();
    let mut alice = get_user(1, &db).unwrap();
    alice.username = "bob".to_string();
    assert_eq!(update_user(alice, &mut db).unwrap_err(), DataError::UniqueViolation);
    assert_eq!(get_user(1, &db).unwrap().username, "alice");
    assert_eq!(get_user(1, &db).unwrap().version, 0);
}

#[test]
fn update_may_keep_the_own_name() {
    let mut db = with_two_users();
    let mut alice = get_user(1, &db).unwrap();
    alice.hashed_password = "changed".to_string();
    let updated = update_user(alice, &mut db).unwrap();
    assert_eq!(updated.username, "alice");
    assert_eq!(updated.hashed_password, "changed");
    assert_eq!(updated.version, 1);
}

#[test]
fn delete_says_whether_a_row_left() {
    let mut db = with_two_users();
    assert_eq!(delete_user(1, &mut db), Ok(true));
    assert_eq!(delete_user(1, &mut db), Ok(false));
    assert_eq!(delete_user(9, &mut db), Ok(false));
    assert_eq!(get_user(1, &db).unwrap_err(), DataError::RowNotFound);
    assert_eq!(get_user(2, &db).unwrap().username, "bob");
}

#[test]
fn an_id_is_not_given_out_again_after_a_delete() {
    let mut db = with_two_users();
    delete_user(2, &mut db).unwrap();
    let carol = insert_user("carol".to_string(), "hash".to_string(), &mut db).unwrap();
    assert_eq!(carol.id, 3);
    let bob = insert_user("bob".to_string(), "hash".to_string(), &mut db).unwrap();
    assert_eq!(bob.id, 4);
}

#[test]
fn a_hash_is_not_the_password_and_differs_each_time() {
    let first = hash_password("secret1".to_string()).unwrap();
    assert_ne!(first, "secret1");
    assert!(first.starts_with("$2b$12$"));
    assert_eq!(first.len(), 60);
    assert!(bcrypt::verify("secret1", &first).unwrap());
    assert!(!bcrypt::verify("secret2", &first).unwrap());
}
