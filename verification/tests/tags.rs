use shapeless_blog::data::blogs::{create_blog, delete_blog, NewBlog};
use shapeless_blog::data::order::{insert_descending, text_less};
use shapeless_blog::data::store::Database;
use shapeless_blog::data::tags::{
    _create_tag, _get_tags_by_blog_id, create_some_tags, delete_all_tags_for_blog_id,
    get_all_tag_names, get_blog_ids_by_tag_name, get_simple_blogs_by_tag_name,
    tag_names_for_blog, Tag,
};
use shapeless_blog::data::time::Timestamp;
use shapeless_blog::data::users::insert_user;
use shapeless_blog::data::DataError;

fn at(micros: i64) -> Timestamp {
    Timestamp::from_micros(micros).unwrap()
}

fn names(list: &[&str]) -> Vec<String> {
    list.iter().map(|name| name.to_string()).collect()
}

fn with_blogs(count: i64) -> Database {
    let mut db = Database::new();
    insert_user("alice".to_string(), "hash-a".to_string(), &mut db).unwrap();
    for i in 0..count {
        let blog = NewBlog::new(
            1,
            format!("url{}", i + 1),
            "t".to_string(),
            "p".to_string(),
            "c".to_string(),
        );
        create_blog(blog, at(i), &mut db).unwrap();
    }
    db
}

#[test]
fn a_batch_goes_in_as_it_is_given() {
    let mut db = with_blogs(2);
    assert_eq!(create_some_tags(&names(&["b", "a", "b"]), 1, &mut db), Ok(()));
    assert_eq!(create_some_tags(&names(&["z"]), 2, &mut db), Ok(()));
    assert_eq!(tag_names_for_blog(1, &db), names(&["b", "a", "b"]));
    assert_eq!(tag_names_for_blog(2, &db), names(&["z"]));
    assert!(tag_names_for_blog(3, &db).is_empty());
    let rows = _get_tags_by_blog_id(1, &db).unwrap();
    assert_eq!(rows.len(), 3);
    assert_eq!(rows[1].name, "a");
    assert_eq!(rows[1].blog_id, 1);
}

#[test]
fn an_empty_batch_is_refused() {
    let mut db = with_blogs(1);
    assert_eq!(create_some_tags(&[], 1, &mut db), Err(DataError::InvalidStatement));
    assert!(tag_names_for_blog(1, &db).is_empty());
}

#[test]
fn a_tag_needs_its_blog() {
    let mut db = with_blogs(1);
    assert_eq!(
        create_some_tags(&names(&["a"]), 2, &mut db),
        Err(DataError::ForeignKeyViolation)
    );
    let refused = _create_tag(Tag { name: "a".to_string(), blog_id: 2 }, &mut db);
    assert_eq!(refused.unwrap_err(), DataError::ForeignKeyViolation);
    assert!(get_all_tag_names(&db).unwrap().is_empty());
    let tag = _create_tag(Tag { name: "a".to_string(), blog_id: 1 }, &mut db).unwrap();
    assert_eq!(tag.name, "a");
    assert_eq!(tag.blog_id, 1);
    assert_eq!(tag_names_for_blog(1, &db), names(&["a"]));
}

#[test]
fn delete_all_tags_says_whether_a_row_left() {
    let mut db = with_blogs(2);
    create_some_tags(&names(&["a", "b"]), 1, &mut db).unwrap();
    create_some_tags(&names(&["c"]), 2, &mut db).unwrap();
    assert_eq!(delete_all_tags_for_blog_id(1, &mut db), Ok(true));
    assert_eq!(delete_all_tags_for_blog_id(1, &mut db), Ok(false));
    assert!(tag_names_for_blog(1, &db).is_empty());
    assert_eq!(tag_names_for_blog(2, &db), names(&["c"]));
}

#[test]
fn tag_names_come_once_each_in_dictionary_order() {
    let mut db = with_blogs(2);
    create_some_tags(&names(&["rust", "intro", "Rust", "rusty"]), 1, &mut db).unwrap();
    create_some_tags(&names(&["intro", "", "ru", "zebra", "\u{e9}t\u{e9}"]), 2, &mut db).unwrap();
    assert_eq!(
        get_all_tag_names(&db).unwrap(),
        names(&["", "Rust", "intro", "ru", "rust", "rusty", "zebra", "\u{e9}t\u{e9}"])
    );
}

#[test]
fn no_tags_no_names() {
    let db = with_blogs(1);
    assert!(get_all_tag_names(&db).unwrap().is_empty());
}

#[test]
fn blog_ids_by_tag_come_with_the_highest_first() {
    let mut db = with_blogs(4);
    create_some_tags(&names(&["x"]), 2, &mut db).unwrap();
    create_some_tags(&names(&["x", "y"]), 4, &mut db).unwrap();
    create_some_tags(&names(&["y", "x"]), 1, &mut db).unwrap();
    create_some_tags(&names(&["x"]), 4, &mut db).unwrap();
    assert_eq!(get_blog_ids_by_tag_name("x".to_string(), &db), Ok(vec![4, 4, 2, 1]));
    assert_eq!(get_blog_ids_by_tag_name("y".to_string(), &db), Ok(vec![4, 1]));
    assert_eq!(get_blog_ids_by_tag_name("z".to_string(), &db), Ok(vec![]));
}

#[test]
fn tags_of_a_removed_blog_join_nothing() {
    let mut db = with_blogs(2);
    create_some_tags(&names(&["x"]), 1, &mut db).unwrap();
    create_some_tags(&names(&["x"]), 2, &mut db).unwrap();
    assert_eq!(delete_blog(2, &mut db), Ok(true));
    assert_eq!(get_blog_ids_by_tag_name("x".to_string(), &db), Ok(vec![1]));
    assert_eq!(tag_names_for_blog(2, &db), names(&["x"]));
    assert_eq!(get_all_tag_names(&db).unwrap(), names(&["x"]));
}

#[test]
fn blogs_by_tag_come_with_the_highest_id_first() {
    let mut db = with_blogs(3);
    create_some_tags(&names(&["x", "a"]), 1, &mut db).unwrap();
    create_some_tags(&names(&["b"]), 2, &mut db).unwrap();
    create_some_tags(&names(&["x"]), 3, &mut db).unwrap();
    let list = get_simple_blogs_by_tag_name("x".to_string(), &db).unwrap();
    assert_eq!(list.len(), 2);
    assert_eq!(list[0].id, 3);
    assert_eq!(list[0].url, "url3");
    assert_eq!(list[0].tags, names(&["x"]));
    assert_eq!(list[1].id, 1);
    assert_eq!(list[1].tags, names(&["x", "a"]));
    assert!(get_simple_blogs_by_tag_name("none".to_string(), &db).unwrap().is_empty());
}

#[test]
fn dictionary_order_goes_by_code_point() {
    assert!(text_less("a", "b"));
    assert!(!text_less("b", "a"));
    assert!(!text_less("a", "a"));
    assert!(text_less("", "a"));
    assert!(!text_less("a", ""));
    assert!(!text_less("", ""));
    assert!(text_less("ab", "abc"));
    assert!(!text_less("abc", "ab"));
    assert!(text_less("Z", "a"));
    assert!(text_less("abd", "abe"));
    assert!(text_less("z", "\u{e9}"));
    assert!(text_less("\u{e9}", "\u{1f600}"));
    for (a, b) in [("x", "y"), ("", "q"), ("ab", "a"), ("\u{e9}", "e"), ("same", "same")] {
        assert_eq!(text_less(a, b), a < b);
        assert_eq!(text_less(b, a), b < a);
    }
}

#[test]
fn a_number_goes_behind_those_at_least_as_high() {
    let mut list = vec![9, 7, 7, 3];
    insert_descending(&mut list, 7);
    assert_eq!(list, vec![9, 7, 7, 7, 3]);
    insert_descending(&mut list, 10);
    assert_eq!(list, vec![10, 9, 7, 7, 7, 3]);
    insert_descending(&mut list, -1);
    assert_eq!(list, vec![10, 9, 7, 7, 7, 3, -1]);
    let mut empty: Vec<i64> = Vec::new();
    insert_descending(&mut empty, 5);
    assert_eq!(empty, vec![5]);
}
