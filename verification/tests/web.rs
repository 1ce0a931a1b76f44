use shapeless_blog::data::blogs::{get_full_blog, get_simple_blog};
use shapeless_blog::data::store::Database;
use shapeless_blog::data::time::Timestamp;
use shapeless_blog::data::users::insert_user;
use shapeless_blog::data::DataError;
use shapeless_blog::rest::blogs::{create_blog_handler, NewBlogWithTags};
use shapeless_blog::web::blogs::{
    list_tags_handler, remove_html_extension, show_blog_handler, show_home_handler,
    show_tag_handler, simple_blogs_to_web_simple_blogs,
};
use shapeless_blog::web::errors::WebError;

fn at(micros: i64) -> Timestamp {
    Timestamp::from_micros(micros).unwrap()
}

fn names(list: &[&str]) -> Vec<String> {
    list.iter().map(|name| name.to_string()).collect()
}

fn post(url: &str, tags: &[&str]) -> NewBlogWithTags {
    NewBlogWithTags {
        url: url.to_string(),
        title: format!("title of {}", url),
        preview: format!("preview of {}", url),
        content: format!("content of {}", url),
        tags: names(tags),
    }
}

const MAY_17_2023: i64 = 1_684_281_600_000_000;
const DAY: i64 = 86_400_000_000;

fn site() -> Database {
    let mut db = Database::new();
    insert_user("alice".to_string(), "hash-a".to_string(), &mut db).unwrap();
    create_blog_handler(1, post("first", &["rust", "intro"]), at(MAY_17_2023), &mut db).unwrap();
    create_blog_handler(1, post("second", &["rust"]), at(MAY_17_2023 + DAY), &mut db).unwrap();
    create_blog_handler(1, post("third", &["misc"]), at(MAY_17_2023 - DAY), &mut db).unwrap();
    db
}

#[test]
fn html_is_taken_off_a_name() {
    assert_eq!(remove_html_extension("post.html".to_string()), "post");
    assert_eq!(remove_html_extension("post".to_string()), "post");
    assert_eq!(remove_html_extension("my.post.html".to_string()), "my.post");
    assert_eq!(remove_html_extension("".to_string()), "");
}

#[test]
fn a_name_with_another_extension_becomes_empty() {
    assert_eq!(remove_html_extension("post.txt".to_string()), "");
    assert_eq!(remove_html_extension("post.htm".to_string()), "");
    assert_eq!(remove_html_extension("post.HTML".to_string()), "");
    assert_eq!(remove_html_extension("post.".to_string()), "");
}

#[test]
fn a_leading_dot_is_no_extension() {
    assert_eq!(remove_html_extension(".html".to_string()), ".html");
    assert_eq!(remove_html_extension(".hidden".to_string()), ".hidden");
}

#[test]
fn an_entry_is_shown_with_its_dates() {
    let db = site();
    let entry = get_simple_blog(1, &db).unwrap().to_web_simple_blog();
    assert_eq!(entry.user_id, 1);
    assert_eq!(entry.url, "first");
    assert_eq!(entry.title, "title of first");
    assert_eq!(entry.preview, "preview of first");
    assert_eq!(entry.create_time, "2023-05-17");
    assert_eq!(entry.edit_time, "2023-05-17");
    assert_eq!(entry.tags, names(&["rust", "intro"]));
}

#[test]
fn a_post_is_shown_with_its_dates() {
    let db = site();
    let shown = get_full_blog(2, &db).unwrap().to_web_blog();
    assert_eq!(shown.user_id, 1);
    assert_eq!(shown.url, "second");
    assert_eq!(shown.title, "title of second");
    assert_eq!(shown.preview, "preview of second");
    assert_eq!(shown.content, "content of second");
    assert_eq!(shown.create_time, "2023-05-18");
    assert_eq!(shown.edit_time, "2023-05-18");
    assert_eq!(shown.tags, names(&["rust"]));
}

#[test]
fn a_listing_is_shown_entry_by_entry() {
    let db = site();
    let list = vec![get_simple_blog(3, &db).unwrap(), get_simple_blog(1, &db).unwrap()];
    let shown = simple_blogs_to_web_simple_blogs(list);
    assert_eq!(shown.len(), 2);
    assert_eq!(shown[0].url, "third");
    assert_eq!(shown[0].create_time, "2023-05-16");
    assert_eq!(shown[1].url, "first");
    assert!(simple_blogs_to_web_simple_blogs(Vec::new()).is_empty());
}

#[test]
fn the_home_page_has_the_newest_first() {
    let db = site();
    let home = show_home_handler(&db).unwrap();
    let urls: Vec<&str> = home.blogs.iter().map(|blog| blog.url.as_str()).collect();
    assert_eq!(urls, vec!["second", "first", "third"]);
    assert_eq!(home.blogs[0].create_time, "2023-05-18");
    assert_eq!(home.blogs[2].tags, names(&["misc"]));
    assert!(show_home_handler(&Database::new()).unwrap().blogs.is_empty());
}

#[test]
fn the_page_of_a_post_is_found_with_or_without_html() {
    let db = site();
    let shown = show_blog_handler("first.html".to_string(), &db).unwrap();
    assert_eq!(shown.url, "first");
    assert_eq!(shown.content, "content of first");
    assert_eq!(shown.tags, names(&["rust", "intro"]));
    let shown = show_blog_handler("second".to_string(), &db).unwrap();
    assert_eq!(shown.url, "second");
}

#[test]
fn the_page_of_a_post_that_is_not_there() {
    let db = site();
    assert!(matches!(show_blog_handler("".to_string(), &db), Err(WebError::NotFound)));
    assert!(matches!(
        show_blog_handler("fourth".to_string(), &db),
        Err(WebError::DataError(DataError::RowNotFound))
    ));
    assert!(matches!(
        show_blog_handler("first.txt".to_string(), &db),
        Err(WebError::DataError(DataError::RowNotFound))
    ));
}

#[test]
fn the_page_of_a_tag_has_the_highest_id_first() {
    let db = site();
    let page = show_tag_handler("rust.html".to_string(), &db).unwrap();
    assert_eq!(page.tag, "rust");
    let urls: Vec<&str> = page.blogs.iter().map(|blog| blog.url.as_str()).collect();
    assert_eq!(urls, vec!["second", "first"]);
    assert_eq!(page.blogs[1].create_time, "2023-05-17");
    let page = show_tag_handler("nothing".to_string(), &db).unwrap();
    assert_eq!(page.tag, "nothing");
    assert!(page.blogs.is_empty());
    let page = show_tag_handler("rust.txt".to_string(), &db).unwrap();
    assert_eq!(page.tag, "");
    assert!(page.blogs.is_empty());
}

#[test]
fn the_page_of_all_tags_lists_each_once() {
    let db = site();
    assert_eq!(list_tags_handler(&db).unwrap().tags, names(&["intro", "misc", "rust"]));
    assert!(list_tags_handler(&Database::new()).unwrap().tags.is_empty());
}
