//! The records behind the pages: the home page, a post, the posts under a tag,
//! and the list of tags.

use vstd::prelude::*;
use vstd::string::{StrSliceExecFns, StringExecFns};

use crate::data::blogs::{
    entries,
    full_blog_found_by_url,
    get_all_simple_blogs,
    get_full_blog_by_url,
    listed_blogs,
    newest_first,
    FullBlog,
    FullBlogView,
    SimpleBlog,
    SimpleBlogView,
};
use crate::data::order::is_descending;
use crate::data::store::{Database, Tables};
use crate::data::tags::{
    get_all_tag_names,
    get_simple_blogs_by_tag_name,
    is_ascending,
    is_tag_name,
    shows_blogs,
    tagged_blog_ids,
    texts,
};
use crate::data::time::{date_text, format_timestamp, Timestamp};
use crate::data::DataError;
use crate::web::errors::WebError;

verus! {

/// What the home page shows.
#[derive(Debug)]
pub struct HomeContext {
    pub blogs: Vec<WebSimpleBlog>,
}

/// An entry of a listing as a page shows it: the times are dates.
#[derive(Debug)]
pub struct WebSimpleBlog {
    pub user_id: i64,
    pub url: String,
    pub title: String,
    pub preview: String,
    pub create_time: String,
    pub edit_time: String,
    pub tags: Vec<String>,
}

/// A post as its page shows it: the times are dates.
#[derive(Debug)]
pub struct WebBlog {
    pub user_id: i64,
    pub url: String,
    pub title: String,
    pub preview: String,
    pub content: String,
    pub create_time: String,
    pub edit_time: String,
    pub tags: Vec<String>,
}

/// What the page of a tag shows.
#[derive(Debug)]
pub struct TagContext {
    pub blogs: Vec<WebSimpleBlog>,
    pub tag: String,
}

/// What the page of all tags shows.
#[derive(Debug)]
pub struct ListTagsContext {
    pub tags: Vec<String>,
}

/// The date of an instant, as year, month and day.
pub open spec fn date_of(instant: Timestamp) -> Seq<char> {
    date_text(instant@, "%Y-%m-%d"@)
}

/// Whether `shown` is the entry `blog` as a page shows it.
pub open spec fn shows_entry(shown: WebSimpleBlog, blog: SimpleBlogView) -> bool {
    &&& shown.user_id == blog.user_id
    &&& shown.url == blog.url
    &&& shown.title == blog.title
    &&& shown.preview == blog.preview
    &&& shown.create_time@ == date_of(blog.create_time)
    &&& shown.edit_time@ == date_of(blog.edit_time)
    &&& shown.tags@ == blog.tags
}

/// Whether `shown` is the post `blog` as its page shows it.
pub open spec fn shows_post(shown: WebBlog, blog: FullBlogView) -> bool {
    &&& shown.user_id == blog.user_id
    &&& shown.url == blog.url
    &&& shown.title == blog.title
    &&& shown.preview == blog.preview
    &&& shown.content == blog.content
    &&& shown.create_time@ == date_of(blog.create_time)
    &&& shown.edit_time@ == date_of(blog.edit_time)
    &&& shown.tags@ == blog.tags
}

/// Whether `shown` is the listing `list` as a page shows it, entry by entry.
pub open spec fn shows_entries(shown: Seq<WebSimpleBlog>, list: Seq<SimpleBlogView>) -> bool {
    shown.len() == list.len() && forall|i: int|
        0 <= i < list.len() ==> shows_entry(#[trigger] shown[i], list[i])
}

/// Prints an instant as its date: year, month and day.
pub fn format_datetime(dt: Timestamp) -> (r: String)
    ensures
        r@ == date_of(dt),
{
    format_timestamp(dt, "%Y-%m-%d")
}

impl SimpleBlog {
    /// This entry as a page shows it.
    pub fn to_web_simple_blog(&self) -> (r: WebSimpleBlog)
        ensures
            shows_entry(r, self@),
    {
        let create_time = format_datetime(self.create_time);
        let edit_time = format_datetime(self.edit_time);
        let tags = self.tags.clone();
        assert(tags@ =~= self.tags@);
        WebSimpleBlog {
            user_id: self.user_id,
            url: self.url.clone(),
            title: self.title.clone(),
            preview: self.preview.clone(),
            create_time,
            edit_time,
            tags,
        }
    }
}

impl FullBlog {
    /// This post as its page shows it.
    pub fn to_web_blog(&self) -> (r: WebBlog)
        ensures
            shows_post(r, self@),
    {
        let create_time = format_datetime(self.create_time);
        let edit_time = format_datetime(self.edit_time);
        let tags = self.tags.clone();
        assert(tags@ =~= self.tags@);
        WebBlog {
            user_id: self.user_id,
            url: self.url.clone(),
            title: self.title.clone(),
            preview: self.preview.clone(),
            content: self.content.clone(),
            create_time,
            edit_time,
            tags,
        }
    }
}

/// The extension that `std::path::Path::extension` finds in `path`: what follows
/// the last dot of its last segment, where that segment has a dot that is not
/// its first character.
pub uninterp spec fn extension_of(path: Seq<char>) -> Option<Seq<char>>;

/// What `std::path::Path::with_extension` makes of `path` when the new extension
/// is empty: the path without its extension and without the dot before it.
pub uninterp spec fn without_extension(path: Seq<char>) -> Seq<char>;

/// Calls `std::path::Path::extension`.
///
/// Trusted: the answer is the one that [`extension_of`] names. The path comes
/// from a string, so its extension is text.
#[verifier::external_body]
fn path_extension(path: &str) -> (r: Option<String>)
    ensures
        match r {
            Some(extension) => extension_of(path@) == Some(extension@),
            None => extension_of(path@) is None,
        },
{
    match std::path::Path::new(path).extension() {
        Some(extension) => Some(extension.to_str().unwrap().to_string()),
        None => None,
    }
}

/// Calls `std::path::Path::with_extension` with an empty extension.
///
/// Trusted: the answer is the one that [`without_extension`] names.
#[verifier::external_body]
fn path_without_extension(path: &str, extension: &str) -> (r: String)
    requires
        extension@.len() == 0,
    ensures
        r@ == without_extension(path@),
{
    std::path::Path::new(path).with_extension(extension).to_str().unwrap().to_string()
}

/// What is left of the name in an address once `.html` is taken off: a name
/// without an extension stays, a name that ends in `.html` loses it, and a name
/// with any other extension becomes empty, so that nothing is found under it.
pub open spec fn html_removed(title: Seq<char>, extension: Option<Seq<char>>) -> Seq<char> {
    match extension {
        None => title,
        Some(found) => if found == "html"@ {
            without_extension(title)
        } else {
            Seq::empty()
        },
    }
}

/// Takes `.html` off the name in an address.
pub fn remove_html_extension(title: String) -> (r: String)
    ensures
        r@ == html_removed(title@, extension_of(title@)),
{
    let ex = match path_extension(title.as_str()) {
        Some(extension) => extension,
        None => { return title; },
    };
    if ex == String::from_str("html") {
        proof {
            reveal_strlit("");
        }
        path_without_extension(title.as_str(), "")
    } else {
        String::new()
    }
}

/// A listing as a page shows it.
pub fn simple_blogs_to_web_simple_blogs(blogs: Vec<SimpleBlog>) -> (r: Vec<WebSimpleBlog>)
    ensures
        shows_entries(r@, entries(blogs@)),
{
    let mut b: Vec<WebSimpleBlog> = Vec::new();
    let mut i: usize = 0;
    while i < blogs.len()
        invariant
            i <= blogs.len(),
            shows_entries(b@, entries(blogs@).take(i as int)),
        decreases blogs.len() - i,
    {
        b.push(blogs[i].to_web_simple_blog());
        i += 1;
    }
    proof {
        assert(entries(blogs@).take(i as int) =~= entries(blogs@));
    }
    b
}

/// The home page: all blogs that have a tag, the newest first.
pub fn show_home_handler(db: &Database) -> (r: Result<HomeContext, WebError>)
    requires
        db@.wf(),
    ensures
        r is Ok,
        exists|list: Seq<SimpleBlogView>|
            newest_first(list) && list.to_multiset() == listed_blogs(db@).to_multiset()
                && shows_entries(r->Ok_0.blogs@, list),
{
    let blogs = match get_all_simple_blogs(db) {
        Ok(blogs) => blogs,
        Err(error) => { return Err(WebError::DataError(error)); },
    };
    Ok(HomeContext { blogs: simple_blogs_to_web_simple_blogs(blogs) })
}

/// Refuses an address that names no post at all, before the store is asked.
pub fn check_address(url: &str) -> (r: Result<(), WebError>)
    ensures
        url@.len() == 0 ==> r is Err && r->Err_0 is NotFound,
        url@.len() > 0 ==> r is Ok,
{
    if url.unicode_len() == 0 {
        return Err(WebError::NotFound);
    }
    Ok(())
}

/// What the page of the post at `url` shows, given the extension found in the
/// address: the post under the name without `.html`, or why there is none.
pub open spec fn post_shown(t: Tables, url: Seq<char>, extension: Option<Seq<char>>) -> Result<
    FullBlogView,
    DataError,
> {
    full_blog_found_by_url(t, html_removed(url, extension))
}

/// The page of a post: the blog at this address, which may end in `.html`.
pub fn show_blog_handler(url: String, db: &Database) -> (r: Result<WebBlog, WebError>)
    requires
        db@.wf(),
    ensures
        url@.len() == 0 ==> r is Err && r->Err_0 is NotFound,
        url@.len() > 0 ==> match r {
            Ok(shown) => post_shown(db@, url@, extension_of(url@)) is Ok && shows_post(
                shown,
                post_shown(db@, url@, extension_of(url@))->Ok_0,
            ),
            Err(error) => post_shown(db@, url@, extension_of(url@)) is Err && error
                == WebError::DataError(post_shown(db@, url@, extension_of(url@))->Err_0),
        },
{
    if let Err(error) = check_address(url.as_str()) {
        return Err(error);
    }
    let url = remove_html_extension(url);
    let blog = match get_full_blog_by_url(url, db) {
        Ok(blog) => blog,
        Err(error) => { return Err(WebError::DataError(error)); },
    };
    Ok(blog.to_web_blog())
}

/// The page of a tag: the blogs that carry the tag named in the address, which
/// may end in `.html`, the highest id first.
pub fn show_tag_handler(name: String, db: &Database) -> (r: Result<TagContext, WebError>)
    requires
        db@.wf(),
    ensures
        r is Ok,
        r->Ok_0.tag@ == html_removed(name@, extension_of(name@)),
        exists|ids: Seq<i64>, list: Seq<SimpleBlogView>|
            is_descending(ids) && ids.to_multiset() == tagged_blog_ids(
                db@,
                r->Ok_0.tag@,
            ).to_multiset() && shows_blogs(db@, ids, list) && shows_entries(r->Ok_0.blogs@, list),
{
    let name = remove_html_extension(name);
    let blogs = match get_simple_blogs_by_tag_name(name.clone(), db) {
        Ok(blogs) => blogs,
        Err(error) => { return Err(WebError::DataError(error)); },
    };
    let web_simple_blogs = simple_blogs_to_web_simple_blogs(blogs);
    Ok(TagContext { blogs: web_simple_blogs, tag: name })
}

/// The page of all tags: each name once, in dictionary order.
pub fn list_tags_handler(db: &Database) -> (r: Result<ListTagsContext, WebError>)
    ensures
        r is Ok,
        is_ascending(texts(r->Ok_0.tags@)),
        forall|name: Seq<char>|
            texts(r->Ok_0.tags@).contains(name) <==> is_tag_name(db@.tags, name),
{
    let tags = match get_all_tag_names(db) {
        Ok(tags) => tags,
        Err(error) => { return Err(WebError::DataError(error)); },
    };
    Ok(ListTagsContext { tags })
}

} // verus!
