//! The table of blogs, and the two projections that join a blog with its tags.

use vstd::prelude::*;
use vstd::seq_lib::{to_multiset_build, to_multiset_insert};

use crate::data::store::{Database, Tables};
use crate::data::tags::{tag_names_for_blog, tag_names_of};
use crate::data::time::Timestamp;
use crate::data::users::user_position;
use crate::data::DataError;

verus! {

/// A row of the table of blogs.
#[derive(Debug)]
pub struct Blog {
    pub id: i64,
    /// The owner.
    pub user_id: i64,
    pub url: String,
    pub title: String,
    pub preview: String,
    pub content: String,
    pub create_time: Timestamp,
    pub edit_time: Timestamp,
    /// How often the row has been updated; an update names the version it read.
    pub version: i64,
}

impl Clone for Blog {
    fn clone(&self) -> (r: Self)
        ensures
            r == *self,
    {
        Blog {
            id: self.id,
            user_id: self.user_id,
            url: self.url.clone(),
            title: self.title.clone(),
            preview: self.preview.clone(),
            content: self.content.clone(),
            create_time: self.create_time,
            edit_time: self.edit_time,
            version: self.version,
        }
    }
}

/// A blog together with the names of its tags.
#[derive(Debug)]
pub struct FullBlog {
    pub id: i64,
    pub user_id: i64,
    pub url: String,
    pub title: String,
    pub preview: String,
    pub content: String,
    pub create_time: Timestamp,
    pub edit_time: Timestamp,
    pub tags: Vec<String>,
}

/// What a [`FullBlog`] holds.
pub struct FullBlogView {
    pub id: i64,
    pub user_id: i64,
    pub url: String,
    pub title: String,
    pub preview: String,
    pub content: String,
    pub create_time: Timestamp,
    pub edit_time: Timestamp,
    pub tags: Seq<String>,
}

impl View for FullBlog {
    type V = FullBlogView;

    open spec fn view(&self) -> FullBlogView {
        FullBlogView {
            id: self.id,
            user_id: self.user_id,
            url: self.url,
            title: self.title,
            preview: self.preview,
            content: self.content,
            create_time: self.create_time,
            edit_time: self.edit_time,
            tags: self.tags@,
        }
    }
}

/// The projection of a row and tag names that [`FullBlog`] holds: all of the row
/// but its version.
pub open spec fn full_blog_of(blog: Blog, tags: Seq<String>) -> FullBlogView {
    FullBlogView {
        id: blog.id,
        user_id: blog.user_id,
        url: blog.url,
        title: blog.title,
        preview: blog.preview,
        content: blog.content,
        create_time: blog.create_time,
        edit_time: blog.edit_time,
        tags,
    }
}

impl FullBlog {
    /// Joins a row with tag names.
    pub fn from_blog_and_tags(blog: Blog, tags: Vec<String>) -> (r: Self)
        ensures
            r@ == full_blog_of(blog, tags@),
    {
        FullBlog {
            id: blog.id,
            user_id: blog.user_id,
            url: blog.url,
            title: blog.title,
            preview: blog.preview,
            content: blog.content,
            create_time: blog.create_time,
            edit_time: blog.edit_time,
            tags,
        }
    }
}

/// What an owner hands in to create a blog.
#[derive(Debug)]
pub struct NewBlog {
    pub user_id: i64,
    pub url: String,
    pub title: String,
    pub preview: String,
    pub content: String,
}

impl NewBlog {
    pub fn new(user_id: i64, url: String, title: String, preview: String, content: String) -> (r:
        Self)
        ensures
            r == (NewBlog { user_id, url, title, preview, content }),
    {
        NewBlog { user_id, url, title, preview, content }
    }
}

/// What is handed in to create a blog with both of its times given.
#[derive(Debug)]
pub struct ForceNewBlog {
    pub user_id: i64,
    pub url: String,
    pub title: String,
    pub preview: String,
    pub content: String,
    pub create_time: Timestamp,
    pub edit_time: Timestamp,
}

impl ForceNewBlog {
    pub fn new(
        user_id: i64,
        url: String,
        title: String,
        preview: String,
        content: String,
        create_time: Timestamp,
        edit_time: Timestamp,
    ) -> (r: Self)
        ensures
            r == (ForceNewBlog { user_id, url, title, preview, content, create_time, edit_time }),
    {
        ForceNewBlog { user_id, url, title, preview, content, create_time, edit_time }
    }
}

/// A blog without its content, together with the names of its tags: an entry of
/// a listing.
#[derive(Debug)]
pub struct SimpleBlog {
    pub id: i64,
    pub user_id: i64,
    pub url: String,
    pub title: String,
    pub preview: String,
    pub create_time: Timestamp,
    pub edit_time: Timestamp,
    pub tags: Vec<String>,
}

/// What a [`SimpleBlog`] holds.
pub struct SimpleBlogView {
    pub id: i64,
    pub user_id: i64,
    pub url: String,
    pub title: String,
    pub preview: String,
    pub create_time: Timestamp,
    pub edit_time: Timestamp,
    pub tags: Seq<String>,
}

impl View for SimpleBlog {
    type V = SimpleBlogView;

    open spec fn view(&self) -> SimpleBlogView {
        SimpleBlogView {
            id: self.id,
            user_id: self.user_id,
            url: self.url,
            title: self.title,
            preview: self.preview,
            create_time: self.create_time,
            edit_time: self.edit_time,
            tags: self.tags@,
        }
    }
}

/// The projection of a row and tag names that [`SimpleBlog`] holds: all of the
/// row but its content and its version.
pub open spec fn simple_blog_of(blog: Blog, tags: Seq<String>) -> SimpleBlogView {
    SimpleBlogView {
        id: blog.id,
        user_id: blog.user_id,
        url: blog.url,
        title: blog.title,
        preview: blog.preview,
        create_time: blog.create_time,
        edit_time: blog.edit_time,
        tags,
    }
}

/// A result with what is inside `Ok` replaced by its view.
pub open spec fn viewed<T: View, E>(r: Result<T, E>) -> Result<T::V, E> {
    match r {
        Ok(value) => Ok(value@),
        Err(error) => Err(error),
    }
}

/// Whether the row at `i` is the blog with this id.
pub open spec fn blog_at(blogs: Seq<Blog>, i: int, id: i64) -> bool {
    0 <= i < blogs.len() && blogs[i].id == id
}

/// The position of the blog with this id.
pub open spec fn blog_position(blogs: Seq<Blog>, id: i64) -> Option<int> {
    if exists|i: int| blog_at(blogs, i, id) {
        Some(choose|i: int| blog_at(blogs, i, id))
    } else {
        None
    }
}

/// In consistent tables a row is the only one with its id.
pub proof fn lemma_blog_position(t: Tables, i: int)
    requires
        t.wf(),
        0 <= i < t.blogs.len(),
    ensures
        blog_position(t.blogs, t.blogs[i].id) == Some(i),
{
    let id = t.blogs[i].id;
    assert(blog_at(t.blogs, i, id));
    let c = choose|c: int| blog_at(t.blogs, c, id);
    assert(c == i) by {
        if c < i {
            assert(t.blogs[c].id < t.blogs[i].id);
        } else if i < c {
            assert(t.blogs[i].id < t.blogs[c].id);
        }
    }
}

/// The row that an insert writes at the instant `now`.
pub open spec fn new_blog_row(t: Tables, new_blog: NewBlog, now: Timestamp) -> Blog {
    Blog {
        id: t.next_blog_id as i64,
        user_id: new_blog.user_id,
        url: new_blog.url,
        title: new_blog.title,
        preview: new_blog.preview,
        content: new_blog.content,
        create_time: now,
        edit_time: now,
        version: 0,
    }
}

/// The row that an insert with given times writes.
pub open spec fn forced_blog_row(t: Tables, blog: ForceNewBlog) -> Blog {
    Blog {
        id: t.next_blog_id as i64,
        user_id: blog.user_id,
        url: blog.url,
        title: blog.title,
        preview: blog.preview,
        content: blog.content,
        create_time: blog.create_time,
        edit_time: blog.edit_time,
        version: 0,
    }
}

/// What writing `row` under the next id does: the tables afterwards, and the row
/// or the refusal. The counter gives the id out before the owner is looked up,
/// so a refused insert uses an id up.
pub open spec fn blog_row_inserted(t: Tables, row: Blog) -> (Tables, Result<Blog, DataError>) {
    if t.next_blog_id >= i64::MAX {
        (t, Err(DataError::OutOfRange))
    } else if user_position(t.users, row.user_id) is None {
        (Tables { next_blog_id: t.next_blog_id + 1, ..t }, Err(DataError::ForeignKeyViolation))
    } else {
        (Tables { blogs: t.blogs.push(row), next_blog_id: t.next_blog_id + 1, ..t }, Ok(row))
    }
}

/// `INSERT INTO blogs` at the instant `now`: both times are `now`, the version
/// is 0.
pub open spec fn blog_inserted(t: Tables, new_blog: NewBlog, now: Timestamp) -> (
    Tables,
    Result<Blog, DataError>,
) {
    blog_row_inserted(t, new_blog_row(t, new_blog, now))
}

/// `INSERT INTO blogs` with both times given.
pub open spec fn blog_force_inserted(t: Tables, blog: ForceNewBlog) -> (
    Tables,
    Result<Blog, DataError>,
) {
    blog_row_inserted(t, forced_blog_row(t, blog))
}

/// `SELECT * FROM blogs WHERE id = ..`.
pub open spec fn blog_found(t: Tables, id: i64) -> Result<Blog, DataError> {
    match blog_position(t.blogs, id) {
        Some(i) => Ok(t.blogs[i]),
        None => Err(DataError::RowNotFound),
    }
}

/// `SELECT user_id FROM blogs WHERE id = ..`.
pub open spec fn blog_owner_found(t: Tables, id: i64) -> Result<i64, DataError> {
    match blog_position(t.blogs, id) {
        Some(i) => Ok(t.blogs[i].user_id),
        None => Err(DataError::RowNotFound),
    }
}

/// The row that a successful update at the instant `now` leaves in place of
/// `stored`: the four texts of `updated`, the edit time `now`, the version one
/// higher; the owner and the creation time stay.
pub open spec fn updated_blog_row(stored: Blog, updated: Blog, now: Timestamp) -> Blog {
    Blog {
        url: updated.url,
        title: updated.title,
        preview: updated.preview,
        content: updated.content,
        edit_time: now,
        version: (stored.version + 1) as i64,
        ..stored
    }
}

/// The row that a successful update with given times leaves in place of
/// `stored`: the four texts and both times of `updated`, the version one higher;
/// the owner stays.
pub open spec fn force_updated_blog_row(stored: Blog, updated: Blog) -> Blog {
    Blog {
        url: updated.url,
        title: updated.title,
        preview: updated.preview,
        content: updated.content,
        create_time: updated.create_time,
        edit_time: updated.edit_time,
        version: (stored.version + 1) as i64,
        ..stored
    }
}

/// What replacing the row that `updated` was read from by `row` does: the tables
/// afterwards, and the row or the refusal.
///
/// A row is written only where the id exists and its version is the one that
/// `updated` carries. A stale version and a missing id are refused alike.
pub open spec fn blog_row_replaced(t: Tables, updated: Blog, row: Blog) -> (
    Tables,
    Result<Blog, DataError>,
) {
    match blog_position(t.blogs, updated.id) {
        Some(i) => if t.blogs[i].version != updated.version {
            (t, Err(DataError::RowNotFound))
        } else if updated.version == i64::MAX {
            (t, Err(DataError::OutOfRange))
        } else {
            (Tables { blogs: t.blogs.update(i, row), ..t }, Ok(row))
        },
        None => (t, Err(DataError::RowNotFound)),
    }
}

/// `UPDATE blogs SET .., edit_time = NOW(), version = version + 1
/// WHERE id = .. AND version = ..`.
pub open spec fn blog_updated(t: Tables, updated: Blog, now: Timestamp) -> (
    Tables,
    Result<Blog, DataError>,
) {
    match blog_position(t.blogs, updated.id) {
        Some(i) => blog_row_replaced(t, updated, updated_blog_row(t.blogs[i], updated, now)),
        None => (t, Err(DataError::RowNotFound)),
    }
}

/// `UPDATE blogs SET .., create_time = .., edit_time = .., version = version + 1
/// WHERE id = .. AND version = ..`.
pub open spec fn blog_force_updated(t: Tables, updated: Blog) -> (Tables, Result<Blog, DataError>) {
    match blog_position(t.blogs, updated.id) {
        Some(i) => blog_row_replaced(t, updated, force_updated_blog_row(t.blogs[i], updated)),
        None => (t, Err(DataError::RowNotFound)),
    }
}

/// `DELETE FROM blogs WHERE id = ..`: the tables afterwards, and whether a row
/// left. The tags of the blog stay behind.
pub open spec fn blog_deleted(t: Tables, id: i64) -> (Tables, bool) {
    match blog_position(t.blogs, id) {
        Some(i) => (Tables { blogs: t.blogs.remove(i), ..t }, true),
        None => (t, false),
    }
}

/// Whether the blog has a tag. The joined reads see no blog without one.
pub open spec fn has_tags(t: Tables, blog_id: i64) -> bool {
    tag_names_of(t.tags, blog_id).len() > 0
}

/// The joined read of one blog by id: the blog with its tag names, where it has
/// any.
pub open spec fn full_blog_found(t: Tables, id: i64) -> Result<FullBlogView, DataError> {
    match blog_position(t.blogs, id) {
        Some(i) => if has_tags(t, id) {
            Ok(full_blog_of(t.blogs[i], tag_names_of(t.tags, id)))
        } else {
            Err(DataError::RowNotFound)
        },
        None => Err(DataError::RowNotFound),
    }
}

/// The joined read of one blog by id, without its content.
pub open spec fn simple_blog_found(t: Tables, id: i64) -> Result<SimpleBlogView, DataError> {
    match blog_position(t.blogs, id) {
        Some(i) => if has_tags(t, id) {
            Ok(simple_blog_of(t.blogs[i], tag_names_of(t.tags, id)))
        } else {
            Err(DataError::RowNotFound)
        },
        None => Err(DataError::RowNotFound),
    }
}

/// Whether the row at `i` carries this url and has a tag.
pub open spec fn visible_at_url(t: Tables, i: int, url: Seq<char>) -> bool {
    0 <= i < t.blogs.len() && t.blogs[i].url@ == url && has_tags(t, t.blogs[i].id)
}

/// Whether the row at `i` is the oldest that carries this url and has a tag.
pub open spec fn first_visible_at_url(t: Tables, i: int, url: Seq<char>) -> bool {
    visible_at_url(t, i, url) && forall|j: int| 0 <= j < i ==> !visible_at_url(t, j, url)
}

/// The joined read of one blog by url. Urls are not held apart: where several
/// blogs with a tag carry the url, the oldest is read.
pub open spec fn full_blog_found_by_url(t: Tables, url: Seq<char>) -> Result<
    FullBlogView,
    DataError,
> {
    if exists|i: int| first_visible_at_url(t, i, url) {
        let i = choose|i: int| first_visible_at_url(t, i, url);
        Ok(full_blog_of(t.blogs[i], tag_names_of(t.tags, t.blogs[i].id)))
    } else {
        Err(DataError::RowNotFound)
    }
}

/// An insert leaves the tables consistent.
pub proof fn lemma_blog_row_inserted_wf(t: Tables, row: Blog)
    requires
        t.wf(),
        row.id == t.next_blog_id,
    ensures
        blog_row_inserted(t, row).0.wf(),
{
    let post = blog_row_inserted(t, row).0;
    if blog_row_inserted(t, row).1 is Ok {
        assert forall|i: int, j: int| 0 <= i < j < post.blogs.len() implies (
        #[trigger] post.blogs[i]).id < (#[trigger] post.blogs[j]).id by {
            assert(post.blogs[i] == t.blogs[i]);
            if j < t.blogs.len() {
                assert(post.blogs[j] == t.blogs[j]);
            }
        }
        assert forall|i: int| 0 <= i < post.blogs.len() implies 1 <= (#[trigger] post.blogs[i]).id
            < post.next_blog_id by {
            if i < t.blogs.len() {
                assert(post.blogs[i] == t.blogs[i]);
            }
        }
    }
}

/// An update leaves the tables consistent.
pub proof fn lemma_blog_row_replaced_wf(t: Tables, updated: Blog, row: Blog)
    requires
        t.wf(),
        row.id == updated.id,
        blog_found(t, updated.id) matches Ok(stored) ==> row.user_id == stored.user_id,
    ensures
        blog_row_replaced(t, updated, row).0.wf(),
{
    let post = blog_row_replaced(t, updated, row).0;
    if blog_row_replaced(t, updated, row).1 is Ok {
        let k = blog_position(t.blogs, updated.id)->Some_0;
        assert(blog_at(t.blogs, k, updated.id));
        assert forall|i: int, j: int| 0 <= i < j < post.blogs.len() implies (
        #[trigger] post.blogs[i]).id < (#[trigger] post.blogs[j]).id by {
            assert(t.blogs[i].id < t.blogs[j].id);
        }
        assert forall|i: int| 0 <= i < post.blogs.len() implies 1 <= (#[trigger] post.blogs[i]).id
            < post.next_blog_id && 1 <= post.blogs[i].user_id < post.next_user_id by {
            assert(1 <= t.blogs[i].id < t.next_blog_id);
            assert(1 <= t.blogs[i].user_id < t.next_user_id);
        }
    }
}

/// A delete leaves the tables consistent.
pub proof fn lemma_blog_deleted_wf(t: Tables, id: i64)
    requires
        t.wf(),
    ensures
        blog_deleted(t, id).0.wf(),
{
    let post = blog_deleted(t, id).0;
    if blog_deleted(t, id).1 {
        let k = blog_position(t.blogs, id)->Some_0;
        assert(blog_at(t.blogs, k, id));
        assert forall|i: int, j: int| 0 <= i < j < post.blogs.len() implies (
        #[trigger] post.blogs[i]).id < (#[trigger] post.blogs[j]).id by {
            let a = if i < k { i } else { i + 1 };
            let b = if j < k { j } else { j + 1 };
            assert(post.blogs[i] == t.blogs[a]);
            assert(post.blogs[j] == t.blogs[b]);
            assert(t.blogs[a].id < t.blogs[b].id);
        }
        assert forall|i: int| 0 <= i < post.blogs.len() implies 1 <= (#[trigger] post.blogs[i]).id
            < post.next_blog_id by {
            let a = if i < k { i } else { i + 1 };
            assert(post.blogs[i] == t.blogs[a]);
        }
    }
}

/// Looks for the row with this id.
fn find_blog(db: &Database, id: i64) -> (r: Option<usize>)
    requires
        db@.wf(),
    ensures
        r matches Some(i) ==> i < db@.blogs.len(),
        blog_position(db@.blogs, id) == (match r {
            Some(i) => Some(i as int),
            None => None,
        }),
{
    let mut i: usize = 0;
    while i < db.blogs.len()
        invariant
            db@.wf(),
            i <= db.blogs.len(),
            forall|j: int| 0 <= j < i ==> !blog_at(db@.blogs, j, id),
        decreases db.blogs.len() - i,
    {
        if db.blogs[i].id == id {
            proof {
                lemma_blog_position(db@, i as int);
            }
            return Some(i);
        }
        i += 1;
    }
    None
}

/// Writes `row` under the id that the counter gives out next.
fn insert_blog_row(row: Blog, db: &mut Database) -> (r: Result<Blog, DataError>)
    requires
        old(db)@.wf(),
        row.id == old(db)@.next_blog_id || old(db)@.next_blog_id >= i64::MAX,
    ensures
        final(db)@.wf(),
        (final(db)@, r) == blog_row_inserted(old(db)@, row),
{
    if db.next_blog_id >= i64::MAX {
        return Err(DataError::OutOfRange);
    }
    proof {
        lemma_blog_row_inserted_wf(old(db)@, row);
    }
    db.next_blog_id = db.next_blog_id + 1;
    if crate::data::users::get_user(row.user_id, db).is_err() {
        return Err(DataError::ForeignKeyViolation);
    }
    let copy = row.clone();
    db.blogs.push(row);
    Ok(copy)
}

/// Writes a new blog, created and last edited at the instant `now`.
pub fn create_blog(new_blog: NewBlog, now: Timestamp, db: &mut Database) -> (r: Result<
    Blog,
    DataError,
>)
    requires
        old(db)@.wf(),
    ensures
        final(db)@.wf(),
        (final(db)@, r) == blog_inserted(old(db)@, new_blog, now),
{
    let row = Blog {
        id: db.next_blog_id,
        user_id: new_blog.user_id,
        url: new_blog.url,
        title: new_blog.title,
        preview: new_blog.preview,
        content: new_blog.content,
        create_time: now,
        edit_time: now,
        version: 0,
    };
    insert_blog_row(row, db)
}

/// Writes a new blog with both of its times as given.
pub fn force_create_blog(blog: ForceNewBlog, db: &mut Database) -> (r: Result<Blog, DataError>)
    requires
        old(db)@.wf(),
    ensures
        final(db)@.wf(),
        (final(db)@, r) == blog_force_inserted(old(db)@, blog),
{
    let row = Blog {
        id: db.next_blog_id,
        user_id: blog.user_id,
        url: blog.url,
        title: blog.title,
        preview: blog.preview,
        content: blog.content,
        create_time: blog.create_time,
        edit_time: blog.edit_time,
        version: 0,
    };
    insert_blog_row(row, db)
}

/// Writes the four texts of `updated_blog` over the row it was read from, if
/// nobody has updated that row since, and stamps the row as edited at `now`.
pub fn update_blog(updated_blog: Blog, now: Timestamp, db: &mut Database) -> (r: Result<
    Blog,
    DataError,
>)
    requires
        old(db)@.wf(),
    ensures
        final(db)@.wf(),
        (final(db)@, r) == blog_updated(old(db)@, updated_blog, now),
{
    match find_blog(db, updated_blog.id) {
        Some(i) => {
            if db.blogs[i].version != updated_blog.version {
                return Err(DataError::RowNotFound);
            }
            if updated_blog.version == i64::MAX {
                return Err(DataError::OutOfRange);
            }
            let row = Blog {
                id: db.blogs[i].id,
                user_id: db.blogs[i].user_id,
                url: updated_blog.url,
                title: updated_blog.title,
                preview: updated_blog.preview,
                content: updated_blog.content,
                create_time: db.blogs[i].create_time,
                edit_time: now,
                version: updated_blog.version + 1,
            };
            proof {
                lemma_blog_row_replaced_wf(old(db)@, updated_blog, row);
            }
            let copy = row.clone();
            db.blogs.set(i, row);
            proof {
                assert(final(db)@.blogs =~= old(db)@.blogs.update(i as int, copy));
            }
            Ok(copy)
        },
        None => Err(DataError::RowNotFound),
    }
}

/// Writes the four texts and both times of `updated_blog` over the row it was
/// read from, if nobody has updated that row since.
pub fn force_update_blog(updated_blog: Blog, db: &mut Database) -> (r: Result<Blog, DataError>)
    requires
        old(db)@.wf(),
    ensures
        final(db)@.wf(),
        (final(db)@, r) == blog_force_updated(old(db)@, updated_blog),
{
    match find_blog(db, updated_blog.id) {
        Some(i) => {
            if db.blogs[i].version != updated_blog.version {
                return Err(DataError::RowNotFound);
            }
            if updated_blog.version == i64::MAX {
                return Err(DataError::OutOfRange);
            }
            let row = Blog {
                id: db.blogs[i].id,
                user_id: db.blogs[i].user_id,
                url: updated_blog.url,
                title: updated_blog.title,
                preview: updated_blog.preview,
                content: updated_blog.content,
                create_time: updated_blog.create_time,
                edit_time: updated_blog.edit_time,
                version: updated_blog.version + 1,
            };
            proof {
                lemma_blog_row_replaced_wf(old(db)@, updated_blog, row);
            }
            let copy = row.clone();
            db.blogs.set(i, row);
            proof {
                assert(final(db)@.blogs =~= old(db)@.blogs.update(i as int, copy));
            }
            Ok(copy)
        },
        None => Err(DataError::RowNotFound),
    }
}

/// Reads the row with this id.
pub fn get_blog(id: i64, db: &Database) -> (r: Result<Blog, DataError>)
    requires
        db@.wf(),
    ensures
        r == blog_found(db@, id),
{
    match find_blog(db, id) {
        Some(i) => Ok(db.blogs[i].clone()),
        None => Err(DataError::RowNotFound),
    }
}

/// Reads the blog with this id together with its tag names.
pub fn get_full_blog(id: i64, db: &Database) -> (r: Result<FullBlog, DataError>)
    requires
        db@.wf(),
    ensures
        viewed(r) == full_blog_found(db@, id),
{
    match find_blog(db, id) {
        Some(i) => {
            let tags = tag_names_for_blog(id, db);
            if tags.len() == 0 {
                return Err(DataError::RowNotFound);
            }
            Ok(FullBlog::from_blog_and_tags(db.blogs[i].clone(), tags))
        },
        None => Err(DataError::RowNotFound),
    }
}

/// Reads the blog with this url together with its tag names.
pub fn get_full_blog_by_url(url: String, db: &Database) -> (r: Result<FullBlog, DataError>)
    requires
        db@.wf(),
    ensures
        viewed(r) == full_blog_found_by_url(db@, url@),
{
    let mut i: usize = 0;
    while i < db.blogs.len()
        invariant
            i <= db.blogs.len(),
            forall|j: int| 0 <= j < i ==> !visible_at_url(db@, j, url@),
        decreases db.blogs.len() - i,
    {
        if db.blogs[i].url == url {
            let tags = tag_names_for_blog(db.blogs[i].id, db);
            if tags.len() > 0 {
                proof {
                    assert(first_visible_at_url(db@, i as int, url@));
                    let c = choose|c: int| first_visible_at_url(db@, c, url@);
                    assert(c == i);
                }
                return Ok(FullBlog::from_blog_and_tags(db.blogs[i].clone(), tags));
            }
        }
        i += 1;
    }
    Err(DataError::RowNotFound)
}

/// Reads the blog with this id, without its content, together with its tag
/// names.
pub fn get_simple_blog(id: i64, db: &Database) -> (r: Result<SimpleBlog, DataError>)
    requires
        db@.wf(),
    ensures
        viewed(r) == simple_blog_found(db@, id),
{
    match find_blog(db, id) {
        Some(i) => {
            let tags = tag_names_for_blog(id, db);
            if tags.len() == 0 {
                return Err(DataError::RowNotFound);
            }
            let blog = &db.blogs[i];
            Ok(
                SimpleBlog {
                    id: blog.id,
                    user_id: blog.user_id,
                    url: blog.url.clone(),
                    title: blog.title.clone(),
                    preview: blog.preview.clone(),
                    create_time: blog.create_time,
                    edit_time: blog.edit_time,
                    tags,
                },
            )
        },
        None => Err(DataError::RowNotFound),
    }
}

/// Removes the blog with this id; `false` where there is none.
pub fn delete_blog(id: i64, db: &mut Database) -> (r: Result<bool, DataError>)
    requires
        old(db)@.wf(),
    ensures
        final(db)@.wf(),
        r is Ok,
        (final(db)@, r->Ok_0) == blog_deleted(old(db)@, id),
{
    proof {
        lemma_blog_deleted_wf(old(db)@, id);
    }
    match find_blog(db, id) {
        Some(i) => {
            db.blogs.remove(i);
            Ok(true)
        },
        None => Ok(false),
    }
}

/// Reads the owner of the blog with this id.
pub fn get_user_id_with_blog_id(blog_id: i64, db: &Database) -> (r: Result<i64, DataError>)
    requires
        db@.wf(),
    ensures
        r == blog_owner_found(db@, blog_id),
{
    match find_blog(db, blog_id) {
        Some(i) => Ok(db.blogs[i].user_id),
        None => Err(DataError::RowNotFound),
    }
}

/// The entries of a listing, each replaced by what it holds.
pub open spec fn entries(list: Seq<SimpleBlog>) -> Seq<SimpleBlogView> {
    list.map_values(|blog: SimpleBlog| blog@)
}

/// The entries of the listing of all blogs, in the order of the table: each blog
/// that has a tag, without its content, together with its tag names.
pub open spec fn listed_blogs(t: Tables) -> Seq<SimpleBlogView> {
    t.blogs.filter(|blog: Blog| has_tags(t, blog.id)).map_values(
        |blog: Blog| simple_blog_of(blog, tag_names_of(t.tags, blog.id)),
    )
}

/// Whether `a` comes before `b` in a listing, or may: the blog that was created
/// later comes first, and of two that were created at the same instant the one
/// with the lower id.
pub open spec fn listed_before(a: SimpleBlogView, b: SimpleBlogView) -> bool {
    a.create_time@ > b.create_time@ || (a.create_time@ == b.create_time@ && a.id <= b.id)
}

/// Whether the entries stand with the newest first.
pub open spec fn newest_first(list: Seq<SimpleBlogView>) -> bool {
    forall|i: int, j: int| 0 <= i < j < list.len() ==> listed_before(list[i], list[j])
}

/// Puts an entry into its place in a listing that has the newest first.
fn insert_newest_first(list: &mut Vec<SimpleBlog>, blog: SimpleBlog)
    requires
        newest_first(entries(old(list)@)),
    ensures
        newest_first(entries(final(list)@)),
        entries(final(list)@).to_multiset() == entries(old(list)@).to_multiset().insert(blog@),
{
    let mut p: usize = 0;
    while p < list.len() && (list[p].create_time.micros() > blog.create_time.micros() || (
    list[p].create_time.micros() == blog.create_time.micros() && list[p].id <= blog.id))
        invariant
            p <= list.len(),
            list@ == old(list)@,
            forall|i: int| 0 <= i < p ==> listed_before(#[trigger] entries(list@)[i], blog@),
        decreases list.len() - p,
    {
        p += 1;
    }
    let ghost before = entries(list@);
    let ghost entry = blog@;
    list.insert(p, blog);
    proof {
        let after = entries(list@);
        assert(after =~= before.insert(p as int, entry));
        to_multiset_insert(before, p as int, entry);
        assert forall|i: int, j: int| 0 <= i < j < after.len() implies listed_before(
            after[i],
            after[j],
        ) by {
            if j < p {
                assert(after[i] == before[i] && after[j] == before[j]);
            } else if j == p {
                assert(after[i] == before[i]);
            } else if i < p {
                assert(after[i] == before[i] && after[j] == before[j - 1]);
                assert(listed_before(before[i], before[j - 1]));
            } else if i == p {
                assert(after[j] == before[j - 1]);
                assert(!listed_before(before[p as int], entry));
                if j - 1 > p {
                    assert(listed_before(before[p as int], before[j - 1]));
                }
            } else {
                assert(after[i] == before[i - 1] && after[j] == before[j - 1]);
                assert(listed_before(before[i - 1], before[j - 1]));
            }
        }
    }
}

/// Reads all blogs that have a tag, without their content, the newest first.
pub fn get_all_simple_blogs(db: &Database) -> (r: Result<Vec<SimpleBlog>, DataError>)
    requires
        db@.wf(),
    ensures
        r is Ok,
        newest_first(entries(r->Ok_0@)),
        entries(r->Ok_0@).to_multiset() == listed_blogs(db@).to_multiset(),
{
    let ghost keep = |blog: Blog| has_tags(db@, blog.id);
    let ghost entry_of = |blog: Blog| simple_blog_of(blog, tag_names_of(db@.tags, blog.id));
    let mut blogs: Vec<SimpleBlog> = Vec::new();
    let mut i: usize = 0;
    proof {
        reveal(Seq::filter);
        assert(db.blogs@.take(0).filter(keep).map_values(entry_of) =~= entries(blogs@));
    }
    while i < db.blogs.len()
        invariant
            i <= db.blogs.len(),
            keep == |blog: Blog| has_tags(db@, blog.id),
            entry_of == |blog: Blog| simple_blog_of(blog, tag_names_of(db@.tags, blog.id)),
            newest_first(entries(blogs@)),
            entries(blogs@).to_multiset() == db.blogs@.take(i as int).filter(keep).map_values(
                entry_of,
            ).to_multiset(),
        decreases db.blogs.len() - i,
    {
        let ghost head = db.blogs@.take(i as int);
        let ghost row = db.blogs@[i as int];
        proof {
            assert(db.blogs@.take(i + 1) =~= head.push(row));
            head.lemma_filter_push(row, keep);
        }
        let tags = tag_names_for_blog(db.blogs[i].id, db);
        if tags.len() > 0 {
            let blog = &db.blogs[i];
            let entry = SimpleBlog {
                id: blog.id,
                user_id: blog.user_id,
                url: blog.url.clone(),
                title: blog.title.clone(),
                preview: blog.preview.clone(),
                create_time: blog.create_time,
                edit_time: blog.edit_time,
                tags,
            };
            proof {
                assert(entry@ == entry_of(row));
                assert(head.filter(keep).push(row).map_values(entry_of) =~= head.filter(
                    keep,
                ).map_values(entry_of).push(entry@));
                to_multiset_build(head.filter(keep).map_values(entry_of), entry@);
            }
            insert_newest_first(&mut blogs, entry);
        }
        i += 1;
    }
    proof {
        assert(db.blogs@.take(i as int) =~= db.blogs@);
    }
    Ok(blogs)
}

} // verus!
