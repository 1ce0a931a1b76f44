//! What an owner may do with a blog: each write touches the blog and its tags
//! as one transaction, all of it or nothing.

use vstd::prelude::*;
use vstd::string::StringExecFns;

use crate::data::blogs::{
    blog_deleted,
    blog_force_inserted,
    blog_force_updated,
    blog_found,
    blog_inserted,
    blog_owner_found,
    blog_updated,
    create_blog,
    delete_blog,
    force_create_blog,
    force_update_blog,
    entries,
    full_blog_found,
    full_blog_of,
    get_all_simple_blogs,
    get_blog,
    get_full_blog,
    get_user_id_with_blog_id,
    listed_blogs,
    newest_first,
    update_blog,
    Blog,
    ForceNewBlog,
    FullBlog,
    FullBlogView,
    NewBlog,
    SimpleBlog,
};
use crate::data::store::{Database, Tables};
use crate::data::tags::{
    create_some_tags,
    delete_all_tags_for_blog_id,
    tags_inserted,
    tags_of_blog_deleted,
};
use crate::data::time::{
    date_parsed,
    parse_day,
    Timestamp,
    EPOCH_DAY_FROM_CE,
    MAX_MICROS,
    MICROS_PER_DAY,
    MIN_MICROS,
};
use crate::data::DataError;
use crate::rest::errors::{failure_viewed, ApiError, ApiFailure};
use crate::rest::users::{authorize, conversion_message};
use crate::rest::{CREATED, NO_CONTENT};

verus! {

/// What an owner hands in to create a blog with its tags.
#[derive(Debug)]
pub struct NewBlogWithTags {
    pub url: String,
    pub title: String,
    pub preview: String,
    pub content: String,
    pub tags: Vec<String>,
}

/// What an owner hands in to change a blog: each part that is given replaces
/// the stored one, each part that is left out stays.
#[derive(Debug)]
pub struct UpdatedBlogWithTags {
    pub url: Option<String>,
    pub title: Option<String>,
    pub preview: Option<String>,
    pub content: Option<String>,
    pub tags: Option<Vec<String>>,
}

/// What is handed in to write a blog with both of its times given, each as a
/// date of the form year, month, day.
#[derive(Debug)]
pub struct ForceFullBlog {
    pub url: String,
    pub title: String,
    pub preview: String,
    pub content: String,
    pub create_time: String,
    pub edit_time: String,
    pub tags: Vec<String>,
}

/// An answer that carries a blog, with the blog and the error each replaced by
/// what they hold.
pub open spec fn blog_answer_viewed(r: Result<(u16, FullBlog), ApiError>) -> Result<
    (u16, FullBlogView),
    ApiFailure,
> {
    match r {
        Ok((status, blog)) => Ok((status, blog@)),
        Err(error) => Err(error@),
    }
}

/// The instant that a date stands for: midnight UTC at the start of that day.
pub open spec fn time_of(text: Seq<char>) -> Result<Timestamp, ApiFailure> {
    match date_parsed(text, "%Y-%m-%d"@) {
        None => Err(ApiFailure::InvalidTimeString),
        Some(day) => {
            let micros = (day - EPOCH_DAY_FROM_CE) * MICROS_PER_DAY;
            if MIN_MICROS <= micros <= MAX_MICROS {
                Ok(Timestamp::at(micros))
            } else {
                Err(ApiFailure::InternalServerError(conversion_message()))
            }
        },
    }
}

/// What is left of a transaction that wrote a blog and then its tags: where
/// either insert is refused, the rows of before and the refusal; else the new
/// tables and the blog with its tags.
pub open spec fn created_with_tags(
    t: Tables,
    inserted: (Tables, Result<Blog, DataError>),
    tags: Seq<String>,
) -> (Tables, Result<(u16, FullBlogView), ApiFailure>) {
    match inserted.1 {
        Err(error) => (t.rolled_back(inserted.0), Err(ApiFailure::DataError(error))),
        Ok(blog) => match tags_inserted(inserted.0, tags, blog.id).1 {
            Err(error) => (t.rolled_back(inserted.0), Err(ApiFailure::DataError(error))),
            Ok(_) => (
                tags_inserted(inserted.0, tags, blog.id).0,
                Ok((CREATED, full_blog_of(blog, tags))),
            ),
        },
    }
}

/// What creating a blog with its tags at the instant `now` does: the tables
/// afterwards, and the blog or the refusal.
pub open spec fn blog_created(t: Tables, user_id: i64, input: NewBlogWithTags, now: Timestamp) -> (
    Tables,
    Result<(u16, FullBlogView), ApiFailure>,
) {
    let new_blog = NewBlog {
        user_id,
        url: input.url,
        title: input.title,
        preview: input.preview,
        content: input.content,
    };
    created_with_tags(t, blog_inserted(t, new_blog, now), input.tags@)
}

/// What creating a blog with given times does: the tables afterwards, and the
/// blog or the refusal. Both dates are read before anything is written.
pub open spec fn blog_force_created(t: Tables, user_id: i64, input: ForceFullBlog) -> (
    Tables,
    Result<(u16, FullBlogView), ApiFailure>,
) {
    match time_of(input.create_time@) {
        Err(failure) => (t, Err(failure)),
        Ok(create_time) => match time_of(input.edit_time@) {
            Err(failure) => (t, Err(failure)),
            Ok(edit_time) => {
                let new_blog = ForceNewBlog {
                    user_id,
                    url: input.url,
                    title: input.title,
                    preview: input.preview,
                    content: input.content,
                    create_time,
                    edit_time,
                };
                created_with_tags(t, blog_force_inserted(t, new_blog), input.tags@)
            },
        },
    }
}

/// The part that is given, or else the stored one.
pub open spec fn given_or(part: Option<String>, stored: String) -> String {
    match part {
        Some(text) => text,
        None => stored,
    }
}

/// The stored row with each given part of the patch in place.
pub open spec fn patched(stored: Blog, patch: UpdatedBlogWithTags) -> Blog {
    Blog {
        url: given_or(patch.url, stored.url),
        title: given_or(patch.title, stored.title),
        preview: given_or(patch.preview, stored.preview),
        content: given_or(patch.content, stored.content),
        ..stored
    }
}

/// The stored row with the four texts and both times as given.
pub open spec fn overwritten(
    stored: Blog,
    input: ForceFullBlog,
    create_time: Timestamp,
    edit_time: Timestamp,
) -> Blog {
    Blog {
        url: input.url,
        title: input.title,
        preview: input.preview,
        content: input.content,
        create_time,
        edit_time,
        ..stored
    }
}

/// What replacing the tags of a blog does: all of its tags leave, then the new
/// batch is written.
pub open spec fn tags_replaced(t: Tables, tags: Seq<String>, blog_id: i64) -> (
    Tables,
    Result<(), DataError>,
) {
    tags_inserted(tags_of_blog_deleted(t, blog_id).0, tags, blog_id)
}

/// What is left of a transaction that updated a blog and then, where tags are
/// given, replaced its tags: where either step is refused, the tables of before
/// and the refusal.
pub open spec fn updated_with_tags(
    t: Tables,
    updated: (Tables, Result<Blog, DataError>),
    tags: Option<Seq<String>>,
    blog_id: i64,
) -> (Tables, Result<u16, ApiFailure>) {
    match updated.1 {
        Err(error) => (t, Err(ApiFailure::DataError(error))),
        Ok(_) => match tags {
            None => (updated.0, Ok(NO_CONTENT)),
            Some(names) => match tags_replaced(updated.0, names, blog_id).1 {
                Err(error) => (t, Err(ApiFailure::DataError(error))),
                Ok(_) => (tags_replaced(updated.0, names, blog_id).0, Ok(NO_CONTENT)),
            },
        },
    }
}

/// The names of a batch of tags, where one is given.
pub open spec fn given_tags(tags: Option<Vec<String>>) -> Option<Seq<String>> {
    match tags {
        Some(names) => Some(names@),
        None => None,
    }
}

/// What changing the blog `id` on behalf of the user `user_id` at the instant
/// `now` does: the tables afterwards, and the status code or the refusal.
///
/// Only the owner may change a blog; for anyone else nothing is written.
pub open spec fn blog_patched(
    t: Tables,
    user_id: i64,
    id: i64,
    patch: UpdatedBlogWithTags,
    now: Timestamp,
) -> (Tables, Result<u16, ApiFailure>) {
    if id < 0 {
        (t, Err(ApiFailure::NotFound))
    } else {
        match blog_found(t, id) {
            Err(error) => (t, Err(ApiFailure::DataError(error))),
            Ok(stored) => if stored.user_id != user_id {
                (t, Err(ApiFailure::Unauthorized))
            } else {
                updated_with_tags(
                    t,
                    blog_updated(t, patched(stored, patch), now),
                    given_tags(patch.tags),
                    id,
                )
            },
        }
    }
}

/// What overwriting the blog `id` with given times on behalf of the user
/// `user_id` does: the tables afterwards, and the status code or the refusal.
pub open spec fn blog_force_patched(t: Tables, user_id: i64, id: i64, input: ForceFullBlog) -> (
    Tables,
    Result<u16, ApiFailure>,
) {
    if id < 0 {
        (t, Err(ApiFailure::NotFound))
    } else {
        match blog_found(t, id) {
            Err(error) => (t, Err(ApiFailure::DataError(error))),
            Ok(stored) => if stored.user_id != user_id {
                (t, Err(ApiFailure::Unauthorized))
            } else {
                match time_of(input.create_time@) {
                    Err(failure) => (t, Err(failure)),
                    Ok(create_time) => match time_of(input.edit_time@) {
                        Err(failure) => (t, Err(failure)),
                        Ok(edit_time) => updated_with_tags(
                            t,
                            blog_force_updated(
                                t,
                                overwritten(stored, input, create_time, edit_time),
                            ),
                            Some(input.tags@),
                            id,
                        ),
                    },
                }
            },
        }
    }
}

/// What showing the blog `id` does.
pub open spec fn blog_shown(t: Tables, id: i64) -> Result<FullBlogView, ApiFailure> {
    if id < 0 {
        Err(ApiFailure::NotFound)
    } else {
        match full_blog_found(t, id) {
            Ok(blog) => Ok(blog),
            Err(error) => Err(ApiFailure::DataError(error)),
        }
    }
}

/// What removing the blog `id` on behalf of the user `user_id` does: the tables
/// afterwards, and the status code or the refusal.
///
/// Only the owner may remove a blog; for anyone else nothing is written.
pub open spec fn blog_removed(t: Tables, user_id: i64, id: i64) -> (
    Tables,
    Result<u16, ApiFailure>,
) {
    if id < 0 {
        (t, Err(ApiFailure::NotFound))
    } else {
        match blog_owner_found(t, id) {
            Err(error) => (t, Err(ApiFailure::DataError(error))),
            Ok(owner) => if owner != user_id {
                (t, Err(ApiFailure::Unauthorized))
            } else if blog_deleted(t, id).1 {
                (blog_deleted(t, id).0, Ok(NO_CONTENT))
            } else {
                (t, Err(ApiFailure::NotFound))
            },
        }
    }
}

/// Whether `id` can be the id of a blog at all: ids are never negative.
pub open spec fn id_is_possible(id: i64) -> Result<(), ApiFailure> {
    if id < 0 {
        Err(ApiFailure::NotFound)
    } else {
        Ok(())
    }
}

/// Refuses an id that no blog can have, before the store is asked.
pub fn check_id(id: i64) -> (r: Result<(), ApiError>)
    ensures
        failure_viewed(r) == id_is_possible(id),
{
    if id < 0 {
        return Err(ApiError::NotFound);
    }
    Ok(())
}

/// Puts each given part of a patch in place of the stored one.
pub fn apply_patch(
    blog: Blog,
    url: Option<String>,
    title: Option<String>,
    preview: Option<String>,
    content: Option<String>,
) -> (r: Blog)
    ensures
        r == (Blog {
            url: given_or(url, blog.url),
            title: given_or(title, blog.title),
            preview: given_or(preview, blog.preview),
            content: given_or(content, blog.content),
            ..blog
        }),
{
    let mut blog = blog;
    if let Some(url) = url {
        blog.url = url;
    }
    if let Some(title) = title {
        blog.title = title;
    }
    if let Some(preview) = preview {
        blog.preview = preview;
    }
    if let Some(content) = content {
        blog.content = content;
    }
    blog
}

/// The answer to the removal of a blog: a row that left is reported with no
/// content, and a blog that was not there as not found.
pub fn blog_removal_answer(success: bool) -> (r: Result<u16, ApiError>)
    ensures
        failure_viewed(r) == if success {
            Ok::<u16, ApiFailure>(NO_CONTENT)
        } else {
            Err::<u16, ApiFailure>(ApiFailure::NotFound)
        },
{
    if success {
        Ok(NO_CONTENT)
    } else {
        Err(ApiError::NotFound)
    }
}

/// Reads a date of the form year, month, day as the instant at which that day
/// begins in UTC.
pub fn parse_time_string(text: String) -> (r: Result<Timestamp, ApiError>)
    ensures
        failure_viewed(r) == time_of(text@),
{
    let day = match parse_day(text.as_str(), "%Y-%m-%d") {
        Ok(day) => day,
        Err(error) => { return Err(ApiError::InvalidTimeString(error)); },
    };
    match Timestamp::from_days_from_ce(day) {
        Some(instant) => Ok(instant),
        None => Err(ApiError::InternalServerError(String::from_str("datetime conversion error"))),
    }
}

/// Writes the tags of a blog that the transaction `work` has just written, and
/// closes the transaction: commits it if the tags went in, gives it up if not.
fn finish_creation(
    inserted: Result<Blog, DataError>,
    tags: Vec<String>,
    work: Database,
    db: &mut Database,
) -> (r: Result<(u16, FullBlog), ApiError>)
    requires
        old(db)@.wf(),
        work@.wf(),
        old(db)@.counters_reach(work@),
    ensures
        final(db)@.wf(),
        (final(db)@, blog_answer_viewed(r)) == created_with_tags(
            old(db)@,
            (work@, inserted),
            tags@,
        ),
{
    let mut work = work;
    let blog = match inserted {
        Ok(blog) => blog,
        Err(error) => {
            db.rollback(work);
            return Err(ApiError::DataError(error));
        },
    };
    match create_some_tags(tags.as_slice(), blog.id, &mut work) {
        Ok(_) => {
            db.commit(work);
            Ok((CREATED, FullBlog::from_blog_and_tags(blog, tags)))
        },
        Err(error) => {
            db.rollback(work);
            Err(ApiError::DataError(error))
        },
    }
}

/// Creates a blog with its tags for the user `user_id` at the instant `now`.
pub fn create_blog_handler(
    user_id: i64,
    new_blog_with_tags: NewBlogWithTags,
    now: Timestamp,
    db: &mut Database,
) -> (r: Result<(u16, FullBlog), ApiError>)
    requires
        old(db)@.wf(),
    ensures
        final(db)@.wf(),
        (final(db)@, blog_answer_viewed(r)) == blog_created(
            old(db)@,
            user_id,
            new_blog_with_tags,
            now,
        ),
{
    let mut tx = db.begin();
    let new_blog = NewBlog::new(
        user_id,
        new_blog_with_tags.url,
        new_blog_with_tags.title,
        new_blog_with_tags.preview,
        new_blog_with_tags.content,
    );
    let inserted = create_blog(new_blog, now, &mut tx);
    finish_creation(inserted, new_blog_with_tags.tags, tx, db)
}

/// Creates a blog with its tags for the user `user_id`, with both of its times
/// as given.
pub fn force_create_blog_handler(
    user_id: i64,
    new_blog_with_tags: ForceFullBlog,
    db: &mut Database,
) -> (r: Result<(u16, FullBlog), ApiError>)
    requires
        old(db)@.wf(),
    ensures
        final(db)@.wf(),
        (final(db)@, blog_answer_viewed(r)) == blog_force_created(
            old(db)@,
            user_id,
            new_blog_with_tags,
        ),
{
    let mut tx = db.begin();
    let create_time = match parse_time_string(new_blog_with_tags.create_time) {
        Ok(instant) => instant,
        Err(error) => { return Err(error); },
    };
    let edit_time = match parse_time_string(new_blog_with_tags.edit_time) {
        Ok(instant) => instant,
        Err(error) => { return Err(error); },
    };
    let new_blog = ForceNewBlog::new(
        user_id,
        new_blog_with_tags.url,
        new_blog_with_tags.title,
        new_blog_with_tags.preview,
        new_blog_with_tags.content,
        create_time,
        edit_time,
    );
    let inserted = force_create_blog(new_blog, &mut tx);
    finish_creation(inserted, new_blog_with_tags.tags, tx, db)
}

/// Replaces the tags of a blog that the transaction `work` has just updated,
/// where tags are given, and closes the transaction: commits it if every step
/// went through, drops it if not.
fn finish_update(
    updated: Result<Blog, DataError>,
    tags: Option<Vec<String>>,
    id: i64,
    work: Database,
    db: &mut Database,
) -> (r: Result<u16, ApiError>)
    requires
        old(db)@.wf(),
        work@.wf(),
    ensures
        final(db)@.wf(),
        (final(db)@, failure_viewed(r)) == updated_with_tags(
            old(db)@,
            (work@, updated),
            given_tags(tags),
            id,
        ),
{
    let mut work = work;
    if let Err(error) = updated {
        return Err(ApiError::DataError(error));
    }
    if let Some(names) = tags {
        let _ = delete_all_tags_for_blog_id(id, &mut work);
        if let Err(error) = create_some_tags(names.as_slice(), id, &mut work) {
            return Err(ApiError::DataError(error));
        }
    }
    db.commit(work);
    Ok(NO_CONTENT)
}

/// Changes the blog `id` on behalf of the user `user_id` at the instant `now`:
/// each part of the patch that is given replaces the stored one.
pub fn update_blog_handler(
    user_id: i64,
    id: i64,
    updated_blog_with_tags: UpdatedBlogWithTags,
    now: Timestamp,
    db: &mut Database,
) -> (r: Result<u16, ApiError>)
    requires
        old(db)@.wf(),
    ensures
        final(db)@.wf(),
        (final(db)@, failure_viewed(r)) == blog_patched(
            old(db)@,
            user_id,
            id,
            updated_blog_with_tags,
            now,
        ),
{
    if let Err(error) = check_id(id) {
        return Err(error);
    }
    let mut tx = db.begin();
    let blog = match get_blog(id, &tx) {
        Ok(blog) => blog,
        Err(error) => { return Err(ApiError::DataError(error)); },
    };
    if let Err(error) = authorize(user_id, blog.user_id) {
        return Err(error);
    }
    let blog = apply_patch(
        blog,
        updated_blog_with_tags.url,
        updated_blog_with_tags.title,
        updated_blog_with_tags.preview,
        updated_blog_with_tags.content,
    );
    let updated = update_blog(blog, now, &mut tx);
    finish_update(updated, updated_blog_with_tags.tags, id, tx, db)
}

/// Overwrites the blog `id` on behalf of the user `user_id`, with both of its
/// times as given, and replaces its tags.
pub fn force_update_blog_handler(
    user_id: i64,
    id: i64,
    updated_blog_with_tags: ForceFullBlog,
    db: &mut Database,
) -> (r: Result<u16, ApiError>)
    requires
        old(db)@.wf(),
    ensures
        final(db)@.wf(),
        (final(db)@, failure_viewed(r)) == blog_force_patched(
            old(db)@,
            user_id,
            id,
            updated_blog_with_tags,
        ),
{
    if let Err(error) = check_id(id) {
        return Err(error);
    }
    let mut tx = db.begin();
    let mut blog = match get_blog(id, &tx) {
        Ok(blog) => blog,
        Err(error) => { return Err(ApiError::DataError(error)); },
    };
    if let Err(error) = authorize(user_id, blog.user_id) {
        return Err(error);
    }
    blog.url = updated_blog_with_tags.url;
    blog.title = updated_blog_with_tags.title;
    blog.preview = updated_blog_with_tags.preview;
    blog.content = updated_blog_with_tags.content;
    blog.create_time = match parse_time_string(updated_blog_with_tags.create_time) {
        Ok(instant) => instant,
        Err(error) => { return Err(error); },
    };
    blog.edit_time = match parse_time_string(updated_blog_with_tags.edit_time) {
        Ok(instant) => instant,
        Err(error) => { return Err(error); },
    };
    let updated = force_update_blog(blog, &mut tx);
    finish_update(updated, Some(updated_blog_with_tags.tags), id, tx, db)
}

/// Shows the blog `id` with its tags.
pub fn show_blog_handler(id: i64, db: &Database) -> (r: Result<FullBlog, ApiError>)
    requires
        db@.wf(),
    ensures
        match r {
            Ok(blog) => blog_shown(db@, id) == Ok::<FullBlogView, ApiFailure>(blog@),
            Err(error) => blog_shown(db@, id) == Err::<FullBlogView, ApiFailure>(error@),
        },
{
    if let Err(error) = check_id(id) {
        return Err(error);
    }
    match get_full_blog(id, db) {
        Ok(blog) => Ok(blog),
        Err(error) => Err(ApiError::DataError(error)),
    }
}

/// Removes the blog `id` on behalf of the user `user_id`.
pub fn delete_blog_handler(user_id: i64, id: i64, db: &mut Database) -> (r: Result<u16, ApiError>)
    requires
        old(db)@.wf(),
    ensures
        final(db)@.wf(),
        (final(db)@, failure_viewed(r)) == blog_removed(old(db)@, user_id, id),
{
    if let Err(error) = check_id(id) {
        return Err(error);
    }
    let blog_user_id = match get_user_id_with_blog_id(id, db) {
        Ok(owner) => owner,
        Err(error) => { return Err(ApiError::DataError(error)); },
    };
    if let Err(error) = authorize(user_id, blog_user_id) {
        return Err(error);
    }
    let success = match delete_blog(id, db) {
        Ok(success) => success,
        Err(error) => { return Err(ApiError::DataError(error)); },
    };
    blog_removal_answer(success)
}

/// Shows all blogs that have a tag, without their content, the newest first.
pub fn show_all_simple_blogs_handler(db: &Database) -> (r: Result<Vec<SimpleBlog>, ApiError>)
    requires
        db@.wf(),
    ensures
        r is Ok,
        newest_first(entries(r->Ok_0@)),
        entries(r->Ok_0@).to_multiset() == listed_blogs(db@).to_multiset(),
{
    match get_all_simple_blogs(db) {
        Ok(blogs) => Ok(blogs),
        Err(error) => Err(ApiError::DataError(error)),
    }
}

} // verus!
