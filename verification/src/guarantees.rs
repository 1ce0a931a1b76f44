//! What holds of the service whatever the tables hold and whoever asks.

use vstd::prelude::*;

use crate::data::blogs::{
    blog_at,
    blog_force_updated,
    blog_found,
    blog_inserted,
    blog_position,
    blog_updated,
    force_updated_blog_row,
    full_blog_found,
    lemma_blog_position,
    lemma_blog_row_inserted_wf,
    lemma_blog_row_replaced_wf,
    new_blog_row,
    updated_blog_row,
    Blog,
    FullBlogView,
    NewBlog,
};
use crate::data::seqs::lemma_filter_keeps_all;
use crate::data::store::Tables;
use crate::data::tags::{tag_names_of, tag_rows, Tag};
use crate::data::time::{Timestamp, MAX_MICROS, MICROS_PER_DAY, MIN_MICROS};
use crate::data::tokens::{
    expired_tokens_deleted,
    lemma_token_inserted_wf,
    lemma_token_position,
    token_found,
    token_inserted,
    Token,
};
use crate::data::users::{
    lemma_user_inserted_wf,
    lemma_user_position,
    lemma_user_updated_wf,
    password_check,
    user_at,
    user_found,
    user_found_by_username,
    user_inserted,
    user_position,
    user_updated,
    username_at,
    username_of_another,
    username_position,
    NewUser,
    User,
};
use crate::data::DataError;
use crate::rest::blogs::{
    blog_created,
    blog_force_patched,
    blog_patched,
    blog_removed,
    given_or,
    patched,
    tags_replaced,
    ForceFullBlog,
    NewBlogWithTags,
    UpdatedBlogWithTags,
};
use crate::rest::errors::{status_of, ApiFailure};
use crate::rest::middlewares::{
    authenticated,
    bearer_token,
    first_space_at,
    scheme_of,
    split_at_space,
    token_verdict,
};
use crate::rest::users::{
    expiry_of,
    logged_in,
    changes_user,
    changes_user_with,
    hashing_failed,
    registers,
    registers_with,
    user_removed,
    TOKEN_LIFETIME_MICROS,
};
use crate::rest::{CONFLICT, CREATED, INTERNAL_SERVER_ERROR, NO_CONTENT, UNAUTHORIZED};

verus! {

/// An update of a user whose version is not the last one goes through exactly
/// where the table holds a row with the id and the version it names, and no
/// other user carries the new name. Then the row becomes what was handed in
/// with the version one higher, and every other row stays. Where no row has the
/// id and the version, whether the id is missing or the version stale, the
/// update is refused as not found; and whatever the refusal, nothing is written.
pub proof fn lemma_user_update_goes_through(t: Tables, updated: User)
    requires
        t.wf(),
        updated.version < i64::MAX,
    ensures
        user_updated(t, updated).1 is Ok <==> user_found(t, updated.id) is Ok && user_found(
            t,
            updated.id,
        )->Ok_0.version == updated.version && !username_of_another(
            t.users,
            user_position(t.users, updated.id)->Some_0,
            updated.username@,
        ),
        user_updated(t, updated).1 is Ok ==> user_updated(t, updated) == (
            Tables {
                users: t.users.update(
                    user_position(t.users, updated.id)->Some_0,
                    User { version: (updated.version + 1) as i64, ..updated },
                ),
                ..t
            },
            Ok::<User, DataError>(User { version: (updated.version + 1) as i64, ..updated }),
        ),
        user_updated(t, updated).1 is Err ==> user_updated(t, updated).0 == t,
        !(user_found(t, updated.id) is Ok && user_found(t, updated.id)->Ok_0.version
            == updated.version) ==> user_updated(t, updated).1 == Err::<User, DataError>(
            DataError::RowNotFound,
        ),
{
    if user_position(t.users, updated.id) is Some {
        let k = user_position(t.users, updated.id)->Some_0;
        assert(user_at(t.users, k, updated.id));
    }
}

/// An update of a blog whose version is not the last one goes through exactly
/// where the table holds a row with the id and the version it names. Then the
/// row takes the four texts that were handed in, the instant of the update as
/// its edit time and the version one higher; its owner and its creation time
/// stay, and so does every other row. Where no row has the id and the version,
/// the update is refused as not found and nothing is written.
pub proof fn lemma_blog_update_goes_through(t: Tables, updated: Blog, now: Timestamp)
    requires
        t.wf(),
        updated.version < i64::MAX,
    ensures
        blog_updated(t, updated, now).1 is Ok <==> blog_found(t, updated.id) is Ok && blog_found(
            t,
            updated.id,
        )->Ok_0.version == updated.version,
        blog_updated(t, updated, now).1 is Ok ==> blog_updated(t, updated, now) == (
            Tables {
                blogs: t.blogs.update(
                    blog_position(t.blogs, updated.id)->Some_0,
                    Blog {
                        url: updated.url,
                        title: updated.title,
                        preview: updated.preview,
                        content: updated.content,
                        edit_time: now,
                        version: (updated.version + 1) as i64,
                        ..blog_found(t, updated.id)->Ok_0
                    },
                ),
                ..t
            },
            Ok::<Blog, DataError>(
                Blog {
                    url: updated.url,
                    title: updated.title,
                    preview: updated.preview,
                    content: updated.content,
                    edit_time: now,
                    version: (updated.version + 1) as i64,
                    ..blog_found(t, updated.id)->Ok_0
                },
            ),
        ),
        blog_updated(t, updated, now).1 is Err ==> blog_updated(t, updated, now) == (
            t,
            Err::<Blog, DataError>(DataError::RowNotFound),
        ),
{
    if blog_position(t.blogs, updated.id) is Some {
        let k = blog_position(t.blogs, updated.id)->Some_0;
        assert(blog_at(t.blogs, k, updated.id));
    }
}

/// An update of a blog with given times whose version is not the last one goes
/// through exactly where the table holds a row with the id and the version it
/// names. Then the row takes the four texts and both times that were handed in
/// and the version one higher; its owner stays, and so does every other row.
/// Where no row has the id and the version, the update is refused as not found
/// and nothing is written.
pub proof fn lemma_forced_blog_update_goes_through(t: Tables, updated: Blog)
    requires
        t.wf(),
        updated.version < i64::MAX,
    ensures
        blog_force_updated(t, updated).1 is Ok <==> blog_found(t, updated.id) is Ok && blog_found(
            t,
            updated.id,
        )->Ok_0.version == updated.version,
        blog_force_updated(t, updated).1 is Ok ==> blog_force_updated(t, updated) == (
            Tables {
                blogs: t.blogs.update(
                    blog_position(t.blogs, updated.id)->Some_0,
                    Blog {
                        user_id: blog_found(t, updated.id)->Ok_0.user_id,
                        version: (updated.version + 1) as i64,
                        ..updated
                    },
                ),
                ..t
            },
            Ok::<Blog, DataError>(
                Blog {
                    user_id: blog_found(t, updated.id)->Ok_0.user_id,
                    version: (updated.version + 1) as i64,
                    ..updated
                },
            ),
        ),
        blog_force_updated(t, updated).1 is Err ==> blog_force_updated(t, updated) == (
            t,
            Err::<Blog, DataError>(DataError::RowNotFound),
        ),
{
    if blog_position(t.blogs, updated.id) is Some {
        let k = blog_position(t.blogs, updated.id)->Some_0;
        assert(blog_at(t.blogs, k, updated.id));
    }
}

/// An update of a user that goes through raises the version by exactly one, and
/// from then on an update that still names the version of before is refused as
/// not found, and writes nothing.
pub proof fn lemma_user_version_moves_on(t: Tables, first: User, second: User)
    requires
        t.wf(),
        user_updated(t, first).1 is Ok,
        second.id == first.id,
        second.version == first.version,
    ensures
        user_found(t, first.id) is Ok,
        user_found(t, first.id)->Ok_0.version == first.version,
        user_updated(t, first).1->Ok_0.version == first.version + 1,
        user_found(user_updated(t, first).0, first.id) == user_updated(t, first).1,
        user_updated(user_updated(t, first).0, second) == (
            user_updated(t, first).0,
            Err::<User, DataError>(DataError::RowNotFound),
        ),
{
    let after = user_updated(t, first).0;
    let k = user_position(t.users, first.id)->Some_0;
    assert(user_at(t.users, k, first.id));
    lemma_user_updated_wf(t, first);
    lemma_user_position(after, k);
}

/// An update of a blog that goes through raises the version by exactly one and
/// stamps the row as edited at the instant of the update, and from then on an
/// update that still names the version of before is refused as not found, and
/// writes nothing.
pub proof fn lemma_blog_version_moves_on(
    t: Tables,
    first: Blog,
    now: Timestamp,
    second: Blog,
    later: Timestamp,
)
    requires
        t.wf(),
        blog_updated(t, first, now).1 is Ok,
        second.id == first.id,
        second.version == first.version,
    ensures
        blog_found(t, first.id) is Ok,
        blog_found(t, first.id)->Ok_0.version == first.version,
        blog_updated(t, first, now).1->Ok_0.version == first.version + 1,
        blog_updated(t, first, now).1->Ok_0.edit_time == now,
        blog_found(blog_updated(t, first, now).0, first.id) == blog_updated(t, first, now).1,
        blog_updated(blog_updated(t, first, now).0, second, later) == (
            blog_updated(t, first, now).0,
            Err::<Blog, DataError>(DataError::RowNotFound),
        ),
        blog_force_updated(blog_updated(t, first, now).0, second) == (
            blog_updated(t, first, now).0,
            Err::<Blog, DataError>(DataError::RowNotFound),
        ),
{
    let after = blog_updated(t, first, now).0;
    let k = blog_position(t.blogs, first.id)->Some_0;
    assert(blog_at(t.blogs, k, first.id));
    lemma_blog_row_replaced_wf(t, first, updated_blog_row(t.blogs[k], first, now));
    lemma_blog_position(after, k);
}

/// An update of a blog with given times that goes through raises the version by
/// exactly one, and from then on an update that still names the version of
/// before is refused as not found, and writes nothing.
pub proof fn lemma_blog_version_moves_on_when_forced(
    t: Tables,
    first: Blog,
    second: Blog,
    later: Timestamp,
)
    requires
        t.wf(),
        blog_force_updated(t, first).1 is Ok,
        second.id == first.id,
        second.version == first.version,
    ensures
        blog_found(t, first.id) is Ok,
        blog_found(t, first.id)->Ok_0.version == first.version,
        blog_force_updated(t, first).1->Ok_0.version == first.version + 1,
        blog_found(blog_force_updated(t, first).0, first.id) == blog_force_updated(t, first).1,
        blog_updated(blog_force_updated(t, first).0, second, later) == (
            blog_force_updated(t, first).0,
            Err::<Blog, DataError>(DataError::RowNotFound),
        ),
        blog_force_updated(blog_force_updated(t, first).0, second) == (
            blog_force_updated(t, first).0,
            Err::<Blog, DataError>(DataError::RowNotFound),
        ),
{
    let after = blog_force_updated(t, first).0;
    let k = blog_position(t.blogs, first.id)->Some_0;
    assert(blog_at(t.blogs, k, first.id));
    lemma_blog_row_replaced_wf(t, first, force_updated_blog_row(t.blogs[k], first));
    lemma_blog_position(after, k);
}

/// A username that is in the table cannot be registered again: however the
/// request ends, the tables stay as they are, no id is used up, and the answer
/// is the refusal that names the username, a conflict and not a failure of the
/// service.
pub proof fn lemma_taken_username_is_refused(
    t: Tables,
    new_user: NewUser,
    post: Tables,
    r: Result<(u16, crate::rest::users::User), ApiFailure>,
)
    requires
        t.wf(),
        user_found_by_username(t, new_user.username@) is Ok,
        registers(t, new_user, post, r),
    ensures
        post == t,
        r == Err::<(u16, crate::rest::users::User), ApiFailure>(
            ApiFailure::DuplicatedUsername(new_user.username@),
        ),
        status_of(ApiFailure::DuplicatedUsername(new_user.username@)) == CONFLICT,
        CONFLICT != INTERNAL_SERVER_ERROR,
{
    let k = username_position(t.users, new_user.username@)->Some_0;
    assert(username_at(t.users, k, new_user.username@));
}

/// Under a free name, and while the counter has an id left, a registration
/// ends in one of two ways: the password could not be hashed and nothing was
/// written, or the answer reports the new user, and the table has one row
/// more, which carries the name, the next id, the version 0 and a hash that
/// accepts the password.
pub proof fn lemma_registration_writes_one_row(
    t: Tables,
    new_user: NewUser,
    post: Tables,
    r: Result<(u16, crate::rest::users::User), ApiFailure>,
)
    requires
        t.wf(),
        user_found_by_username(t, new_user.username@) is Err,
        t.next_user_id < i64::MAX,
        registers(t, new_user, post, r),
        !hashing_failed(t, post, r),
    ensures
        r is Ok,
        r->Ok_0.0 == CREATED,
        r->Ok_0.1.id == t.next_user_id,
        r->Ok_0.1.username == new_user.username,
        post.users.len() == t.users.len() + 1,
        post.users.drop_last() == t.users,
        post.users.last().id == t.next_user_id,
        post.users.last().username == new_user.username,
        post.users.last().version == 0,
        password_check(new_user.password@, post.users.last().hashed_password@) == Some(true),
        post == (Tables { users: post.users, next_user_id: t.next_user_id + 1, ..t }),
        post.wf(),
{
    let hash = choose|hash: String| registers_with(t, new_user, hash, post, r);
    lemma_user_inserted_wf(t, new_user.username, hash);
    assert(post.users.drop_last() =~= t.users);
}

/// Once a registration has gone through, a second one under the same username
/// is refused, whatever password it brings, and writes nothing.
pub proof fn lemma_username_registers_once(
    t: Tables,
    first: NewUser,
    between: Tables,
    first_answer: Result<(u16, crate::rest::users::User), ApiFailure>,
    second: NewUser,
    post: Tables,
    second_answer: Result<(u16, crate::rest::users::User), ApiFailure>,
)
    requires
        t.wf(),
        registers(t, first, between, first_answer),
        first_answer is Ok,
        second.username@ == first.username@,
        registers(between, second, post, second_answer),
    ensures
        post == between,
        second_answer == Err::<(u16, crate::rest::users::User), ApiFailure>(
            ApiFailure::DuplicatedUsername(first.username@),
        ),
{
    let hash = choose|hash: String| registers_with(t, first, hash, between, first_answer);
    lemma_user_inserted_wf(t, first.username, hash);
    let k = t.users.len() as int;
    assert(between.users[k].username@ == first.username@);
    lemma_user_position(between, k);
    lemma_taken_username_is_refused(between, second, post, second_answer);
}

/// The insert itself holds usernames apart too: writing a row under a username
/// that is in the table is refused and leaves the rows as they are.
pub proof fn lemma_insert_keeps_usernames_apart(t: Tables, username: String, hash: String)
    requires
        t.wf(),
        t.next_user_id < i64::MAX,
        user_found_by_username(t, username@) is Ok,
    ensures
        user_inserted(t, username, hash).1 == Err::<User, DataError>(DataError::UniqueViolation),
        user_inserted(t, username, hash).0.same_rows(t),
{
}

/// The header that presents a token.
pub open spec fn bearer_header(text: Seq<char>) -> Seq<char> {
    "Bearer "@ + text
}

/// A header made of `Bearer`, a space and a text presents that text.
pub proof fn lemma_bearer_header(text: Seq<char>)
    ensures
        bearer_token(Some(bearer_header(text))) == Ok::<Seq<char>, ApiFailure>(text),
{
    reveal_strlit("Bearer ");
    reveal_strlit("Bearer");
    let header = bearer_header(text);
    assert(first_space_at(header, 6));
    let c = choose|c: int| first_space_at(header, c);
    assert(c == 6) by {
        if c < 6 {
            assert(header[c] != ' ');
        }
    }
    assert(header.take(6) =~= "Bearer"@);
    assert(header.skip(7) =~= text);
}

/// A token that was issued is found again by its text, counts at every instant
/// before its expiry time, and authenticates its user then; from its expiry
/// time on it is expired, and authentication with it is refused as expired.
pub proof fn lemma_token_round_trip(
    t: Tables,
    user_id: i64,
    text: String,
    expiry: Timestamp,
    now: Timestamp,
)
    requires
        t.wf(),
        token_inserted(t, user_id, text, expiry).1 is Ok,
    ensures
        token_found(token_inserted(t, user_id, text, expiry).0, text@) == Ok::<Token, DataError>(
            Token { user_id, token: text, expired_time: expiry },
        ),
        now@ < expiry@ ==> authenticated(
            token_inserted(t, user_id, text, expiry).0,
            Some(bearer_header(text@)),
            now,
        ) == (token_inserted(t, user_id, text, expiry).0, Ok::<i64, ApiFailure>(user_id)),
        now@ >= expiry@ ==> authenticated(
            token_inserted(t, user_id, text, expiry).0,
            Some(bearer_header(text@)),
            now,
        ).1 == Err::<i64, ApiFailure>(ApiFailure::ExpiredToken),
        status_of(ApiFailure::ExpiredToken) == UNAUTHORIZED,
{
    let after = token_inserted(t, user_id, text, expiry).0;
    let k = t.tokens.len() as int;
    assert(after.tokens[k].token@ == text@);
    lemma_token_inserted_wf(t, user_id, text, expiry);
    lemma_token_position(after, k);
    lemma_bearer_header(text@);
}

/// The token of a login runs out exactly one day after the login, is found
/// again by its text, and counts at the instant of the login: authentication
/// with it, straight away, names the user who logged in.
pub proof fn lemma_login_token_counts(t: Tables, user: NewUser, now: Timestamp, text: String)
    requires
        t.wf(),
        MIN_MICROS <= now@ <= MAX_MICROS,
        logged_in(t, user, now, text).1 is Ok,
    ensures
        logged_in(t, user, now, text).1->Ok_0.0 == CREATED,
        logged_in(t, user, now, text).1->Ok_0.1.token == text,
        logged_in(t, user, now, text).1->Ok_0.1.expired_time@ == now@ + MICROS_PER_DAY,
        user_found_by_username(t, user.username@) is Ok,
        logged_in(t, user, now, text).1->Ok_0.1.user_id == user_found_by_username(
            t,
            user.username@,
        )->Ok_0.id,
        token_found(logged_in(t, user, now, text).0, text@) == Ok::<Token, DataError>(
            logged_in(t, user, now, text).1->Ok_0.1,
        ),
        token_verdict(logged_in(t, user, now, text).1->Ok_0.1, now) == Ok::<i64, ApiFailure>(
            logged_in(t, user, now, text).1->Ok_0.1.user_id,
        ),
        authenticated(logged_in(t, user, now, text).0, Some(bearer_header(text@)), now) == (
            logged_in(t, user, now, text).0,
            Ok::<i64, ApiFailure>(logged_in(t, user, now, text).1->Ok_0.1.user_id),
        ),
{
    let stored = user_found_by_username(t, user.username@)->Ok_0;
    Timestamp::lemma_at(now@ + TOKEN_LIFETIME_MICROS);
    lemma_token_round_trip(t, stored.id, text, expiry_of(now), now);
}

/// A login with the right password, at an instant from which the calendar
/// reaches one day on, and with a text that is not in the table, goes through:
/// it answers with the token of that text for that user, which runs out one day
/// later, and the table has that one row more. Earlier tokens stay.
pub proof fn lemma_login_writes_one_token(t: Tables, user: NewUser, now: Timestamp, text: String)
    requires
        t.wf(),
        MIN_MICROS <= now@,
        now@ + MICROS_PER_DAY <= MAX_MICROS,
        user_found_by_username(t, user.username@) is Ok,
        password_check(
            user.password@,
            user_found_by_username(t, user.username@)->Ok_0.hashed_password@,
        ) == Some(true),
        token_found(t, text@) is Err,
    ensures
        logged_in(t, user, now, text) == (
            Tables {
                tokens: t.tokens.push(
                    Token {
                        user_id: user_found_by_username(t, user.username@)->Ok_0.id,
                        token: text,
                        expired_time: expiry_of(now),
                    },
                ),
                ..t
            },
            Ok::<(u16, Token), ApiFailure>(
                (
                    CREATED,
                    Token {
                        user_id: user_found_by_username(t, user.username@)->Ok_0.id,
                        token: text,
                        expired_time: expiry_of(now),
                    },
                ),
            ),
        ),
        expiry_of(now)@ == now@ + MICROS_PER_DAY,
{
    let k = username_position(t.users, user.username@)->Some_0;
    assert(username_at(t.users, k, user.username@));
    lemma_user_position(t, k);
    Timestamp::lemma_at(now@ + TOKEN_LIFETIME_MICROS);
}

/// A header under another scheme than `Bearer` is refused as unauthorized,
/// whether or not anything follows the scheme, and a request without the header
/// as having none; neither touches the tables.
pub proof fn lemma_other_scheme_is_refused(t: Tables, text: Seq<char>, now: Timestamp)
    ensures
        scheme_of(text) != "Bearer"@ ==> authenticated(t, Some(text), now) == (
            t,
            Err::<i64, ApiFailure>(ApiFailure::Unauthorized),
        ),
        split_at_space(text) is None && text != "Bearer"@ ==> bearer_token(Some(text)) == Err::<
            Seq<char>,
            ApiFailure,
        >(ApiFailure::Unauthorized),
        authenticated(t, None, now) == (
            t,
            Err::<i64, ApiFailure>(ApiFailure::NoAuthorizationHeader),
        ),
        status_of(ApiFailure::Unauthorized) == UNAUTHORIZED,
{
}

/// A new user owns nothing: the id was never given out before, so no blog and
/// no token that a removed user left behind falls to the newcomer.
pub proof fn lemma_new_user_owns_nothing(t: Tables, username: String, hash: String)
    requires
        t.wf(),
        user_inserted(t, username, hash).1 is Ok,
    ensures
        user_inserted(t, username, hash).1->Ok_0.id == t.next_user_id,
        forall|i: int|
            0 <= i < t.blogs.len() ==> (#[trigger] t.blogs[i]).user_id != user_inserted(
                t,
                username,
                hash,
            ).1->Ok_0.id,
        forall|i: int|
            0 <= i < t.tokens.len() ==> (#[trigger] t.tokens[i]).user_id != user_inserted(
                t,
                username,
                hash,
            ).1->Ok_0.id,
        user_inserted(t, username, hash).0.blogs == t.blogs,
        user_inserted(t, username, hash).0.tokens == t.tokens,
{
}

/// The sweep at the instant `now` takes exactly the tokens whose time lies
/// before `now`: none of them is left, and every other token is.
pub proof fn lemma_sweep_takes_what_ran_out(t: Tables, now: Timestamp)
    ensures
        forall|i: int|
            0 <= i < expired_tokens_deleted(t, now).0.tokens.len() ==> (
            #[trigger] expired_tokens_deleted(t, now).0.tokens[i]).expired_time@ >= now@,
        forall|i: int|
            0 <= i < t.tokens.len() && t.tokens[i].expired_time@ >= now@
                ==> expired_tokens_deleted(t, now).0.tokens.contains(#[trigger] t.tokens[i]),
        forall|i: int|
            0 <= i < expired_tokens_deleted(t, now).0.tokens.len() ==> t.tokens.contains(
                #[trigger] expired_tokens_deleted(t, now).0.tokens[i],
            ),
        expired_tokens_deleted(t, now).0 == (Tables {
            tokens: expired_tokens_deleted(t, now).0.tokens,
            ..t
        }),
{
    let keep = |row: Token| !(now@ > row.expired_time@);
    let kept = t.tokens.filter(keep);
    assert forall|i: int| 0 <= i < kept.len() implies (#[trigger] kept[i]).expired_time@ >= now@
        && t.tokens.contains(kept[i]) by {
        t.tokens.lemma_filter_pred(keep, i);
        assert(kept.contains(kept[i]));
        t.tokens.lemma_filter_contains_rev(keep, kept[i]);
    }
    assert forall|i: int|
        0 <= i < t.tokens.len() && t.tokens[i].expired_time@ >= now@ implies kept.contains(
        #[trigger] t.tokens[i],
    ) by {
        t.tokens.lemma_filter_contains(keep, i);
    }
}

/// A blog that was created is shown as it was answered: the joined read by its
/// id gives the blog with exactly the tags it was created with, whatever rows a
/// removed blog left behind.
pub proof fn lemma_created_blog_is_shown(
    t: Tables,
    user_id: i64,
    input: NewBlogWithTags,
    now: Timestamp,
)
    requires
        t.wf(),
        blog_created(t, user_id, input, now).1 is Ok,
    ensures
        blog_created(t, user_id, input, now).1->Ok_0.0 == CREATED,
        blog_created(t, user_id, input, now).1->Ok_0.1.id == t.next_blog_id,
        blog_created(t, user_id, input, now).1->Ok_0.1.user_id == user_id,
        blog_created(t, user_id, input, now).1->Ok_0.1.create_time == now,
        blog_created(t, user_id, input, now).1->Ok_0.1.edit_time == now,
        blog_created(t, user_id, input, now).1->Ok_0.1.tags == input.tags@,
        full_blog_found(blog_created(t, user_id, input, now).0, t.next_blog_id as i64) == Ok::<
            FullBlogView,
            DataError,
        >(blog_created(t, user_id, input, now).1->Ok_0.1),
        blog_found(blog_created(t, user_id, input, now).0, t.next_blog_id as i64) is Ok,
        blog_found(blog_created(t, user_id, input, now).0, t.next_blog_id as i64)->Ok_0.version
            == 0,
{
    let id = t.next_blog_id as i64;
    let new_blog = NewBlog {
        user_id,
        url: input.url,
        title: input.title,
        preview: input.preview,
        content: input.content,
    };
    let with_blog = blog_inserted(t, new_blog, now).0;
    let after = blog_created(t, user_id, input, now).0;
    lemma_blog_row_inserted_wf(t, new_blog_row(t, new_blog, now));
    lemma_blog_position(with_blog, t.blogs.len() as int);
    let of_blog = |row: Tag| row.blog_id == id;
    let name_of = |row: Tag| row.name;
    let added = tag_rows(input.tags@, id);
    Seq::filter_distributes_over_add(t.tags, added, of_blog);
    assert(t.tags.filter(of_blog) =~= Seq::<Tag>::empty()) by {
        if t.tags.filter(of_blog).len() > 0 {
            let row = t.tags.filter(of_blog)[0];
            t.tags.lemma_filter_pred(of_blog, 0);
            assert(t.tags.filter(of_blog).contains(row));
            t.tags.lemma_filter_contains_rev(of_blog, row);
            let i = choose|i: int| 0 <= i < t.tags.len() && t.tags[i] == row;
            assert(t.tags[i].blog_id < t.next_blog_id);
        }
    }
    lemma_filter_keeps_all(added, of_blog);
    assert((t.tags + added).filter(of_blog).map_values(name_of) =~= input.tags@);
}

/// Creating a blog with its tags writes both or neither: where the request is
/// refused the rows are those of before, and the id that the counter had given
/// to the blog belongs to no row.
pub proof fn lemma_creation_is_atomic(
    t: Tables,
    user_id: i64,
    input: NewBlogWithTags,
    now: Timestamp,
)
    requires
        t.wf(),
        blog_created(t, user_id, input, now).1 is Err,
    ensures
        blog_created(t, user_id, input, now).0.same_rows(t),
        blog_found(blog_created(t, user_id, input, now).0, t.next_blog_id as i64) == Err::<
            Blog,
            DataError,
        >(DataError::RowNotFound),
{
    let id = t.next_blog_id as i64;
    assert forall|i: int| !blog_at(t.blogs, i, id) by {
        if 0 <= i < t.blogs.len() {
            assert(t.blogs[i].id < t.next_blog_id);
        }
    }
}

/// The case in point: the blog went in and its tags did not. The request is
/// refused, and the blog is not to be found.
pub proof fn lemma_blog_without_tags_is_withdrawn(
    t: Tables,
    user_id: i64,
    input: NewBlogWithTags,
    now: Timestamp,
)
    requires
        t.wf(),
        blog_inserted(
            t,
            NewBlog {
                user_id,
                url: input.url,
                title: input.title,
                preview: input.preview,
                content: input.content,
            },
            now,
        ).1 is Ok,
        input.tags@.len() == 0,
    ensures
        blog_created(t, user_id, input, now).1 == Err::<
            (u16, crate::data::blogs::FullBlogView),
            ApiFailure,
        >(ApiFailure::DataError(DataError::InvalidStatement)),
        blog_created(t, user_id, input, now).0.same_rows(t),
        blog_found(blog_created(t, user_id, input, now).0, t.next_blog_id as i64) == Err::<
            Blog,
            DataError,
        >(DataError::RowNotFound),
{
    lemma_creation_is_atomic(t, user_id, input, now);
}

/// Changing a blog writes the blog and its tags or nothing: where the request
/// is refused the tables are those of before.
pub proof fn lemma_change_is_atomic(
    t: Tables,
    user_id: i64,
    id: i64,
    patch: UpdatedBlogWithTags,
    input: ForceFullBlog,
    now: Timestamp,
)
    ensures
        blog_patched(t, user_id, id, patch, now).1 is Err ==> blog_patched(
            t,
            user_id,
            id,
            patch,
            now,
        ).0 == t,
        blog_force_patched(t, user_id, id, input).1 is Err ==> blog_force_patched(
            t,
            user_id,
            id,
            input,
        ).0 == t,
{
}

/// A change of a blog that goes through raises its version by exactly one,
/// replaces each part that the patch gives and keeps each part that it leaves
/// out, and stamps the blog as edited at the instant of the change. Where the
/// patch gives no tags, the tags stay as they are.
pub proof fn lemma_patch_moves_version(
    t: Tables,
    user_id: i64,
    id: i64,
    patch: UpdatedBlogWithTags,
    now: Timestamp,
)
    requires
        t.wf(),
        blog_patched(t, user_id, id, patch, now).1 is Ok,
    ensures
        blog_found(t, id) is Ok,
        blog_found(t, id)->Ok_0.user_id == user_id,
        blog_found(blog_patched(t, user_id, id, patch, now).0, id) == Ok::<Blog, DataError>(
            Blog {
                url: given_or(patch.url, blog_found(t, id)->Ok_0.url),
                title: given_or(patch.title, blog_found(t, id)->Ok_0.title),
                preview: given_or(patch.preview, blog_found(t, id)->Ok_0.preview),
                content: given_or(patch.content, blog_found(t, id)->Ok_0.content),
                edit_time: now,
                version: (blog_found(t, id)->Ok_0.version + 1) as i64,
                ..blog_found(t, id)->Ok_0
            },
        ),
        blog_found(t, id)->Ok_0.version < i64::MAX,
        patch.tags is None ==> blog_patched(t, user_id, id, patch, now).0.tags == t.tags,
        patch.tags matches Some(names) ==> tag_names_of(
            blog_patched(t, user_id, id, patch, now).0.tags,
            id,
        ) == names@,
{
    let stored = blog_found(t, id)->Ok_0;
    let k = blog_position(t.blogs, id)->Some_0;
    assert(blog_at(t.blogs, k, id));
    let wanted = patched(stored, patch);
    let after = blog_updated(t, wanted, now).0;
    lemma_blog_row_replaced_wf(t, wanted, updated_blog_row(t.blogs[k], wanted, now));
    lemma_blog_position(after, k);
    if let Some(names) = patch.tags {
        lemma_replaced_tags_are_the_new_ones(after, names@, id);
    }
}

/// After the tags of a blog were replaced, its tags are the new batch, in the
/// order given.
pub proof fn lemma_replaced_tags_are_the_new_ones(t: Tables, names: Seq<String>, blog_id: i64)
    requires
        tags_replaced(t, names, blog_id).1 is Ok,
    ensures
        tag_names_of(tags_replaced(t, names, blog_id).0.tags, blog_id) == names,
{
    let of_blog = |row: Tag| row.blog_id == blog_id;
    let others = |row: Tag| row.blog_id != blog_id;
    let name_of = |row: Tag| row.name;
    let kept = t.tags.filter(others);
    let added = tag_rows(names, blog_id);
    Seq::filter_distributes_over_add(kept, added, of_blog);
    assert(kept.filter(of_blog) =~= Seq::<Tag>::empty()) by {
        if kept.filter(of_blog).len() > 0 {
            let row = kept.filter(of_blog)[0];
            kept.lemma_filter_pred(of_blog, 0);
            assert(kept.filter(of_blog).contains(row));
            kept.lemma_filter_contains_rev(of_blog, row);
            let i = choose|i: int| 0 <= i < kept.len() && kept[i] == row;
            t.tags.lemma_filter_pred(others, i);
        }
    }
    assert(added.filter(of_blog) =~= added) by {
        lemma_filter_keeps_all(added, of_blog);
    }
    assert((kept + added).filter(of_blog).map_values(name_of) =~= names);
}

/// The record of a user can be changed and removed by that user alone: a
/// request on behalf of anyone else is refused as unauthorized, however it ends,
/// and writes nothing.
pub proof fn lemma_only_the_user_writes(
    t: Tables,
    user_id: i64,
    id: i64,
    updated_user: NewUser,
    post: Tables,
    r: Result<u16, ApiFailure>,
)
    requires
        id != user_id,
        changes_user(t, user_id, id, updated_user, post, r),
    ensures
        post == t,
        r == Err::<u16, ApiFailure>(ApiFailure::Unauthorized),
        user_removed(t, user_id, id) == (t, Err::<u16, ApiFailure>(ApiFailure::Unauthorized)),
        status_of(ApiFailure::Unauthorized) == UNAUTHORIZED,
{
}

/// A change of the own record that goes through raises its version by exactly
/// one and leaves every other record as it is; the new hash accepts the new
/// password.
pub proof fn lemma_user_change_moves_version(
    t: Tables,
    id: i64,
    updated_user: NewUser,
    post: Tables,
    r: Result<u16, ApiFailure>,
)
    requires
        t.wf(),
        changes_user(t, id, id, updated_user, post, r),
        r is Ok,
    ensures
        r == Ok::<u16, ApiFailure>(NO_CONTENT),
        user_found(t, id) is Ok,
        user_found(post, id) is Ok,
        user_found(post, id)->Ok_0.version == user_found(t, id)->Ok_0.version + 1,
        user_found(post, id)->Ok_0.username == updated_user.username,
        password_check(updated_user.password@, user_found(post, id)->Ok_0.hashed_password@)
            == Some(true),
        post.users == t.users.update(
            user_position(t.users, id)->Some_0,
            user_found(post, id)->Ok_0,
        ),
        post == (Tables { users: post.users, ..t }),
{
    let stored = user_found(t, id)->Ok_0;
    let hash = choose|hash: String| changes_user_with(t, stored, updated_user, hash, post, r);
    let updated = User { username: updated_user.username, hashed_password: hash, ..stored };
    let k = user_position(t.users, id)->Some_0;
    assert(user_at(t.users, k, id));
    lemma_user_updated_wf(t, updated);
    lemma_user_position(post, k);
}

/// A blog can be changed and removed by its owner alone: a request on behalf of
/// anyone else is refused as unauthorized, whatever it asks, and writes nothing.
pub proof fn lemma_only_the_owner_writes(
    t: Tables,
    user_id: i64,
    id: i64,
    patch: UpdatedBlogWithTags,
    input: ForceFullBlog,
    now: Timestamp,
)
    requires
        t.wf(),
        blog_found(t, id) is Ok,
        blog_found(t, id)->Ok_0.user_id != user_id,
    ensures
        blog_patched(t, user_id, id, patch, now) == (
            t,
            Err::<u16, ApiFailure>(ApiFailure::Unauthorized),
        ),
        blog_force_patched(t, user_id, id, input) == (
            t,
            Err::<u16, ApiFailure>(ApiFailure::Unauthorized),
        ),
        blog_removed(t, user_id, id) == (t, Err::<u16, ApiFailure>(ApiFailure::Unauthorized)),
        status_of(ApiFailure::Unauthorized) == UNAUTHORIZED,
{
    let k = blog_position(t.blogs, id)->Some_0;
    assert(blog_at(t.blogs, k, id));
    assert(1 <= t.blogs[k].id);
}

} // verus!
