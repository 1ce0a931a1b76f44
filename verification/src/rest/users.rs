//! Registration, login, and what a user may do with the own record.

use vstd::prelude::*;
use vstd::string::StringExecFns;

use crate::data::store::{Database, Tables};
use crate::data::time::{utc_now, Timestamp, MAX_MICROS, MICROS_PER_DAY};
use crate::data::tokens::{generate_token, insert_token, is_token_text, token_inserted, Token};
use crate::data::users::{
    bcrypt_verify,
    get_user,
    get_user_by_username,
    hash_password,
    insert_user,
    lemma_user_deleted_wf,
    password_check,
    user_deleted,
    user_found,
    user_found_by_username,
    user_inserted,
    user_updated,
    NewUser,
};
use crate::data::DataError;
use crate::rest::errors::{failure_viewed, ApiError, ApiFailure};
use crate::rest::{CREATED, NO_CONTENT};

verus! {

/// How long a token counts from the login that issued it: one day.
pub const TOKEN_LIFETIME_MICROS: i64 = MICROS_PER_DAY;

/// What the interface shows of a user: never the hash of the password.
#[derive(Debug)]
pub struct User {
    pub id: i64,
    pub username: String,
}

impl User {
    /// The public part of a row of the table of users.
    pub fn from_data_user(user: crate::data::users::User) -> (r: Self)
        ensures
            r == public_user(user),
    {
        User { id: user.id, username: user.username }
    }
}

/// The public part of a row of the table of users.
pub open spec fn public_user(user: crate::data::users::User) -> User {
    User { id: user.id, username: user.username }
}

/// What writing a user under a name that was found free does, given the hash
/// that was made of the password: the tables afterwards, and the new user or
/// the refusal of the store.
pub open spec fn user_written(t: Tables, username: String, hash: String) -> (
    Tables,
    Result<(u16, User), ApiFailure>,
) {
    match user_inserted(t, username, hash).1 {
        Ok(user) => (user_inserted(t, username, hash).0, Ok((CREATED, public_user(user)))),
        Err(error) => (user_inserted(t, username, hash).0, Err(ApiFailure::DataError(error))),
    }
}

/// Whether a registration may end with the tables `post` and the answer `r`.
///
/// A name that is taken is refused before the password is touched. Under a free
/// name the password is hashed as it came: either the hasher fails and nothing
/// is written, or the user is written with a hash that accepts the password.
pub open spec fn registers(
    pre: Tables,
    new_user: NewUser,
    post: Tables,
    r: Result<(u16, User), ApiFailure>,
) -> bool {
    match name_is_free(user_found_by_username(pre, new_user.username@)) {
        Err(failure) => post == pre && r == Err::<(u16, User), ApiFailure>(failure),
        Ok(_) => hashing_failed(pre, post, r) || registers_somehow(pre, new_user, post, r),
    }
}

/// Whether there is a hash that accepts the password of `new_user` such that
/// the tables `post` and the answer `r` are what writing the user with it gives.
pub open spec fn registers_somehow(
    pre: Tables,
    new_user: NewUser,
    post: Tables,
    r: Result<(u16, User), ApiFailure>,
) -> bool {
    exists|hash: String| registers_with(pre, new_user, hash, post, r)
}

/// Whether `hash` is a hash that accepts the password of `new_user`, and the
/// tables `post` and the answer `r` are what writing the user with it gives.
pub open spec fn registers_with(
    pre: Tables,
    new_user: NewUser,
    hash: String,
    post: Tables,
    r: Result<(u16, User), ApiFailure>,
) -> bool {
    password_check(new_user.password@, hash@) == Some(true) && (post, r) == user_written(
        pre,
        new_user.username,
        hash,
    )
}

/// Whether the tables `post` and the answer `r` are those of a request that
/// stopped because the password could not be hashed: nothing was written.
pub open spec fn hashing_failed<T>(pre: Tables, post: Tables, r: Result<T, ApiFailure>) -> bool {
    post == pre && r == Err::<T, ApiFailure>(ApiFailure::DataError(DataError::PasswordHash))
}

/// What showing a user does.
pub open spec fn user_shown(t: Tables, id: i64) -> Result<User, ApiFailure> {
    match user_found(t, id) {
        Ok(user) => Ok(public_user(user)),
        Err(error) => Err(ApiFailure::DataError(error)),
    }
}

/// The record that the authenticated user `user_id` may change under the id
/// `id`, or the refusal: only the user in person may change the record, and it
/// must be there.
pub open spec fn record_to_change(t: Tables, user_id: i64, id: i64) -> Result<
    crate::data::users::User,
    ApiFailure,
> {
    match authorized(user_id, id) {
        Err(failure) => Err(failure),
        Ok(_) => match user_found(t, id) {
            Err(error) => Err(ApiFailure::DataError(error)),
            Ok(stored) => Ok(stored),
        },
    }
}

/// What writing a new name and the hash of a new password over the record
/// `stored` does: the tables afterwards, and the status code or the refusal of
/// the store. The update names the version that `stored` was read with.
pub open spec fn user_rewritten(
    t: Tables,
    stored: crate::data::users::User,
    username: String,
    hash: String,
) -> (Tables, Result<u16, ApiFailure>) {
    let updated = crate::data::users::User { username, hashed_password: hash, ..stored };
    match user_updated(t, updated).1 {
        Ok(_) => (user_updated(t, updated).0, Ok(NO_CONTENT)),
        Err(error) => (user_updated(t, updated).0, Err(ApiFailure::DataError(error))),
    }
}

/// Whether a change of name and password may end with the tables `post` and the
/// answer `r`.
///
/// Anyone but the user in person is refused, and so is a record that is not
/// there, before the password is touched. Else the password is hashed as it
/// came: either the hasher fails and nothing is written, or the record is
/// written with a hash that accepts the password.
pub open spec fn changes_user(
    pre: Tables,
    user_id: i64,
    id: i64,
    updated_user: NewUser,
    post: Tables,
    r: Result<u16, ApiFailure>,
) -> bool {
    match record_to_change(pre, user_id, id) {
        Err(failure) => post == pre && r == Err::<u16, ApiFailure>(failure),
        Ok(stored) => hashing_failed(pre, post, r) || changes_user_somehow(
            pre,
            stored,
            updated_user,
            post,
            r,
        ),
    }
}

/// Whether there is a hash that accepts the password of `updated_user` such
/// that the tables `post` and the answer `r` are what writing it over `stored`
/// gives.
pub open spec fn changes_user_somehow(
    pre: Tables,
    stored: crate::data::users::User,
    updated_user: NewUser,
    post: Tables,
    r: Result<u16, ApiFailure>,
) -> bool {
    exists|hash: String| changes_user_with(pre, stored, updated_user, hash, post, r)
}

/// Whether `hash` is a hash that accepts the password of `updated_user`, and the
/// tables `post` and the answer `r` are what writing it over `stored` gives.
pub open spec fn changes_user_with(
    pre: Tables,
    stored: crate::data::users::User,
    updated_user: NewUser,
    hash: String,
    post: Tables,
    r: Result<u16, ApiFailure>,
) -> bool {
    password_check(updated_user.password@, hash@) == Some(true) && (post, r) == user_rewritten(
        pre,
        stored,
        updated_user.username,
        hash,
    )
}

/// What removing a user does: the tables afterwards, and the status code or the
/// refusal. Only the user in person may remove the record; a record that is not
/// there is refused in the same words.
pub open spec fn user_removed(t: Tables, user_id: i64, id: i64) -> (
    Tables,
    Result<u16, ApiFailure>,
) {
    match authorized(user_id, id) {
        Err(failure) => (t, Err(failure)),
        Ok(_) => if user_deleted(t, id).1 {
            (user_deleted(t, id).0, Ok(NO_CONTENT))
        } else {
            (t, Err(ApiFailure::Unauthorized))
        },
    }
}

/// The message for an instant that the calendar does not reach.
pub open spec fn conversion_message() -> Seq<char> {
    "datetime conversion error"@
}

/// What a login at the instant `now` does, given the text drawn for the token:
/// the tables afterwards, and the token or the refusal.
///
/// The token runs out one day after `now`. A user may hold any number of tokens
/// at a time.
pub open spec fn logged_in(t: Tables, user: NewUser, now: Timestamp, text: String) -> (
    Tables,
    Result<(u16, Token), ApiFailure>,
) {
    match user_found_by_username(t, user.username@) {
        Err(error) => (t, Err(ApiFailure::DataError(error))),
        Ok(stored) => match password_accepted(
            password_check(user.password@, stored.hashed_password@),
        ) {
            Err(failure) => (t, Err(failure)),
            Ok(_) => match expiry_granted(now) {
                Err(failure) => (t, Err(failure)),
                Ok(expiry) => match token_inserted(t, stored.id, text, expiry).1 {
                    Ok(token) => (
                        token_inserted(t, stored.id, text, expiry).0,
                        Ok((CREATED, token)),
                    ),
                    Err(error) => (
                        token_inserted(t, stored.id, text, expiry).0,
                        Err(ApiFailure::DataError(error)),
                    ),
                },
            },
        },
    }
}

/// The instant at which a token issued at `now` runs out.
pub open spec fn expiry_of(now: Timestamp) -> Timestamp {
    Timestamp::at(now@ + TOKEN_LIFETIME_MICROS)
}

/// Whether the authenticated user `user_id` may act on the record of the user
/// `id`: only on the own one.
pub open spec fn authorized(user_id: i64, id: i64) -> Result<(), ApiFailure> {
    if id == user_id {
        Ok(())
    } else {
        Err(ApiFailure::Unauthorized)
    }
}

/// Lets the authenticated user `user_id` act on what belongs to the user `id`,
/// and refuses anyone else.
pub fn authorize(user_id: i64, id: i64) -> (r: Result<(), ApiError>)
    ensures
        failure_viewed(r) == authorized(user_id, id),
{
    if id != user_id {
        return Err(ApiError::Unauthorized);
    }
    Ok(())
}

/// What the lookup of a username means for a registration under it: a user that
/// was found stands in the way, a row that was not found clears it.
pub open spec fn name_is_free(lookup: Result<crate::data::users::User, DataError>) -> Result<
    (),
    ApiFailure,
> {
    match lookup {
        Ok(user) => Err(ApiFailure::DuplicatedUsername(user.username@)),
        Err(DataError::RowNotFound) => Ok(()),
        Err(error) => Err(ApiFailure::DataError(error)),
    }
}

/// Decides from the lookup of a username whether a registration under it may go
/// on.
pub fn check_name_is_free(lookup: Result<crate::data::users::User, DataError>) -> (r: Result<
    (),
    ApiError,
>)
    ensures
        failure_viewed(r) == name_is_free(lookup),
{
    match lookup {
        Ok(user) => Err(ApiError::DuplicatedUsername(user.username)),
        Err(err) => match err {
            DataError::RowNotFound => Ok(()),
            _ => Err(ApiError::DataError(err)),
        },
    }
}

/// The answer to the removal of a user: a row that left is reported with no
/// content, and a record that was not there is refused as unauthorized.
pub fn user_removal_answer(success: bool) -> (r: Result<u16, ApiError>)
    ensures
        failure_viewed(r) == if success {
            Ok::<u16, ApiFailure>(NO_CONTENT)
        } else {
            Err::<u16, ApiFailure>(ApiFailure::Unauthorized)
        },
{
    if !success {
        return Err(ApiError::Unauthorized);
    }
    Ok(NO_CONTENT)
}

/// What the check of a password means for a login.
pub open spec fn password_accepted(checked: Option<bool>) -> Result<(), ApiFailure> {
    match checked {
        None => Err(ApiFailure::BcryptError),
        Some(false) => Err(ApiFailure::Unauthorized),
        Some(true) => Ok(()),
    }
}

/// Checks a password against the stored hash, and refuses the login where it
/// does not belong to it or the hash cannot be read.
pub fn check_password(password: &str, hashed_password: &str) -> (r: Result<(), ApiError>)
    ensures
        failure_viewed(r) == password_accepted(password_check(password@, hashed_password@)),
{
    let verified = match bcrypt_verify(password, hashed_password) {
        Ok(verified) => verified,
        Err(error) => { return Err(ApiError::BcryptError(error)); },
    };
    if verified {
        Ok(())
    } else {
        Err(ApiError::Unauthorized)
    }
}

/// The instant at which a token issued at `now` runs out, where the calendar
/// reaches that far.
pub open spec fn expiry_granted(now: Timestamp) -> Result<Timestamp, ApiFailure> {
    if now@ + TOKEN_LIFETIME_MICROS > MAX_MICROS {
        Err(ApiFailure::InternalServerError(conversion_message()))
    } else {
        Ok(expiry_of(now))
    }
}

/// The instant at which a token issued at `now` runs out: one day later.
pub fn token_expiry(now: &Timestamp) -> (r: Result<Timestamp, ApiError>)
    ensures
        failure_viewed(r) == expiry_granted(*now),
{
    match now.checked_add_micros(TOKEN_LIFETIME_MICROS) {
        Some(expiry) => Ok(expiry),
        None => Err(ApiError::InternalServerError(String::from_str("datetime conversion error"))),
    }
}

/// Writes a user under a name that was found free, with the hash that was made
/// of the password, and answers with the public part of the new row.
pub fn write_new_user(username: String, hash: String, db: &mut Database) -> (r: Result<
    (u16, User),
    ApiError,
>)
    requires
        old(db)@.wf(),
    ensures
        final(db)@.wf(),
        (final(db)@, failure_viewed(r)) == user_written(old(db)@, username, hash),
{
    match insert_user(username, hash, db) {
        Ok(user) => Ok((CREATED, User::from_data_user(user))),
        Err(error) => Err(ApiError::DataError(error)),
    }
}

/// Registers a user, unless the username is taken.
///
/// The hash of the password is salted at random, so the contract names it only
/// as some hash that accepts the password; [`write_new_user`] says what is
/// written and answered for a given hash.
pub fn create_user_handler(new_user: NewUser, db: &mut Database) -> (r: Result<
    (u16, User),
    ApiError,
>)
    requires
        old(db)@.wf(),
    ensures
        final(db)@.wf(),
        registers(old(db)@, new_user, final(db)@, failure_viewed(r)),
{
    let lookup = get_user_by_username(new_user.username.clone(), db);
    if let Err(error) = check_name_is_free(lookup) {
        return Err(error);
    }
    let hash = match hash_password(new_user.password) {
        Ok(hash) => hash,
        Err(_) => { return Err(ApiError::DataError(DataError::PasswordHash)); },
    };
    let r = write_new_user(new_user.username, hash, db);
    proof {
        assert(registers_with(old(db)@, new_user, hash, db@, failure_viewed(r)));
        assert(registers_somehow(old(db)@, new_user, db@, failure_viewed(r)));
    }
    r
}

/// Shows the user with this id.
pub fn show_user_handler(id: i64, db: &Database) -> (r: Result<User, ApiError>)
    requires
        db@.wf(),
    ensures
        failure_viewed(r) == user_shown(db@, id),
{
    match get_user(id, db) {
        Ok(user) => Ok(User::from_data_user(user)),
        Err(error) => Err(ApiError::DataError(error)),
    }
}

/// Writes a new name and the hash of a new password over the record `stored`,
/// if nobody has updated that record since it was read.
pub fn write_user_change(
    stored: crate::data::users::User,
    username: String,
    hash: String,
    db: &mut Database,
) -> (r: Result<u16, ApiError>)
    requires
        old(db)@.wf(),
    ensures
        final(db)@.wf(),
        (final(db)@, failure_viewed(r)) == user_rewritten(old(db)@, stored, username, hash),
{
    let mut old_user = stored;
    old_user.username = username;
    old_user.hashed_password = hash;
    match crate::data::users::update_user(old_user, db) {
        Ok(_) => Ok(NO_CONTENT),
        Err(error) => Err(ApiError::DataError(error)),
    }
}

/// Gives the user `id` a new name and password, on behalf of the authenticated
/// user `user_id`.
///
/// The hash of the password is salted at random, so the contract names it only
/// as some hash that accepts the password; [`write_user_change`] says what is
/// written and answered for a given hash.
pub fn update_user(user_id: i64, id: i64, updated_user: NewUser, db: &mut Database) -> (r: Result<
    u16,
    ApiError,
>)
    requires
        old(db)@.wf(),
    ensures
        final(db)@.wf(),
        changes_user(old(db)@, user_id, id, updated_user, final(db)@, failure_viewed(r)),
{
    if let Err(error) = authorize(user_id, id) {
        return Err(error);
    }
    let old_user = match get_user(id, db) {
        Ok(user) => user,
        Err(error) => { return Err(ApiError::DataError(error)); },
    };
    let hash = match hash_password(updated_user.password) {
        Ok(hash) => hash,
        Err(_) => { return Err(ApiError::DataError(DataError::PasswordHash)); },
    };
    let ghost stored = old_user;
    let r = write_user_change(old_user, updated_user.username, hash, db);
    proof {
        assert(record_to_change(old(db)@, user_id, id) == Ok::<
            crate::data::users::User,
            ApiFailure,
        >(stored));
        assert(changes_user_with(old(db)@, stored, updated_user, hash, db@, failure_viewed(r)));
        assert(changes_user_somehow(old(db)@, stored, updated_user, db@, failure_viewed(r)));
    }
    r
}

/// Removes the user `id`, on behalf of the authenticated user `user_id`.
pub fn delete_user(user_id: i64, id: i64, db: &mut Database) -> (r: Result<u16, ApiError>)
    requires
        old(db)@.wf(),
    ensures
        final(db)@.wf(),
        (final(db)@, failure_viewed(r)) == user_removed(old(db)@, user_id, id),
{
    if let Err(error) = authorize(user_id, id) {
        return Err(error);
    }
    proof {
        lemma_user_deleted_wf(old(db)@, id);
    }
    let success = match crate::data::users::delete_user(id, db) {
        Ok(success) => success,
        Err(error) => { return Err(ApiError::DataError(error)); },
    };
    user_removal_answer(success)
}

/// Logs a user in at the instant `now`, with the text drawn for the token given.
pub fn issue_token(user: NewUser, now: &Timestamp, text: String, db: &mut Database) -> (r: Result<
    (u16, Token),
    ApiError,
>)
    requires
        old(db)@.wf(),
    ensures
        final(db)@.wf(),
        (final(db)@, failure_viewed(r)) == logged_in(old(db)@, user, *now, text),
{
    let db_user = match get_user_by_username(user.username, db) {
        Ok(db_user) => db_user,
        Err(error) => { return Err(ApiError::DataError(error)); },
    };
    if let Err(error) = check_password(user.password.as_str(), db_user.hashed_password.as_str()) {
        return Err(error);
    }
    let expiry = match token_expiry(now) {
        Ok(expiry) => expiry,
        Err(error) => { return Err(error); },
    };
    match insert_token(db_user.id, text, expiry, db) {
        Ok(token) => Ok((CREATED, token)),
        Err(error) => Err(ApiError::DataError(error)),
    }
}

/// Logs a user in at the instant `now`: checks the password and issues a token
/// that counts for one day.
///
/// The text of the token is random: the contract holds for the text that was
/// drawn, which has the shape of a token.
pub fn create_user_token_handler_at(user: NewUser, now: &Timestamp, db: &mut Database) -> (r:
    Result<(u16, Token), ApiError>)
    requires
        old(db)@.wf(),
    ensures
        final(db)@.wf(),
        exists|text: String|
            is_token_text(text@) && (final(db)@, failure_viewed(r)) == logged_in(
                old(db)@,
                user,
                *now,
                text,
            ),
{
    let text = generate_token();
    issue_token(user, now, text, db)
}

/// Logs a user in by the machine's clock.
pub fn create_user_token_handler(user: NewUser, db: &mut Database) -> (r: Result<
    (u16, Token),
    ApiError,
>)
    requires
        old(db)@.wf(),
    ensures
        final(db)@.wf(),
        exists|now: Timestamp, text: String|
            is_token_text(text@) && (final(db)@, failure_viewed(r)) == logged_in(
                old(db)@,
                user,
                now,
                text,
            ),
{
    let now = utc_now();
    create_user_token_handler_at(user, &now, db)
}

} // verus!
