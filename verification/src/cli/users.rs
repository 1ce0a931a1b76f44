//! Creating a user from the command line.

use vstd::prelude::*;

use crate::data::store::{Database, Tables};
use crate::data::users::{
    get_user_by_username,
    hash_password,
    insert_user,
    password_check,
    user_found_by_username,
    user_inserted,
    User,
};
use crate::data::DataError;

verus! {

/// How an attempt to create a user ended. The caller reports it: the first on
/// the standard output, the others as errors.
#[derive(Debug)]
pub enum Outcome {
    /// The user was created, with this name and id.
    Created { username: String, id: i64 },
    /// A user of this name is there already.
    AlreadyExists { username: String },
    /// The store could not say whether the name is taken.
    LookupFailed(DataError),
    /// The store refused the new row.
    InsertFailed(DataError),
}

/// What the lookup of the name means for the attempt: `None` where the name is
/// free, else how the attempt ends at once.
pub open spec fn stopped_by(lookup: Result<User, DataError>) -> Option<Outcome> {
    match lookup {
        Ok(user) => Some(Outcome::AlreadyExists { username: user.username }),
        Err(DataError::RowNotFound) => None,
        Err(error) => Some(Outcome::LookupFailed(error)),
    }
}

/// What writing a user under a name that was found free does, given the hash
/// that was made of the password: the tables afterwards, and how it ended.
pub open spec fn user_entered(t: Tables, username: String, hash: String) -> (Tables, Outcome) {
    match user_inserted(t, username, hash).1 {
        Ok(user) => (
            user_inserted(t, username, hash).0,
            Outcome::Created { username: user.username, id: user.id },
        ),
        Err(error) => (user_inserted(t, username, hash).0, Outcome::InsertFailed(error)),
    }
}

/// Whether `hash` is a hash that accepts `password`, and the tables `post` and
/// the outcome `r` are what writing the user with it gives.
pub open spec fn creates_with(
    pre: Tables,
    username: String,
    password: String,
    hash: String,
    post: Tables,
    r: Outcome,
) -> bool {
    password_check(password@, hash@) == Some(true) && (post, r) == user_entered(
        pre,
        username,
        hash,
    )
}

/// Whether there is a hash that accepts `password` such that the tables `post`
/// and the outcome `r` are what writing the user with it gives.
pub open spec fn creates_somehow(
    pre: Tables,
    username: String,
    password: String,
    post: Tables,
    r: Outcome,
) -> bool {
    exists|hash: String| creates_with(pre, username, password, hash, post, r)
}

/// Whether an attempt to create a user may end with the tables `post` and the
/// outcome `r`.
///
/// A name that is taken, and a lookup that failed, end the attempt before the
/// password is touched. Under a free name the password is hashed as it came:
/// either the hasher fails and nothing is written, or the user is written with
/// a hash that accepts the password.
pub open spec fn creates(
    pre: Tables,
    username: String,
    password: String,
    post: Tables,
    r: Outcome,
) -> bool {
    match stopped_by(user_found_by_username(pre, username@)) {
        Some(outcome) => post == pre && r == outcome,
        None => (post == pre && r == Outcome::InsertFailed(DataError::PasswordHash))
            || creates_somehow(pre, username, password, post, r),
    }
}

/// Decides from the lookup of the name whether the attempt ends at once, and
/// how.
pub fn check_lookup(lookup: Result<User, DataError>) -> (r: Option<Outcome>)
    ensures
        r == stopped_by(lookup),
{
    match lookup {
        Ok(user) => Some(Outcome::AlreadyExists { username: user.username }),
        Err(err) => match err {
            DataError::RowNotFound => None,
            _ => Some(Outcome::LookupFailed(err)),
        },
    }
}

/// Writes a user under a name that was found free, with the hash that was made
/// of the password, and reports how it ended.
pub fn enter_user(username: String, hash: String, db: &mut Database) -> (r: Outcome)
    requires
        old(db)@.wf(),
    ensures
        final(db)@.wf(),
        (final(db)@, r) == user_entered(old(db)@, username, hash),
{
    match insert_user(username, hash, db) {
        Ok(user) => Outcome::Created { username: user.username, id: user.id },
        Err(error) => Outcome::InsertFailed(error),
    }
}

/// Creates a user, unless the name is taken.
///
/// The hash of the password is salted at random, so the contract names it only
/// as some hash that accepts the password; [`enter_user`] says what is written
/// and reported for a given hash.
pub fn create_user(username: String, password: String, db: &mut Database) -> (r: Outcome)
    requires
        old(db)@.wf(),
    ensures
        final(db)@.wf(),
        creates(old(db)@, username, password, final(db)@, r),
{
    let lookup = get_user_by_username(username.clone(), db);
    if let Some(outcome) = check_lookup(lookup) {
        return outcome;
    }
    let hash = match hash_password(password) {
        Ok(hash) => hash,
        Err(_) => { return Outcome::InsertFailed(DataError::PasswordHash); },
    };
    let r = enter_user(username, hash, db);
    proof {
        assert(creates_with(old(db)@, username, password, hash, db@, r));
        assert(creates_somehow(old(db)@, username, password, db@, r));
    }
    r
}

} // verus!
