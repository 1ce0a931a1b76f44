//! The table of users, and the hashing of their passwords.

use vstd::prelude::*;

use crate::data::store::{Database, Tables};
use crate::data::DataError;

verus! {

/// A row of the table of users.
#[derive(Debug)]
pub struct User {
    pub id: i64,
    pub username: String,
    pub hashed_password: String,
    /// How often the row has been updated; an update names the version it read.
    pub version: i64,
}

impl Clone for User {
    fn clone(&self) -> (r: Self)
        ensures
            r == *self,
    {
        User {
            id: self.id,
            username: self.username.clone(),
            hashed_password: self.hashed_password.clone(),
            version: self.version,
        }
    }
}

/// What a person hands in to register or to log in.
#[derive(Debug)]
pub struct NewUser {
    pub username: String,
    pub password: String,
}

/// The error of the `bcrypt` crate.
#[verifier::external_type_specification]
#[verifier::external_body]
pub struct ExBcryptError(bcrypt::BcryptError);

/// What `bcrypt::verify` answers when asked whether `password` belongs to the
/// stored `hash`; `None` where it returns an error, as it does for a text that
/// is no bcrypt hash.
pub uninterp spec fn password_check(password: Seq<char>, hash: Seq<char>) -> Option<bool>;

/// Calls `bcrypt::verify`.
///
/// Trusted: the answer is the one that [`password_check`] names.
#[verifier::external_body]
pub(crate) fn bcrypt_verify(password: &str, hash: &str) -> (r: Result<bool, bcrypt::BcryptError>)
    ensures
        match r {
            Ok(accepted) => password_check(password@, hash@) == Some(accepted),
            Err(_) => password_check(password@, hash@) is None,
        },
{
    bcrypt::verify(password, hash)
}

/// Hashes a password with a fresh random salt: calls `bcrypt::hash` at the
/// crate's default cost.
///
/// Trusted: a hash that comes back is one under which `bcrypt::verify` accepts
/// the same password. The salt is random, so nothing else is said of the text.
/// An error means that the machine could not supply randomness; no input
/// causes it.
#[verifier::external_body]
pub fn hash_password(password: String) -> (r: Result<String, bcrypt::BcryptError>)
    ensures
        r matches Ok(hash) ==> password_check(password@, hash@) == Some(true),
{
    bcrypt::hash(password.as_str(), bcrypt::DEFAULT_COST)
}

/// Whether the row at `i` is the user with this id.
pub open spec fn user_at(users: Seq<User>, i: int, id: i64) -> bool {
    0 <= i < users.len() && users[i].id == id
}

/// Whether the row at `i` carries this username.
pub open spec fn username_at(users: Seq<User>, i: int, username: Seq<char>) -> bool {
    0 <= i < users.len() && users[i].username@ == username
}

/// The position of the user with this id.
pub open spec fn user_position(users: Seq<User>, id: i64) -> Option<int> {
    if exists|i: int| user_at(users, i, id) {
        Some(choose|i: int| user_at(users, i, id))
    } else {
        None
    }
}

/// The position of the user with this username.
pub open spec fn username_position(users: Seq<User>, username: Seq<char>) -> Option<int> {
    if exists|i: int| username_at(users, i, username) {
        Some(choose|i: int| username_at(users, i, username))
    } else {
        None
    }
}

/// In consistent tables a row is the only one with its id.
pub proof fn lemma_user_position(t: Tables, i: int)
    requires
        t.wf(),
        0 <= i < t.users.len(),
    ensures
        user_position(t.users, t.users[i].id) == Some(i),
        username_position(t.users, t.users[i].username@) == Some(i),
{
    let id = t.users[i].id;
    assert(user_at(t.users, i, id));
    let c = choose|c: int| user_at(t.users, c, id);
    assert(c == i) by {
        if c < i {
            assert(t.users[c].id < t.users[i].id);
        } else if i < c {
            assert(t.users[i].id < t.users[c].id);
        }
    }
    let name = t.users[i].username@;
    assert(username_at(t.users, i, name));
    let d = choose|d: int| username_at(t.users, d, name);
    assert(d == i) by {
        if d < i {
            assert(t.users[d].username@ != t.users[i].username@);
        } else if i < d {
            assert(t.users[i].username@ != t.users[d].username@);
        }
    }
}

/// The row that an insert of this username and hash writes.
pub open spec fn new_user_row(t: Tables, username: String, hashed_password: String) -> User {
    User { id: t.next_user_id as i64, username, hashed_password, version: 0 }
}

/// `INSERT INTO users (username, hashed_password)`: the tables afterwards, and the
/// new row or the refusal.
///
/// The counter gives its id out before the username is held against the others,
/// so a refused insert uses an id up.
pub open spec fn user_inserted(t: Tables, username: String, hashed_password: String) -> (
    Tables,
    Result<User, DataError>,
) {
    if t.next_user_id >= i64::MAX {
        (t, Err(DataError::OutOfRange))
    } else if username_position(t.users, username@) is Some {
        (Tables { next_user_id: t.next_user_id + 1, ..t }, Err(DataError::UniqueViolation))
    } else {
        let row = new_user_row(t, username, hashed_password);
        (Tables { users: t.users.push(row), next_user_id: t.next_user_id + 1, ..t }, Ok(row))
    }
}

/// `SELECT * FROM users WHERE id = ..`.
pub open spec fn user_found(t: Tables, id: i64) -> Result<User, DataError> {
    match user_position(t.users, id) {
        Some(i) => Ok(t.users[i]),
        None => Err(DataError::RowNotFound),
    }
}

/// `SELECT * FROM users WHERE username = ..`.
pub open spec fn user_found_by_username(t: Tables, username: Seq<char>) -> Result<
    User,
    DataError,
> {
    match username_position(t.users, username) {
        Some(i) => Ok(t.users[i]),
        None => Err(DataError::RowNotFound),
    }
}

/// The row that a successful update leaves: the new name and hash under the old
/// id, and the version one higher.
pub open spec fn updated_user_row(updated: User) -> User {
    User { version: (updated.version + 1) as i64, ..updated }
}

/// Whether another row than the one at `i` already carries this username.
pub open spec fn username_of_another(users: Seq<User>, i: int, username: Seq<char>) -> bool {
    exists|j: int| j != i && username_at(users, j, username)
}

/// `UPDATE users SET .. WHERE id = .. AND version = ..`: the tables afterwards, and
/// the new row or the refusal.
///
/// A row is written only where the id exists and its version is the one that
/// `updated` carries. A stale version and a missing id are refused alike.
pub open spec fn user_updated(t: Tables, updated: User) -> (Tables, Result<User, DataError>) {
    match user_position(t.users, updated.id) {
        Some(i) => if t.users[i].version != updated.version {
            (t, Err(DataError::RowNotFound))
        } else if updated.version == i64::MAX {
            (t, Err(DataError::OutOfRange))
        } else if username_of_another(t.users, i, updated.username@) {
            (t, Err(DataError::UniqueViolation))
        } else {
            let row = updated_user_row(updated);
            (Tables { users: t.users.update(i, row), ..t }, Ok(row))
        },
        None => (t, Err(DataError::RowNotFound)),
    }
}

/// `DELETE FROM users WHERE id = ..`: the tables afterwards, and whether a row
/// left. Blogs and tokens of the user stay behind.
pub open spec fn user_deleted(t: Tables, id: i64) -> (Tables, bool) {
    match user_position(t.users, id) {
        Some(i) => (Tables { users: t.users.remove(i), ..t }, true),
        None => (t, false),
    }
}

/// An insert leaves the tables consistent.
pub proof fn lemma_user_inserted_wf(t: Tables, username: String, hashed_password: String)
    requires
        t.wf(),
    ensures
        user_inserted(t, username, hashed_password).0.wf(),
{
    let post = user_inserted(t, username, hashed_password).0;
    if t.next_user_id < i64::MAX && username_position(t.users, username@) is None {
        let row = new_user_row(t, username, hashed_password);
        assert forall|i: int, j: int| 0 <= i < j < post.users.len() implies (
        #[trigger] post.users[i]).id < (#[trigger] post.users[j]).id && post.users[i].username@
            != post.users[j].username@ by {
            if j == t.users.len() {
                assert(post.users[i] == t.users[i]);
                assert(!username_at(t.users, i, username@));
            } else {
                assert(post.users[i] == t.users[i]);
                assert(post.users[j] == t.users[j]);
            }
        }
        assert forall|i: int| 0 <= i < post.users.len() implies 1 <= (#[trigger] post.users[i]).id
            < post.next_user_id by {
            if i < t.users.len() {
                assert(post.users[i] == t.users[i]);
            }
        }
    }
}

/// An update leaves the tables consistent.
pub proof fn lemma_user_updated_wf(t: Tables, updated: User)
    requires
        t.wf(),
    ensures
        user_updated(t, updated).0.wf(),
{
    let post = user_updated(t, updated).0;
    if user_updated(t, updated).1 is Ok {
        let k = user_position(t.users, updated.id)->Some_0;
        assert(user_at(t.users, k, updated.id));
        assert forall|i: int, j: int| 0 <= i < j < post.users.len() implies (
        #[trigger] post.users[i]).id < (#[trigger] post.users[j]).id && post.users[i].username@
            != post.users[j].username@ by {
            assert(t.users[i].id < t.users[j].id);
            assert(t.users[i].username@ != t.users[j].username@);
            if i == k {
                assert(!username_at(t.users, j, updated.username@));
            } else if j == k {
                assert(!username_at(t.users, i, updated.username@));
            }
        }
        assert forall|i: int| 0 <= i < post.users.len() implies 1 <= (#[trigger] post.users[i]).id
            < post.next_user_id by {
            assert(1 <= t.users[i].id < t.next_user_id);
        }
    }
}

/// A delete leaves the tables consistent.
pub proof fn lemma_user_deleted_wf(t: Tables, id: i64)
    requires
        t.wf(),
    ensures
        user_deleted(t, id).0.wf(),
{
    let post = user_deleted(t, id).0;
    if user_deleted(t, id).1 {
        let k = user_position(t.users, id)->Some_0;
        assert(user_at(t.users, k, id));
        assert forall|i: int, j: int| 0 <= i < j < post.users.len() implies (
        #[trigger] post.users[i]).id < (#[trigger] post.users[j]).id && post.users[i].username@
            != post.users[j].username@ by {
            let a = if i < k { i } else { i + 1 };
            let b = if j < k { j } else { j + 1 };
            assert(post.users[i] == t.users[a]);
            assert(post.users[j] == t.users[b]);
            assert(t.users[a].id < t.users[b].id);
            assert(t.users[a].username@ != t.users[b].username@);
        }
        assert forall|i: int| 0 <= i < post.users.len() implies 1 <= (#[trigger] post.users[i]).id
            < post.next_user_id by {
            let a = if i < k { i } else { i + 1 };
            assert(post.users[i] == t.users[a]);
        }
    }
}

/// Looks for the row with this id.
fn find_user(db: &Database, id: i64) -> (r: Option<usize>)
    requires
        db@.wf(),
    ensures
        r matches Some(i) ==> i < db@.users.len(),
        user_position(db@.users, id) == (match r {
            Some(i) => Some(i as int),
            None => None,
        }),
{
    let mut i: usize = 0;
    while i < db.users.len()
        invariant
            db@.wf(),
            i <= db.users.len(),
            forall|j: int| 0 <= j < i ==> !user_at(db@.users, j, id),
        decreases db.users.len() - i,
    {
        if db.users[i].id == id {
            proof {
                lemma_user_position(db@, i as int);
            }
            return Some(i);
        }
        i += 1;
    }
    None
}

/// Looks for the row with this username, leaving out the row at `skip`.
fn find_username(db: &Database, username: &String, skip: Option<usize>) -> (r: Option<usize>)
    requires
        db@.wf(),
    ensures
        r matches Some(i) ==> i < db@.users.len() && Some(i) != skip && db@.users[i as int].username@
            == username@,
        r is None ==> forall|j: int|
            username_at(db@.users, j, username@) ==> skip is Some && skip->Some_0 == j,
{
    let mut i: usize = 0;
    while i < db.users.len()
        invariant
            i <= db.users.len(),
            forall|j: int|
                0 <= j < i && username_at(db@.users, j, username@) ==> skip is Some
                    && skip->Some_0 == j,
        decreases db.users.len() - i,
    {
        if db.users[i].username == *username {
            if skip != Some(i) {
                return Some(i);
            }
        }
        i += 1;
    }
    None
}

/// Writes a new user with a password that is already hashed.
pub fn insert_user(username: String, hashed_password: String, db: &mut Database) -> (r: Result<
    User,
    DataError,
>)
    requires
        old(db)@.wf(),
    ensures
        final(db)@.wf(),
        (final(db)@, r) == user_inserted(old(db)@, username, hashed_password),
{
    if db.next_user_id >= i64::MAX {
        return Err(DataError::OutOfRange);
    }
    let id: i64 = db.next_user_id;
    db.next_user_id = id + 1;
    proof {
        lemma_user_inserted_wf(old(db)@, username, hashed_password);
    }
    match find_username(db, &username, None) {
        Some(i) => {
            proof {
                assert(username_at(old(db)@.users, i as int, username@));
            }
            Err(DataError::UniqueViolation)
        },
        None => {
            let row = User { id, username, hashed_password, version: 0 };
            let copy = row.clone();
            db.users.push(row);
            Ok(copy)
        },
    }
}

/// Registers a user: hashes the password and writes the row.
///
/// The hash is salted at random, so the contract names it only as some hash that
/// accepts the password; [`insert_user`] says what the insert does with it.
pub fn create_user(new_user: NewUser, db: &mut Database) -> (r: Result<User, DataError>)
    requires
        old(db)@.wf(),
    ensures
        final(db)@.wf(),
        r == Err::<User, DataError>(DataError::PasswordHash) ==> final(db)@ == old(db)@,
        r != Err::<User, DataError>(DataError::PasswordHash) ==> exists|hash: String|
            password_check(new_user.password@, hash@) == Some(true) && (final(db)@, r)
                == user_inserted(old(db)@, new_user.username, hash),
{
    match hash_password(new_user.password) {
        Ok(hash) => insert_user(new_user.username, hash, db),
        Err(_) => Err(DataError::PasswordHash),
    }
}

/// Reads the user with this id.
pub fn get_user(id: i64, db: &Database) -> (r: Result<User, DataError>)
    requires
        db@.wf(),
    ensures
        r == user_found(db@, id),
{
    match find_user(db, id) {
        Some(i) => Ok(db.users[i].clone()),
        None => Err(DataError::RowNotFound),
    }
}

/// Reads the user with this username.
pub fn get_user_by_username(username: String, db: &Database) -> (r: Result<User, DataError>)
    requires
        db@.wf(),
    ensures
        r == user_found_by_username(db@, username@),
{
    match find_username(db, &username, None) {
        Some(i) => {
            proof {
                lemma_user_position(db@, i as int);
            }
            Ok(db.users[i].clone())
        },
        None => Err(DataError::RowNotFound),
    }
}

/// Writes a new name and hash over the row that `updated` was read from, if
/// nobody has updated that row since.
pub fn update_user(updated_user: User, db: &mut Database) -> (r: Result<User, DataError>)
    requires
        old(db)@.wf(),
    ensures
        final(db)@.wf(),
        (final(db)@, r) == user_updated(old(db)@, updated_user),
{
    proof {
        lemma_user_updated_wf(old(db)@, updated_user);
    }
    match find_user(db, updated_user.id) {
        Some(i) => {
            if db.users[i].version != updated_user.version {
                return Err(DataError::RowNotFound);
            }
            if updated_user.version == i64::MAX {
                return Err(DataError::OutOfRange);
            }
            match find_username(db, &updated_user.username, Some(i)) {
                Some(j) => {
                    proof {
                        assert(j as int != i as int && username_at(
                            db@.users,
                            j as int,
                            updated_user.username@,
                        ));
                    }
                    Err(DataError::UniqueViolation)
                },
                None => {
                    let row = User {
                        id: updated_user.id,
                        username: updated_user.username,
                        hashed_password: updated_user.hashed_password,
                        version: updated_user.version + 1,
                    };
                    let copy = row.clone();
                    db.users.set(i, row);
                    proof {
                        assert(final(db)@.users =~= old(db)@.users.update(i as int, copy));
                    }
                    Ok(copy)
                },
            }
        },
        None => Err(DataError::RowNotFound),
    }
}

/// Removes the user with this id; `false` where there is none.
pub fn delete_user(id: i64, db: &mut Database) -> (r: Result<bool, DataError>)
    requires
        old(db)@.wf(),
    ensures
        final(db)@.wf(),
        r is Ok,
        (final(db)@, r->Ok_0) == user_deleted(old(db)@, id),
{
    proof {
        lemma_user_deleted_wf(old(db)@, id);
    }
    match find_user(db, id) {
        Some(i) => {
            db.users.remove(i);
            Ok(true)
        },
        None => Ok(false),
    }
}

} // verus!
