//! The table of bearer tokens.

use vstd::prelude::*;

use crate::data::seqs::{lemma_filter_keeps_order, lemma_filter_keeps_what_holds};
use crate::data::store::{Database, Tables};
use crate::data::time::{utc_now, Timestamp};
use crate::data::users::{user_at, user_position};
use crate::data::DataError;

verus! {

/// A row of the table of tokens: the user it was issued to, the opaque text that
/// the client presents, and the instant from which it no longer counts.
#[derive(Debug)]
pub struct Token {
    pub user_id: i64,
    pub token: String,
    pub expired_time: Timestamp,
}

impl Clone for Token {
    fn clone(&self) -> (r: Self)
        ensures
            r == *self,
    {
        Token { user_id: self.user_id, token: self.token.clone(), expired_time: self.expired_time }
    }
}

impl Token {
    /// Whether the token no longer counts at the instant `now`: from its expiry
    /// time on, that instant included.
    pub fn is_expired_at(&self, now: &Timestamp) -> (r: bool)
        ensures
            r == self.has_run_out_by(*now),
            now.in_calendar(),
    {
        now.is_at_or_after(&self.expired_time)
    }

    /// Whether the token no longer counts by the machine's clock: the rule of
    /// [`Token::is_expired_at`], applied to the instant that the clock shows.
    /// Which instant that is, no contract can say; it is one of the calendar.
    pub fn is_expired(&self) -> (r: bool)
        ensures
            exists|now: Timestamp| now.in_calendar() && r == #[trigger] self.has_run_out_by(now),
    {
        let now = utc_now();
        let r = self.is_expired_at(&now);
        assert(now.in_calendar() && r == self.has_run_out_by(now));
        r
    }

    /// Whether the token has run out by the instant `now`: its expiry time is
    /// that instant or lies before it.
    pub open spec fn has_run_out_by(self, now: Timestamp) -> bool {
        now@ >= self.expired_time@
    }
}

/// The sixteen digits of lowercase hexadecimal.
pub open spec fn hex_digits() -> Seq<char> {
    seq!['0', '1', '2', '3', '4', '5', '6', '7', '8', '9', 'a', 'b', 'c', 'd', 'e', 'f']
}

/// Whether `c` is a digit of lowercase hexadecimal.
pub open spec fn is_hex_digit(c: char) -> bool {
    hex_digits().contains(c)
}

/// Bytes written in lowercase hexadecimal: two digits for each byte, the high half
/// first.
pub open spec fn hex_text(bytes: Seq<u8>) -> Seq<char> {
    Seq::new(
        2 * bytes.len(),
        |i: int|
            if i % 2 == 0 {
                hex_digits()[bytes[i / 2] as int / 16]
            } else {
                hex_digits()[bytes[i / 2] as int % 16]
            },
    )
}

/// Whether `text` has the shape of a token: 64 digits of lowercase hexadecimal.
pub open spec fn is_token_text(text: Seq<char>) -> bool {
    text.len() == 64 && forall|i: int| 0 <= i < 64 ==> is_hex_digit(#[trigger] text[i])
}

/// Draws 32 bytes from `rand::thread_rng()`.
///
/// Nothing is claimed of the bytes: they are random.
#[verifier::external_body]
fn random_bytes() -> [u8; 32] {
    let mut bytes = [0u8; 32];
    rand::RngCore::fill_bytes(&mut rand::thread_rng(), &mut bytes);
    bytes
}

/// Calls `hex::encode`.
///
/// Trusted: the text is the lowercase hexadecimal of the bytes, as [`hex_text`]
/// spells it out.
#[verifier::external_body]
fn hex_encode(bytes: &[u8; 32]) -> (r: String)
    ensures
        r@ == hex_text(bytes@),
{
    hex::encode(bytes)
}

/// The hexadecimal of 32 bytes has the shape of a token.
pub proof fn lemma_hex_text_is_token(bytes: Seq<u8>)
    requires
        bytes.len() == 32,
    ensures
        is_token_text(hex_text(bytes)),
{
    let text = hex_text(bytes);
    assert forall|i: int| 0 <= i < 64 implies is_hex_digit(#[trigger] text[i]) by {
        let byte = bytes[i / 2] as int;
        let digit = if i % 2 == 0 {
            byte / 16
        } else {
            byte % 16
        };
        assert(0 <= digit < 16);
        assert(text[i] == hex_digits()[digit]);
    }
}

/// A fresh token text: 32 random bytes in hexadecimal.
pub fn generate_token() -> (r: String)
    ensures
        is_token_text(r@),
{
    let bytes = random_bytes();
    proof {
        lemma_hex_text_is_token(bytes@);
    }
    hex_encode(&bytes)
}

/// Whether the row at `i` carries this token text.
pub open spec fn token_at(tokens: Seq<Token>, i: int, text: Seq<char>) -> bool {
    0 <= i < tokens.len() && tokens[i].token@ == text
}

/// The position of the token with this text.
pub open spec fn token_position(tokens: Seq<Token>, text: Seq<char>) -> Option<int> {
    if exists|i: int| token_at(tokens, i, text) {
        Some(choose|i: int| token_at(tokens, i, text))
    } else {
        None
    }
}

/// In consistent tables a row is the only one with its token text.
pub proof fn lemma_token_position(t: Tables, i: int)
    requires
        t.wf(),
        0 <= i < t.tokens.len(),
    ensures
        token_position(t.tokens, t.tokens[i].token@) == Some(i),
{
    let text = t.tokens[i].token@;
    assert(token_at(t.tokens, i, text));
    let c = choose|c: int| token_at(t.tokens, c, text);
    assert(c == i) by {
        if c < i {
            assert(t.tokens[c].token@ != t.tokens[i].token@);
        } else if i < c {
            assert(t.tokens[i].token@ != t.tokens[c].token@);
        }
    }
}

/// `SELECT .. FROM tokens WHERE token = ..`.
pub open spec fn token_found(t: Tables, text: Seq<char>) -> Result<Token, DataError> {
    match token_position(t.tokens, text) {
        Some(i) => Ok(t.tokens[i]),
        None => Err(DataError::RowNotFound),
    }
}

/// How the refusal of the insert of a token is reported: a token for a user
/// that is not there is reported as a row that was not found, every other
/// refusal as it is.
pub open spec fn issue_refusal(error: DataError) -> DataError {
    match error {
        DataError::ForeignKeyViolation => DataError::RowNotFound,
        _ => error,
    }
}

/// `INSERT INTO tokens`: the tables afterwards, and the new row or the refusal.
/// A text that is in the table is refused as such; a user that is not there is
/// reported as not found.
pub open spec fn token_inserted(t: Tables, user_id: i64, text: String, expired_time: Timestamp) -> (
    Tables,
    Result<Token, DataError>,
) {
    if token_position(t.tokens, text@) is Some {
        (t, Err(DataError::UniqueViolation))
    } else if user_position(t.users, user_id) is None {
        (t, Err(issue_refusal(DataError::ForeignKeyViolation)))
    } else {
        let row = Token { user_id, token: text, expired_time };
        (Tables { tokens: t.tokens.push(row), ..t }, Ok(row))
    }
}

/// `DELETE FROM tokens WHERE user_id = ..`: the tables afterwards, and whether a
/// row left.
pub open spec fn tokens_of_user_deleted(t: Tables, user_id: i64) -> (Tables, bool) {
    let kept = t.tokens.filter(|row: Token| row.user_id != user_id);
    (Tables { tokens: kept, ..t }, kept.len() < t.tokens.len())
}

/// `DELETE FROM tokens WHERE NOW() > expired_time`: the tables afterwards, and
/// whether a row left. A token whose expiry time is exactly `now` stays.
pub open spec fn expired_tokens_deleted(t: Tables, now: Timestamp) -> (Tables, bool) {
    let kept = t.tokens.filter(|row: Token| !(now@ > row.expired_time@));
    (Tables { tokens: kept, ..t }, kept.len() < t.tokens.len())
}

/// Rows picked out of consistent tokens, in their order, are consistent.
pub proof fn lemma_filtered_tokens_wf(t: Tables, keep: spec_fn(Token) -> bool)
    requires
        t.wf(),
    ensures
        (Tables { tokens: t.tokens.filter(keep), ..t }).wf(),
{
    let kept = t.tokens.filter(keep);
    assert forall|i: int, j: int| 0 <= i < j < kept.len() implies (#[trigger] kept[i]).token@ != (
    #[trigger] kept[j]).token@ by {
        lemma_filter_keeps_order(t.tokens, keep, i, j);
        let (a, b) = choose|a: int, b: int|
            0 <= a < b < t.tokens.len() && t.tokens[a] == kept[i] && t.tokens[b] == kept[j];
        assert(t.tokens[a].token@ != t.tokens[b].token@);
    }
    lemma_filter_keeps_what_holds(
        t.tokens,
        keep,
        |row: Token| 1 <= row.user_id < t.next_user_id,
    );
}

/// Looks for the row with this token text.
fn find_token(db: &Database, text: &String) -> (r: Option<usize>)
    requires
        db@.wf(),
    ensures
        r matches Some(i) ==> i < db@.tokens.len(),
        token_position(db@.tokens, text@) == (match r {
            Some(i) => Some(i as int),
            None => None,
        }),
{
    let mut i: usize = 0;
    while i < db.tokens.len()
        invariant
            db@.wf(),
            i <= db.tokens.len(),
            forall|j: int| 0 <= j < i ==> !token_at(db@.tokens, j, text@),
        decreases db.tokens.len() - i,
    {
        if db.tokens[i].token == *text {
            proof {
                lemma_token_position(db@, i as int);
            }
            return Some(i);
        }
        i += 1;
    }
    None
}

/// Reads the token with this text.
pub fn get_token_by_token_string(token_string: &str, db: &Database) -> (r: Result<
    Token,
    DataError,
>)
    requires
        db@.wf(),
    ensures
        r == token_found(db@, token_string@),
{
    let text = String::from_str(token_string);
    match find_token(db, &text) {
        Some(i) => Ok(db.tokens[i].clone()),
        None => Err(DataError::RowNotFound),
    }
}

/// An insert leaves the tables consistent.
pub proof fn lemma_token_inserted_wf(t: Tables, user_id: i64, text: String, expired_time: Timestamp)
    requires
        t.wf(),
    ensures
        token_inserted(t, user_id, text, expired_time).0.wf(),
{
    let post = token_inserted(t, user_id, text, expired_time).0;
    if token_inserted(t, user_id, text, expired_time).1 is Ok {
        assert forall|i: int, j: int| 0 <= i < j < post.tokens.len() implies (
        #[trigger] post.tokens[i]).token@ != (#[trigger] post.tokens[j]).token@ by {
            if j == t.tokens.len() {
                assert(post.tokens[i] == t.tokens[i]);
                assert(!token_at(t.tokens, i, text@));
            } else {
                assert(post.tokens[i] == t.tokens[i] && post.tokens[j] == t.tokens[j]);
            }
        }
        let k = user_position(t.users, user_id)->Some_0;
        assert(user_at(t.users, k, user_id));
        assert(1 <= t.users[k].id < t.next_user_id);
        assert forall|i: int| 0 <= i < post.tokens.len() implies 1 <= (
        #[trigger] post.tokens[i]).user_id < post.next_user_id by {
            if i < t.tokens.len() {
                assert(post.tokens[i] == t.tokens[i]);
            }
        }
    }
}

/// Reports the refusal of the insert of a token: a user that is not there as
/// a row that was not found.
pub fn report_issue_refusal(error: DataError) -> (r: DataError)
    ensures
        r == issue_refusal(error),
{
    match error {
        DataError::ForeignKeyViolation => DataError::RowNotFound,
        _ => error,
    }
}

/// Writes a token with the given text for a user.
pub fn insert_token(user_id: i64, text: String, expired_time: Timestamp, db: &mut Database) -> (r:
    Result<Token, DataError>)
    requires
        old(db)@.wf(),
    ensures
        final(db)@.wf(),
        (final(db)@, r) == token_inserted(old(db)@, user_id, text, expired_time),
{
    if find_token(db, &text).is_some() {
        return Err(DataError::UniqueViolation);
    }
    if crate::data::users::get_user(user_id, db).is_err() {
        return Err(report_issue_refusal(DataError::ForeignKeyViolation));
    }
    proof {
        lemma_token_inserted_wf(old(db)@, user_id, text, expired_time);
    }
    let row = Token { user_id, token: text, expired_time };
    let copy = row.clone();
    db.tokens.push(row);
    Ok(copy)
}

/// Issues a token to a user: draws a fresh text and writes the row.
///
/// The text is random, so the contract names it only as some text with the shape
/// of a token; [`insert_token`] says what the insert does with it.
pub fn insert_token_for_user(user_id: i64, expired_time: Timestamp, db: &mut Database) -> (r:
    Result<Token, DataError>)
    requires
        old(db)@.wf(),
    ensures
        final(db)@.wf(),
        exists|text: String|
            is_token_text(text@) && (final(db)@, r) == token_inserted(
                old(db)@,
                user_id,
                text,
                expired_time,
            ),
{
    let token_string = generate_token();
    insert_token(user_id, token_string, expired_time, db)
}

/// Removes every token of a user; `false` where there was none.
pub fn _delete_all_tokens_for_user(user_id: i64, db: &mut Database) -> (r: Result<bool, DataError>)
    requires
        old(db)@.wf(),
    ensures
        final(db)@.wf(),
        r is Ok,
        (final(db)@, r->Ok_0) == tokens_of_user_deleted(old(db)@, user_id),
{
    let ghost keep = |row: Token| row.user_id != user_id;
    let mut kept: Vec<Token> = Vec::new();
    let mut i: usize = 0;
    proof {
        reveal(Seq::filter);
        assert(db.tokens@.take(0).filter(keep) =~= kept@);
    }
    while i < db.tokens.len()
        invariant
            i <= db.tokens.len(),
            keep == |row: Token| row.user_id != user_id,
            kept@ == db.tokens@.take(i as int).filter(keep),
        decreases db.tokens.len() - i,
    {
        proof {
            assert(db.tokens@.take(i + 1) =~= db.tokens@.take(i as int).push(db.tokens@[i as int]));
            db.tokens@.take(i as int).lemma_filter_push(db.tokens@[i as int], keep);
        }
        if db.tokens[i].user_id != user_id {
            kept.push(db.tokens[i].clone());
        }
        i += 1;
    }
    proof {
        assert(db.tokens@.take(i as int) =~= db.tokens@);
        lemma_filtered_tokens_wf(old(db)@, keep);
    }
    let removed = kept.len() < db.tokens.len();
    db.tokens = kept;
    Ok(removed)
}

/// Removes every token whose expiry time lies before `now`; `false` where there
/// was none.
pub fn delete_all_expired_tokens(now: &Timestamp, db: &mut Database) -> (r: Result<bool, DataError>)
    requires
        old(db)@.wf(),
    ensures
        final(db)@.wf(),
        r is Ok,
        (final(db)@, r->Ok_0) == expired_tokens_deleted(old(db)@, *now),
{
    let ghost keep = |row: Token| !(now@ > row.expired_time@);
    let mut kept: Vec<Token> = Vec::new();
    let mut i: usize = 0;
    proof {
        reveal(Seq::filter);
        assert(db.tokens@.take(0).filter(keep) =~= kept@);
    }
    while i < db.tokens.len()
        invariant
            i <= db.tokens.len(),
            keep == |row: Token| !(now@ > row.expired_time@),
            kept@ == db.tokens@.take(i as int).filter(keep),
        decreases db.tokens.len() - i,
    {
        proof {
            assert(db.tokens@.take(i + 1) =~= db.tokens@.take(i as int).push(db.tokens@[i as int]));
            db.tokens@.take(i as int).lemma_filter_push(db.tokens@[i as int], keep);
        }
        if db.tokens[i].expired_time.is_at_or_after(now) {
            kept.push(db.tokens[i].clone());
        }
        i += 1;
    }
    proof {
        assert(db.tokens@.take(i as int) =~= db.tokens@);
        lemma_filtered_tokens_wf(old(db)@, keep);
    }
    let removed = kept.len() < db.tokens.len();
    db.tokens = kept;
    Ok(removed)
}

} // verus!
