//! Authentication: from the authorization header of a request to the user that
//! makes it.

use vstd::prelude::*;
use vstd::string::{StrSliceExecFns, StringExecFns};

use crate::data::store::{Database, Tables};
use crate::data::time::{utc_now, Timestamp};
use crate::data::tokens::{
    delete_all_expired_tokens,
    expired_tokens_deleted,
    get_token_by_token_string,
    lemma_filtered_tokens_wf,
    token_found,
    Token,
};
use crate::rest::errors::{failure_viewed, ApiError, ApiFailure};

verus! {

/// The characters of a header, where there is one.
pub open spec fn header_text(header: Option<&str>) -> Option<Seq<char>> {
    match header {
        Some(text) => Some(text@),
        None => None,
    }
}

/// Whether the first space of `text` is at `i`.
pub open spec fn first_space_at(text: Seq<char>, i: int) -> bool {
    0 <= i < text.len() && text[i] == ' ' && forall|j: int| 0 <= j < i ==> text[j] != ' '
}

/// The text before the first space and the text after it; `None` where `text`
/// has no space.
pub open spec fn split_at_space(text: Seq<char>) -> Option<(Seq<char>, Seq<char>)> {
    if exists|i: int| first_space_at(text, i) {
        let i = choose|i: int| first_space_at(text, i);
        Some((text.take(i), text.skip(i + 1)))
    } else {
        None
    }
}

/// The scheme of an authorization header: the text before its first space, or
/// all of it where it has no space.
pub open spec fn scheme_of(text: Seq<char>) -> Seq<char> {
    match split_at_space(text) {
        Some((scheme, _)) => scheme,
        None => text,
    }
}

/// The token that an authorization header presents.
///
/// A request without the header has none. A header under another scheme than
/// `Bearer` is refused, whether or not anything follows the scheme. Under
/// `Bearer` the token is all that follows the first space; the word `Bearer`
/// alone presents no token and counts as no header.
pub open spec fn bearer_token(header: Option<Seq<char>>) -> Result<Seq<char>, ApiFailure> {
    match header {
        None => Err(ApiFailure::NoAuthorizationHeader),
        Some(text) => if scheme_of(text) != "Bearer"@ {
            Err(ApiFailure::Unauthorized)
        } else {
            match split_at_space(text) {
                Some((_, contents)) => Ok(contents),
                None => Err(ApiFailure::NoAuthorizationHeader),
            }
        },
    }
}

/// What authentication at the instant `now` does: the tables afterwards, and the id
/// of the user or the refusal.
///
/// A token that is not in the table is reported as the store reports it. A token
/// that has run out is refused, and on that occasion the table is swept of the
/// tokens whose time lies before `now`.
pub open spec fn authenticated(t: Tables, header: Option<Seq<char>>, now: Timestamp) -> (
    Tables,
    Result<i64, ApiFailure>,
) {
    match bearer_token(header) {
        Err(error) => (t, Err(error)),
        Ok(text) => match token_found(t, text) {
            Err(error) => (t, Err(ApiFailure::DataError(error))),
            Ok(token) => match token_verdict(token, now) {
                Err(failure) => (expired_tokens_deleted(t, now).0, Err(failure)),
                Ok(user_id) => (t, Ok(user_id)),
            },
        },
    }
}

/// What a token that was found means for the request at the instant `now`: the
/// user it was issued to, until it runs out.
pub open spec fn token_verdict(token: Token, now: Timestamp) -> Result<i64, ApiFailure> {
    if now@ >= token.expired_time@ {
        Err(ApiFailure::ExpiredToken)
    } else {
        Ok(token.user_id)
    }
}

/// Authentication leaves the tables consistent.
pub proof fn lemma_authenticated_wf(t: Tables, header: Option<Seq<char>>, now: Timestamp)
    requires
        t.wf(),
    ensures
        authenticated(t, header, now).0.wf(),
{
    lemma_filtered_tokens_wf(t, |row: Token| !(now@ > row.expired_time@));
}

/// Splits a text at its first space.
pub fn split_once_at_space(text: &str) -> (r: Option<(&str, &str)>)
    ensures
        match r {
            Some((before, after)) => split_at_space(text@) == Some((before@, after@)),
            None => split_at_space(text@) is None,
        },
{
    let len = text.unicode_len();
    let mut i: usize = 0;
    while i < len
        invariant
            len == text@.len(),
            i <= len,
            forall|j: int| 0 <= j < i ==> text@[j] != ' ',
        decreases len - i,
    {
        if text.get_char(i) == ' ' {
            proof {
                assert(first_space_at(text@, i as int));
                let c = choose|c: int| first_space_at(text@, c);
                assert(c == i);
            }
            return Some((text.substring_char(0, i), text.substring_char(i + 1, len)));
        }
        i += 1;
    }
    None
}

/// Reads the token out of an authorization header.
pub fn read_bearer_token(header: Option<&str>) -> (r: Result<&str, ApiError>)
    ensures
        match r {
            Ok(contents) => bearer_token(header_text(header)) == Ok::<Seq<char>, ApiFailure>(
                contents@,
            ),
            Err(error) => bearer_token(header_text(header)) == Err::<Seq<char>, ApiFailure>(
                error@,
            ),
        },
{
    let text = match header {
        Some(text) => text,
        None => { return Err(ApiError::NoAuthorizationHeader); },
    };
    let (name, contents) = match split_once_at_space(text) {
        Some((name, contents)) => (name, Some(contents)),
        None => (text, None),
    };
    if String::from_str(name) != String::from_str("Bearer") {
        return Err(ApiError::Unauthorized);
    }
    match contents {
        Some(contents) => Ok(contents),
        None => Err(ApiError::NoAuthorizationHeader),
    }
}

/// Decides at the instant `now` what a token that was found means for the
/// request: the user it was issued to, or that it has run out.
pub fn check_token(token: &Token, now: &Timestamp) -> (r: Result<i64, ApiError>)
    ensures
        failure_viewed(r) == token_verdict(*token, *now),
{
    if token.is_expired_at(now) {
        return Err(ApiError::ExpiredToken);
    }
    Ok(token.user_id)
}

/// Authenticates a request at the instant `now`: the id of the user whose token
/// its authorization header presents.
pub fn auth_at(header: Option<&str>, now: &Timestamp, db: &mut Database) -> (r: Result<
    i64,
    ApiError,
>)
    requires
        old(db)@.wf(),
    ensures
        final(db)@.wf(),
        (final(db)@, failure_viewed(r)) == authenticated(old(db)@, header_text(header), *now),
{
    proof {
        lemma_authenticated_wf(old(db)@, header_text(header), *now);
    }
    let contents = match read_bearer_token(header) {
        Ok(contents) => contents,
        Err(error) => { return Err(error); },
    };
    let token = match get_token_by_token_string(contents, db) {
        Ok(token) => token,
        Err(error) => { return Err(ApiError::DataError(error)); },
    };
    match check_token(&token, now) {
        Ok(user_id) => Ok(user_id),
        Err(error) => {
            let _ = delete_all_expired_tokens(now, db);
            Err(error)
        },
    }
}

/// Authenticates a request by the machine's clock.
///
/// The contract holds for whatever instant the clock showed; [`auth_at`] is the
/// rule for a given instant.
pub fn auth(header: Option<&str>, db: &mut Database) -> (r: Result<i64, ApiError>)
    requires
        old(db)@.wf(),
    ensures
        final(db)@.wf(),
        exists|now: Timestamp|
            (final(db)@, failure_viewed(r)) == authenticated(old(db)@, header_text(header), now),
{
    let now = utc_now();
    auth_at(header, &now, db)
}

} // verus!
