//! Reading the caller's bearer token from an `Authorization` header value.

use vstd::prelude::*;
use vstd::string::StringExecFns;
use crate::errors::AppError;

verus! {

/// The words of a text, as `str::split_whitespace` cuts it: the maximal runs
/// of non-whitespace characters, in order.
pub uninterp spec fn whitespace_words(s: Seq<char>) -> Seq<Seq<char>>;

/// Relies on `str::split_whitespace`.
#[verifier::external_body]
fn split_words(s: &str) -> (r: Vec<String>)
    ensures
        r@.map_values(|w: String| w@) == whitespace_words(s@),
{
    s.split_whitespace().map(|w| w.to_string()).collect()
}

/// The token of a header value made of exactly two words, the first of which
/// is `Bearer`.
pub open spec fn bearer_token(header: Seq<char>) -> Option<Seq<char>> {
    let words = whitespace_words(header);
    if words.len() == 2 && words[0] == "Bearer"@ {
        Some(words[1])
    } else {
        None
    }
}

/// The caller's token in the value of its `Authorization` header; anything
/// else than `Bearer <token>` is an authorization error.
pub fn parse_auth_token(header: &str) -> (r: Result<String, AppError>)
    ensures
        match bearer_token(header@) {
            Some(t) => r matches Ok(s) && s@ == t,
            None => r == Err::<String, AppError>(AppError::AuthError),
        },
{
    let parts = split_words(header);
    let ghost words = whitespace_words(header@);
    assert(parts@.len() == words.len());
    if parts.len() == 2 {
        assert(parts@[0]@ == words[0]);
        assert(parts@[1]@ == words[1]);
        let bearer = String::from_str("Bearer");
        if parts[0] == bearer {
            return Ok(parts[1].clone());
        }
    }
    Err(AppError::AuthError)
}

} // verus!
