//! The check that stands before every endpoint that needs an authorized
//! user.

use vstd::prelude::*;
use vstd::string::*;
use crate::text::{chars_of, push_char};
use crate::web::auth::UserAuthorization;
use crate::web::auth_endpoints::{is_access_token, is_hex_char, ACCESS_TOKEN_LENGTH};
use crate::web::error::ApiError;

verus! {

/// The name of the header that carries the access token.
pub const AUTHORIZATION_HEADER: &'static str = "authorization";

/// What stands before the token in the header's value.
pub const BEARER_PREFIX: &'static str = "Bearer ";

/// The access token in the value of an `Authorization` header: the value
/// has to be `Bearer `, followed by an access token and nothing else.
pub open spec fn bearer_token(header: Seq<char>) -> Option<Seq<char>> {
    if header.len() == BEARER_PREFIX@.len() + ACCESS_TOKEN_LENGTH && header.take(
        BEARER_PREFIX@.len() as int,
    ) == BEARER_PREFIX@ && is_access_token(header.skip(BEARER_PREFIX@.len() as int)) {
        Some(header.skip(BEARER_PREFIX@.len() as int))
    } else {
        None
    }
}

fn is_hex(c: char) -> (hex: bool)
    ensures
        hex == is_hex_char(c),
{
    ('0' <= c && c <= '9') || ('a' <= c && c <= 'f')
}

/// Reads the access token from the value of an `Authorization` header.
pub fn parse_bearer_token(header: &str) -> (token: Option<String>)
    ensures
        token.deep_view() == bearer_token(header@),
{
    proof {
        reveal_strlit("Bearer ");
    }
    let chars = chars_of(header);
    if chars.len() != 7 + ACCESS_TOKEN_LENGTH {
        return None;
    }
    if !(chars[0] == 'B' && chars[1] == 'e' && chars[2] == 'a' && chars[3] == 'r' && chars[4]
        == 'e' && chars[5] == 'r' && chars[6] == ' ') {
        assert(header@.take(7) != BEARER_PREFIX@) by {
            if header@.take(7) == BEARER_PREFIX@ {
                assert(header@.take(7)[0] == 'B');
                assert(header@.take(7)[1] == 'e');
                assert(header@.take(7)[2] == 'a');
                assert(header@.take(7)[3] == 'r');
                assert(header@.take(7)[4] == 'e');
                assert(header@.take(7)[5] == 'r');
                assert(header@.take(7)[6] == ' ');
            }
        }
        return None;
    }
    assert(header@.take(7) =~= BEARER_PREFIX@);
    let mut token = String::new();
    let mut i: usize = 7;
    let ghost rest = header@.skip(7);
    while i < chars.len()
        invariant
            7 <= i <= chars.len(),
            chars@ == header@,
            chars.len() == 7 + ACCESS_TOKEN_LENGTH,
            rest == header@.skip(7),
            token@ == rest.take(i - 7),
            forall|j: int| 0 <= j < i - 7 ==> is_hex_char(#[trigger] rest[j]),
        decreases chars.len() - i,
    {
        let c = chars[i];
        assert(rest[i - 7] == c);
        if !is_hex(c) {
            assert(!is_access_token(rest));
            return None;
        }
        push_char(&mut token, c);
        assert(token@ =~= rest.take(i + 1 - 7));
        i = i + 1;
    }
    assert(rest.take(ACCESS_TOKEN_LENGTH as int) =~= rest);
    Some(token)
}

/// What a request holds under the `Authorization` header.
#[derive(Debug, Clone)]
pub enum HeaderLookup {
    /// The header is missing.
    Missing,
    /// The header's value is not valid UTF-8.
    NotUtf8,
    /// The header's value.
    Value(String),
}

/// Reads the access token of a request, or gives the error to report: the
/// header may be missing, not be text, or not hold a token in the expected
/// form.
pub fn access_token_of_request(header: &HeaderLookup) -> (token: Result<String, ApiError>)
    ensures
        match *header {
            HeaderLookup::Missing => token matches Err(ApiError::MissingHeader(name)) && name@
                == AUTHORIZATION_HEADER@,
            HeaderLookup::NotUtf8 => token matches Err(ApiError::HeaderValueNotUtf8(name))
                && name@ == AUTHORIZATION_HEADER@,
            HeaderLookup::Value(value) => match bearer_token(value@) {
                Some(expected) => token matches Ok(t) && t@ == expected,
                None => token matches Err(ApiError::MalformedAuthorizationHeader),
            },
        },
{
    match header {
        HeaderLookup::Missing => Err(ApiError::MissingHeader(AUTHORIZATION_HEADER.to_owned())),
        HeaderLookup::NotUtf8 => Err(ApiError::HeaderValueNotUtf8(AUTHORIZATION_HEADER.to_owned())),
        HeaderLookup::Value(value) => match parse_bearer_token(value.as_str()) {
            Some(token) => Ok(token),
            None => Err(ApiError::MalformedAuthorizationHeader),
        },
    }
}

/// The authorization that the store holds for a token, or the error to
/// report: a failure of the store is internal, and a token that is not
/// known or has expired is `Unauthorized`.
pub fn stored_authorization(found: Result<Option<UserAuthorization>, String>) -> (result: Result<
    UserAuthorization,
    ApiError,
>)
    ensures
        result == match found {
            Ok(Some(authorization)) => Ok::<UserAuthorization, ApiError>(authorization),
            Ok(None) => Err(ApiError::Unauthorized),
            Err(cause) => Err(ApiError::QueryAccessToken(cause)),
        },
{
    match found {
        Ok(Some(authorization)) => Ok(authorization),
        Ok(None) => Err(ApiError::Unauthorized),
        Err(cause) => Err(ApiError::QueryAccessToken(cause)),
    }
}

/// Whether the validation changed the authorization, so that the store has
/// to be updated.
pub fn needs_update(before: &UserAuthorization, after: &UserAuthorization) -> (update: bool)
    ensures
        update == (before@ != after@),
{
    !before.same_as(after)
}

} // verus!
