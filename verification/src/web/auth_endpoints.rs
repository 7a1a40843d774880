//! Creating, extending and revoking authorizations.

use vstd::prelude::*;
use vstd::string::*;
use crate::text::push_char;
use crate::web::auth::{HelixUser, TwitchUserAccessToken, UpstreamReply};
use crate::web::error::ApiError;

verus! {

/// The query of a request that creates an authorization.
#[derive(Debug, Clone)]
pub struct CreateAuthTokenQueryOptions {
    pub code: String,
}

/// The number of random bytes in an access token: 512 bits.
pub const ACCESS_TOKEN_BYTES: usize = 64;

/// The number of characters of an access token.
pub const ACCESS_TOKEN_LENGTH: usize = 128;

/// The lower-case hexadecimal digit for a number below sixteen.
pub open spec fn hex_digit(n: int) -> char {
    if n == 0 {
        '0'
    } else if n == 1 {
        '1'
    } else if n == 2 {
        '2'
    } else if n == 3 {
        '3'
    } else if n == 4 {
        '4'
    } else if n == 5 {
        '5'
    } else if n == 6 {
        '6'
    } else if n == 7 {
        '7'
    } else if n == 8 {
        '8'
    } else if n == 9 {
        '9'
    } else if n == 10 {
        'a'
    } else if n == 11 {
        'b'
    } else if n == 12 {
        'c'
    } else if n == 13 {
        'd'
    } else if n == 14 {
        'e'
    } else {
        'f'
    }
}

/// A lower-case hexadecimal digit.
pub open spec fn is_hex_char(c: char) -> bool {
    ('0' <= c && c <= '9') || ('a' <= c && c <= 'f')
}

/// The bytes in hexadecimal, two lower-case digits for each byte, the high
/// one first.
pub open spec fn hex_encoding(bytes: Seq<u8>) -> Seq<char>
    decreases bytes.len(),
{
    if bytes.len() == 0 {
        Seq::empty()
    } else {
        hex_encoding(bytes.drop_last()).push(hex_digit(bytes.last() as int / 16)).push(
            hex_digit(bytes.last() as int % 16),
        )
    }
}

/// An access token: 128 lower-case hexadecimal digits.
pub open spec fn is_access_token(token: Seq<char>) -> bool {
    &&& token.len() == ACCESS_TOKEN_LENGTH
    &&& forall|i: int| 0 <= i < token.len() ==> is_hex_char(#[trigger] token[i])
}

/// The hexadecimal encoding has two digits for each byte.
pub proof fn lemma_hex_encoding_shape(bytes: Seq<u8>)
    ensures
        hex_encoding(bytes).len() == 2 * bytes.len(),
        forall|i: int|
            0 <= i < hex_encoding(bytes).len() ==> is_hex_char(#[trigger] hex_encoding(bytes)[i]),
    decreases bytes.len(),
{
    if bytes.len() > 0 {
        lemma_hex_encoding_shape(bytes.drop_last());
        assert(is_hex_char(hex_digit(bytes.last() as int / 16)));
        assert(is_hex_char(hex_digit(bytes.last() as int % 16)));
    }
}

fn hex_char(n: u8) -> (c: char)
    requires
        n < 16,
    ensures
        c == hex_digit(n as int),
{
    if n == 0 {
        '0'
    } else if n == 1 {
        '1'
    } else if n == 2 {
        '2'
    } else if n == 3 {
        '3'
    } else if n == 4 {
        '4'
    } else if n == 5 {
        '5'
    } else if n == 6 {
        '6'
    } else if n == 7 {
        '7'
    } else if n == 8 {
        '8'
    } else if n == 9 {
        '9'
    } else if n == 10 {
        'a'
    } else if n == 11 {
        'b'
    } else if n == 12 {
        'c'
    } else if n == 13 {
        'd'
    } else if n == 14 {
        'e'
    } else {
        'f'
    }
}

/// Writes bytes in hexadecimal.
pub fn hex_string(bytes: &Vec<u8>) -> (text: String)
    ensures
        text@ == hex_encoding(bytes@),
{
    let mut text = String::new();
    let mut i: usize = 0;
    assert(bytes@.take(0) =~= Seq::<u8>::empty());
    while i < bytes.len()
        invariant
            i <= bytes.len(),
            text@ == hex_encoding(bytes@.take(i as int)),
        decreases bytes.len() - i,
    {
        proof {
            assert(bytes@.take(i + 1).drop_last() =~= bytes@.take(i as int));
            assert(bytes@.take(i + 1).last() == bytes[i as int]);
        }
        push_char(&mut text, hex_char(bytes[i] / 16));
        push_char(&mut text, hex_char(bytes[i] % 16));
        i = i + 1;
    }
    assert(bytes@.take(bytes.len() as int) =~= bytes@);
    text
}

/// Draws random bytes.
///
/// Trusted: takes `count` bytes from `rand::thread_rng`, sampled from the
/// `Standard` distribution. Only their number is stated: the bytes are
/// random.
#[verifier::external_body]
fn random_bytes(count: usize) -> (bytes: Vec<u8>)
    ensures
        bytes.len() == count,
{
    rand::Rng::sample_iter(rand::thread_rng(), rand::distributions::Standard).take(count).collect()
}

/// A fresh access token: 512 random bits as 128 hexadecimal digits.
pub fn generate_access_token() -> (token: String)
    ensures
        is_access_token(token@),
{
    let bytes = random_bytes(ACCESS_TOKEN_BYTES);
    proof {
        lemma_hex_encoding_shape(bytes@);
    }
    hex_string(&bytes)
}

/// What follows from the answer to the exchange of an authorization code:
/// the upstream tokens, or the error to report. A code that the upstream
/// rejects with status 400 is not valid; every other failure is internal.
pub open spec fn exchange_result(reply: UpstreamReply<TwitchUserAccessToken>) -> Result<
    TwitchUserAccessToken,
    ApiError,
> {
    match reply {
        UpstreamReply::Success(token) => Ok(token),
        UpstreamReply::Status { status, cause } => if status == 400 {
            Err(ApiError::InvalidAuthorizationCode)
        } else {
            Err(ApiError::ExchangeCodeForAccessToken(cause))
        },
        UpstreamReply::Transport { cause } => Err(ApiError::ExchangeCodeForAccessToken(cause)),
        UpstreamReply::Body { cause } => Err(ApiError::ExchangeCodeForAccessToken(cause)),
    }
}

/// Takes in the answer to the exchange of an authorization code, see
/// [`exchange_result`].
pub fn exchange_outcome(reply: UpstreamReply<TwitchUserAccessToken>) -> (result: Result<
    TwitchUserAccessToken,
    ApiError,
>)
    ensures
        result == exchange_result(reply),
{
    match reply {
        UpstreamReply::Success(token) => Ok(token),
        UpstreamReply::Status { status, cause } => {
            if status == 400 {
                Err(ApiError::InvalidAuthorizationCode)
            } else {
                Err(ApiError::ExchangeCodeForAccessToken(cause))
            }
        },
        UpstreamReply::Transport { cause } => Err(ApiError::ExchangeCodeForAccessToken(cause)),
        UpstreamReply::Body { cause } => Err(ApiError::ExchangeCodeForAccessToken(cause)),
    }
}

/// What follows from the answer to the first query for a user's details:
/// the user, or the failure with its cause.
pub open spec fn user_details_result(reply: UpstreamReply<HelixUser>) -> Result<
    HelixUser,
    ApiError,
> {
    match reply {
        UpstreamReply::Success(user) => Ok(user),
        UpstreamReply::Status { status, cause } => Err(ApiError::QueryUserDetails(cause)),
        UpstreamReply::Transport { cause } => Err(ApiError::QueryUserDetails(cause)),
        UpstreamReply::Body { cause } => Err(ApiError::QueryUserDetails(cause)),
    }
}

/// Takes in the answer to the first query for a user's details, see
/// [`user_details_result`].
pub fn user_details_outcome(reply: UpstreamReply<HelixUser>) -> (result: Result<
    HelixUser,
    ApiError,
>)
    ensures
        result == user_details_result(reply),
{
    match reply {
        UpstreamReply::Success(user) => Ok(user),
        UpstreamReply::Status { status, cause } => Err(ApiError::QueryUserDetails(cause)),
        UpstreamReply::Transport { cause } => Err(ApiError::QueryUserDetails(cause)),
        UpstreamReply::Body { cause } => Err(ApiError::QueryUserDetails(cause)),
    }
}

} // verus!
