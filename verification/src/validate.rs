//! Validation of channel logins: one to twenty-five of the characters
//! `a`-`z`, `0`-`9` and `_`. The validation itself is that of `twitch-irc`.

use vstd::prelude::*;
use vstd::string::*;
use crate::text::decimal_digits;

verus! {

/// The longest login that is accepted.
pub const MAX_LOGIN_LENGTH: usize = 25;

/// Why a login was rejected.
#[derive(Debug, Clone, PartialEq, Eq)]
#[allow(inconsistent_fields)]
pub enum Error {
    /// A character that no login may hold stands at `position`.
    InvalidCharacter { login: String, position: usize, character: char },
    /// The login has more than twenty-five characters.
    TooLong { login: String },
    /// The login is empty.
    TooShort { login: String },
}

/// The characters of a login: lower-case letters, digits and the underscore.
pub open spec fn login_char(c: char) -> bool {
    ('a' <= c && c <= 'z') || ('0' <= c && c <= '9') || c == '_'
}

/// A valid login: `^[a-z0-9_]{1,25}$`.
pub open spec fn valid_login(login: Seq<char>) -> bool {
    &&& 1 <= login.len() <= MAX_LOGIN_LENGTH
    &&& forall|i: int| 0 <= i < login.len() ==> login_char(#[trigger] login[i])
}

/// The error names the login and tells of a fault that the login has: a
/// character at `position` that no login may hold, more than twenty-five
/// characters, or none.
pub open spec fn tells_fault(error: Error, channel_login: Seq<char>) -> bool {
    match error {
        Error::InvalidCharacter { login, position, character } => login@ == channel_login
            && position < channel_login.len() && character == channel_login[position as int]
            && !login_char(character),
        Error::TooLong { login } => login@ == channel_login && channel_login.len()
            > MAX_LOGIN_LENGTH,
        Error::TooShort { login } => login@ == channel_login && channel_login.len() == 0,
    }
}

/// Validates a login.
///
/// Trusted: calls `twitch_irc::validate::validate_login` and moves the
/// fields of its error, one variant for one. The contract states what that
/// function's source shows: it accepts exactly the valid logins, and each
/// error names the login and a fault that the login has. Which fault is
/// told of a login with several is not stated.
#[verifier::external_body]
pub(crate) fn outside_validate_login(channel_login: &str) -> (result: Result<(), Error>)
    ensures
        result is Ok <==> valid_login(channel_login@),
        result matches Err(error) ==> tells_fault(error, channel_login@),
{
    match twitch_irc::validate::validate_login(channel_login) {
        Ok(()) => Ok(()),
        Err(twitch_irc::validate::Error::InvalidCharacter { login, position, character }) => Err(Error::InvalidCharacter { login, position, character }),
        Err(twitch_irc::validate::Error::TooLong { login }) => Err(Error::TooLong { login }),
        Err(twitch_irc::validate::Error::TooShort { login }) => Err(Error::TooShort { login }),
    }
}

/// Validates a login: a valid one passes, every other one is rejected with
/// an error that names it and tells of a fault that it has.
pub fn validate_login(channel_login: &str) -> (result: Result<(), Error>)
    ensures
        result is Ok <==> valid_login(channel_login@),
        result matches Err(error) ==> tells_fault(error, channel_login@),
{
    outside_validate_login(channel_login)
}

/// The text of an error.
pub open spec fn error_text(error: Error) -> Seq<char> {
    match error {
        Error::InvalidCharacter { login, position, character } => "Invalid login name `"@ + login@
            + "`: Invalid character `"@ + seq![character] + "` encountered at position `"@
            + decimal_digits(position as nat) + "`"@,
        Error::TooLong { login } => "Invalid login name `"@ + login@
            + "`: Login name exceeds maximum length of 25 characters"@,
        Error::TooShort { login } => "Invalid login name `"@ + login@
            + "`: Login name is too short (must be at least one character long)"@,
    }
}

/// Writes an error as a sentence.
///
/// Trusted: hands the error back to `twitch-irc` in that crate's own type,
/// one variant for one, and calls its `Display`. The contract states the
/// three sentences that the source of `twitch_irc::validate::Error` gives.
#[verifier::external_body]
pub(crate) fn outside_error_text(error: &Error) -> (text: String)
    ensures
        text@ == error_text(*error),
{
    let outside = match error.clone() {
        Error::InvalidCharacter { login, position, character } => twitch_irc::validate::Error::InvalidCharacter { login, position, character },
        Error::TooLong { login } => twitch_irc::validate::Error::TooLong { login },
        Error::TooShort { login } => twitch_irc::validate::Error::TooShort { login },
    };
    outside.to_string()
}

impl Error {
    /// The error as a sentence.
    pub fn to_string(&self) -> (text: String)
        ensures
            text@ == error_text(*self),
    {
        outside_error_text(self)
    }
}

} // verus!
