//! The errors that the HTTP surface reports, with their status, their
//! machine-readable code and the message shown to the user.

use vstd::prelude::*;
use vstd::string::*;
use crate::validate;
use crate::validate::error_text;

verus! {

/// An error of a request. Errors with an internal cause carry that cause as
/// text; it is logged and never shown to the user.
#[derive(Debug, Clone)]
pub enum ApiError {
    NotFound,
    RequestTimeout,
    MethodNotAllowed,
    InvalidPath,
    InvalidQuery,
    InvalidPayload,
    HeaderValueNotUtf8(String),
    MissingHeader(String),
    InvalidChannelLogin(validate::Error),
    ChannelIgnored(String),
    InvalidAuthorizationCode,
    MalformedAuthorizationHeader,
    Unauthorized,
    ExchangeCodeForAccessToken(String),
    QueryUserDetails(String),
    SaveUserAuthorization(String),
    UpdateUserAuthorization(String),
    QueryAccessToken(String),
    FailedTwitchAccessTokenRefresh(String),
    AuthorizationRevokeFailed(String),
    GetChannelIgnored(String),
    SetChannelIgnored(String),
    GetMessages(String),
    PurgeMessages(String),
}

/// The text that is shown in place of an internal cause.
pub const INTERNAL_SERVER_ERROR_TEXT: &'static str = "Internal Server Error";

/// The errors with an internal cause: failures of the store and of the
/// upstream identity provider.
pub open spec fn is_internal(error: ApiError) -> bool {
    match error {
        ApiError::ExchangeCodeForAccessToken(_) => true,
        ApiError::QueryUserDetails(_) => true,
        ApiError::SaveUserAuthorization(_) => true,
        ApiError::UpdateUserAuthorization(_) => true,
        ApiError::QueryAccessToken(_) => true,
        ApiError::FailedTwitchAccessTokenRefresh(_) => true,
        ApiError::AuthorizationRevokeFailed(_) => true,
        ApiError::GetChannelIgnored(_) => true,
        ApiError::SetChannelIgnored(_) => true,
        ApiError::GetMessages(_) => true,
        ApiError::PurgeMessages(_) => true,
        _ => false,
    }
}

/// The HTTP status of an error.
pub open spec fn status_of(error: ApiError) -> u16 {
    if is_internal(error) {
        500
    } else {
        match error {
            ApiError::NotFound => 404,
            ApiError::RequestTimeout => 408,
            ApiError::MethodNotAllowed => 405,
            ApiError::ChannelIgnored(_) => 403,
            ApiError::Unauthorized => 401,
            _ => 400,
        }
    }
}

/// The machine-readable code of an error.
pub open spec fn code_of(error: ApiError) -> Seq<char> {
    if is_internal(error) {
        "internal_server_error"@
    } else {
        match error {
            ApiError::NotFound => "not_found"@,
            ApiError::RequestTimeout => "request_timeout"@,
            ApiError::MethodNotAllowed => "method_not_allowed"@,
            ApiError::InvalidPath => "invalid_path"@,
            ApiError::InvalidQuery => "invalid_query"@,
            ApiError::InvalidPayload => "invalid_payload"@,
            ApiError::HeaderValueNotUtf8(_) => "header_value_not_utf8"@,
            ApiError::MissingHeader(_) => "missing_header"@,
            ApiError::InvalidChannelLogin(_) => "invalid_channel_login"@,
            ApiError::ChannelIgnored(_) => "channel_ignored"@,
            ApiError::InvalidAuthorizationCode => "invalid_authorization_code"@,
            ApiError::MalformedAuthorizationHeader => "malformed_authorization_header"@,
            _ => "unauthorized"@,
        }
    }
}

/// The full text of an error, with its cause.
pub open spec fn text_of(error: ApiError) -> Seq<char> {
    match error {
        ApiError::NotFound => "Not Found"@,
        ApiError::RequestTimeout => "Request Timeout"@,
        ApiError::MethodNotAllowed => "Method Not Allowed"@,
        ApiError::InvalidPath => "Invalid or missing path parameters"@,
        ApiError::InvalidQuery => "Invalid or missing query parameters"@,
        ApiError::InvalidPayload => "Invalid or missing payload in request body"@,
        ApiError::HeaderValueNotUtf8(header) => "Header value for Header `"@ + header@
            + "` was not valid UTF-8"@,
        ApiError::MissingHeader(header) => "Missing header `"@ + header@ + "`"@,
        ApiError::InvalidChannelLogin(cause) => "Invalid channel login: "@ + error_text(cause),
        ApiError::ChannelIgnored(login) => "The channel login `"@ + login@
            + "` is excluded from this service"@,
        ApiError::InvalidAuthorizationCode =>
            "Provided `code` could not be exchanged for a token, it is not valid"@,
        ApiError::MalformedAuthorizationHeader => "Malformed `Authorization` header"@,
        ApiError::Unauthorized => "Unauthorized (access token expired or invalid)"@,
        ApiError::ExchangeCodeForAccessToken(cause) =>
            "Failed to exchange code for an access token: "@ + cause@,
        ApiError::QueryUserDetails(cause) => "Failed to query details about authorized user: "@
            + cause@,
        ApiError::SaveUserAuthorization(cause) =>
            "Failed to save user authorization to database: "@ + cause@,
        ApiError::UpdateUserAuthorization(cause) =>
            "Failed to update user authorization to database: "@ + cause@,
        ApiError::QueryAccessToken(cause) => "Failed to query database for access token: "@
            + cause@,
        ApiError::FailedTwitchAccessTokenRefresh(cause) =>
            "Failed to refresh Twitch OAuth access token: "@ + cause@,
        ApiError::AuthorizationRevokeFailed(cause) => "Failed to revoke authorization: "@ + cause@,
        ApiError::GetChannelIgnored(cause) => "Failed to get channel's ignored status: "@ + cause@,
        ApiError::SetChannelIgnored(cause) => "Failed to set channel's ignored status: "@ + cause@,
        ApiError::GetMessages(cause) => "Failed get a channel's messages: "@ + cause@,
        ApiError::PurgeMessages(cause) => "Failed to purge a channel's messages: "@ + cause@,
    }
}

/// The message shown to the user: the full text, but for an error with an
/// internal cause only that the server failed.
pub open spec fn user_message_of(error: ApiError) -> Seq<char> {
    if is_internal(error) {
        INTERNAL_SERVER_ERROR_TEXT@
    } else {
        text_of(error)
    }
}

fn with_cause(text: &str, cause: &String) -> (full: String)
    ensures
        full@ == text@ + cause@,
{
    let mut full = text.to_owned();
    full.append(cause.as_str());
    full
}

fn quoted(before: &str, name: &String, after: &str) -> (full: String)
    ensures
        full@ == before@ + name@ + after@,
{
    let mut full = before.to_owned();
    full.append(name.as_str());
    full.append(after);
    full
}

impl ApiError {
    /// Whether the error has an internal cause.
    pub fn is_internal(&self) -> (internal: bool)
        ensures
            internal == is_internal(*self),
    {
        match self {
            ApiError::ExchangeCodeForAccessToken(_) => true,
            ApiError::QueryUserDetails(_) => true,
            ApiError::SaveUserAuthorization(_) => true,
            ApiError::UpdateUserAuthorization(_) => true,
            ApiError::QueryAccessToken(_) => true,
            ApiError::FailedTwitchAccessTokenRefresh(_) => true,
            ApiError::AuthorizationRevokeFailed(_) => true,
            ApiError::GetChannelIgnored(_) => true,
            ApiError::SetChannelIgnored(_) => true,
            ApiError::GetMessages(_) => true,
            ApiError::PurgeMessages(_) => true,
            _ => false,
        }
    }

    /// The HTTP status of the error.
    pub fn status_code(&self) -> (status: u16)
        ensures
            status == status_of(*self),
            status == 500 <==> is_internal(*self),
    {
        if self.is_internal() {
            500
        } else {
            match self {
                ApiError::NotFound => 404,
                ApiError::RequestTimeout => 408,
                ApiError::MethodNotAllowed => 405,
                ApiError::ChannelIgnored(_) => 403,
                ApiError::Unauthorized => 401,
                _ => 400,
            }
        }
    }

    /// The full text of the error, with its cause. It is meant for the log.
    pub fn to_string(&self) -> (text: String)
        ensures
            text@ == text_of(*self),
    {
        match self {
            ApiError::NotFound => "Not Found".to_owned(),
            ApiError::RequestTimeout => "Request Timeout".to_owned(),
            ApiError::MethodNotAllowed => "Method Not Allowed".to_owned(),
            ApiError::InvalidPath => "Invalid or missing path parameters".to_owned(),
            ApiError::InvalidQuery => "Invalid or missing query parameters".to_owned(),
            ApiError::InvalidPayload => "Invalid or missing payload in request body".to_owned(),
            ApiError::HeaderValueNotUtf8(header) => quoted(
                "Header value for Header `",
                header,
                "` was not valid UTF-8",
            ),
            ApiError::MissingHeader(header) => quoted("Missing header `", header, "`"),
            ApiError::InvalidChannelLogin(cause) => with_cause(
                "Invalid channel login: ",
                &cause.to_string(),
            ),
            ApiError::ChannelIgnored(login) => quoted(
                "The channel login `",
                login,
                "` is excluded from this service",
            ),
            ApiError::InvalidAuthorizationCode =>
                "Provided `code` could not be exchanged for a token, it is not valid".to_owned(),
            ApiError::MalformedAuthorizationHeader => "Malformed `Authorization` header".to_owned(),
            ApiError::Unauthorized => "Unauthorized (access token expired or invalid)".to_owned(),
            ApiError::ExchangeCodeForAccessToken(cause) => with_cause(
                "Failed to exchange code for an access token: ",
                cause,
            ),
            ApiError::QueryUserDetails(cause) => with_cause(
                "Failed to query details about authorized user: ",
                cause,
            ),
            ApiError::SaveUserAuthorization(cause) => with_cause(
                "Failed to save user authorization to database: ",
                cause,
            ),
            ApiError::UpdateUserAuthorization(cause) => with_cause(
                "Failed to update user authorization to database: ",
                cause,
            ),
            ApiError::QueryAccessToken(cause) => with_cause(
                "Failed to query database for access token: ",
                cause,
            ),
            ApiError::FailedTwitchAccessTokenRefresh(cause) => with_cause(
                "Failed to refresh Twitch OAuth access token: ",
                cause,
            ),
            ApiError::AuthorizationRevokeFailed(cause) => with_cause(
                "Failed to revoke authorization: ",
                cause,
            ),
            ApiError::GetChannelIgnored(cause) => with_cause(
                "Failed to get channel's ignored status: ",
                cause,
            ),
            ApiError::SetChannelIgnored(cause) => with_cause(
                "Failed to set channel's ignored status: ",
                cause,
            ),
            ApiError::GetMessages(cause) => with_cause("Failed get a channel's messages: ", cause),
            ApiError::PurgeMessages(cause) => with_cause(
                "Failed to purge a channel's messages: ",
                cause,
            ),
        }
    }

    /// The message shown to the user. An internal cause is never shown.
    pub fn user_message(&self) -> (message: String)
        ensures
            message@ == user_message_of(*self),
    {
        if self.is_internal() {
            INTERNAL_SERVER_ERROR_TEXT.to_owned()
        } else {
            self.to_string()
        }
    }

    /// The machine-readable code of the error.
    pub fn error_code(&self) -> (code: &'static str)
        ensures
            code@ == code_of(*self),
    {
        if self.is_internal() {
            "internal_server_error"
        } else {
            match self {
                ApiError::NotFound => "not_found",
                ApiError::RequestTimeout => "request_timeout",
                ApiError::MethodNotAllowed => "method_not_allowed",
                ApiError::InvalidPath => "invalid_path",
                ApiError::InvalidQuery => "invalid_query",
                ApiError::InvalidPayload => "invalid_payload",
                ApiError::HeaderValueNotUtf8(_) => "header_value_not_utf8",
                ApiError::MissingHeader(_) => "missing_header",
                ApiError::InvalidChannelLogin(_) => "invalid_channel_login",
                ApiError::ChannelIgnored(_) => "channel_ignored",
                ApiError::InvalidAuthorizationCode => "invalid_authorization_code",
                ApiError::MalformedAuthorizationHeader => "malformed_authorization_header",
                _ => "unauthorized",
            }
        }
    }
}

} // verus!
