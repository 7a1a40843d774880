//! The recent-messages endpoint: its options and the steps of a request.

use vstd::prelude::*;
use vstd::string::*;
use crate::db::StoredMessage;
use crate::message_export::{export_stored_messages, replay_of};
use crate::time::TimeSpan;
use crate::validate::{tells_fault, validate_login, valid_login};
use crate::web::error::ApiError;

verus! {

/// The channel named in the request path.
#[derive(Debug, Clone)]
pub struct GetRecentMessagesPath {
    pub channel_login: String,
}

/// The options of a request. `before` and `after` are exclusive bounds in
/// milliseconds since the Unix epoch.
#[derive(Debug, Clone, Copy)]
pub struct GetRecentMessagesQueryOptions {
    pub hide_moderation_messages: bool,
    pub hide_moderated_messages: bool,
    pub clearchat_to_notice: bool,
    pub limit: Option<usize>,
    pub before: Option<i64>,
    pub after: Option<i64>,
}

impl Default for GetRecentMessagesQueryOptions {
    fn default() -> (options: Self)
        ensures
            options == (GetRecentMessagesQueryOptions {
                hide_moderation_messages: false,
                hide_moderated_messages: false,
                clearchat_to_notice: false,
                limit: None,
                before: None,
                after: None,
            }),
    {
        GetRecentMessagesQueryOptions {
            hide_moderation_messages: false,
            hide_moderated_messages: false,
            clearchat_to_notice: false,
            limit: None,
            before: None,
            after: None,
        }
    }
}

/// What is said to a client while the listener is not joined to the
/// channel for certain.
pub const NOT_JOINED_ERROR: &'static str =
    "The bot is currently not joined to this channel (in progress or failed previously)";

/// The code that goes with [`NOT_JOINED_ERROR`].
pub const NOT_JOINED_ERROR_CODE: &'static str = "channel_not_joined";

/// How long the follow-up of a request waits before it asks a second time
/// whether the listener has joined the channel.
pub const JOIN_RECHECK_MILLIS: u64 = 5000;

/// The answer to a request: the replayed lines, and an error that does not
/// stop the request where the listener is not joined to the channel.
#[derive(Debug, Clone)]
pub struct GetRecentMessagesResponse {
    pub messages: Vec<String>,
    pub error: Option<&'static str>,
    pub error_code: Option<&'static str>,
}

/// The first step of a request: the path and the query have to be
/// understood, and the channel login has to be valid. Gives the login and
/// the options.
pub fn accept_request(
    path: Option<GetRecentMessagesPath>,
    query: Option<GetRecentMessagesQueryOptions>,
) -> (accepted: Result<(String, GetRecentMessagesQueryOptions), ApiError>)
    ensures
        match (path, query) {
            (None, _) => accepted matches Err(ApiError::InvalidPath),
            (Some(_), None) => accepted matches Err(ApiError::InvalidQuery),
            (Some(p), Some(q)) => if valid_login(p.channel_login@) {
                accepted matches Ok((login, options)) && login@ == p.channel_login@ && options
                    == q
            } else {
                accepted matches Err(ApiError::InvalidChannelLogin(cause)) && tells_fault(
                    cause,
                    p.channel_login@,
                )
            },
        },
{
    let path = match path {
        Some(path) => path,
        None => {
            return Err(ApiError::InvalidPath);
        },
    };
    let query = match query {
        Some(query) => query,
        None => {
            return Err(ApiError::InvalidQuery);
        },
    };
    match validate_login(path.channel_login.as_str()) {
        Ok(()) => Ok((path.channel_login, query)),
        Err(cause) => Err(ApiError::InvalidChannelLogin(cause)),
    }
}

/// The second step: a channel that is ignored is not read. `ignored` is
/// the answer of the main partition, or the cause of its failure.
pub fn check_not_ignored(channel_login: &String, ignored: Result<bool, String>) -> (checked: Result<
    (),
    ApiError,
>)
    ensures
        match ignored {
            Ok(false) => checked is Ok,
            Ok(true) => checked matches Err(ApiError::ChannelIgnored(login)) && login@
                == channel_login@,
            Err(cause) => checked == Err::<(), ApiError>(ApiError::GetChannelIgnored(cause)),
        },
{
    match ignored {
        Ok(false) => Ok(()),
        Ok(true) => Err(ApiError::ChannelIgnored(channel_login.clone())),
        Err(cause) => Err(ApiError::GetChannelIgnored(cause)),
    }
}

/// The last step: the stored messages are replayed under the options of
/// the request. A failure of the store fails the request. Where the
/// listener is not joined to the channel for certain, the answer says so,
/// and still holds the messages.
pub fn respond(
    stored: Result<Vec<StoredMessage>, String>,
    options: GetRecentMessagesQueryOptions,
    is_confirmed_joined: bool,
) -> (response: Result<GetRecentMessagesResponse, ApiError>)
    ensures
        match stored {
            Ok(messages) => response matches Ok(r) && r.messages.deep_view() == replay_of(
                messages@,
                options,
            ) && if is_confirmed_joined {
                r.error is None && r.error_code is None
            } else {
                r.error.deep_view() == Some(NOT_JOINED_ERROR@) && r.error_code.deep_view() == Some(
                    NOT_JOINED_ERROR_CODE@,
                )
            },
            Err(cause) => response == Err::<GetRecentMessagesResponse, ApiError>(
                ApiError::GetMessages(cause),
            ),
        },
{
    let stored_messages = match stored {
        Ok(messages) => messages,
        Err(cause) => {
            return Err(ApiError::GetMessages(cause));
        },
    };
    let messages = export_stored_messages(stored_messages, options);
    let (error, error_code) = if is_confirmed_joined {
        (None, None)
    } else {
        (Some(NOT_JOINED_ERROR), Some(NOT_JOINED_ERROR_CODE))
    };
    Ok(GetRecentMessagesResponse { messages, error, error_code })
}

/// The follow-up of a request asks the listener to join the channel. Where
/// the join was not confirmed when the request was answered, it waits for
/// this long and asks once more; the channel's last access is noted only
/// once the join is confirmed.
pub fn join_recheck_delay(is_confirmed_joined: bool) -> (delay: Option<TimeSpan>)
    ensures
        match delay {
            Some(span) => !is_confirmed_joined && span.millis == JOIN_RECHECK_MILLIS,
            None => is_confirmed_joined,
        },
{
    if is_confirmed_joined {
        None
    } else {
        Some(TimeSpan::from_millis(JOIN_RECHECK_MILLIS))
    }
}

} // verus!
