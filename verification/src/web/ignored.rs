//! The endpoints by which a channel's owner opts out of recording, and back
//! in.

use vstd::prelude::*;
use vstd::string::*;
use crate::time::TimeSpan;
use crate::web::error::ApiError;

verus! {

/// The answer to the question whether the caller's channel is ignored.
#[derive(Debug, Clone, Copy)]
pub struct GetIgnoredResponse {
    pub ignored: bool,
}

/// The body of a request that sets the flag.
#[derive(Debug, Clone, Copy)]
pub struct SetIgnoredBodyOptions {
    pub ignored: bool,
}

/// After this time the messages of a channel that was just ignored are
/// purged a second time, to catch what arrived before the server took note
/// of the listener's `PART`.
pub const SECOND_PURGE_MILLIS: u64 = 3000;

/// One thing to do after a channel's ignored flag was stored.
#[derive(Debug, Clone, Copy, PartialEq, Eq, Structural)]
pub enum IgnoreAction {
    /// Have the listener leave the channel.
    Part,
    /// Have the listener join the channel.
    Join,
    /// Purge the channel's messages now.
    Purge,
    /// Purge the channel's messages once more after the delay.
    PurgeAfter(TimeSpan),
}

/// What is done after the flag was stored: a channel that is now ignored
/// is left and purged, at once and once more after three seconds; one that
/// is no longer ignored is joined.
pub open spec fn ignore_actions(ignored: bool) -> Seq<IgnoreAction> {
    if ignored {
        seq![
            IgnoreAction::Part,
            IgnoreAction::Purge,
            IgnoreAction::PurgeAfter(TimeSpan { millis: SECOND_PURGE_MILLIS }),
        ]
    } else {
        seq![IgnoreAction::Join]
    }
}

/// The answer to `GET /ignored` for the answer of the store.
pub fn get_ignored(is_ignored: Result<bool, String>) -> (response: Result<
    GetIgnoredResponse,
    ApiError,
>)
    ensures
        match is_ignored {
            Ok(flag) => response matches Ok(r) && r.ignored == flag,
            Err(cause) => response == Err::<GetIgnoredResponse, ApiError>(
                ApiError::GetChannelIgnored(cause),
            ),
        },
{
    match is_ignored {
        Ok(flag) => Ok(GetIgnoredResponse { ignored: flag }),
        Err(cause) => Err(ApiError::GetChannelIgnored(cause)),
    }
}

/// The flag that a `POST /ignored` asks for; a body that was not
/// understood is an error.
pub fn requested_flag(options: Option<SetIgnoredBodyOptions>) -> (flag: Result<bool, ApiError>)
    ensures
        match options {
            Some(body) => flag matches Ok(f) && f == body.ignored,
            None => flag matches Err(ApiError::InvalidPayload),
        },
{
    match options {
        Some(body) => Ok(body.ignored),
        None => Err(ApiError::InvalidPayload),
    }
}

/// What `POST /ignored` does once the store has answered: a failure to
/// store the flag fails the request and nothing else is done; otherwise
/// see [`ignore_actions`].
pub fn set_ignored(should_be_ignored: bool, stored: Result<(), String>) -> (actions: Result<
    Vec<IgnoreAction>,
    ApiError,
>)
    ensures
        match stored {
            Ok(_) => actions matches Ok(list) && list@ == ignore_actions(should_be_ignored),
            Err(cause) => actions == Err::<Vec<IgnoreAction>, ApiError>(
                ApiError::SetChannelIgnored(cause),
            ),
        },
{
    match stored {
        Ok(_) => {
            let mut list: Vec<IgnoreAction> = Vec::new();
            if should_be_ignored {
                list.push(IgnoreAction::Part);
                list.push(IgnoreAction::Purge);
                list.push(IgnoreAction::PurgeAfter(TimeSpan::from_millis(SECOND_PURGE_MILLIS)));
            } else {
                list.push(IgnoreAction::Join);
            }
            assert(list@ =~= ignore_actions(should_be_ignored));
            Ok(list)
        },
        Err(cause) => Err(ApiError::SetChannelIgnored(cause)),
    }
}

} // verus!
