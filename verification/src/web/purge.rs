//! The endpoint by which a channel's owner purges the channel's messages.

use vstd::prelude::*;
use crate::web::error::ApiError;

verus! {

/// The answer to `POST /purge` once the store has answered: a purge that
/// the store could not carry out fails the request, with the cause kept for
/// the log.
pub fn purge_messages(purged: Result<(), String>) -> (answer: Result<(), ApiError>)
    ensures
        answer == match purged {
            Ok(_) => Ok::<(), ApiError>(()),
            Err(cause) => Err(ApiError::PurgeMessages(cause)),
        },
{
    match purged {
        Ok(_) => Ok(()),
        Err(cause) => Err(ApiError::PurgeMessages(cause)),
    }
}

} // verus!
