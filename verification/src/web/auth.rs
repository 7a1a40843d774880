//! A user's authorization: the recorder's own access token, the upstream
//! tokens behind it, and the rules by which it is checked against the
//! upstream identity provider.

use vstd::prelude::*;
use vstd::string::*;
use crate::time::{instant_after, latest_or, saturating_after, TimeSpan};
use crate::web::error::ApiError;

verus! {

/// The tokens that the upstream identity provider issued for a user.
#[derive(Debug, Clone)]
pub struct TwitchUserAccessToken {
    pub access_token: String,
    pub refresh_token: String,
}

/// A user's authorization. Instants are in milliseconds since the Unix
/// epoch.
#[derive(Debug, Clone)]
pub struct UserAuthorization {
    /// Unique, random string identifying this authorization.
    pub access_token: String,
    pub twitch_token: TwitchUserAccessToken,
    /// When the upstream authorization was last found to be active.
    pub twitch_authorization_last_validated: i64,
    /// The authorization is valid until this instant whatever the upstream
    /// says; it has to be extended before, or it is gone for good.
    pub valid_until: i64,
    pub user_id: String,
    pub user_login: String,
    pub user_name: String,
    pub user_profile_image_url: String,
}

/// What an authorization is.
pub struct AuthorizationModel {
    pub access_token: Seq<char>,
    pub twitch_access_token: Seq<char>,
    pub twitch_refresh_token: Seq<char>,
    pub twitch_authorization_last_validated: i64,
    pub valid_until: i64,
    pub user_id: Seq<char>,
    pub user_login: Seq<char>,
    pub user_name: Seq<char>,
    pub user_profile_image_url: Seq<char>,
}

impl View for UserAuthorization {
    type V = AuthorizationModel;

    open spec fn view(&self) -> AuthorizationModel {
        AuthorizationModel {
            access_token: self.access_token@,
            twitch_access_token: self.twitch_token.access_token@,
            twitch_refresh_token: self.twitch_token.refresh_token@,
            twitch_authorization_last_validated: self.twitch_authorization_last_validated,
            valid_until: self.valid_until,
            user_id: self.user_id@,
            user_login: self.user_login@,
            user_name: self.user_name@,
            user_profile_image_url: self.user_profile_image_url@,
        }
    }
}

/// What the HTTP surface tells a user of their authorization.
#[derive(Debug, Clone)]
pub struct UserAuthorizationResponse {
    pub access_token: String,
    pub valid_until: i64,
    pub user_id: String,
    pub user_login: String,
    pub user_name: String,
    pub user_profile_image_url: String,
    pub user_details_valid_until: i64,
}

/// The answer of the upstream user probe; a list of one user is expected.
#[derive(Debug)]
pub struct HelixGetUserResponse {
    pub data: (HelixUser, ),
}

/// A user as the upstream knows them.
#[derive(Debug, Clone)]
pub struct HelixUser {
    pub id: String,
    pub login: String,
    pub display_name: String,
    pub profile_image_url: String,
}

#[derive(Debug, Clone)]
pub struct GetAuthorizationQueryOptions {
    pub code: String,
}

/// How a call to the upstream ended.
#[derive(Debug, Clone)]
pub enum UpstreamReply<T> {
    /// The upstream answered with success and the body was understood.
    Success(T),
    /// The upstream answered with an error status; `cause` tells of it.
    Status { status: u16, cause: String },
    /// The request could not be sent or no answer came; `cause` tells why.
    Transport { cause: String },
    /// The answer's body was not understood; `cause` tells why.
    Body { cause: String },
}

/// What follows from a user probe.
#[derive(Debug, Clone)]
pub enum ProbeVerdict {
    /// The upstream authorization is active.
    Valid,
    /// The upstream token was rejected: refresh it and probe once more.
    Refresh,
    /// The check failed.
    Failed(ApiError),
}

impl UserAuthorizationResponse {
    /// The response for an authorization whose user details are trusted for
    /// `user_details_valid_for` after they were last validated.
    pub fn from_auth(auth: &UserAuthorization, user_details_valid_for: TimeSpan) -> (response:
        UserAuthorizationResponse)
        ensures
            response.access_token@ == auth.access_token@,
            response.valid_until == auth.valid_until,
            response.user_id@ == auth.user_id@,
            response.user_login@ == auth.user_login@,
            response.user_name@ == auth.user_name@,
            response.user_profile_image_url@ == auth.user_profile_image_url@,
            response.user_details_valid_until == latest_or(
                instant_after(auth.twitch_authorization_last_validated as int, user_details_valid_for),
            ),
    {
        UserAuthorizationResponse {
            access_token: auth.access_token.clone(),
            valid_until: auth.valid_until,
            user_id: auth.user_id.clone(),
            user_login: auth.user_login.clone(),
            user_name: auth.user_name.clone(),
            user_profile_image_url: auth.user_profile_image_url.clone(),
            user_details_valid_until: saturating_after(
                auth.twitch_authorization_last_validated,
                user_details_valid_for,
            ),
        }
    }
}

/// Whether an authorization that was last validated at `last_validated`
/// has to be checked against the upstream at `now`: it has where more than
/// `recheck_twitch_auth_after` went by since.
pub open spec fn recheck_due(last_validated: i64, now: i64, recheck_twitch_auth_after: TimeSpan)
    -> bool {
    now - last_validated > recheck_twitch_auth_after.millis
}

/// What a successful probe makes of an authorization: it was validated at
/// `now`, and the cached profile is the one that the upstream gave: the
/// user's id, login, name and avatar.
pub open spec fn validated(auth: AuthorizationModel, user: HelixUser, now: i64)
    -> AuthorizationModel {
    AuthorizationModel {
        twitch_authorization_last_validated: now,
        user_id: user.id@,
        user_login: user.login@,
        user_name: user.display_name@,
        user_profile_image_url: user.profile_image_url@,
        ..auth
    }
}

/// What a successful refresh makes of an authorization: it holds the new
/// upstream tokens.
pub open spec fn refreshed(auth: AuthorizationModel, token: TwitchUserAccessToken)
    -> AuthorizationModel {
    AuthorizationModel {
        twitch_access_token: token.access_token@,
        twitch_refresh_token: token.refresh_token@,
        ..auth
    }
}

/// What follows from the answer of a user probe.
pub open spec fn probe_verdict(reply: UpstreamReply<HelixUser>, try_refresh_if_invalid: bool)
    -> ProbeVerdict {
    match reply {
        UpstreamReply::Success(_) => ProbeVerdict::Valid,
        UpstreamReply::Status { status, cause } => if status == 401 {
            if try_refresh_if_invalid {
                ProbeVerdict::Refresh
            } else {
                ProbeVerdict::Failed(ApiError::Unauthorized)
            }
        } else {
            ProbeVerdict::Failed(ApiError::FailedTwitchAccessTokenRefresh(cause))
        },
        UpstreamReply::Transport { cause } => ProbeVerdict::Failed(ApiError::QueryUserDetails(cause)),
        UpstreamReply::Body { cause } => ProbeVerdict::Failed(ApiError::QueryUserDetails(cause)),
    }
}

/// The authorization after the answer of a user probe made at `now`.
pub open spec fn after_probe(auth: AuthorizationModel, reply: UpstreamReply<HelixUser>, now: i64)
    -> AuthorizationModel {
    match reply {
        UpstreamReply::Success(user) => validated(auth, user, now),
        _ => auth,
    }
}

/// What follows from the answer of a token refresh.
pub open spec fn refresh_result(reply: UpstreamReply<TwitchUserAccessToken>) -> Result<
    (),
    ApiError,
> {
    match reply {
        UpstreamReply::Success(_) => Ok(()),
        UpstreamReply::Status { status, cause } => if status == 400 {
            Err(ApiError::Unauthorized)
        } else {
            Err(ApiError::FailedTwitchAccessTokenRefresh(cause))
        },
        UpstreamReply::Transport { cause } => Err(ApiError::FailedTwitchAccessTokenRefresh(cause)),
        UpstreamReply::Body { cause } => Err(ApiError::FailedTwitchAccessTokenRefresh(cause)),
    }
}

/// The authorization after the answer of a token refresh.
pub open spec fn after_refresh(auth: AuthorizationModel, reply: UpstreamReply<TwitchUserAccessToken>)
    -> AuthorizationModel {
    match reply {
        UpstreamReply::Success(token) => refreshed(auth, token),
        _ => auth,
    }
}

impl UserAuthorization {
    /// A new authorization for `user`, created at `now` and valid for
    /// `sessions_expire_after`.
    pub fn create(
        access_token: String,
        twitch_token: TwitchUserAccessToken,
        user: HelixUser,
        now: i64,
        sessions_expire_after: TimeSpan,
    ) -> (auth: UserAuthorization)
        ensures
            auth@ == (AuthorizationModel {
                access_token: access_token@,
                twitch_access_token: twitch_token.access_token@,
                twitch_refresh_token: twitch_token.refresh_token@,
                twitch_authorization_last_validated: now,
                valid_until: latest_or(instant_after(now as int, sessions_expire_after)) as i64,
                user_id: user.id@,
                user_login: user.login@,
                user_name: user.display_name@,
                user_profile_image_url: user.profile_image_url@,
            }),
    {
        UserAuthorization {
            access_token,
            twitch_token,
            twitch_authorization_last_validated: now,
            valid_until: saturating_after(now, sessions_expire_after),
            user_id: user.id,
            user_login: user.login,
            user_name: user.display_name,
            user_profile_image_url: user.profile_image_url,
        }
    }

    /// Extends the authorization at `now`: it is then valid for
    /// `sessions_expire_after` from that instant.
    pub fn extend(&mut self, now: i64, sessions_expire_after: TimeSpan)
        ensures
            final(self)@ == (AuthorizationModel {
                valid_until: latest_or(instant_after(now as int, sessions_expire_after)) as i64,
                ..old(self)@
            }),
            now + sessions_expire_after.millis <= i64::MAX ==> final(self).valid_until == now
                + sessions_expire_after.millis,
    {
        self.valid_until = saturating_after(now, sessions_expire_after);
    }

    /// Whether the authorization is still valid at `now`.
    pub fn is_valid_at(&self, now: i64) -> (valid: bool)
        ensures
            valid == (self.valid_until >= now),
    {
        self.valid_until >= now
    }

    /// Whether two authorizations are the same in every field.
    pub fn same_as(&self, other: &UserAuthorization) -> (same: bool)
        ensures
            same == (self@ == other@),
    {
        self.access_token == other.access_token && self.twitch_token.access_token
            == other.twitch_token.access_token && self.twitch_token.refresh_token
            == other.twitch_token.refresh_token && self.twitch_authorization_last_validated
            == other.twitch_authorization_last_validated && self.valid_until == other.valid_until
            && self.user_id == other.user_id && self.user_login == other.user_login
            && self.user_name == other.user_name && self.user_profile_image_url
            == other.user_profile_image_url
    }

    /// Whether the authorization has to be checked against the upstream at
    /// `now`. Between two checks the cached state is trusted.
    pub fn needs_validation(&self, now: i64, recheck_twitch_auth_after: TimeSpan) -> (due: bool)
        ensures
            due == recheck_due(
                self.twitch_authorization_last_validated,
                now,
                recheck_twitch_auth_after,
            ),
    {
        now as i128 - self.twitch_authorization_last_validated as i128
            > recheck_twitch_auth_after.millis as i128
    }

    /// Takes in the answer of a user probe that was made at `now`.
    ///
    /// A successful probe validates the authorization and updates the
    /// cached profile: the user's id, login, name and avatar. A probe that the upstream rejected with
    /// status 401 asks for a refresh where `try_refresh_if_invalid` allows
    /// one, and is `Unauthorized` where it does not. Every other failure is
    /// reported with its cause, and leaves the authorization as it was.
    pub fn probe_outcome(
        &mut self,
        reply: UpstreamReply<HelixUser>,
        now: i64,
        try_refresh_if_invalid: bool,
    ) -> (verdict: ProbeVerdict)
        ensures
            verdict == probe_verdict(reply, try_refresh_if_invalid),
            final(self)@ == after_probe(old(self)@, reply, now),
    {
        match reply {
            UpstreamReply::Success(user) => {
                self.twitch_authorization_last_validated = now;
                self.user_id = user.id;
                self.user_login = user.login;
                self.user_name = user.display_name;
                self.user_profile_image_url = user.profile_image_url;
                ProbeVerdict::Valid
            },
            UpstreamReply::Status { status, cause } => {
                if status == 401 {
                    if try_refresh_if_invalid {
                        ProbeVerdict::Refresh
                    } else {
                        ProbeVerdict::Failed(ApiError::Unauthorized)
                    }
                } else {
                    ProbeVerdict::Failed(ApiError::FailedTwitchAccessTokenRefresh(cause))
                }
            },
            UpstreamReply::Transport { cause } => ProbeVerdict::Failed(
                ApiError::QueryUserDetails(cause),
            ),
            UpstreamReply::Body { cause } => ProbeVerdict::Failed(ApiError::QueryUserDetails(cause)),
        }
    }

    /// Takes in the answer of a token refresh.
    ///
    /// A successful refresh puts the new upstream tokens in place. A
    /// refresh that the upstream rejected with status 400 means that the
    /// user has revoked the connection: `Unauthorized`. Every other failure
    /// is reported with its cause. A failure leaves the authorization as it
    /// was.
    pub fn refresh_outcome(&mut self, reply: UpstreamReply<TwitchUserAccessToken>) -> (result:
        Result<(), ApiError>)
        ensures
            result == refresh_result(reply),
            final(self)@ == after_refresh(old(self)@, reply),
    {
        match reply {
            UpstreamReply::Success(token) => {
                self.twitch_token = token;
                Ok(())
            },
            UpstreamReply::Status { status, cause } => {
                if status == 400 {
                    Err(ApiError::Unauthorized)
                } else {
                    Err(ApiError::FailedTwitchAccessTokenRefresh(cause))
                }
            },
            UpstreamReply::Transport { cause } => Err(
                ApiError::FailedTwitchAccessTokenRefresh(cause),
            ),
            UpstreamReply::Body { cause } => Err(ApiError::FailedTwitchAccessTokenRefresh(cause)),
        }
    }
}

/// Where the check of an authorization against the upstream stands.
#[derive(Debug)]
#[allow(inconsistent_fields)]
pub enum Validation {
    /// A user probe is to be sent. Where the upstream rejects the token, a
    /// refresh follows if `try_refresh_if_invalid` allows one.
    Probing { try_refresh_if_invalid: bool },
    /// A token refresh is to be sent.
    Refreshing,
    /// The check has ended.
    Done(Result<(), ApiError>),
}

/// A call to the upstream.
#[derive(Debug, Clone, Copy, PartialEq, Eq, Structural)]
pub enum UpstreamCall {
    Probe,
    Refresh,
}

/// How a check begins: with a probe that may be followed by a refresh where
/// a recheck is due, and at its end where the cached state is still
/// trusted.
pub open spec fn validation_begun(
    last_validated: i64,
    now: i64,
    recheck_twitch_auth_after: TimeSpan,
) -> Validation {
    if recheck_due(last_validated, now, recheck_twitch_auth_after) {
        Validation::Probing { try_refresh_if_invalid: true }
    } else {
        Validation::Done(Ok(()))
    }
}

/// Where the check stands after the answer to a probe. Only a check that
/// waits for a probe takes one.
pub open spec fn probe_step(state: Validation, reply: UpstreamReply<HelixUser>) -> Validation {
    match state {
        Validation::Probing { try_refresh_if_invalid } => match probe_verdict(
            reply,
            try_refresh_if_invalid,
        ) {
            ProbeVerdict::Valid => Validation::Done(Ok(())),
            ProbeVerdict::Refresh => Validation::Refreshing,
            ProbeVerdict::Failed(error) => Validation::Done(Err(error)),
        },
        _ => state,
    }
}

/// Where the check stands after the answer to a refresh: a successful
/// refresh is followed by one more probe, after which no refresh is tried
/// again. Only a check that waits for a refresh takes one.
pub open spec fn refresh_step(state: Validation, reply: UpstreamReply<TwitchUserAccessToken>)
    -> Validation {
    match state {
        Validation::Refreshing => match refresh_result(reply) {
            Ok(_) => Validation::Probing { try_refresh_if_invalid: false },
            Err(error) => Validation::Done(Err(error)),
        },
        _ => state,
    }
}

impl Validation {
    /// The call to send next; none once the check has ended.
    pub fn next_call(&self) -> (call: Option<UpstreamCall>)
        ensures
            call == match *self {
                Validation::Probing { .. } => Some(UpstreamCall::Probe),
                Validation::Refreshing => Some(UpstreamCall::Refresh),
                Validation::Done(_) => None,
            },
    {
        match self {
            Validation::Probing { .. } => Some(UpstreamCall::Probe),
            Validation::Refreshing => Some(UpstreamCall::Refresh),
            Validation::Done(_) => None,
        }
    }

    /// The outcome of the check, once it has ended.
    pub fn into_result(self) -> (result: Option<Result<(), ApiError>>)
        ensures
            result == match self {
                Validation::Done(outcome) => Some(outcome),
                _ => None,
            },
    {
        match self {
            Validation::Done(outcome) => Some(outcome),
            _ => None,
        }
    }
}

impl UserAuthorization {
    /// Begins a check against the upstream at `now`, see
    /// [`validation_begun`].
    pub fn begin_validation(&self, now: i64, recheck_twitch_auth_after: TimeSpan) -> (state:
        Validation)
        ensures
            state == validation_begun(
                self.twitch_authorization_last_validated,
                now,
                recheck_twitch_auth_after,
            ),
    {
        if self.needs_validation(now, recheck_twitch_auth_after) {
            Validation::Probing { try_refresh_if_invalid: true }
        } else {
            Validation::Done(Ok(()))
        }
    }

    /// Takes the answer to a probe that was made at `now` into the check.
    pub fn take_probe(&mut self, state: Validation, reply: UpstreamReply<HelixUser>, now: i64) -> (next:
        Validation)
        ensures
            next == probe_step(state, reply),
            final(self)@ == if state is Probing {
                after_probe(old(self)@, reply, now)
            } else {
                old(self)@
            },
    {
        match state {
            Validation::Probing { try_refresh_if_invalid } => {
                match self.probe_outcome(reply, now, try_refresh_if_invalid) {
                    ProbeVerdict::Valid => Validation::Done(Ok(())),
                    ProbeVerdict::Refresh => Validation::Refreshing,
                    ProbeVerdict::Failed(error) => Validation::Done(Err(error)),
                }
            },
            other => other,
        }
    }

    /// Takes the answer to a refresh into the check.
    pub fn take_refresh(&mut self, state: Validation, reply: UpstreamReply<TwitchUserAccessToken>) -> (next:
        Validation)
        ensures
            next == refresh_step(state, reply),
            final(self)@ == if state is Refreshing {
                after_refresh(old(self)@, reply)
            } else {
                old(self)@
            },
    {
        match state {
            Validation::Refreshing => {
                match self.refresh_outcome(reply) {
                    Ok(_) => Validation::Probing { try_refresh_if_invalid: false },
                    Err(error) => Validation::Done(Err(error)),
                }
            },
            other => other,
        }
    }
}

/// A check ends after at most two probes and one refresh: the first probe
/// ends it or asks for a refresh, the refresh ends it or asks for one more
/// probe, and that probe ends it whatever the upstream answers.
pub proof fn lemma_validation_ends(
    first_probe: UpstreamReply<HelixUser>,
    refresh: UpstreamReply<TwitchUserAccessToken>,
    second_probe: UpstreamReply<HelixUser>,
)
    ensures
        ({
            let begun = Validation::Probing { try_refresh_if_invalid: true };
            let retried = Validation::Probing { try_refresh_if_invalid: false };
            &&& probe_step(begun, first_probe) is Done || probe_step(begun, first_probe)
                == Validation::Refreshing
            &&& refresh_step(Validation::Refreshing, refresh) is Done || refresh_step(
                Validation::Refreshing,
                refresh,
            ) == retried
            &&& probe_step(retried, second_probe) is Done
            &&& (second_probe is Status && second_probe->status == 401) ==> probe_step(
                retried,
                second_probe,
            ) == Validation::Done(Err(ApiError::Unauthorized))
        }),
{
}

/// Refresh and retry: where the upstream rejects the probe with status 401,
/// the refresh gives the tokens `tokens`, and the second probe, made at
/// `now`, gives the user `user`, the check sends a probe, a refresh and a
/// probe, and ends well. The authorization then holds the new tokens and
/// the user's profile and was validated at `now`; its access token and
/// its expiry are as they were.
pub proof fn lemma_refresh_and_retry(
    auth: AuthorizationModel,
    cause: String,
    tokens: TwitchUserAccessToken,
    user: HelixUser,
    now: i64,
)
    ensures
        ({
            let rejected = UpstreamReply::<HelixUser>::Status { status: 401, cause };
            let begun = Validation::Probing { try_refresh_if_invalid: true };
            let first = probe_step(begun, rejected);
            let second = refresh_step(first, UpstreamReply::Success(tokens));
            let third = probe_step(second, UpstreamReply::Success(user));
            let after = after_probe(
                after_refresh(after_probe(auth, rejected, now), UpstreamReply::Success(tokens)),
                UpstreamReply::Success(user),
                now,
            );
            &&& first == Validation::Refreshing
            &&& second == (Validation::Probing { try_refresh_if_invalid: false })
            &&& third == Validation::Done(Ok(()))
            &&& after == (AuthorizationModel {
                twitch_access_token: tokens.access_token@,
                twitch_refresh_token: tokens.refresh_token@,
                twitch_authorization_last_validated: now,
                user_id: user.id@,
                user_login: user.login@,
                user_name: user.display_name@,
                user_profile_image_url: user.profile_image_url@,
                ..auth
            })
            &&& after.access_token == auth.access_token
            &&& after.valid_until == auth.valid_until
        }),
{
}

} // verus!
