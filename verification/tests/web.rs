use recent_messages2::db::StoredMessage;
use recent_messages2::time::TimeSpan;
use recent_messages2::validate;
use recent_messages2::web::auth::{
    HelixUser, ProbeVerdict, TwitchUserAccessToken, UpstreamCall, UpstreamReply,
    UserAuthorization, UserAuthorizationResponse, Validation,
};
use recent_messages2::web::auth_endpoints::{
    exchange_outcome, generate_access_token, hex_string, user_details_outcome,
};
use recent_messages2::web::auth_middleware::{
    access_token_of_request, needs_update, parse_bearer_token, stored_authorization, HeaderLookup,
};
use recent_messages2::web::error::ApiError;
use recent_messages2::web::get_recent_messages::{
    accept_request, check_not_ignored, join_recheck_delay, respond, GetRecentMessagesPath,
    GetRecentMessagesQueryOptions,
};
use recent_messages2::web::ignored::{
    get_ignored, requested_flag, set_ignored, IgnoreAction, SetIgnoredBodyOptions,
};
use recent_messages2::web::is_api_path;
use recent_messages2::web::purge::purge_messages;

fn all_errors() -> Vec<ApiError> {
    let cause = || "connection refused".to_owned();
    vec![
        ApiError::NotFound,
        ApiError::RequestTimeout,
        ApiError::MethodNotAllowed,
        ApiError::InvalidPath,
        ApiError::InvalidQuery,
        ApiError::InvalidPayload,
        ApiError::HeaderValueNotUtf8("authorization".to_owned()),
        ApiError::MissingHeader("authorization".to_owned()),
        ApiError::InvalidChannelLogin(validate::Error::TooShort { login: "".to_owned() }),
        ApiError::ChannelIgnored("chan".to_owned()),
        ApiError::InvalidAuthorizationCode,
        ApiError::MalformedAuthorizationHeader,
        ApiError::Unauthorized,
        ApiError::ExchangeCodeForAccessToken(cause()),
        ApiError::QueryUserDetails(cause()),
        ApiError::SaveUserAuthorization(cause()),
        ApiError::UpdateUserAuthorization(cause()),
        ApiError::QueryAccessToken(cause()),
        ApiError::FailedTwitchAccessTokenRefresh(cause()),
        ApiError::AuthorizationRevokeFailed(cause()),
        ApiError::GetChannelIgnored(cause()),
        ApiError::SetChannelIgnored(cause()),
        ApiError::GetMessages(cause()),
        ApiError::PurgeMessages(cause()),
    ]
}

#[test]
fn every_error_has_its_status_and_code() {
    let expected: Vec<(u16, &str)> = vec![
        (404, "not_found"),
        (408, "request_timeout"),
        (405, "method_not_allowed"),
        (400, "invalid_path"),
        (400, "invalid_query"),
        (400, "invalid_payload"),
        (400, "header_value_not_utf8"),
        (400, "missing_header"),
        (400, "invalid_channel_login"),
        (403, "channel_ignored"),
        (400, "invalid_authorization_code"),
        (400, "malformed_authorization_header"),
        (401, "unauthorized"),
        (500, "internal_server_error"),
        (500, "internal_server_error"),
        (500, "internal_server_error"),
        (500, "internal_server_error"),
        (500, "internal_server_error"),
        (500, "internal_server_error"),
        (500, "internal_server_error"),
        (500, "internal_server_error"),
        (500, "internal_server_error"),
        (500, "internal_server_error"),
        (500, "internal_server_error"),
    ];
    let errors = all_errors();
    assert_eq!(errors.len(), expected.len());
    for (error, (status, code)) in errors.iter().zip(expected) {
        assert_eq!(error.status_code(), status, "{:?}", error);
        assert_eq!(error.error_code(), code, "{:?}", error);
        assert_eq!(error.is_internal(), status == 500);
    }
}

#[test]
fn an_internal_cause_is_logged_and_not_shown() {
    for error in all_errors() {
        if error.is_internal() {
            assert_eq!(error.user_message(), "Internal Server Error");
            assert!(error.to_string().ends_with(": connection refused"));
        } else {
            assert_eq!(error.user_message(), error.to_string());
        }
    }
}

#[test]
fn api_errors_are_written_as_sentences() {
    assert_eq!(ApiError::NotFound.to_string(), "Not Found");
    assert_eq!(ApiError::InvalidQuery.to_string(), "Invalid or missing query parameters");
    assert_eq!(
        ApiError::HeaderValueNotUtf8("authorization".to_owned()).to_string(),
        "Header value for Header `authorization` was not valid UTF-8"
    );
    assert_eq!(
        ApiError::MissingHeader("authorization".to_owned()).to_string(),
        "Missing header `authorization`"
    );
    assert_eq!(
        ApiError::ChannelIgnored("chan".to_owned()).user_message(),
        "The channel login `chan` is excluded from this service"
    );
    assert_eq!(
        ApiError::InvalidChannelLogin(validate::Error::TooShort { login: "".to_owned() }).user_message(),
        "Invalid channel login: Invalid login name ``: Login name is too short (must be at least one character long)"
    );
    assert_eq!(
        ApiError::Unauthorized.user_message(),
        "Unauthorized (access token expired or invalid)"
    );
    assert_eq!(
        ApiError::GetMessages("pool timed out".to_owned()).to_string(),
        "Failed get a channel's messages: pool timed out"
    );
    assert_eq!(
        ApiError::FailedTwitchAccessTokenRefresh("502".to_owned()).to_string(),
        "Failed to refresh Twitch OAuth access token: 502"
    );
}

#[test]
fn bytes_are_written_in_lower_case_hexadecimal() {
    assert_eq!(hex_string(&vec![]), "");
    assert_eq!(hex_string(&vec![0x00, 0xff, 0x0a, 0xa0, 0x12]), "00ff0aa012");
    let bytes: Vec<u8> = (0..64).collect();
    let token = hex_string(&bytes);
    assert_eq!(token.len(), 128);
    assert!(token.starts_with("000102030405060708090a0b0c0d0e0f10"));
    assert!(token.ends_with("3c3d3e3f"));
}

#[test]
fn a_fresh_access_token_has_128_hexadecimal_digits() {
    let first = generate_access_token();
    let second = generate_access_token();
    for token in [&first, &second] {
        assert_eq!(token.len(), 128);
        assert!(token.chars().all(|c| matches!(c, '0'..='9' | 'a'..='f')));
        assert_eq!(parse_bearer_token(&format!("Bearer {}", token)).as_deref(), Some(token.as_str()));
    }
    assert_ne!(first, second);
}

#[test]
fn the_header_has_to_be_bearer_and_a_token() {
    let token = "0123456789abcdef".repeat(8);
    assert_eq!(parse_bearer_token(&format!("Bearer {}", token)), Some(token.clone()));
    assert_eq!(parse_bearer_token(&format!("bearer {}", token)), None);
    assert_eq!(parse_bearer_token(&format!("Bearer  {}", &token[1..])), None);
    assert_eq!(parse_bearer_token(&format!("Bearer {}", &token[1..])), None);
    assert_eq!(parse_bearer_token(&format!("Bearer {}0", token)), None);
    assert_eq!(parse_bearer_token(&format!("Bearer {}\n", token)), None);
    assert_eq!(parse_bearer_token(&format!(" Bearer {}", &token[1..])), None);
    assert_eq!(parse_bearer_token(&format!("Bearer {}", token.to_uppercase())), None);
    assert_eq!(parse_bearer_token(&format!("Bearer {}g", &token[1..])), None);
    assert_eq!(parse_bearer_token(&format!("Bearer {}\u{e9}", &token[1..])), None);
    assert_eq!(parse_bearer_token("Bearer "), None);
    assert_eq!(parse_bearer_token(""), None);
}

#[test]
fn a_request_without_a_token_is_told_why() {
    let token = "ab".repeat(64);
    assert!(matches!(
        access_token_of_request(&HeaderLookup::Missing),
        Err(ApiError::MissingHeader(name)) if name == "authorization"
    ));
    assert!(matches!(
        access_token_of_request(&HeaderLookup::NotUtf8),
        Err(ApiError::HeaderValueNotUtf8(name)) if name == "authorization"
    ));
    assert!(matches!(
        access_token_of_request(&HeaderLookup::Value("Basic abc".to_owned())),
        Err(ApiError::MalformedAuthorizationHeader)
    ));
    assert!(matches!(
        access_token_of_request(&HeaderLookup::Value(format!("Bearer {}", token))),
        Ok(found) if found == token
    ));
}

fn authorization() -> UserAuthorization {
    UserAuthorization::create(
        "ab".repeat(64),
        TwitchUserAccessToken { access_token: "up".to_owned(), refresh_token: "re".to_owned() },
        HelixUser {
            id: "42".to_owned(),
            login: "alice".to_owned(),
            display_name: "Alice".to_owned(),
            profile_image_url: "https://example.com/a.png".to_owned(),
        },
        1_000,
        TimeSpan::from_secs(7 * 24 * 60 * 60),
    )
}

#[test]
fn a_new_authorization_is_valid_for_the_life_of_a_session() {
    let auth = authorization();
    assert_eq!(auth.twitch_authorization_last_validated, 1_000);
    assert_eq!(auth.valid_until, 1_000 + 604_800_000);
    assert_eq!(auth.user_id, "42");
    assert_eq!(auth.user_login, "alice");
    assert_eq!(auth.user_name, "Alice");
    assert_eq!(auth.user_profile_image_url, "https://example.com/a.png");
    assert!(auth.is_valid_at(1_000 + 604_800_000));
    assert!(!auth.is_valid_at(1_001 + 604_800_000));

    let response = UserAuthorizationResponse::from_auth(&auth, TimeSpan::from_secs(3600));
    assert_eq!(response.access_token, auth.access_token);
    assert_eq!(response.valid_until, auth.valid_until);
    assert_eq!(response.user_details_valid_until, 1_000 + 3_600_000);
    assert_eq!(response.user_login, "alice");
}

#[test]
fn instants_that_cannot_be_written_are_held_at_the_latest() {
    let mut auth = authorization();
    auth.extend(i64::MAX - 5, TimeSpan::from_millis(10));
    assert_eq!(auth.valid_until, i64::MAX);
    auth.extend(-5, TimeSpan::from_millis(u64::MAX));
    assert_eq!(auth.valid_until, i64::MAX);
    auth.extend(i64::MIN, TimeSpan::from_millis(u64::MAX));
    assert_eq!(auth.valid_until, i64::MAX);
    auth.extend(i64::MIN, TimeSpan::from_millis(5));
    assert_eq!(auth.valid_until, i64::MIN + 5);
}

#[test]
fn the_upstream_is_asked_again_only_after_the_recheck_time() {
    let auth = authorization();
    let hour = TimeSpan::from_secs(3600);
    assert!(!auth.needs_validation(1_000, hour));
    assert!(!auth.needs_validation(1_000 + 3_600_000, hour));
    assert!(auth.needs_validation(1_001 + 3_600_000, hour));
    assert!(!auth.needs_validation(0, hour));
    assert!(!auth.needs_validation(i64::MIN, hour));
    assert!(auth.needs_validation(i64::MAX, TimeSpan::from_millis(u64::MAX / 4)));
}

fn renamed_user() -> HelixUser {
    HelixUser {
        id: "42".to_owned(),
        login: "alice_new".to_owned(),
        display_name: "AliceNew".to_owned(),
        profile_image_url: "https://example.com/new.png".to_owned(),
    }
}

#[test]
fn a_rejected_probe_is_followed_by_one_refresh_and_one_more_probe() {
    let mut auth = authorization();
    let before = auth.clone();
    let now = 1_000 + 2 * 3_600_000;
    assert!(auth.needs_validation(now, TimeSpan::from_secs(3600)));

    let rejected = UpstreamReply::Status { status: 401, cause: "401 Unauthorized".to_owned() };
    assert!(matches!(auth.probe_outcome(rejected, now, true), ProbeVerdict::Refresh));
    assert!(auth.same_as(&before));

    let refreshed = UpstreamReply::Success(TwitchUserAccessToken {
        access_token: "up2".to_owned(),
        refresh_token: "re2".to_owned(),
    });
    assert!(auth.refresh_outcome(refreshed).is_ok());
    assert_eq!(auth.twitch_token.access_token, "up2");
    assert_eq!(auth.twitch_token.refresh_token, "re2");

    assert!(matches!(
        auth.probe_outcome(UpstreamReply::Success(renamed_user()), now + 7, false),
        ProbeVerdict::Valid
    ));
    assert_eq!(auth.twitch_authorization_last_validated, now + 7);
    assert_eq!(auth.user_login, "alice_new");
    assert_eq!(auth.user_id, "42");
    assert_eq!(auth.user_name, "AliceNew");
    assert_eq!(auth.user_profile_image_url, "https://example.com/new.png");
    assert_eq!(auth.access_token, before.access_token);
    assert_eq!(auth.valid_until, before.valid_until);
    assert!(needs_update(&before, &auth));
    assert!(!needs_update(&auth, &auth.clone()));
    assert!(!auth.needs_validation(now + 8, TimeSpan::from_secs(3600)));
}

#[test]
fn a_second_rejection_is_unauthorized() {
    let mut auth = authorization();
    let rejected = || UpstreamReply::Status { status: 401, cause: "401".to_owned() };
    assert!(matches!(
        auth.probe_outcome(rejected(), 5, false),
        ProbeVerdict::Failed(ApiError::Unauthorized)
    ));
    assert!(matches!(
        auth.refresh_outcome(UpstreamReply::Status { status: 400, cause: "400".to_owned() }),
        Err(ApiError::Unauthorized)
    ));
    assert!(auth.same_as(&authorization()));
}

#[test]
fn other_upstream_failures_are_internal() {
    let mut auth = authorization();
    assert!(matches!(
        auth.probe_outcome(UpstreamReply::Status { status: 503, cause: "503".to_owned() }, 5, true),
        ProbeVerdict::Failed(ApiError::FailedTwitchAccessTokenRefresh(cause)) if cause == "503"
    ));
    assert!(matches!(
        auth.probe_outcome(UpstreamReply::Transport { cause: "dns".to_owned() }, 5, true),
        ProbeVerdict::Failed(ApiError::QueryUserDetails(cause)) if cause == "dns"
    ));
    assert!(matches!(
        auth.probe_outcome(UpstreamReply::Body { cause: "json".to_owned() }, 5, true),
        ProbeVerdict::Failed(ApiError::QueryUserDetails(cause)) if cause == "json"
    ));
    assert!(matches!(
        auth.refresh_outcome(UpstreamReply::Status { status: 401, cause: "401".to_owned() }),
        Err(ApiError::FailedTwitchAccessTokenRefresh(cause)) if cause == "401"
    ));
    assert!(matches!(
        auth.refresh_outcome(UpstreamReply::Transport { cause: "dns".to_owned() }),
        Err(ApiError::FailedTwitchAccessTokenRefresh(cause)) if cause == "dns"
    ));
    assert!(matches!(
        auth.refresh_outcome(UpstreamReply::Body { cause: "json".to_owned() }),
        Err(ApiError::FailedTwitchAccessTokenRefresh(cause)) if cause == "json"
    ));
    assert!(auth.same_as(&authorization()));
}

#[test]
fn a_code_that_the_upstream_rejects_is_not_valid() {
    let token = TwitchUserAccessToken { access_token: "a".to_owned(), refresh_token: "r".to_owned() };
    assert!(matches!(exchange_outcome(UpstreamReply::Success(token)), Ok(t) if t.access_token == "a"));
    assert!(matches!(
        exchange_outcome(UpstreamReply::Status { status: 400, cause: "400".to_owned() }),
        Err(ApiError::InvalidAuthorizationCode)
    ));
    assert!(matches!(
        exchange_outcome(UpstreamReply::Status { status: 500, cause: "500".to_owned() }),
        Err(ApiError::ExchangeCodeForAccessToken(cause)) if cause == "500"
    ));
    assert!(matches!(
        exchange_outcome(UpstreamReply::Transport { cause: "dns".to_owned() }),
        Err(ApiError::ExchangeCodeForAccessToken(_))
    ));
    assert!(matches!(
        exchange_outcome(UpstreamReply::Body { cause: "json".to_owned() }),
        Err(ApiError::ExchangeCodeForAccessToken(_))
    ));
    assert!(matches!(user_details_outcome(UpstreamReply::Success(renamed_user())), Ok(u) if u.id == "42"));
    assert!(matches!(
        user_details_outcome(UpstreamReply::Status { status: 401, cause: "401".to_owned() }),
        Err(ApiError::QueryUserDetails(cause)) if cause == "401"
    ));
    assert!(matches!(
        user_details_outcome(UpstreamReply::Transport { cause: "dns".to_owned() }),
        Err(ApiError::QueryUserDetails(_))
    ));
    assert!(matches!(
        user_details_outcome(UpstreamReply::Body { cause: "json".to_owned() }),
        Err(ApiError::QueryUserDetails(_))
    ));
}

#[test]
fn a_token_that_the_store_does_not_hold_is_unauthorized() {
    assert!(matches!(stored_authorization(Ok(None)), Err(ApiError::Unauthorized)));
    assert!(matches!(
        stored_authorization(Err("pool".to_owned())),
        Err(ApiError::QueryAccessToken(cause)) if cause == "pool"
    ));
    assert!(matches!(stored_authorization(Ok(Some(authorization()))), Ok(a) if a.user_id == "42"));
}

#[test]
fn a_request_needs_a_path_a_query_and_a_valid_login() {
    let path = |login: &str| Some(GetRecentMessagesPath { channel_login: login.to_owned() });
    let query = Some(GetRecentMessagesQueryOptions { limit: Some(5), ..Default::default() });
    assert!(matches!(accept_request(None, query), Err(ApiError::InvalidPath)));
    assert!(matches!(accept_request(None, None), Err(ApiError::InvalidPath)));
    assert!(matches!(accept_request(path("chan"), None), Err(ApiError::InvalidQuery)));
    assert!(matches!(
        accept_request(path("Chan"), query),
        Err(ApiError::InvalidChannelLogin(validate::Error::InvalidCharacter { position: 0, character: 'C', .. }))
    ));
    assert!(matches!(
        accept_request(path(""), query),
        Err(ApiError::InvalidChannelLogin(validate::Error::TooShort { .. }))
    ));
    let (login, options) = accept_request(path("chan"), query).unwrap();
    assert_eq!(login, "chan");
    assert_eq!(options.limit, Some(5));
}

#[test]
fn an_ignored_channel_is_not_read() {
    let login = "chan".to_owned();
    assert!(check_not_ignored(&login, Ok(false)).is_ok());
    assert!(matches!(
        check_not_ignored(&login, Ok(true)),
        Err(ApiError::ChannelIgnored(l)) if l == "chan"
    ));
    let failed = check_not_ignored(&login, Err("pool".to_owned())).unwrap_err();
    assert_eq!(failed.status_code(), 500);
    assert!(matches!(failed, ApiError::GetChannelIgnored(cause) if cause == "pool"));
    assert_eq!(ApiError::ChannelIgnored(login).status_code(), 403);
}

#[test]
fn the_answer_tells_when_the_listener_is_not_joined() {
    let stored = || {
        Ok(vec![StoredMessage {
            time_received: 9,
            message_source: "@room-id=1 :tmi.twitch.tv ROOMSTATE #chan".to_owned(),
        }])
    };
    let joined = respond(stored(), Default::default(), true).unwrap();
    assert_eq!(joined.messages, vec!["@historical=1;rm-received-ts=9;room-id=1 :tmi.twitch.tv ROOMSTATE #chan".to_owned()]);
    assert_eq!(joined.error, None);
    assert_eq!(joined.error_code, None);
    let not_joined = respond(stored(), Default::default(), false).unwrap();
    assert_eq!(not_joined.messages, joined.messages);
    assert_eq!(
        not_joined.error,
        Some("The bot is currently not joined to this channel (in progress or failed previously)")
    );
    assert_eq!(not_joined.error_code, Some("channel_not_joined"));
    assert!(matches!(
        respond(Err("pool".to_owned()), Default::default(), true),
        Err(ApiError::GetMessages(cause)) if cause == "pool"
    ));
    assert_eq!(join_recheck_delay(true), None);
    assert_eq!(join_recheck_delay(false), Some(TimeSpan::from_secs(5)));
}

#[test]
fn ignoring_a_channel_parts_and_purges_twice() {
    assert_eq!(
        set_ignored(true, Ok(())).unwrap(),
        vec![
            IgnoreAction::Part,
            IgnoreAction::Purge,
            IgnoreAction::PurgeAfter(TimeSpan::from_secs(3)),
        ]
    );
    assert_eq!(set_ignored(false, Ok(())).unwrap(), vec![IgnoreAction::Join]);
    assert!(matches!(
        set_ignored(true, Err("pool".to_owned())),
        Err(ApiError::SetChannelIgnored(cause)) if cause == "pool"
    ));
    assert!(matches!(requested_flag(None), Err(ApiError::InvalidPayload)));
    assert!(matches!(requested_flag(Some(SetIgnoredBodyOptions { ignored: true })), Ok(true)));
    assert!(matches!(requested_flag(Some(SetIgnoredBodyOptions { ignored: false })), Ok(false)));
    assert!(matches!(get_ignored(Ok(true)), Ok(r) if r.ignored));
    assert!(matches!(get_ignored(Ok(false)), Ok(r) if !r.ignored));
    assert!(matches!(get_ignored(Err("pool".to_owned())), Err(ApiError::GetChannelIgnored(_))));
}

#[test]
fn paths_under_the_prefix_belong_to_the_api() {
    assert!(is_api_path("/api/v2"));
    assert!(is_api_path("/api/v2/"));
    assert!(is_api_path("/api/v2/recent-messages/chan"));
    assert!(is_api_path("/api/v2//"));
    assert!(!is_api_path("/api/v2x"));
    assert!(!is_api_path("/api/v"));
    assert!(!is_api_path("/api/v1/recent-messages/chan"));
    assert!(!is_api_path("/API/V2/"));
    assert!(!is_api_path("/"));
    assert!(!is_api_path(""));
    assert!(!is_api_path("/index.html"));
    assert!(!is_api_path("x/api/v2/"));
}

#[test]
fn a_failed_purge_fails_the_request() {
    assert!(purge_messages(Ok(())).is_ok());
    let failed = purge_messages(Err("pool".to_owned())).unwrap_err();
    assert_eq!(failed.status_code(), 500);
    assert_eq!(failed.error_code(), "internal_server_error");
    assert!(matches!(failed, ApiError::PurgeMessages(cause) if cause == "pool"));
}

/// Runs a check against an upstream that gives the answers in turn, and
/// counts the calls.
fn run_validation(
    auth: &mut UserAuthorization,
    now: i64,
    mut probes: Vec<UpstreamReply<HelixUser>>,
    mut refreshes: Vec<UpstreamReply<TwitchUserAccessToken>>,
) -> (Result<(), ApiError>, usize, usize) {
    probes.reverse();
    refreshes.reverse();
    let (mut probed, mut refreshed) = (0, 0);
    let mut state = auth.begin_validation(now, TimeSpan::from_secs(3600));
    while let Some(call) = state.next_call() {
        state = match call {
            UpstreamCall::Probe => {
                probed += 1;
                auth.take_probe(state, probes.pop().unwrap(), now)
            }
            UpstreamCall::Refresh => {
                refreshed += 1;
                auth.take_refresh(state, refreshes.pop().unwrap())
            }
        };
    }
    (state.into_result().unwrap(), probed, refreshed)
}

#[test]
fn a_check_with_refresh_sends_two_probes_and_one_refresh() {
    let mut auth = authorization();
    let before = auth.clone();
    let now = 1_000 + 2 * 3_600_000;
    let rejected = || UpstreamReply::Status { status: 401, cause: "401".to_owned() };
    let tokens = TwitchUserAccessToken { access_token: "up2".to_owned(), refresh_token: "re2".to_owned() };
    let (outcome, probed, refreshed) = run_validation(
        &mut auth,
        now,
        vec![rejected(), UpstreamReply::Success(renamed_user())],
        vec![UpstreamReply::Success(tokens)],
    );
    assert!(outcome.is_ok());
    assert_eq!((probed, refreshed), (2, 1));
    assert_eq!(auth.twitch_token.access_token, "up2");
    assert_eq!(auth.twitch_token.refresh_token, "re2");
    assert_eq!(auth.user_id, "42");
    assert_eq!(auth.user_login, "alice_new");
    assert_eq!(auth.user_name, "AliceNew");
    assert_eq!(auth.user_profile_image_url, "https://example.com/new.png");
    assert_eq!(auth.twitch_authorization_last_validated, now);
    assert!(auth.twitch_authorization_last_validated >= before.twitch_authorization_last_validated);
    assert_eq!(auth.access_token, before.access_token);
    assert_eq!(auth.valid_until, before.valid_until);

    // Within the recheck time the upstream is not asked again.
    let (outcome, probed, refreshed) = run_validation(&mut auth, now + 5, vec![], vec![]);
    assert!(outcome.is_ok());
    assert_eq!((probed, refreshed), (0, 0));
}

#[test]
fn a_check_never_refreshes_twice() {
    let rejected = || UpstreamReply::Status { status: 401, cause: "401".to_owned() };
    let tokens = TwitchUserAccessToken { access_token: "up2".to_owned(), refresh_token: "re2".to_owned() };
    let mut auth = authorization();
    let (outcome, probed, refreshed) = run_validation(
        &mut auth,
        i64::MAX,
        vec![rejected(), rejected()],
        vec![UpstreamReply::Success(tokens)],
    );
    assert!(matches!(outcome, Err(ApiError::Unauthorized)));
    assert_eq!((probed, refreshed), (2, 1));

    let mut auth = authorization();
    let (outcome, probed, refreshed) = run_validation(
        &mut auth,
        i64::MAX,
        vec![rejected()],
        vec![UpstreamReply::Status { status: 400, cause: "400".to_owned() }],
    );
    assert!(matches!(outcome, Err(ApiError::Unauthorized)));
    assert_eq!((probed, refreshed), (1, 1));
    assert!(auth.same_as(&authorization()));

    let mut auth = authorization();
    let (outcome, probed, refreshed) = run_validation(
        &mut auth,
        i64::MAX,
        vec![UpstreamReply::Transport { cause: "dns".to_owned() }],
        vec![],
    );
    assert!(matches!(outcome, Err(ApiError::QueryUserDetails(_))));
    assert_eq!((probed, refreshed), (1, 0));

    // An answer that the check does not wait for changes nothing.
    let mut auth = authorization();
    let state = auth.take_refresh(
        Validation::Probing { try_refresh_if_invalid: true },
        UpstreamReply::Success(TwitchUserAccessToken {
            access_token: "x".to_owned(),
            refresh_token: "y".to_owned(),
        }),
    );
    assert!(matches!(state, Validation::Probing { try_refresh_if_invalid: true }));
    assert!(auth.same_as(&authorization()));
    let state = auth.take_probe(Validation::Done(Ok(())), UpstreamReply::Success(renamed_user()), 9);
    assert!(matches!(state.into_result(), Some(Ok(()))));
    assert!(auth.same_as(&authorization()));
}

#[test]
fn an_extended_token_is_valid_for_a_session_from_now() {
    let week = TimeSpan::from_secs(7 * 24 * 60 * 60);
    let mut auth = authorization();
    let before = auth.clone();
    auth.extend(50_000, week);
    assert_eq!(auth.valid_until, 50_000 + 604_800_000);
    assert!(auth.valid_until >= before.valid_until);
    let response = UserAuthorizationResponse::from_auth(&auth, TimeSpan::from_secs(3600));
    assert_eq!(response.valid_until, 50_000 + 604_800_000);
    auth.valid_until = before.valid_until;
    assert!(auth.same_as(&before));
}
