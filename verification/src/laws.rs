//! What holds of the operations of the library, over what goes into them and what
//! comes out.
use axum_extra::extract::cookie::PrivateCookieJar;
use vstd::prelude::*;

use crate::activity_tracker;
use crate::activity_tracker::{ActivityTracker, ServerState, WatchdogAction, WatchdogEvent};
use crate::auth;
use crate::auth::{
    google, ErrorResponse, OAuthRedirectQueryParams, OauthClient, OauthClientError,
    OauthStaticConfig, Providers, StatusCode, TokenResponse,
};
use crate::cipher;
use crate::cookie_jar;
use crate::keys;
use crate::keys::{MasterKey, MasterKeyError};
use crate::oauth;
use crate::offset_date_time::OffsetDateTime;
use crate::state::{
    AppState, GetTokenError, LoadedState, StateFileError, TokenLookup, TokenState, UnknownProvider,
};
use crate::text;
use crate::timestamp;
use crate::timestamp::Timestamp;

verus! {

/// A connection that opens makes the number of open connections larger by one.
pub proof fn law_opening_adds_one(tracker: &mut ActivityTracker)
    requires
        old(tracker).spec_state().well_formed(),
        call_ensures(ActivityTracker::increment, (tracker,), ()),
    ensures
        match old(tracker).spec_state() {
            ServerState::Idle { .. } => final(tracker).spec_state() == (ServerState::Active {
                connections: 1,
            }),
            ServerState::Active { connections } => {
                connections < usize::MAX ==> final(tracker).spec_state() == (ServerState::Active {
                    connections: (connections + 1) as usize,
                })
            },
        },
        final(tracker).spec_idle_timeout() == old(tracker).spec_idle_timeout(),
        final(tracker).spec_start() == old(tracker).spec_start(),
{
}

/// A connection that closes makes the number of open connections smaller by one. The
/// last one leaves the server idle since the time that the clock shows, and only then
/// is the watchdog notified.
pub proof fn law_closing_takes_one_away(tracker: &mut ActivityTracker, notify: bool)
    requires
        old(tracker).spec_state().well_formed(),
        old(tracker).spec_state() is Active,
        call_ensures(ActivityTracker::decrement, (tracker,), notify),
    ensures
        ({
            let connections = old(tracker).spec_state()->connections;
            let state = final(tracker).spec_state();
            &&& notify <==> connections == 1
            &&& notify ==> state is Idle && activity_tracker::clock_shows(
                old(tracker).spec_start(),
                state->since,
            )
            &&& !notify ==> state == (ServerState::Active { connections: (connections - 1) as usize })
        }),
        final(tracker).spec_idle_timeout() == old(tracker).spec_idle_timeout(),
        final(tracker).spec_start() == old(tracker).spec_start(),
{
}

/// After the last connection has closed, the watchdog waits for the whole timeout from
/// the time that the clock showed at its end.
pub proof fn law_timeout_runs_from_the_last_close(
    tracker: &mut ActivityTracker,
    notify: bool,
    action: WatchdogAction,
)
    requires
        old(tracker).spec_state().well_formed(),
        old(tracker).spec_state() is Active,
        call_ensures(ActivityTracker::decrement, (tracker,), notify),
        notify,
        call_ensures(
            activity_tracker::watchdog,
            (final(tracker), WatchdogEvent::Look),
            action,
        ),
    ensures
        action is WaitUntil,
        exists|now: u128|
            {
                &&& #[trigger] activity_tracker::clock_shows(old(tracker).spec_start(), now)
                &&& action->deadline == now + old(tracker).spec_idle_timeout()
            },
{
    assert(activity_tracker::clock_shows(
        old(tracker).spec_start(),
        final(tracker).spec_state()->since,
    ));
}

/// The same for a connection that closes at a given time.
pub proof fn law_timeout_runs_from_a_given_close(
    tracker: &mut ActivityTracker,
    now: u128,
    notify: bool,
    action: WatchdogAction,
)
    requires
        old(tracker).spec_state() == (ServerState::Active { connections: 1 }),
        call_ensures(ActivityTracker::decrement_at, (tracker, now), notify),
        call_ensures(
            activity_tracker::watchdog,
            (final(tracker), WatchdogEvent::Look),
            action,
        ),
    ensures
        notify,
        final(tracker).spec_state() == (ServerState::Idle { since: now }),
        action is WaitUntil,
        action->deadline == now + old(tracker).spec_idle_timeout(),
{
}

/// The watchdog shuts down only an idle server, and only when its deadline has passed.
pub proof fn law_watchdog_decides(
    tracker: ActivityTracker,
    event: WatchdogEvent,
    action: WatchdogAction,
)
    requires
        call_ensures(activity_tracker::watchdog, (&tracker, event), action),
    ensures
        action is Shutdown <==> tracker.spec_state() is Idle && event is TimedOut,
        action is WaitUntil <==> tracker.spec_state() is Idle && event is Look,
        action is Wait <==> tracker.spec_state() is Active && event is Look,
        action is LookAgain <==> tracker.spec_state() is Active && event is TimedOut,
        action is WaitUntil ==> action->deadline == tracker.spec_state()->since
            + tracker.spec_idle_timeout(),
{
}

/// The URL that a provider's configuration and a state token make.
pub open spec fn configured_url(
    client: OauthClient,
    config: OauthStaticConfig,
    token: Seq<char>,
) -> Seq<char> {
    oauth::authorization_url(
        client@.auth_url,
        client@.client_id,
        client@.redirect_url,
        Seq::new(config.scope@.len(), |i: int| config.scope@[i]@),
        Seq::new(config.extra@.len(), |i: int| (config.extra@[i].0@, config.extra@[i].1@)),
        token,
    )
}

/// With any state token, starting to sign in leads to the URL of the provider's whole
/// configuration and that token, and remembers the token.
pub proof fn law_given_token_is_sent(
    provider: &str,
    providers: Providers,
    jar: PrivateCookieJar,
    token: String,
    sent: Result<(PrivateCookieJar, String), StatusCode>,
)
    requires
        call_ensures(auth::start_auth_with, (provider, &providers, jar, token), sent),
    ensures
        sent is Ok <==> providers@.contains_key(provider@),
        sent is Err ==> sent->Err_0 is NotFound,
        sent is Ok ==> {
            let (client, config) = providers@[provider@];
            &&& sent->Ok_0.1@ == configured_url(client, config, token@)
            &&& cookie_jar::cookie_value(sent->Ok_0.0, "oauth_state__"@ + provider@) == Some(token@)
        },
{
    auth::laws::law_sign_in_starts_as_configured(provider@, providers@, jar, token@, sent);
}

/// Starting to sign in draws a token, leads to the URL of the provider's whole
/// configuration and that very token, and remembers it.
pub proof fn law_drawn_token_is_sent(
    provider: &str,
    providers: Providers,
    jar: PrivateCookieJar,
    sent: Result<(PrivateCookieJar, String), StatusCode>,
)
    requires
        call_ensures(auth::start_auth, (provider, &providers, jar), sent),
    ensures
        sent is Ok <==> providers@.contains_key(provider@),
        sent is Err ==> sent->Err_0 is NotFound,
        sent is Ok ==> {
            let (client, config) = providers@[provider@];
            let token = cookie_jar::cookie_value(sent->Ok_0.0, "oauth_state__"@ + provider@);
            &&& token is Some
            &&& oauth::csrf_token_drawn(token->0)
            &&& sent->Ok_0.1@ == configured_url(client, config, token->0)
        },
{
    let token = choose|token: Seq<char>|
        {
            &&& oauth::csrf_token_shape(token)
            &&& oauth::csrf_token_drawn(token)
            &&& #[trigger] auth::started(provider@, providers@, jar, token, sent)
        };
    auth::laws::law_sign_in_starts_as_configured(provider@, providers@, jar, token, sent);
}

/// Starting to sign in at Google draws a token, and asks for YouTube and a refresh token
/// with that very token, which is remembered.
pub proof fn law_google_is_asked_with_a_drawn_token(
    client: google::GoogleOauthClient,
    jar: PrivateCookieJar,
    sent: (PrivateCookieJar, String),
)
    requires
        call_ensures(google::start_youtube_oauth, (&client, jar), sent),
    ensures
        ({
            let token = cookie_jar::cookie_value(sent.0, "oauth_state"@);
            &&& token is Some
            &&& oauth::csrf_token_drawn(token->0)
            &&& sent.1@ == oauth::authorization_url(
                client@.auth_url,
                client@.client_id,
                client@.redirect_url,
                seq![
                    "https://www.googleapis.com/auth/youtube.readonly"@,
                    "https://www.googleapis.com/auth/youtube"@,
                ],
                seq![("access_type"@, "offline"@), ("prompt"@, "consent"@)],
                token->0,
            )
        }),
{
    let token = choose|token: Seq<char>|
        {
            &&& oauth::csrf_token_shape(token)
            &&& oauth::csrf_token_drawn(token)
            &&& #[trigger] google::started(client@, jar, token, sent)
        };
    auth::laws::law_google_is_asked_for_a_refresh_token(client@, jar, token, sent);
}

/// The same with a given token.
pub proof fn law_google_is_asked_with_a_given_token(
    client: google::GoogleOauthClient,
    jar: PrivateCookieJar,
    token: String,
    sent: (PrivateCookieJar, String),
)
    requires
        call_ensures(google::start_youtube_oauth_with, (&client, jar, token), sent),
    ensures
        cookie_jar::cookie_value(sent.0, "oauth_state"@) == Some(token@),
        sent.1@ == oauth::authorization_url(
            client@.auth_url,
            client@.client_id,
            client@.redirect_url,
            seq![
                "https://www.googleapis.com/auth/youtube.readonly"@,
                "https://www.googleapis.com/auth/youtube"@,
            ],
            seq![("access_type"@, "offline"@), ("prompt"@, "consent"@)],
            token@,
        ),
{
    auth::laws::law_google_is_asked_for_a_refresh_token(client@, jar, token@, sent);
}

/// A redirect is taken up exactly if it carries a code along with the token that the
/// provider's cookie holds, and the provider is known. What comes out is that code, and
/// the client of that provider.
pub proof fn law_matching_redirect_is_taken_up<'a>(
    provider: &str,
    code: String,
    state: String,
    providers: &'a Providers,
    jar: PrivateCookieJar,
    result: Result<(&'a OauthClient, String), ErrorResponse>,
)
    requires
        call_ensures(
            auth::complete_auth,
            (provider, OAuthRedirectQueryParams::Success { code, state }, providers, &jar),
            result,
        ),
    ensures
        ({
            let matching = cookie_jar::cookie_value(jar, "oauth_state__"@ + provider@) == Some(
                state@,
            );
            let known = providers@.contains_key(provider@);
            &&& result is Ok <==> matching && known
            &&& result is Ok ==> *result->Ok_0.0 == providers@[provider@].0 && result->Ok_0.1@
                == code@
            &&& !matching ==> result->Err_0.status is BadRequest && result->Err_0.body@
                == "CSRF token does not match oauth state"@
            &&& matching && !known ==> result->Err_0.status is NotFound
                && result->Err_0.body@.len() == 0
        }),
{
}

/// An error of the provider is passed on, whatever the cookies are.
pub proof fn law_error_of_the_provider_is_passed_on<'a>(
    provider: &str,
    error: String,
    providers: &'a Providers,
    jar: PrivateCookieJar,
    result: Result<(&'a OauthClient, String), ErrorResponse>,
)
    requires
        call_ensures(
            auth::complete_auth,
            (provider, OAuthRedirectQueryParams::Failure { error }, providers, &jar),
            result,
        ),
    ensures
        result is Err,
        result->Err_0.status is FailedDependency,
        result->Err_0.body@ == "error from provider: "@ + error@,
{
}

/// The same of Google.
pub proof fn law_google_redirect_is_taken_up(
    code: String,
    state: String,
    error: String,
    jar: PrivateCookieJar,
    result: Result<String, ErrorResponse>,
    failed: Result<String, ErrorResponse>,
)
    requires
        call_ensures(
            google::complete_youtube_oauth,
            (OAuthRedirectQueryParams::Success { code, state }, &jar),
            result,
        ),
        call_ensures(
            google::complete_youtube_oauth,
            (OAuthRedirectQueryParams::Failure { error }, &jar),
            failed,
        ),
    ensures
        result is Ok <==> cookie_jar::cookie_value(jar, "oauth_state"@) == Some(state@),
        result is Ok ==> result->Ok_0@ == code@,
        result is Err ==> result->Err_0.status is BadRequest && result->Err_0.body@
            == "CSRF token does not match oauth state"@,
        failed is Err,
        failed->Err_0.status is FailedDependency,
        failed->Err_0.body@ == "error from google: "@ + error@,
{
}

/// Who comes back from a provider with the token that they were sent away with has the
/// code taken up.
pub proof fn law_sign_in_comes_full_circle<'a>(
    provider: &str,
    providers: &'a Providers,
    jar: PrivateCookieJar,
    token: String,
    sent: Result<(PrivateCookieJar, String), StatusCode>,
    code: String,
    result: Result<(&'a OauthClient, String), ErrorResponse>,
)
    requires
        providers@.contains_key(provider@),
        call_ensures(auth::start_auth_with, (provider, providers, jar, token), sent),
        sent is Ok ==> call_ensures(
            auth::complete_auth,
            (
                provider,
                OAuthRedirectQueryParams::Success { code, state: token },
                providers,
                &sent->Ok_0.0,
            ),
            result,
        ),
    ensures
        sent is Ok,
        result is Ok,
        *result->Ok_0.0 == providers@[provider@].0,
        result->Ok_0.1@ == code@,
{
}

/// Tokens are accepted exactly if they come with a lifetime and a refresh token. Each of
/// them then stands in its own place, and they expire when the provider said.
pub proof fn law_tokens_are_held_as_given(
    response: TokenResponse,
    acquired_at: Timestamp,
    result: Result<TokenState, ErrorResponse>,
)
    requires
        call_ensures(auth::accept_tokens, (response, acquired_at), result),
    ensures
        result is Ok <==> response.expires_in is Some && response.refresh_token is Some,
        result is Ok ==> {
            let held = result->Ok_0;
            &&& held.access_token@ == response.access_token@
            &&& held.refresh_token@ == response.refresh_token->0@
            &&& held.acquired_at@.moment() == acquired_at@
            &&& held.expires_at@.moment() == acquired_at@ + response.expires_in->0 * 1_000_000_000
            &&& held.acquired_at@.offset_seconds == 0
            &&& held.expires_at@.offset_seconds == 0
        },
        result is Err ==> {
            &&& result->Err_0.status is FailedDependency
            &&& result->Err_0.body@ == if response.expires_in is None {
                "offline authorization missing expires_in"@
            } else {
                "offline authorization should always provide a refresh token"@
            }
        },
{
}

/// Tokens that were accepted and inserted are found until a minute before they expire, and
/// are to be refreshed from then on.
pub proof fn law_accepted_tokens_are_found(
    response: TokenResponse,
    acquired_at: Timestamp,
    accepted: Result<TokenState, ErrorResponse>,
    state: &mut AppState,
    now: Timestamp,
    found: TokenLookup,
)
    requires
        call_ensures(auth::accept_tokens, (response, acquired_at), accepted),
        accepted is Ok,
        call_ensures(AppState::insert_youtube_token, (state, accepted->Ok_0), ()),
        call_ensures(AppState::get_youtube_token_at, (final(state), &now), found),
    ensures
        ({
            let left = acquired_at@ + response.expires_in->0 * 1_000_000_000 - now@;
            &&& left > 60_000_000_000 ==> found is Fresh && found->Fresh_0@
                == response.access_token@
            &&& left <= 60_000_000_000 ==> found is Stale && found->Stale_0.refresh_token@
                == response.refresh_token->0@
        }),
{
}

/// What is found at a moment: nothing without tokens, the access token while more than a
/// minute is left, and otherwise the tokens as they are, to be refreshed.
pub proof fn law_token_is_found_while_valid(state: AppState, now: Timestamp, found: TokenLookup)
    requires
        call_ensures(AppState::get_youtube_token_at, (&state, &now), found),
    ensures
        match state.data.youtube {
            None => found is Absent,
            Some(token) => if token.expires_at@.moment() > now@ + 60_000_000_000 {
                found is Fresh && found->Fresh_0@ == token.access_token@
            } else {
                found is Stale && *found->Stale_0 == token
            },
        },
{
}

/// What is found now goes by a moment that the clock shows: a token is handed out only if
/// more than a minute is left after it, and is refreshed only if no more is left.
pub proof fn law_token_is_found_by_the_clock(state: AppState, found: TokenLookup)
    requires
        call_ensures(AppState::get_youtube_token, (&state,), found),
    ensures
        found is Absent <==> state.data.youtube is None,
        state.data.youtube is Some ==> exists|now: int|
            {
                let left = state.data.youtube->0.expires_at@.moment() - now;
                &&& #[trigger] timestamp::clock_shows(now)
                &&& found is Fresh <==> left > 60_000_000_000
                &&& found is Stale <==> left <= 60_000_000_000
            },
        found is Fresh ==> found->Fresh_0@ == state.data.youtube->0.access_token@,
        found is Stale ==> *found->Stale_0 == state.data.youtube->0,
{
    let now = choose|now: int|
        {
            &&& timestamp::representable(now)
            &&& timestamp::clock_shows(now)
            &&& #[trigger] crate::state::lookup_at(state.data.youtube, now, found)
        };
    assert(timestamp::clock_shows(now));
}

/// A token that has expired at every moment that the clock shows is not handed out.
pub proof fn law_expired_token_is_not_handed_out(state: AppState, found: TokenLookup)
    requires
        call_ensures(AppState::get_youtube_token, (&state,), found),
        state.data.youtube is Some,
        forall|now: int| #[trigger]
            timestamp::clock_shows(now) ==> state.data.youtube->0.expires_at@.moment() <= now,
    ensures
        found is Stale,
{
    law_token_is_found_by_the_clock(state, found);
}

/// New tokens take the place of the provider's old ones, and nothing else changes.
pub proof fn law_tokens_go_to_their_provider(
    provider: &str,
    token: TokenState,
    state: &mut AppState,
    result: Result<(), UnknownProvider>,
)
    requires
        call_ensures(AppState::insert_token, (state, provider, token), result),
    ensures
        result is Ok <==> provider@ == "youtube"@ || provider@ == "spotify"@,
        final(state).key == old(state).key,
        final(state).data.youtube == if provider@ == "youtube"@ {
            Some(token)
        } else {
            old(state).data.youtube
        },
        final(state).data.spotify == if provider@ == "spotify"@ {
            Some(token)
        } else {
            old(state).data.spotify
        },
{
    reveal_strlit("youtube");
    reveal_strlit("spotify");
    assert("youtube"@[0] != "spotify"@[0]);
}

/// A refresh leaves the state with what it yielded, or as it was if it failed; and the
/// request is answered with what the state then holds, once that has been saved.
pub proof fn law_refresh_is_answered<E>(
    state: &mut AppState,
    outcome: Result<Option<TokenState>, E>,
    refreshed: Result<(), GetTokenError<E>>,
    saving: Result<(), E>,
    answer: Result<Option<String>, GetTokenError<E>>,
)
    requires
        call_ensures(AppState::refreshed::<E>, (state, outcome), refreshed),
        call_ensures(AppState::saved::<E>, (final(state), saving), answer),
    ensures
        final(state).key == old(state).key,
        final(state).data.spotify == old(state).data.spotify,
        match outcome {
            Ok(youtube) => refreshed is Ok && final(state).data.youtube == youtube,
            Err(error) => {
                &&& refreshed is Err
                &&& refreshed->Err_0 == GetTokenError::Refresh(error)
                &&& final(state).data.youtube == old(state).data.youtube
            },
        },
        match saving {
            Ok(_) => {
                &&& answer is Ok
                &&& answer->Ok_0 is Some <==> final(state).data.youtube is Some
                &&& answer->Ok_0 is Some ==> answer->Ok_0->0@
                    == final(state).data.youtube->0.access_token@
            },
            Err(error) => answer is Err && answer->Err_0 == GetTokenError::Save(error),
        },
{
}

/// Without a file the server starts under every key, with that key and without tokens.
pub proof fn law_server_starts_without_a_file(
    key: [u8; 32],
    result: Result<LoadedState, StateFileError>,
)
    requires
        call_ensures(AppState::load_from_disk, (key, None), result),
    ensures
        result is Ok,
        result->Ok_0 is Empty,
        result->Ok_0->Empty_0.key == key,
        result->Ok_0->Empty_0.data.youtube is None,
        result->Ok_0->Empty_0.data.spotify is None,
{
}

/// Loading gives back what saving wrote; the file starts with a nonce that was drawn for
/// it, and the ciphertext under that nonce follows.
pub proof fn law_saved_state_is_loaded(
    state: AppState,
    plaintext: &[u8],
    file: Vec<u8>,
    result: Result<LoadedState, StateFileError>,
)
    requires
        call_ensures(AppState::save_to_disk, (&state, plaintext), file),
        call_ensures(AppState::load_from_disk, (state.key, Some(file)), result),
    ensures
        result is Ok,
        result->Ok_0 is Plaintext,
        result->Ok_0->Plaintext_0@ == plaintext@,
        file@.len() == 12 + plaintext@.len() + 16,
        cipher::nonce_drawn(file@.subrange(0, 12)),
        file@.subrange(12, file@.len() as int) == cipher::sealed(
            state.key@,
            file@.subrange(0, 12),
            plaintext@,
        ),
{
    let nonce = choose|nonce: Seq<u8>|
        {
            &&& nonce.len() == cipher::NONCE_BYTES
            &&& cipher::nonce_drawn(nonce)
            &&& file@ == #[trigger] crate::state::file_bytes(state.key@, nonce, plaintext@)
        };
    assert(file@.subrange(0, 12) =~= nonce);
    assert(file@.subrange(12, file@.len() as int) =~= cipher::sealed(
        state.key@,
        nonce,
        plaintext@,
    ));
}

/// A file loads exactly if the cipher opens what follows its first twelve bytes, with
/// these as the nonce.
pub proof fn law_file_is_opened(
    key: [u8; 32],
    file: Vec<u8>,
    result: Result<LoadedState, StateFileError>,
)
    requires
        call_ensures(AppState::load_from_disk, (key, Some(file)), result),
    ensures
        file@.len() < 12 + 16 ==> result is Err,
        file@.len() >= 12 ==> {
            let opened = cipher::opened(
                key@,
                file@.subrange(0, 12),
                file@.subrange(12, file@.len() as int),
            );
            match opened {
                Some(plaintext) => {
                    &&& result is Ok
                    &&& result->Ok_0 is Plaintext
                    &&& result->Ok_0->Plaintext_0@ == plaintext
                },
                None => result is Err,
            }
        },
{
    crate::state::law_file_loads_as_the_cipher_opens_it(key, file, result);
}

/// A key file gives keys exactly if it holds 192 hex digits, apart from white space around
/// them. Each two digits make a byte: the first 64 digits the key of the state file, the
/// others that of the cookies.
pub proof fn law_key_file_is_read(
    text: &str,
    result: Result<MasterKey, MasterKeyError>,
    i: int,
)
    requires
        call_ensures(keys::parse_master_key, (text,), result),
    ensures
        ({
            let digits = keys::trimmed(text@);
            let hex = digits.len() % 2 == 0 && forall|k: int|
                0 <= k < digits.len() ==> keys::hex_value(#[trigger] digits[k]) is Some;
            &&& result is Ok <==> hex && digits.len() == 192
            &&& !hex ==> result == Err::<MasterKey, MasterKeyError>(MasterKeyError::NotHex)
            &&& hex && digits.len() != 192 ==> result == Err::<MasterKey, MasterKeyError>(
                MasterKeyError::WrongLength,
            )
            &&& result is Ok && 0 <= i < 32 ==> {
                let byte = result->Ok_0.file_key@[i] as int;
                &&& keys::hex_value(digits[2 * i]) == Some(byte / 16)
                &&& keys::hex_value(digits[2 * i + 1]) == Some(byte % 16)
            }
            &&& result is Ok && 0 <= i < 64 ==> {
                let byte = result->Ok_0.cookie_key@[i] as int;
                &&& keys::hex_value(digits[64 + 2 * i]) == Some(byte / 16)
                &&& keys::hex_value(digits[64 + 2 * i + 1]) == Some(byte % 16)
            }
        }),
{
    let digits = keys::trimmed(text@);
    keys::law_two_digits_make_a_byte(digits, i);
    keys::law_two_digits_make_a_byte(digits, 32 + i);
    if result is Ok && 0 <= i < 64 {
        let bytes = keys::hex_bytes(digits)->0;
        assert(result->Ok_0.cookie_key@[i] == bytes[32 + i]);
        assert(2 * (32 + i) == 64 + 2 * i);
    }
}

/// White space around a key file does not matter.
pub proof fn law_key_file_may_be_surrounded(
    before: Seq<char>,
    text: &str,
    after: Seq<char>,
    whole: &str,
    result: Result<MasterKey, MasterKeyError>,
    result_of_whole: Result<MasterKey, MasterKeyError>,
)
    requires
        forall|i: int| 0 <= i < before.len() ==> keys::white_space(#[trigger] before[i]),
        forall|i: int| 0 <= i < after.len() ==> keys::white_space(#[trigger] after[i]),
        whole@ == before + text@ + after,
        call_ensures(keys::parse_master_key, (text,), result),
        call_ensures(keys::parse_master_key, (whole,), result_of_whole),
    ensures
        result is Ok <==> result_of_whole is Ok,
        result is Ok ==> {
            &&& result->Ok_0.file_key@ == result_of_whole->Ok_0.file_key@
            &&& result->Ok_0.cookie_key@ == result_of_whole->Ok_0.cookie_key@
        },
        result is Err ==> result->Err_0 == result_of_whole->Err_0,
{
    keys::law_surrounding_white_space_is_ignored(before, text@, after);
}

/// A provider's client holds what is configured for it, if all of its URLs are valid; the
/// first that is not is named.
pub proof fn law_client_is_configured(
    name: &str,
    config: OauthStaticConfig,
    root: &str,
    result: Result<OauthClient, OauthClientError>,
)
    requires
        call_ensures(auth::oauth_client, (name, config, root), result),
    ensures
        ({
            let redirect_url = root@ + "/oauth/"@ + name@;
            let auth = oauth::auth_url_valid(config.auth_url@);
            let token = oauth::token_url_valid(config.token_url@);
            let revocation = config.revocation_url is None || oauth::revocation_url_valid(
                config.revocation_url->0@,
            );
            let redirect = oauth::redirect_url_valid(redirect_url);
            &&& result is Ok <==> auth && token && revocation && redirect
            &&& result is Ok ==> {
                let client = result->Ok_0@;
                &&& client.client_id == config.client_id@
                &&& client.client_secret == config.client_secret@
                &&& client.auth_url == config.auth_url@
                &&& client.token_url == config.token_url@
                &&& client.revocation_url == text::optional_text(config.revocation_url)
                &&& client.redirect_url == redirect_url
            }
            &&& result is Err ==> result->Err_0 == if !auth {
                OauthClientError::AuthUrl
            } else if !token {
                OauthClientError::TokenUrl
            } else if !revocation {
                OauthClientError::RevocationUrl
            } else {
                OauthClientError::RedirectUrl
            }
        }),
{
}

/// Google's client holds the name and the secret that it is given and Google's URLs, and
/// sends users back to the given root.
pub proof fn law_google_client_is_configured(
    client_info: google::ClientIdSecret,
    root: &str,
    result: Result<google::GoogleOauthClient, OauthClientError>,
)
    requires
        call_ensures(google::oauth_client, (client_info, root), result),
    ensures
        result is Ok <==> {
            &&& oauth::auth_url_valid("https://accounts.google.com/o/oauth2/auth"@)
            &&& oauth::token_url_valid("https://oauth2.googleapis.com/token"@)
            &&& oauth::revocation_url_valid("https://oauth2.googleapis.com/revoke"@)
            &&& oauth::redirect_url_valid(root@ + "/oauth/google"@)
        },
        result is Ok ==> {
            let client = result->Ok_0@;
            &&& client.client_id == client_info.client_id@
            &&& client.client_secret == client_info.client_secret@
            &&& client.auth_url == "https://accounts.google.com/o/oauth2/auth"@
            &&& client.token_url == "https://oauth2.googleapis.com/token"@
            &&& client.revocation_url == Some("https://oauth2.googleapis.com/revoke"@)
            &&& client.redirect_url == root@ + "/oauth/google"@
        },
{
}

/// Signing in ends at the start page and takes the state cookie away, if the tokens could
/// be inserted; if not, the user is told why.
pub proof fn law_sign_in_ends(
    provider: &str,
    jar: PrivateCookieJar,
    inserted: Result<(), String>,
    result: Result<(PrivateCookieJar, String), ErrorResponse>,
)
    requires
        call_ensures(auth::finish_auth, (provider, jar, inserted), result),
    ensures
        match inserted {
            Ok(_) => {
                &&& result is Ok
                &&& result->Ok_0.1@ == "/"@
                &&& cookie_jar::cookie_value(result->Ok_0.0, "oauth_state__"@ + provider@) is None
                &&& forall|other: Seq<char>|
                    other != "oauth_state__"@ + provider@ ==> #[trigger] cookie_jar::cookie_value(
                        result->Ok_0.0,
                        other,
                    ) == cookie_jar::cookie_value(jar, other)
            },
            Err(error) => {
                &&& result is Err
                &&& result->Err_0.status is InternalServerError
                &&& result->Err_0.body@ == "failed to save youtube token: "@ + error@
            },
        },
{
}

/// The same of Google, where nothing is inserted.
pub proof fn law_google_sign_in_ends(jar: PrivateCookieJar, result: (PrivateCookieJar, String))
    requires
        call_ensures(google::finish_youtube_oauth, (jar,), result),
    ensures
        result.1@ == "/"@,
        cookie_jar::cookie_value(result.0, "oauth_state"@) is None,
        forall|other: Seq<char>|
            other != "oauth_state"@ ==> #[trigger] cookie_jar::cookie_value(result.0, other)
                == cookie_jar::cookie_value(jar, other),
{
}

/// Moments are what they are made from, and so are dates; seconds are added one for one.
pub proof fn law_moments_are_kept(
    nanoseconds: i128,
    moment: Option<Timestamp>,
    kept: i128,
    seconds: u64,
    later: Option<Timestamp>,
    date: OffsetDateTime,
    after: bool,
)
    requires
        call_ensures(Timestamp::from_nanoseconds, (nanoseconds,), moment),
        moment is Some ==> call_ensures(Timestamp::as_nanoseconds, (&moment->0,), kept),
        moment is Some ==> call_ensures(
            Timestamp::checked_add_seconds,
            (&moment->0, seconds),
            later,
        ),
        moment is Some ==> call_ensures(OffsetDateTime::from_timestamp, (moment->0,), date),
        moment is Some ==> call_ensures(
            OffsetDateTime::is_after_by,
            (&date, &moment->0, seconds),
            after,
        ),
    ensures
        moment is Some <==> timestamp::representable(nanoseconds as int),
        moment is Some ==> {
            &&& kept == nanoseconds
            &&& later is Some ==> later->0@ == nanoseconds + seconds * 1_000_000_000
            &&& later is None <==> nanoseconds + seconds * 1_000_000_000
                >= 253_402_300_800_000_000_000
            &&& date@.moment() == nanoseconds
            &&& !after
        },
{
}

/// Each error has a text of its own.
pub proof fn law_errors_are_told_apart<E>(
    client_error: OauthClientError,
    client_text: &'static str,
    key_error: MasterKeyError,
    key_text: &'static str,
    token_error: GetTokenError<E>,
    token_text: &'static str,
)
    requires
        call_ensures(OauthClientError::message, (client_error,), client_text),
        call_ensures(MasterKeyError::message, (key_error,), key_text),
        call_ensures(GetTokenError::<E>::context, (&token_error,), token_text),
    ensures
        client_error is AuthUrl ==> client_text@ == "auth url should be a valid url"@,
        client_error is TokenUrl ==> client_text@ == "token url should be a valid url"@,
        client_error is RevocationUrl ==> client_text@ == "revocation url should be a valid url"@,
        client_error is RedirectUrl ==> client_text@ == "redirect url should be a valid url"@,
        key_error is NotHex ==> key_text@ == "encryption.key should be hex digits"@,
        key_error is WrongLength ==> key_text@
            == "encryption.key should be exactly 96 bytes (192 hex chars)"@,
        token_error is Refresh ==> token_text@ == "should refresh youtube token"@,
        token_error is Save ==> token_text@ == "saving new state to file"@,
{
}

/// A sign-in at an unknown provider can always be asked for; one at a known provider
/// whenever its cookie's name and the URL of its whole configuration are not too long.
pub proof fn law_sign_in_can_be_asked_for(provider: &str, providers: Providers, result: bool)
    requires
        call_ensures(auth::can_start_auth, (provider, &providers), result),
    ensures
        !providers@.contains_key(provider@) ==> result,
        providers@.contains_key(provider@) ==> {
            let (client, config) = providers@[provider@];
            result <==> {
                &&& vstd::utf8::encode_utf8("oauth_state__"@ + provider@).len() <= 0x10_0000_0000
                &&& oauth::authorization_url_fits(
                    client@.auth_url,
                    client@.client_id,
                    client@.redirect_url,
                    text::texts(config.scope@),
                    text::text_pairs(config.extra@),
                    22,
                )
            }
        },
{
}

}
