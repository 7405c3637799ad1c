//! What holds of signing in as a whole.
use axum_extra::extract::cookie::PrivateCookieJar;
use vstd::prelude::*;

use crate::auth;
use crate::auth::{
    google, ErrorResponse, OAuthRedirectQueryParams, OauthClient, OauthClientError,
    OauthClientView, OauthStaticConfig, StatusCode, TokenResponse,
};
use crate::cookie_jar;
use crate::cookie_jar::SameSitePolicy;
use crate::oauth;
use crate::text;

verus! {

/// Each provider has a cookie of its own, and none of them is Google's.
pub proof fn law_cookie_names_differ(provider: Seq<char>, other: Seq<char>)
    ensures
        auth::cookie_name_of(provider) == auth::cookie_name_of(other) ==> provider == other,
        auth::cookie_name_of(provider) != google::COOKIE_NAME@,
{
    let name = auth::cookie_name_of(provider);
    let other_name = auth::cookie_name_of(other);
    let prefix = "oauth_state__"@;
    if name == other_name {
        assert(provider =~= name.skip(prefix.len() as int));
        assert(other =~= other_name.skip(prefix.len() as int));
    }
    reveal_strlit("oauth_state__");
    reveal_strlit("oauth_state");
    assert(google::COOKIE_NAME@.len() < prefix.len());
    assert(name.len() >= prefix.len());
}

/// Being sent to a provider stores the state token under that provider's cookie
/// and leaves all other cookies as they were.
pub proof fn law_sent_user_carries_token(
    client: auth::OauthClientView,
    scopes: Seq<Seq<char>>,
    extra: Seq<(Seq<char>, Seq<char>)>,
    name: Seq<char>,
    token: Seq<char>,
    before: PrivateCookieJar,
    after: PrivateCookieJar,
    url: Seq<char>,
)
    requires
        auth::sent_to_provider(client, scopes, extra, name, token, before, after, url),
    ensures
        cookie_jar::cookie_value(after, name) == Some(token),
        forall|other: Seq<char>|
            other != name ==> #[trigger] cookie_jar::cookie_value(after, other)
                == cookie_jar::cookie_value(before, other),
{
}

/// A user who was sent to a provider, and comes back with the cookie that was set
/// then and with the state token that the URL carried, has the code accepted.
pub proof fn law_answer_to_own_question_is_accepted(
    provider: Seq<char>,
    providers: Map<Seq<char>, (OauthClient, OauthStaticConfig)>,
    jar: PrivateCookieJar,
    token: Seq<char>,
    sent: Result<(PrivateCookieJar, String), StatusCode>,
    back: PrivateCookieJar,
    code: String,
    state: String,
)
    requires
        providers.contains_key(provider),
        auth::started(provider, providers, jar, token, sent),
        cookie_jar::cookie_value(back, auth::cookie_name_of(provider)) == cookie_jar::cookie_value(
            sent->Ok_0.0,
            auth::cookie_name_of(provider),
        ),
        state@ == token,
    ensures
        auth::redirect_outcome(
            provider,
            OAuthRedirectQueryParams::Success { code, state },
            providers,
            cookie_jar::cookie_value(back, auth::cookie_name_of(provider)),
        ) == Ok::<(OauthClient, Seq<char>), (StatusCode, Seq<char>)>(
            (providers[provider].0, code@),
        ),
{
}

/// The same of Google.
pub proof fn law_google_answer_to_own_question_is_accepted(
    client: auth::OauthClientView,
    jar: PrivateCookieJar,
    token: Seq<char>,
    sent: (PrivateCookieJar, String),
    back: PrivateCookieJar,
    code: String,
    state: String,
    failure: Seq<char>,
)
    requires
        google::started(client, jar, token, sent),
        cookie_jar::cookie_value(back, google::COOKIE_NAME@) == cookie_jar::cookie_value(
            sent.0,
            google::COOKIE_NAME@,
        ),
        state@ == token,
    ensures
        auth::redirected_code(
            OAuthRedirectQueryParams::Success { code, state },
            cookie_jar::cookie_value(back, google::COOKIE_NAME@),
            failure,
        ) == Ok::<Seq<char>, (StatusCode, Seq<char>)>(code@),
{
}

/// A code is accepted only along with the state token that the cookie holds; any
/// other redirect is refused, with a status that tells a provider's error from a
/// token that does not match.
pub proof fn law_code_needs_matching_token(
    query: OAuthRedirectQueryParams,
    cookie: Option<Seq<char>>,
    failure: Seq<char>,
)
    ensures
        auth::redirected_code(query, cookie, failure) is Ok <==> {
            &&& query is Success
            &&& cookie == Some(query->state@)
        },
        auth::redirected_code(query, cookie, failure) is Err ==> {
            auth::redirected_code(query, cookie, failure)->Err_0.0 == if query is Failure {
                StatusCode::FailedDependency
            } else {
                StatusCode::BadRequest
            }
        },
{
}

/// Once signing in has ended, the same redirect is refused, and so is any other
/// one: the state cookie is gone. Other cookies stay.
pub proof fn law_redirect_is_taken_once(
    name: Seq<char>,
    before: PrivateCookieJar,
    after: PrivateCookieJar,
    url: Seq<char>,
    query: OAuthRedirectQueryParams,
    failure: Seq<char>,
)
    requires
        auth::signed_in(name, before, after, url),
    ensures
        cookie_jar::cookie_value(after, name) is None,
        auth::redirected_code(query, cookie_jar::cookie_value(after, name), failure) is Err,
        forall|other: Seq<char>|
            other != name ==> #[trigger] cookie_jar::cookie_value(after, other)
                == cookie_jar::cookie_value(before, other),
{
}

/// What the user is answered at the end: the URL of the redirect, or the refusal.
pub open spec fn answer(
    provider: Seq<char>,
    query: OAuthRedirectQueryParams,
    providers: Map<Seq<char>, (OauthClient, OauthStaticConfig)>,
    cookie: Option<Seq<char>>,
    response: TokenResponse,
    inserted: Result<(), Seq<char>>,
) -> Result<Seq<char>, (StatusCode, Seq<char>)> {
    match auth::redirect_outcome(provider, query, providers, cookie) {
        Err(refusal) => Err(refusal),
        Ok(_) => match response.refusal() {
            Some(refusal) => Err(refusal),
            None => match inserted {
                Err(error) => Err(auth::insertion_refusal(error)),
                Ok(_) => Ok("/"@),
            },
        },
    }
}

/// Signing in succeeds exactly when the provider reports success, the state token
/// matches, the provider is known, its tokens are complete and they could be
/// inserted; the first of these that fails decides the status.
pub proof fn law_success_needs_every_step(
    provider: Seq<char>,
    query: OAuthRedirectQueryParams,
    providers: Map<Seq<char>, (OauthClient, OauthStaticConfig)>,
    cookie: Option<Seq<char>>,
    response: TokenResponse,
    inserted: Result<(), Seq<char>>,
)
    ensures
        ({
            let result = answer(provider, query, providers, cookie, response, inserted);
            let matching = query is Success && cookie == Some(query->state@);
            let known = providers.contains_key(provider);
            let complete = response.expires_in is Some && response.refresh_token is Some;
            &&& result is Ok <==> matching && known && complete && inserted is Ok
            &&& result is Ok ==> result->Ok_0 == "/"@
            &&& result is Err ==> result->Err_0.0 == if query is Failure {
                StatusCode::FailedDependency
            } else if !matching {
                StatusCode::BadRequest
            } else if !known {
                StatusCode::NotFound
            } else if !complete {
                StatusCode::FailedDependency
            } else {
                StatusCode::InternalServerError
            }
        }),
{
}

/// The tokens that come out of signing in expire after they were acquired, by the
/// lifetime that the provider gave.
pub proof fn law_accepted_tokens_expire_on_time(
    response: TokenResponse,
    acquired_at: crate::timestamp::Timestamp,
    token_state: crate::state::TokenState,
)
    requires
        response.refusal() is None,
        response.held_by(acquired_at, token_state),
    ensures
        token_state.expires_at@.moment() - token_state.acquired_at@.moment() == response.expires_in->0
            * crate::timestamp::NANOSECONDS_PER_SECOND,
        token_state.acquired_at@.moment() <= token_state.expires_at@.moment(),
{
}

/// Whatever the state token, the user is sent to the URL that the client's
/// authorization URL, name and redirect URL make with all scopes, all extra
/// parameters in their order, and that very token.
pub proof fn law_redirect_asks_for_all_that_is_wanted(
    client: OauthClientView,
    scopes: Seq<Seq<char>>,
    extra: Seq<(Seq<char>, Seq<char>)>,
    name: Seq<char>,
    token: Seq<char>,
    before: PrivateCookieJar,
    after: PrivateCookieJar,
    url: Seq<char>,
)
    requires
        auth::sent_to_provider(client, scopes, extra, name, token, before, after, url),
    ensures
        url == oauth::authorization_url(
            client.auth_url,
            client.client_id,
            client.redirect_url,
            scopes,
            extra,
            token,
        ),
{
}

/// Being sent to a provider sets one cookie, which holds the token that is in the
/// URL for five minutes, and which neither scripts nor other sites nor plain HTTP
/// get to see. No other cookie is touched.
pub proof fn law_state_cookie_is_guarded(
    client: OauthClientView,
    scopes: Seq<Seq<char>>,
    extra: Seq<(Seq<char>, Seq<char>)>,
    name: Seq<char>,
    token: Seq<char>,
    before: PrivateCookieJar,
    after: PrivateCookieJar,
    url: Seq<char>,
)
    requires
        auth::sent_to_provider(client, scopes, extra, name, token, before, after, url),
    ensures
        cookie_jar::request_cookies(after) == cookie_jar::request_cookies(before),
        cookie_jar::cookie_changes(after).remove(name) == cookie_jar::cookie_changes(before).remove(
            name,
        ),
        cookie_jar::cookie_changes(after).contains_key(name),
        cookie_jar::cookie_changes(after)[name] is Stored,
        ({
            let cookie = cookie_jar::cookie_changes(after)[name]->Stored_0;
            &&& cookie.name == name
            &&& cookie.value == token
            &&& cookie.path == "/"@
            &&& cookie.http_only
            &&& cookie.secure
            &&& cookie.same_site == SameSitePolicy::Lax
            &&& cookie.max_age_seconds == 5 * 60
        }),
{
    assert(cookie_jar::cookie_changes(after).remove(name) =~= cookie_jar::cookie_changes(
        before,
    ).remove(name));
}

/// Starting to sign in at a known provider sends the user to that provider's URL,
/// with all scopes and extra parameters of its configuration and the given token,
/// whichever it is; the token is remembered under the provider's name. At any other
/// provider nothing is found.
pub proof fn law_sign_in_starts_as_configured(
    provider: Seq<char>,
    providers: Map<Seq<char>, (OauthClient, OauthStaticConfig)>,
    jar: PrivateCookieJar,
    token: Seq<char>,
    sent: Result<(PrivateCookieJar, String), StatusCode>,
)
    requires
        auth::started(provider, providers, jar, token, sent),
    ensures
        sent is Ok <==> providers.contains_key(provider),
        sent is Err ==> sent->Err_0 == StatusCode::NotFound,
        sent is Ok ==> {
            let (client, config) = providers[provider];
            &&& sent->Ok_0.1@ == oauth::authorization_url(
                client@.auth_url,
                client@.client_id,
                client@.redirect_url,
                Seq::new(config.scope@.len(), |i: int| config.scope@[i]@),
                Seq::new(
                    config.extra@.len(),
                    |i: int| (config.extra@[i].0@, config.extra@[i].1@),
                ),
                token,
            )
            &&& cookie_jar::cookie_value(sent->Ok_0.0, "oauth_state__"@ + provider) == Some(token)
            &&& cookie_jar::request_cookies(sent->Ok_0.0) == cookie_jar::request_cookies(jar)
        },
{
    if providers.contains_key(provider) {
        let (client, config) = providers[provider];
        assert(text::texts(config.scope@) =~= Seq::new(
            config.scope@.len(),
            |i: int| config.scope@[i]@,
        ));
        assert(text::text_pairs(config.extra@) =~= Seq::new(
            config.extra@.len(),
            |i: int| (config.extra@[i].0@, config.extra@[i].1@),
        ));
    }
}

/// Two attempts at one provider differ in nothing but the token: with the same token
/// they lead to the same URL and the same cookies.
pub proof fn law_attempts_differ_by_the_token_alone(
    provider: Seq<char>,
    providers: Map<Seq<char>, (OauthClient, OauthStaticConfig)>,
    jar: PrivateCookieJar,
    token: Seq<char>,
    sent: Result<(PrivateCookieJar, String), StatusCode>,
    again: Result<(PrivateCookieJar, String), StatusCode>,
)
    requires
        auth::started(provider, providers, jar, token, sent),
        auth::started(provider, providers, jar, token, again),
    ensures
        sent is Ok <==> again is Ok,
        sent is Ok ==> {
            &&& sent->Ok_0.1@ == again->Ok_0.1@
            &&& cookie_jar::cookie_changes(sent->Ok_0.0) == cookie_jar::cookie_changes(
                again->Ok_0.0,
            )
        },
{
}

/// Whatever the state token, Google is asked for reading and for managing YouTube, and
/// for a refresh token with the consent of the user, in this order.
pub proof fn law_google_is_asked_for_a_refresh_token(
    client: OauthClientView,
    jar: PrivateCookieJar,
    token: Seq<char>,
    sent: (PrivateCookieJar, String),
)
    requires
        google::started(client, jar, token, sent),
    ensures
        sent.1@ == oauth::authorization_url(
            client.auth_url,
            client.client_id,
            client.redirect_url,
            seq![
                "https://www.googleapis.com/auth/youtube.readonly"@,
                "https://www.googleapis.com/auth/youtube"@,
            ],
            seq![("access_type"@, "offline"@), ("prompt"@, "consent"@)],
            token,
        ),
        cookie_jar::cookie_value(sent.0, "oauth_state"@) == Some(token),
        cookie_jar::request_cookies(sent.0) == cookie_jar::request_cookies(jar),
{
}

/// Google's client goes by the name and the secret that it was given, whatever these
/// are, and users come back to the given root.
pub proof fn law_google_client_is_at_google(
    client_info: google::ClientIdSecret,
    oauth_root: Seq<char>,
)
    ensures
        ({
            let client = google::google_client(client_info, oauth_root);
            &&& client.client_id == client_info.client_id@
            &&& client.client_secret == client_info.client_secret@
            &&& client.auth_url == "https://accounts.google.com/o/oauth2/auth"@
            &&& client.token_url == "https://oauth2.googleapis.com/token"@
            &&& client.revocation_url == Some("https://oauth2.googleapis.com/revoke"@)
            &&& client.redirect_url == oauth_root + "/oauth/google"@
        }),
{
}

/// The client of a provider has each of its texts from the place that the
/// configuration has for it, and users come back to a path that ends in the
/// provider's name.
pub proof fn law_client_is_as_configured(
    config: OauthStaticConfig,
    provider_name: Seq<char>,
    oauth_root: Seq<char>,
)
    ensures
        ({
            let client = config.client(provider_name, oauth_root);
            &&& client.client_id == config.client_id@
            &&& client.client_secret == config.client_secret@
            &&& client.auth_url == config.auth_url@
            &&& client.token_url == config.token_url@
            &&& client.revocation_url is Some <==> config.revocation_url is Some
            &&& client.revocation_url is Some ==> client.revocation_url->0
                == config.revocation_url->0@
            &&& client.redirect_url == oauth_root + "/oauth/"@ + provider_name
        }),
{
}

/// Under one root, each provider sends users back to a place of its own.
pub proof fn law_redirect_urls_differ(
    oauth_root: Seq<char>,
    provider_name: Seq<char>,
    other: Seq<char>,
)
    ensures
        auth::redirect_url_of(oauth_root, provider_name).len() == oauth_root.len()
            + "/oauth/"@.len() + provider_name.len(),
        auth::redirect_url_of(oauth_root, provider_name).take(oauth_root.len() as int)
            == oauth_root,
        auth::redirect_url_of(oauth_root, provider_name) == auth::redirect_url_of(oauth_root, other)
            ==> provider_name == other,
{
    let url = auth::redirect_url_of(oauth_root, provider_name);
    let other_url = auth::redirect_url_of(oauth_root, other);
    let start = oauth_root.len() + "/oauth/"@.len();
    assert(url.take(oauth_root.len() as int) =~= oauth_root);
    if url == other_url {
        assert(provider_name =~= url.skip(start as int));
        assert(other =~= other_url.skip(start as int));
    }
}

/// A client is refused exactly if one of its URLs is none, and the first of them is
/// named: nothing else about a client matters.
pub proof fn law_first_bad_url_is_named(client: OauthClientView)
    ensures
        ({
            let auth = oauth::auth_url_valid(client.auth_url);
            let token = oauth::token_url_valid(client.token_url);
            let revocation = client.revocation_url is None || oauth::revocation_url_valid(
                client.revocation_url->0,
            );
            let redirect = oauth::redirect_url_valid(client.redirect_url);
            let error = client.first_error();
            &&& error is None <==> auth && token && revocation && redirect
            &&& error == Some(OauthClientError::AuthUrl) <==> !auth
            &&& error == Some(OauthClientError::TokenUrl) <==> auth && !token
            &&& error == Some(OauthClientError::RevocationUrl) <==> auth && token && !revocation
            &&& error == Some(OauthClientError::RedirectUrl) <==> auth && token && revocation
                && !redirect
        }),
{
}

/// A client can be looked at exactly if each of its URLs is below 2 GiB.
pub proof fn law_short_urls_are_looked_at(client: OauthClientView)
    ensures
        client.urls_parsable() <==> {
            &&& vstd::utf8::encode_utf8(client.auth_url).len() < 0x8000_0000
            &&& vstd::utf8::encode_utf8(client.token_url).len() < 0x8000_0000
            &&& client.revocation_url is None || vstd::utf8::encode_utf8(
                client.revocation_url->0,
            ).len() < 0x8000_0000
            &&& vstd::utf8::encode_utf8(client.redirect_url).len() < 0x8000_0000
        },
{
}

/// An unknown provider can always be asked for, and a known one whenever its cookie's
/// name and its URL are not too long.
pub proof fn law_only_lengths_keep_a_sign_in_from_starting(
    provider: Seq<char>,
    providers: Map<Seq<char>, (OauthClient, OauthStaticConfig)>,
    token_bytes: nat,
)
    ensures
        !providers.contains_key(provider) ==> auth::startable(provider, providers, token_bytes),
        providers.contains_key(provider) ==> {
            let (client, config) = providers[provider];
            auth::startable(provider, providers, token_bytes) <==> {
                &&& vstd::utf8::encode_utf8("oauth_state__"@ + provider).len() <= 0x10_0000_0000
                &&& oauth::authorization_url_fits(
                    client@.auth_url,
                    client@.client_id,
                    client@.redirect_url,
                    text::texts(config.scope@),
                    text::text_pairs(config.extra@),
                    token_bytes,
                )
            }
        },
{
}

/// What comes of a redirect: with the right token the code that it carries, whatever
/// that is; with a wrong one or none a refusal that says so; and of a provider's error
/// that very error.
pub proof fn law_redirect_is_taken_at_its_word(
    code: String,
    state: String,
    error: String,
    cookie: Option<Seq<char>>,
    failure: Seq<char>,
)
    ensures
        auth::redirected_code(
            OAuthRedirectQueryParams::Success { code, state },
            Some(state@),
            failure,
        ) == Ok::<Seq<char>, (StatusCode, Seq<char>)>(code@),
        cookie != Some(state@) ==> auth::redirected_code(
            OAuthRedirectQueryParams::Success { code, state },
            cookie,
            failure,
        ) == Err::<Seq<char>, (StatusCode, Seq<char>)>(
            (StatusCode::BadRequest, "CSRF token does not match oauth state"@),
        ),
        auth::redirected_code(OAuthRedirectQueryParams::Failure { error }, cookie, failure) == Err::<
            Seq<char>,
            (StatusCode, Seq<char>),
        >((StatusCode::FailedDependency, failure + error@)),
{
}

/// The code of a redirect goes to the client of the provider that the redirect is for.
/// The token is looked at first: only with the right one does an unknown provider show
/// as unknown.
pub proof fn law_code_goes_to_its_provider(
    provider: Seq<char>,
    providers: Map<Seq<char>, (OauthClient, OauthStaticConfig)>,
    code: String,
    state: String,
    error: String,
    cookie: Option<Seq<char>>,
)
    ensures
        ({
            let query = OAuthRedirectQueryParams::Success { code, state };
            let outcome = auth::redirect_outcome(provider, query, providers, cookie);
            &&& cookie == Some(state@) && providers.contains_key(provider) ==> outcome is Ok
                && outcome->Ok_0.0 == providers[provider].0 && outcome->Ok_0.1 == code@
            &&& cookie == Some(state@) && !providers.contains_key(provider) ==> outcome is Err
                && outcome->Err_0.0 == StatusCode::NotFound && outcome->Err_0.1.len() == 0
            &&& cookie != Some(state@) ==> outcome is Err && outcome->Err_0.0
                == StatusCode::BadRequest && outcome->Err_0.1
                == "CSRF token does not match oauth state"@
        }),
        ({
            let query = OAuthRedirectQueryParams::Failure { error };
            let outcome = auth::redirect_outcome(provider, query, providers, cookie);
            &&& outcome is Err
            &&& outcome->Err_0.0 == StatusCode::FailedDependency
            &&& outcome->Err_0.1 == "error from provider: "@ + error@
        }),
{
}

/// Tokens are accepted exactly if they come with a lifetime and a refresh token,
/// whatever these are; what is missing is named, the lifetime first.
pub proof fn law_incomplete_tokens_are_named(response: TokenResponse)
    ensures
        response.refusal() is None <==> response.expires_in is Some && response.refresh_token
            is Some,
        response.expires_in is None ==> response.refusal() == Some(
            (StatusCode::FailedDependency, "offline authorization missing expires_in"@),
        ),
        response.expires_in is Some && response.refresh_token is None ==> response.refusal()
            == Some(
            (
                StatusCode::FailedDependency,
                "offline authorization should always provide a refresh token"@,
            ),
        ),
{
}

/// Of a complete response, whatever its lifetime, the state holds the access token as
/// the access token and the refresh token as the refresh token. It was acquired at the
/// given moment, and expires after as many seconds as the provider said.
pub proof fn law_each_token_keeps_its_place(
    response: TokenResponse,
    acquired_at: crate::timestamp::Timestamp,
    token_state: crate::state::TokenState,
)
    requires
        response.refusal() is None,
        response.held_by(acquired_at, token_state),
    ensures
        token_state.access_token@ == response.access_token@,
        response.refresh_token is Some,
        token_state.refresh_token@ == response.refresh_token->0@,
        token_state.acquired_at@.moment() == acquired_at@,
        token_state.acquired_at@.offset_seconds == 0,
        response.expires_in is Some,
        token_state.expires_at@.moment() == acquired_at@ + response.expires_in->0 * 1_000_000_000,
        token_state.expires_at@.offset_seconds == 0,
        response.expires_at(acquired_at@) == acquired_at@ + response.expires_in->0 * 1_000_000_000,
{
}

/// Once tokens have been accepted and inserted, a request finds their access token for
/// all of their lifetime but the last minute, and from then on their refresh token is
/// there to refresh them with.
pub proof fn law_accepted_tokens_are_served(
    response: TokenResponse,
    acquired_at: crate::timestamp::Timestamp,
    token_state: crate::state::TokenState,
    before: crate::state::AppState,
    seconds: int,
    found: crate::state::TokenLookup,
)
    requires
        response.refusal() is None,
        response.held_by(acquired_at, token_state),
        crate::state::lookup_at(
            before.with_youtube(Some(token_state)).data.youtube,
            acquired_at@ + seconds * 1_000_000_000,
            found,
        ),
    ensures
        seconds + 60 < response.expires_in->0 ==> found is Fresh && found->Fresh_0@
            == response.access_token@,
        seconds + 60 >= response.expires_in->0 ==> found is Stale
            && found->Stale_0.refresh_token@ == response.refresh_token->0@,
{
}

/// Signing in ends at the start page, and the state cookie is gone: a cookie that the
/// client has is taken from it, and one that it never got is not sent.
pub proof fn law_sign_in_ends_at_the_start_page(
    name: Seq<char>,
    before: PrivateCookieJar,
    after: PrivateCookieJar,
    url: Seq<char>,
)
    requires
        auth::signed_in(name, before, after, url),
    ensures
        url == "/"@,
        cookie_jar::request_cookies(after) == cookie_jar::request_cookies(before),
        cookie_jar::cookie_changes(after).remove(name) == cookie_jar::cookie_changes(before).remove(
            name,
        ),
        cookie_jar::cookie_changes(after).contains_key(name) <==> cookie_jar::request_cookies(
            before,
        ).contains_key(name),
        cookie_jar::cookie_changes(after).contains_key(name) ==> cookie_jar::cookie_changes(
            after,
        )[name] is Removed,
{
    assert(cookie_jar::cookie_changes(after).remove(name) =~= cookie_jar::cookie_changes(
        before,
    ).remove(name));
}

/// A refusal says what it holds, and one for tokens that could not be inserted holds the
/// error behind a fixed text.
pub proof fn law_refusals_say_why(refusal: ErrorResponse, error: Seq<char>)
    ensures
        refusal@.0 == refusal.status,
        refusal@.1 == refusal.body@,
        auth::insertion_refusal(error).0 == StatusCode::InternalServerError,
        auth::insertion_refusal(error).1 == "failed to save youtube token: "@ + error,
{
}

/// The statuses have the numbers that HTTP gives them.
pub proof fn law_statuses_have_their_numbers(status: StatusCode)
    ensures
        status is BadRequest <==> status.number() == 400,
        status is NotFound <==> status.number() == 404,
        status is FailedDependency <==> status.number() == 424,
        status is InternalServerError <==> status.number() == 500,
{
}

/// The cookie of a provider is named after it.
pub proof fn law_cookie_is_named_after_the_provider(provider: Seq<char>)
    ensures
        auth::cookie_name_of(provider) == "oauth_state__"@ + provider,
        google::COOKIE_NAME@ == "oauth_state"@,
{
}

}
