//! Signing in at a provider: sending the user there, and taking up the answer.
use axum_extra::extract::cookie::PrivateCookieJar;
use vstd::hash_map::StringHashMap;
use vstd::prelude::*;

use crate::cookie_jar;
use crate::cookie_jar::{SameSitePolicy, SetCookie};
use crate::oauth;
use crate::offset_date_time::{OffsetDateTime, OffsetDateTimeView};
use crate::state::TokenState;
use crate::text;
use crate::timestamp;
use crate::timestamp::Timestamp;

pub mod google;
pub mod laws;

verus! {

/// The lifetime of the cookie that ties an answer to the question.
pub const STATE_COOKIE_SECONDS: i64 = 300;

/// The HTTP status of an answer that is not a redirect.
#[derive(Clone, Copy, Debug, PartialEq, Eq, Structural)]
pub enum StatusCode {
    BadRequest,
    NotFound,
    FailedDependency,
    InternalServerError,
}

impl StatusCode {
    /// The number that stands for the status on the wire.
    pub open spec fn number(self) -> u16 {
        match self {
            StatusCode::BadRequest => 400,
            StatusCode::NotFound => 404,
            StatusCode::FailedDependency => 424,
            StatusCode::InternalServerError => 500,
        }
    }

    pub fn as_u16(self) -> (number: u16)
        ensures
            number == self.number(),
    {
        match self {
            StatusCode::BadRequest => 400,
            StatusCode::NotFound => 404,
            StatusCode::FailedDependency => 424,
            StatusCode::InternalServerError => 500,
        }
    }
}

/// An answer that is not a redirect.
pub struct ErrorResponse {
    pub status: StatusCode,
    pub body: String,
}

impl View for ErrorResponse {
    type V = (StatusCode, Seq<char>);

    open spec fn view(&self) -> (StatusCode, Seq<char>) {
        (self.status, self.body@)
    }
}

/// What is configured for a provider.
pub struct OauthStaticConfig {
    pub client_id: String,
    pub client_secret: String,
    pub auth_url: String,
    pub token_url: String,
    pub revocation_url: Option<String>,
    pub scope: Vec<String>,
    pub extra: Vec<(String, String)>,
}

/// The client of one provider. Its URLs are valid.
pub struct OauthClient {
    client_id: String,
    client_secret: String,
    auth_url: String,
    token_url: String,
    revocation_url: Option<String>,
    redirect_url: String,
}

/// What an [`OauthClient`] holds, over plain values.
pub struct OauthClientView {
    pub client_id: Seq<char>,
    pub client_secret: Seq<char>,
    pub auth_url: Seq<char>,
    pub token_url: Seq<char>,
    pub revocation_url: Option<Seq<char>>,
    pub redirect_url: Seq<char>,
}

impl View for OauthClient {
    type V = OauthClientView;

    closed spec fn view(&self) -> OauthClientView {
        OauthClientView {
            client_id: self.client_id@,
            client_secret: self.client_secret@,
            auth_url: self.auth_url@,
            token_url: self.token_url@,
            revocation_url: text::optional_text(self.revocation_url),
            redirect_url: self.redirect_url@,
        }
    }
}

/// The providers that users can sign in at, by name.
pub type Providers = StringHashMap<(OauthClient, OauthStaticConfig)>;

/// The URL of a client's configuration that is not one.
#[derive(Clone, Copy, Debug, PartialEq, Eq, Structural)]
pub enum OauthClientError {
    AuthUrl,
    TokenUrl,
    RevocationUrl,
    RedirectUrl,
}

impl OauthClientError {
    pub fn message(self) -> (text: &'static str)
        ensures
            text@ == match self {
                OauthClientError::AuthUrl => "auth url should be a valid url"@,
                OauthClientError::TokenUrl => "token url should be a valid url"@,
                OauthClientError::RevocationUrl => "revocation url should be a valid url"@,
                OauthClientError::RedirectUrl => "redirect url should be a valid url"@,
            },
    {
        match self {
            OauthClientError::AuthUrl => "auth url should be a valid url",
            OauthClientError::TokenUrl => "token url should be a valid url",
            OauthClientError::RevocationUrl => "revocation url should be a valid url",
            OauthClientError::RedirectUrl => "redirect url should be a valid url",
        }
    }
}

impl OauthClientView {
    /// The first URL of a client, in the order in which they are looked at, that
    /// is not one.
    pub open spec fn first_error(self) -> Option<OauthClientError> {
        if !oauth::auth_url_valid(self.auth_url) {
            Some(OauthClientError::AuthUrl)
        } else if !oauth::token_url_valid(self.token_url) {
            Some(OauthClientError::TokenUrl)
        } else if self.revocation_url is Some && !oauth::revocation_url_valid(
            self.revocation_url->0,
        ) {
            Some(OauthClientError::RevocationUrl)
        } else if !oauth::redirect_url_valid(self.redirect_url) {
            Some(OauthClientError::RedirectUrl)
        } else {
            None
        }
    }

    /// Whether all URLs of a client are short enough to be parsed.
    pub open spec fn urls_parsable(self) -> bool {
        &&& oauth::text_bytes(self.auth_url) <= oauth::URL_MAX_BYTES
        &&& oauth::text_bytes(self.token_url) <= oauth::URL_MAX_BYTES
        &&& self.revocation_url is Some ==> oauth::text_bytes(self.revocation_url->0)
            <= oauth::URL_MAX_BYTES
        &&& oauth::text_bytes(self.redirect_url) <= oauth::URL_MAX_BYTES
    }
}

/// Where a provider sends the user back to.
pub open spec fn redirect_url_of(oauth_root: Seq<char>, provider_name: Seq<char>) -> Seq<char> {
    oauth_root + "/oauth/"@ + provider_name
}

pub fn redirect_url(oauth_root: &str, provider_name: &str) -> (url: String)
    ensures
        url@ == redirect_url_of(oauth_root@, provider_name@),
        url@ == oauth_root@ + "/oauth/"@ + provider_name@,
{
    text::joined(text::joined(oauth_root, "/oauth/").as_str(), provider_name)
}

impl OauthStaticConfig {
    /// The client that this configuration describes.
    pub open spec fn client(
        self,
        provider_name: Seq<char>,
        oauth_root: Seq<char>,
    ) -> OauthClientView {
        OauthClientView {
            client_id: self.client_id@,
            client_secret: self.client_secret@,
            auth_url: self.auth_url@,
            token_url: self.token_url@,
            revocation_url: text::optional_text(self.revocation_url),
            redirect_url: redirect_url_of(oauth_root, provider_name),
        }
    }
}

impl OauthClient {
    #[verifier::type_invariant]
    closed spec fn urls_valid(self) -> bool {
        &&& self@.first_error() is None
        &&& self@.urls_parsable()
    }

    /// A client, if all of its URLs are valid.
    pub(crate) fn checked(
        client_id: String,
        client_secret: String,
        auth_url: String,
        token_url: String,
        revocation_url: Option<String>,
        redirect_url: String,
    ) -> (result: Result<OauthClient, OauthClientError>)
        requires
            (OauthClientView {
                client_id: client_id@,
                client_secret: client_secret@,
                auth_url: auth_url@,
                token_url: token_url@,
                revocation_url: text::optional_text(revocation_url),
                redirect_url: redirect_url@,
            }).urls_parsable(),
        ensures
            ({
                let client = OauthClientView {
                    client_id: client_id@,
                    client_secret: client_secret@,
                    auth_url: auth_url@,
                    token_url: token_url@,
                    revocation_url: text::optional_text(revocation_url),
                    redirect_url: redirect_url@,
                };
                match client.first_error() {
                    Some(error) => result == Err::<OauthClient, OauthClientError>(error),
                    None => result is Ok && result->Ok_0@ == client,
                }
            }),
    {
        if oauth::check_auth_url(auth_url.as_str()).is_err() {
            return Err(OauthClientError::AuthUrl);
        }
        if oauth::check_token_url(token_url.as_str()).is_err() {
            return Err(OauthClientError::TokenUrl);
        }
        if let Some(revocation_url) = &revocation_url {
            if oauth::check_revocation_url(revocation_url.as_str()).is_err() {
                return Err(OauthClientError::RevocationUrl);
            }
        }
        if oauth::check_redirect_url(redirect_url.as_str()).is_err() {
            return Err(OauthClientError::RedirectUrl);
        }
        Ok(
            OauthClient {
                client_id,
                client_secret,
                auth_url,
                token_url,
                revocation_url,
                redirect_url,
            },
        )
    }
}

impl OauthClient {
    pub fn client_id(&self) -> (result: &str)
        ensures
            result@ == self@.client_id,
    {
        self.client_id.as_str()
    }

    pub fn client_secret(&self) -> (result: &str)
        ensures
            result@ == self@.client_secret,
    {
        self.client_secret.as_str()
    }

    pub fn auth_url(&self) -> (result: &str)
        ensures
            result@ == self@.auth_url,
            oauth::auth_url_valid(result@),
    {
        proof {
            use_type_invariant(self);
        }
        self.auth_url.as_str()
    }

    pub fn token_url(&self) -> (result: &str)
        ensures
            result@ == self@.token_url,
            oauth::token_url_valid(result@),
    {
        proof {
            use_type_invariant(self);
        }
        self.token_url.as_str()
    }

    pub fn revocation_url(&self) -> (result: Option<&str>)
        ensures
            result is Some == self@.revocation_url is Some,
            result is Some ==> result->0@ == self@.revocation_url->0,
            result is Some ==> oauth::revocation_url_valid(result->0@),
    {
        proof {
            use_type_invariant(self);
        }
        match &self.revocation_url {
            Some(url) => Some(url.as_str()),
            None => None,
        }
    }

    pub fn redirect_url(&self) -> (result: &str)
        ensures
            result@ == self@.redirect_url,
            oauth::redirect_url_valid(result@),
    {
        proof {
            use_type_invariant(self);
        }
        self.redirect_url.as_str()
    }
}

/// The client of a provider, as it is configured; the provider sends users back
/// to a path under `oauth_root`.
pub fn oauth_client(
    provider_name: &str,
    provider_config: OauthStaticConfig,
    oauth_root: &str,
) -> (result: Result<OauthClient, OauthClientError>)
    requires
        provider_config.client(provider_name@, oauth_root@).urls_parsable(),
    ensures
        match provider_config.client(provider_name@, oauth_root@).first_error() {
            Some(error) => result == Err::<OauthClient, OauthClientError>(error),
            None => {
                &&& result is Ok
                &&& result->Ok_0@ == provider_config.client(provider_name@, oauth_root@)
            },
        },
{
    OauthClient::checked(
        provider_config.client_id,
        provider_config.client_secret,
        provider_config.auth_url,
        provider_config.token_url,
        provider_config.revocation_url,
        redirect_url(oauth_root, provider_name),
    )
}

/// The name of the cookie that ties a provider's answer to the question.
pub open spec fn cookie_name_of(provider_name: Seq<char>) -> Seq<char> {
    "oauth_state__"@ + provider_name
}

pub fn cookie_name(provider_name: &str) -> (name: String)
    ensures
        name@ == cookie_name_of(provider_name@),
        name@ == "oauth_state__"@ + provider_name@,
{
    text::joined("oauth_state__", provider_name)
}

/// The cookie that remembers a state token.
pub open spec fn state_cookie_of(name: Seq<char>, token: Seq<char>) -> cookie_jar::SetCookieView {
    cookie_jar::SetCookieView {
        name,
        value: token,
        path: "/"@,
        http_only: true,
        secure: true,
        same_site: SameSitePolicy::Lax,
        max_age_seconds: STATE_COOKIE_SECONDS as int,
    }
}

fn state_cookie(name: String, token: String) -> (cookie: SetCookie)
    ensures
        cookie@ == state_cookie_of(name@, token@),
{
    SetCookie {
        name,
        value: token,
        path: "/".to_owned(),
        http_only: true,
        secure: true,
        same_site: SameSitePolicy::Lax,
        max_age_seconds: STATE_COOKIE_SECONDS,
    }
}

/// How a user is sent to a provider: the state token goes into the URL and, under
/// the given name, into a cookie. Nothing else in the jar changes.
pub open spec fn sent_to_provider(
    client: OauthClientView,
    scopes: Seq<Seq<char>>,
    extra: Seq<(Seq<char>, Seq<char>)>,
    cookie_name: Seq<char>,
    token: Seq<char>,
    before: PrivateCookieJar,
    after: PrivateCookieJar,
    url: Seq<char>,
) -> bool {
    &&& cookie_jar::request_cookies(after) == cookie_jar::request_cookies(before)
    &&& cookie_jar::cookie_changes(after) == cookie_jar::cookie_changes(before).insert(
        cookie_name,
        cookie_jar::CookieChange::Stored(state_cookie_of(cookie_name, token)),
    )
    &&& url == oauth::authorization_url(
        client.auth_url,
        client.client_id,
        client.redirect_url,
        scopes,
        extra,
        token,
    )
}

pub(crate) fn send_to_provider(
    client: &OauthClient,
    scopes: &Vec<String>,
    extra: &Vec<(String, String)>,
    cookie_name: String,
    token: String,
    jar: PrivateCookieJar,
) -> (result: (PrivateCookieJar, String))
    requires
        vstd::utf8::encode_utf8(cookie_name@).len() <= cookie_jar::COOKIE_NAME_MAX_BYTES,
        vstd::utf8::encode_utf8(token@).len() <= cookie_jar::COOKIE_VALUE_MAX_BYTES,
        oauth::authorization_url_fits(
            client@.auth_url,
            client@.client_id,
            client@.redirect_url,
            text::texts(scopes@),
            text::text_pairs(extra@),
            oauth::text_bytes(token@),
        ),
    ensures
        sent_to_provider(
            client@,
            text::texts(scopes@),
            text::text_pairs(extra@),
            cookie_name@,
            token@,
            jar,
            result.0,
            result.1@,
        ),
{
    proof {
        use_type_invariant(client);
    }
    let url = oauth::authorize_url(
        client.auth_url.as_str(),
        client.client_id.as_str(),
        client.redirect_url.as_str(),
        scopes,
        extra,
        token.as_str(),
    );
    (cookie_jar::jar_add(jar, state_cookie(cookie_name, token)), url)
}

/// Whether users can be sent to a provider with a state token of the given length,
/// or the provider is not known: the cookie's name and the URL have their limits.
pub open spec fn startable(
    provider: Seq<char>,
    oauth: Map<Seq<char>, (OauthClient, OauthStaticConfig)>,
    token_bytes: nat,
) -> bool {
    oauth.contains_key(provider) ==> {
        let (client, config) = oauth[provider];
        &&& vstd::utf8::encode_utf8(cookie_name_of(provider)).len()
            <= cookie_jar::COOKIE_NAME_MAX_BYTES
        &&& oauth::authorization_url_fits(
            client@.auth_url,
            client@.client_id,
            client@.redirect_url,
            text::texts(config.scope@),
            text::text_pairs(config.extra@),
            token_bytes,
        )
    }
}

/// Whether [`start_auth`] can be asked for a provider.
pub fn can_start_auth(provider: &str, oauth: &Providers) -> (result: bool)
    ensures
        result == startable(provider@, oauth@, oauth::CSRF_TOKEN_BYTES as nat),
{
    match oauth.get(provider) {
        None => true,
        Some((client, config)) => {
            cookie_name(provider).as_str().as_bytes().len() as u64
                <= cookie_jar::COOKIE_NAME_MAX_BYTES && oauth::check_authorization_url_fits(
                client.auth_url.as_str(),
                client.client_id.as_str(),
                client.redirect_url.as_str(),
                &config.scope,
                &config.extra,
                oauth::CSRF_TOKEN_BYTES,
            )
        },
    }
}

/// Sends the user to a provider with the given state token: the jar and the URL
/// of the redirect, or the status of the refusal.
pub fn start_auth_with(
    provider: &str,
    oauth: &Providers,
    jar: PrivateCookieJar,
    token: String,
) -> (result: Result<(PrivateCookieJar, String), StatusCode>)
    requires
        startable(provider@, oauth@, oauth::text_bytes(token@)),
        vstd::utf8::encode_utf8(token@).len() <= cookie_jar::COOKIE_VALUE_MAX_BYTES,
    ensures
        started(provider@, oauth@, jar, token@, result),
{
    match oauth.get(provider) {
        None => Err(StatusCode::NotFound),
        Some((client, config)) => Ok(
            send_to_provider(
                client,
                &config.scope,
                &config.extra,
                cookie_name(provider),
                token,
                jar,
            ),
        ),
    }
}

/// What starting to sign in gives for a state token.
pub open spec fn started(
    provider: Seq<char>,
    oauth: Map<Seq<char>, (OauthClient, OauthStaticConfig)>,
    jar: PrivateCookieJar,
    token: Seq<char>,
    result: Result<(PrivateCookieJar, String), StatusCode>,
) -> bool {
    if oauth.contains_key(provider) {
        &&& result is Ok
        &&& sent_to_provider(
            oauth[provider].0@,
            text::texts(oauth[provider].1.scope@),
            text::text_pairs(oauth[provider].1.extra@),
            cookie_name_of(provider),
            token,
            jar,
            result->Ok_0.0,
            result->Ok_0.1@,
        )
    } else {
        result == Err::<(PrivateCookieJar, String), StatusCode>(StatusCode::NotFound)
    }
}

/// Sends the user to a provider, with a state token that was drawn for this
/// attempt.
pub fn start_auth(provider: &str, oauth: &Providers, jar: PrivateCookieJar) -> (result: Result<
    (PrivateCookieJar, String),
    StatusCode,
>)
    requires
        startable(provider@, oauth@, oauth::CSRF_TOKEN_BYTES as nat),
    ensures
        exists|token: Seq<char>|
            {
                &&& oauth::csrf_token_shape(token)
                &&& oauth::csrf_token_drawn(token)
                &&& #[trigger] started(provider@, oauth@, jar, token, result)
            },
{
    let token = new_state_token();
    let ghost shown = token@;
    let result = start_auth_with(provider, oauth, jar, token);
    assert(started(provider@, oauth@, jar, shown, result));
    result
}

/// A new state token. It is short enough for a cookie.
pub(crate) fn new_state_token() -> (token: String)
    ensures
        oauth::csrf_token_shape(token@),
        oauth::csrf_token_drawn(token@),
        oauth::text_bytes(token@) == oauth::CSRF_TOKEN_BYTES,
{
    let token = oauth::random_csrf_token();
    proof {
        oauth::lemma_csrf_token_drawn(token);
        assert(vstd::utf8::is_ascii_chars(token@)) by {
            assert forall|i: int| 0 <= i < token@.len() implies 0 <= #[trigger] token@[i] <= 127 by {
                assert(oauth::url_safe_base64(token@[i]));
            }
        }
        vstd::utf8::is_ascii_chars_encode_utf8(token@);
    }
    token
}

/// How a provider sends a user back.
pub enum OAuthRedirectQueryParams {
    Success { code: String, state: String },
    Failure { error: String },
}

/// What a provider's redirect is worth, given the cookie that should hold the
/// state token: the code to exchange for tokens, or the refusal.
pub open spec fn redirected_code(
    query: OAuthRedirectQueryParams,
    cookie: Option<Seq<char>>,
    failure: Seq<char>,
) -> Result<Seq<char>, (StatusCode, Seq<char>)> {
    match query {
        OAuthRedirectQueryParams::Failure { error } => Err(
            (StatusCode::FailedDependency, failure + error@),
        ),
        OAuthRedirectQueryParams::Success { code, state } => if cookie == Some(state@) {
            Ok(code@)
        } else {
            Err((StatusCode::BadRequest, "CSRF token does not match oauth state"@))
        },
    }
}

pub(crate) fn take_redirect(
    query: OAuthRedirectQueryParams,
    jar: &PrivateCookieJar,
    cookie_name: &str,
    failure: &str,
) -> (result: Result<String, ErrorResponse>)
    ensures
        match redirected_code(query, cookie_jar::cookie_value(*jar, cookie_name@), failure@) {
            Ok(code) => result is Ok && result->Ok_0@ == code,
            Err(refusal) => result is Err && result->Err_0@ == refusal,
        },
{
    match query {
        OAuthRedirectQueryParams::Failure { error } => Err(
            ErrorResponse {
                status: StatusCode::FailedDependency,
                body: text::joined(failure, error.as_str()),
            },
        ),
        OAuthRedirectQueryParams::Success { code, state } => {
            if let Some(cookie) = cookie_jar::jar_get(jar, cookie_name) {
                if cookie == state {
                    return Ok(code);
                }
            }
            Err(
                ErrorResponse {
                    status: StatusCode::BadRequest,
                    body: "CSRF token does not match oauth state".to_owned(),
                },
            )
        },
    }
}

/// What a provider's redirect leads to: the client and the code to exchange for
/// tokens, or the refusal.
pub open spec fn redirect_outcome(
    provider: Seq<char>,
    query: OAuthRedirectQueryParams,
    oauth: Map<Seq<char>, (OauthClient, OauthStaticConfig)>,
    cookie: Option<Seq<char>>,
) -> Result<(OauthClient, Seq<char>), (StatusCode, Seq<char>)> {
    match redirected_code(query, cookie, "error from provider: "@) {
        Err(refusal) => Err(refusal),
        Ok(code) => if oauth.contains_key(provider) {
            Ok((oauth[provider].0, code))
        } else {
            Err((StatusCode::NotFound, Seq::empty()))
        },
    }
}

/// Takes up a provider's redirect. The code that it gives is to be exchanged for
/// tokens with the client that it gives; the tokens then go to [`accept_tokens`].
pub fn complete_auth<'a>(
    provider: &str,
    query: OAuthRedirectQueryParams,
    oauth: &'a Providers,
    jar: &PrivateCookieJar,
) -> (result: Result<(&'a OauthClient, String), ErrorResponse>)
    ensures
        match redirect_outcome(
            provider@,
            query,
            oauth@,
            cookie_jar::cookie_value(*jar, cookie_name_of(provider@)),
        ) {
            Ok((client, code)) => {
                &&& result is Ok
                &&& *result->Ok_0.0 == client
                &&& result->Ok_0.1@ == code
            },
            Err(refusal) => result is Err && result->Err_0@ == refusal,
        },
{
    let code = match take_redirect(
        query,
        jar,
        cookie_name(provider).as_str(),
        "error from provider: ",
    ) {
        Ok(code) => code,
        Err(refusal) => return Err(refusal),
    };
    match oauth.get(provider) {
        None => Err(ErrorResponse { status: StatusCode::NotFound, body: String::new() }),
        Some((client, _)) => Ok((client, code)),
    }
}

/// What a provider gave for a code.
pub struct TokenResponse {
    pub access_token: String,
    pub refresh_token: Option<String>,
    /// The lifetime of the access token, in seconds.
    pub expires_in: Option<u64>,
}

impl TokenResponse {
    /// Why the tokens are refused, if they are: without a lifetime or without a
    /// refresh token they are of no use.
    pub open spec fn refusal(self) -> Option<(StatusCode, Seq<char>)> {
        if self.expires_in is None {
            Some((StatusCode::FailedDependency, "offline authorization missing expires_in"@))
        } else if self.refresh_token is None {
            Some(
                (
                    StatusCode::FailedDependency,
                    "offline authorization should always provide a refresh token"@,
                ),
            )
        } else {
            None
        }
    }

    /// When the access token expires, as nanoseconds from the Unix epoch.
    pub open spec fn expires_at(self, acquired_at: int) -> int {
        acquired_at + self.expires_in->0 * timestamp::NANOSECONDS_PER_SECOND
    }

    /// The state that holds these tokens. Its dates are written in UTC.
    pub open spec fn held_by(self, acquired_at: Timestamp, token_state: TokenState) -> bool {
        &&& token_state.acquired_at@ == OffsetDateTimeView::utc(acquired_at@)
        &&& token_state.expires_at@ == OffsetDateTimeView::utc(self.expires_at(acquired_at@))
        &&& token_state.access_token == self.access_token
        &&& Some(token_state.refresh_token) == self.refresh_token
    }
}

/// Takes up the tokens that a provider gave at the given moment. What comes out is
/// to be inserted into the state; how that went then goes to [`finish_auth`].
pub fn accept_tokens(response: TokenResponse, acquired_at: Timestamp) -> (result: Result<
    TokenState,
    ErrorResponse,
>)
    requires
        response.expires_in is Some ==> timestamp::representable(
            response.expires_at(acquired_at@),
        ),
    ensures
        match response.refusal() {
            Some(refusal) => result is Err && result->Err_0@ == refusal,
            None => result is Ok && response.held_by(acquired_at, result->Ok_0),
        },
        result is Ok ==> {
            &&& result->Ok_0.access_token == response.access_token
            &&& Some(result->Ok_0.refresh_token) == response.refresh_token
            &&& result->Ok_0.acquired_at@.moment() == acquired_at@
        },
{
    let expires_at = match response.expires_in {
        Some(expires_in) => acquired_at.checked_add_seconds(expires_in).unwrap(),
        None => return Err(
            ErrorResponse {
                status: StatusCode::FailedDependency,
                body: "offline authorization missing expires_in".to_owned(),
            },
        ),
    };
    match response.refresh_token {
        Some(refresh_token) => Ok(
            TokenState {
                acquired_at: OffsetDateTime::from_timestamp(acquired_at),
                expires_at: OffsetDateTime::from_timestamp(expires_at),
                access_token: response.access_token,
                refresh_token,
            },
        ),
        None => Err(
            ErrorResponse {
                status: StatusCode::FailedDependency,
                body: "offline authorization should always provide a refresh token".to_owned(),
            },
        ),
    }
}

/// How signing in ends when it succeeds: the state cookie leaves the jar, and the
/// user goes to the start page.
pub open spec fn signed_in(
    cookie_name: Seq<char>,
    before: PrivateCookieJar,
    after: PrivateCookieJar,
    url: Seq<char>,
) -> bool {
    &&& cookie_jar::request_cookies(after) == cookie_jar::request_cookies(before)
    &&& cookie_jar::cookie_changes(after) == if cookie_jar::request_cookies(before).contains_key(
        cookie_name,
    ) {
        cookie_jar::cookie_changes(before).insert(cookie_name, cookie_jar::CookieChange::Removed)
    } else {
        cookie_jar::cookie_changes(before).remove(cookie_name)
    }
    &&& url == "/"@
}

/// What the user is told when the tokens could not be inserted.
pub open spec fn insertion_refusal(error: Seq<char>) -> (StatusCode, Seq<char>) {
    (StatusCode::InternalServerError, "failed to save youtube token: "@ + error)
}

/// Ends signing in, once the tokens have been inserted into the state or an error
/// has come up, which is given as a text.
pub fn finish_auth(provider: &str, jar: PrivateCookieJar, inserted: Result<(), String>) -> (result:
    Result<(PrivateCookieJar, String), ErrorResponse>)
    ensures
        match inserted {
            Ok(_) => {
                &&& result is Ok
                &&& signed_in(
                    cookie_name_of(provider@),
                    jar,
                    result->Ok_0.0,
                    result->Ok_0.1@,
                )
            },
            Err(error) => {
                &&& result is Err
                &&& result->Err_0@ == insertion_refusal(error@)
            },
        },
{
    match inserted {
        Ok(_) => Ok((cookie_jar::jar_remove(jar, cookie_name(provider)), "/".to_owned())),
        Err(error) => Err(
            ErrorResponse {
                status: StatusCode::InternalServerError,
                body: text::joined("failed to save youtube token: ", error.as_str()),
            },
        ),
    }
}

}
