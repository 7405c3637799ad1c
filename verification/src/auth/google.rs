//! Signing in at Google, for YouTube.
use axum_extra::extract::cookie::PrivateCookieJar;
use vstd::prelude::*;

use crate::auth;
use crate::auth::{ErrorResponse, OAuthRedirectQueryParams, OauthClient, OauthClientError};
use crate::cookie_jar;
use crate::oauth;
use crate::text;

verus! {

/// The name of the cookie that ties Google's answer to the question.
pub const COOKIE_NAME: &'static str = "oauth_state";

/// What Google knows this server by.
pub struct ClientIdSecret {
    pub client_id: String,
    pub client_secret: String,
}

/// The client of Google.
pub struct GoogleOauthClient(OauthClient);

impl View for GoogleOauthClient {
    type V = auth::OauthClientView;

    closed spec fn view(&self) -> auth::OauthClientView {
        self.0@
    }
}

impl GoogleOauthClient {
    #[verifier::type_invariant]
    closed spec fn asks_google(self) -> bool {
        self@.auth_url == "https://accounts.google.com/o/oauth2/auth"@
    }
}

/// The client of Google that goes by the given name and secret.
pub open spec fn google_client(
    client_info: ClientIdSecret,
    oauth_root: Seq<char>,
) -> auth::OauthClientView {
    auth::OauthClientView {
        client_id: client_info.client_id@,
        client_secret: client_info.client_secret@,
        auth_url: "https://accounts.google.com/o/oauth2/auth"@,
        token_url: "https://oauth2.googleapis.com/token"@,
        revocation_url: Some("https://oauth2.googleapis.com/revoke"@),
        redirect_url: oauth_root + "/oauth/google"@,
    }
}

/// The client of Google; Google sends users back to a path under `oauth_root`.
pub fn oauth_client(client_info: ClientIdSecret, oauth_root: &str) -> (result: Result<
    GoogleOauthClient,
    OauthClientError,
>)
    requires
        oauth::text_bytes(google_client(client_info, oauth_root@).redirect_url)
            <= oauth::URL_MAX_BYTES,
    ensures
        match google_client(client_info, oauth_root@).first_error() {
            Some(error) => result == Err::<GoogleOauthClient, OauthClientError>(error),
            None => result is Ok && result->Ok_0@ == google_client(client_info, oauth_root@),
        },
{
    proof {
        reveal_strlit("https://accounts.google.com/o/oauth2/auth");
        reveal_strlit("https://oauth2.googleapis.com/token");
        reveal_strlit("https://oauth2.googleapis.com/revoke");
        vstd::utf8::is_ascii_chars_encode_utf8("https://accounts.google.com/o/oauth2/auth"@);
        vstd::utf8::is_ascii_chars_encode_utf8("https://oauth2.googleapis.com/token"@);
        vstd::utf8::is_ascii_chars_encode_utf8("https://oauth2.googleapis.com/revoke"@);
    }
    let client = OauthClient::checked(
        client_info.client_id,
        client_info.client_secret,
        "https://accounts.google.com/o/oauth2/auth".to_owned(),
        "https://oauth2.googleapis.com/token".to_owned(),
        Some("https://oauth2.googleapis.com/revoke".to_owned()),
        text::joined(oauth_root, "/oauth/google"),
    );
    match client {
        Ok(client) => Ok(GoogleOauthClient(client)),
        Err(error) => Err(error),
    }
}

impl GoogleOauthClient {
    pub fn client(&self) -> (client: &OauthClient)
        ensures
            client@ == self@,
    {
        &self.0
    }
}

/// The scopes that are asked for.
pub open spec fn youtube_scopes() -> Seq<Seq<char>> {
    seq![
        "https://www.googleapis.com/auth/youtube.readonly"@,
        "https://www.googleapis.com/auth/youtube"@,
    ]
}

/// The parameters that ask for a refresh token.
pub open spec fn offline_parameters() -> Seq<(Seq<char>, Seq<char>)> {
    seq![("access_type"@, "offline"@), ("prompt"@, "consent"@)]
}

/// What starting to sign in gives for a state token.
pub open spec fn started(
    client: auth::OauthClientView,
    jar: PrivateCookieJar,
    token: Seq<char>,
    result: (PrivateCookieJar, String),
) -> bool {
    auth::sent_to_provider(
        client,
        youtube_scopes(),
        offline_parameters(),
        COOKIE_NAME@,
        token,
        jar,
        result.0,
        result.1@,
    )
}

/// Sends the user to Google with the given state token: the jar, and the URL of
/// the redirect.
pub fn start_youtube_oauth_with(
    google_oauth: &GoogleOauthClient,
    jar: PrivateCookieJar,
    token: String,
) -> (result: (PrivateCookieJar, String))
    requires
        vstd::utf8::encode_utf8(token@).len() <= cookie_jar::COOKIE_VALUE_MAX_BYTES,
    ensures
        started(google_oauth@, jar, token@, result),
{
    let mut scopes: Vec<String> = Vec::new();
    scopes.push("https://www.googleapis.com/auth/youtube.readonly".to_owned());
    scopes.push("https://www.googleapis.com/auth/youtube".to_owned());
    let mut extra: Vec<(String, String)> = Vec::new();
    extra.push(("access_type".to_owned(), "offline".to_owned()));
    extra.push(("prompt".to_owned(), "consent".to_owned()));
    proof {
        use_type_invariant(google_oauth);
        reveal_strlit("https://accounts.google.com/o/oauth2/auth");
        vstd::utf8::is_ascii_chars_encode_utf8(google_oauth@.auth_url);
        assert(!google_oauth@.auth_url.contains('#'));
        assert(text::texts(scopes@) =~= youtube_scopes());
        assert(text::text_pairs(extra@) =~= offline_parameters());
        reveal_strlit("oauth_state");
        assert(vstd::utf8::is_ascii_chars(COOKIE_NAME@));
        vstd::utf8::is_ascii_chars_encode_utf8(COOKIE_NAME@);
    }
    auth::send_to_provider(
        google_oauth.client(),
        &scopes,
        &extra,
        COOKIE_NAME.to_owned(),
        token,
        jar,
    )
}

/// Sends the user to Google, with a state token that was drawn for this attempt.
pub fn start_youtube_oauth(google_oauth: &GoogleOauthClient, jar: PrivateCookieJar) -> (result: (
    PrivateCookieJar,
    String,
))
    ensures
        exists|token: Seq<char>|
            {
                &&& oauth::csrf_token_shape(token)
                &&& oauth::csrf_token_drawn(token)
                &&& #[trigger] started(google_oauth@, jar, token, result)
            },
{
    let token = auth::new_state_token();
    let ghost shown = token@;
    let result = start_youtube_oauth_with(google_oauth, jar, token);
    assert(started(google_oauth@, jar, shown, result));
    result
}

/// Takes up Google's redirect. The code that it gives is to be exchanged for
/// tokens; those then go to [`auth::accept_tokens`].
pub fn complete_youtube_oauth(query: OAuthRedirectQueryParams, jar: &PrivateCookieJar) -> (result:
    Result<String, ErrorResponse>)
    ensures
        match auth::redirected_code(
            query,
            cookie_jar::cookie_value(*jar, COOKIE_NAME@),
            "error from google: "@,
        ) {
            Ok(code) => result is Ok && result->Ok_0@ == code,
            Err(refusal) => result is Err && result->Err_0@ == refusal,
        },
{
    auth::take_redirect(query, jar, COOKIE_NAME, "error from google: ")
}

/// Ends signing in, once the tokens have been accepted.
pub fn finish_youtube_oauth(jar: PrivateCookieJar) -> (result: (PrivateCookieJar, String))
    ensures
        auth::signed_in(COOKIE_NAME@, jar, result.0, result.1@),
{
    (cookie_jar::jar_remove(jar, COOKIE_NAME.to_owned()), "/".to_owned())
}

}
