use axum_extra::extract::cookie::{Key, PrivateCookieJar};
use token_manager::auth::google::{
    complete_youtube_oauth, finish_youtube_oauth, oauth_client, start_youtube_oauth,
    start_youtube_oauth_with, ClientIdSecret, GoogleOauthClient, COOKIE_NAME,
};
use token_manager::auth::{ErrorResponse, OAuthRedirectQueryParams, OauthClientError, StatusCode};

fn client_info() -> ClientIdSecret {
    ClientIdSecret { client_id: "id".to_string(), client_secret: "secret".to_string() }
}

fn google() -> GoogleOauthClient {
    match oauth_client(client_info(), "https://tokens.example.com") {
        Ok(client) => client,
        Err(error) => panic!("{}", error.message()),
    }
}

fn no_cookies() -> PrivateCookieJar {
    PrivateCookieJar::new(Key::from(&[5; 64]))
}

fn code_of(
    query: OAuthRedirectQueryParams,
    jar: &PrivateCookieJar,
) -> Result<String, (StatusCode, String)> {
    match complete_youtube_oauth(query, jar) {
        Ok(code) => Ok(code),
        Err(ErrorResponse { status, body }) => Err((status, body)),
    }
}

fn success(code: &str, state: &str) -> OAuthRedirectQueryParams {
    OAuthRedirectQueryParams::Success { code: code.to_string(), state: state.to_string() }
}

#[test]
fn google_client_is_configured() {
    let google = google();
    let client = google.client();
    assert_eq!(client.client_id(), "id");
    assert_eq!(client.client_secret(), "secret");
    assert_eq!(client.auth_url(), "https://accounts.google.com/o/oauth2/auth");
    assert_eq!(client.token_url(), "https://oauth2.googleapis.com/token");
    assert_eq!(client.revocation_url(), Some("https://oauth2.googleapis.com/revoke"));
    assert_eq!(client.redirect_url(), "https://tokens.example.com/oauth/google");
}

#[test]
fn google_client_needs_a_root_url() {
    assert_eq!(oauth_client(client_info(), "nowhere").err(), Some(OauthClientError::RedirectUrl));
}

#[test]
fn user_is_sent_to_google() {
    let (jar, url) = start_youtube_oauth_with(&google(), no_cookies(), "token".to_string());
    assert_eq!(
        url,
        "https://accounts.google.com/o/oauth2/auth?response_type=code&client_id=id&state=token\
         &redirect_uri=https%3A%2F%2Ftokens.example.com%2Foauth%2Fgoogle\
         &scope=https%3A%2F%2Fwww.googleapis.com%2Fauth%2Fyoutube.readonly\
         +https%3A%2F%2Fwww.googleapis.com%2Fauth%2Fyoutube\
         &access_type=offline&prompt=consent"
    );
    assert_eq!(jar.get("oauth_state").unwrap().value(), "token");
}

#[test]
fn google_answer_to_own_question_is_accepted() {
    let (jar, url) = start_youtube_oauth(&google(), no_cookies());
    let token = jar.get(COOKIE_NAME).unwrap().value().to_string();
    assert!(url.contains(&format!("&state={token}&")));
    assert_eq!(code_of(success("code", &token), &jar), Ok("code".to_string()));
}

#[test]
fn google_code_needs_matching_token() {
    let (jar, _url) = start_youtube_oauth_with(&google(), no_cookies(), "token".to_string());
    let mismatch =
        Err((StatusCode::BadRequest, "CSRF token does not match oauth state".to_string()));
    assert_eq!(code_of(success("code", "other"), &jar), mismatch);
    assert_eq!(code_of(success("code", "token"), &no_cookies()), mismatch);
}

#[test]
fn error_of_google_is_passed_on() {
    let query = OAuthRedirectQueryParams::Failure { error: "denied".to_string() };
    assert_eq!(
        code_of(query, &no_cookies()),
        Err((StatusCode::FailedDependency, "error from google: denied".to_string()))
    );
}

#[test]
fn google_redirect_is_taken_once() {
    let (jar, _url) = start_youtube_oauth_with(&google(), no_cookies(), "token".to_string());
    let (after, url) = finish_youtube_oauth(jar);
    assert_eq!(url, "/");
    assert!(after.get(COOKIE_NAME).is_none());
    assert!(code_of(success("code", "token"), &after).is_err());
}
