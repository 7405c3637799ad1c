use axum::http::header::{COOKIE, SET_COOKIE};
use axum::http::HeaderMap;
use axum::response::IntoResponse;
use axum_extra::extract::cookie::{Key, PrivateCookieJar};
use token_manager::auth::{
    accept_tokens, can_start_auth, complete_auth, cookie_name, finish_auth, oauth_client,
    redirect_url, start_auth, start_auth_with, ErrorResponse, OAuthRedirectQueryParams, OauthClientError, OauthStaticConfig,
    Providers, StatusCode, TokenResponse,
};
use token_manager::oauth::PARTS_MAX_BYTES;
use token_manager::timestamp::Timestamp;

const ROOT: &str = "https://tokens.example.com";

fn key() -> Key {
    let bytes: Vec<u8> = (0..64).collect();
    Key::from(&bytes)
}

fn no_cookies() -> PrivateCookieJar {
    PrivateCookieJar::new(key())
}

fn set_cookies(jar: PrivateCookieJar) -> Vec<String> {
    jar.into_response()
        .headers()
        .get_all(SET_COOKIE)
        .iter()
        .map(|value| value.to_str().unwrap().to_string())
        .collect()
}

/// The jar of the next request of a client that keeps what it was sent.
fn next_request(jar: PrivateCookieJar) -> PrivateCookieJar {
    let mut headers = HeaderMap::new();
    for cookie in set_cookies(jar) {
        let pair = cookie.split(';').next().unwrap();
        if !pair.ends_with('=') {
            headers.append(COOKIE, pair.parse().unwrap());
        }
    }
    PrivateCookieJar::from_headers(&headers, key())
}

fn config() -> OauthStaticConfig {
    OauthStaticConfig {
        client_id: "the client".to_string(),
        client_secret: "the secret".to_string(),
        auth_url: "https://provider.example.com/auth".to_string(),
        token_url: "https://provider.example.com/token".to_string(),
        revocation_url: None,
        scope: vec!["read".to_string(), "write all".to_string()],
        extra: vec![
            ("access_type".to_string(), "offline".to_string()),
            ("prompt".to_string(), "consent".to_string()),
        ],
    }
}

fn providers() -> Providers {
    let mut providers = Providers::new();
    for name in ["spotify", "youtube"] {
        match oauth_client(name, config(), ROOT) {
            Ok(client) => providers.insert(name.to_string(), (client, config())),
            Err(error) => panic!("{}", error.message()),
        }
    }
    providers
}

fn start(provider: &str, jar: PrivateCookieJar, token: &str) -> (PrivateCookieJar, String) {
    match start_auth_with(provider, &providers(), jar, token.to_string()) {
        Ok(result) => result,
        Err(status) => panic!("{}", status.as_u16()),
    }
}

fn success(code: &str, state: &str) -> OAuthRedirectQueryParams {
    OAuthRedirectQueryParams::Success { code: code.to_string(), state: state.to_string() }
}

fn code_of(
    provider: &str,
    query: OAuthRedirectQueryParams,
    jar: &PrivateCookieJar,
) -> Result<String, (StatusCode, String)> {
    match complete_auth(provider, query, &providers(), jar) {
        Ok((_client, code)) => Ok(code),
        Err(ErrorResponse { status, body }) => Err((status, body)),
    }
}

fn mismatch() -> Result<String, (StatusCode, String)> {
    Err((StatusCode::BadRequest, "CSRF token does not match oauth state".to_string()))
}

#[test]
fn client_holds_its_configuration() {
    let mut config = config();
    config.revocation_url = Some("https://provider.example.com/revoke".to_string());
    match oauth_client("spotify", config, ROOT) {
        Ok(client) => {
            assert_eq!(client.client_id(), "the client");
            assert_eq!(client.client_secret(), "the secret");
            assert_eq!(client.auth_url(), "https://provider.example.com/auth");
            assert_eq!(client.token_url(), "https://provider.example.com/token");
            assert_eq!(client.revocation_url(), Some("https://provider.example.com/revoke"));
            assert_eq!(client.redirect_url(), "https://tokens.example.com/oauth/spotify");
        }
        Err(error) => panic!("{}", error.message()),
    }
}

#[test]
fn clients_need_valid_urls() {
    let mut no_auth = config();
    no_auth.auth_url = "provider".to_string();
    assert_eq!(oauth_client("p", no_auth, ROOT).err(), Some(OauthClientError::AuthUrl));
    let mut no_token = config();
    no_token.token_url = "/token".to_string();
    assert_eq!(oauth_client("p", no_token, ROOT).err(), Some(OauthClientError::TokenUrl));
    let mut no_revocation = config();
    no_revocation.revocation_url = Some(String::new());
    assert_eq!(oauth_client("p", no_revocation, ROOT).err(), Some(OauthClientError::RevocationUrl));
    assert_eq!(oauth_client("p", config(), "tokens").err(), Some(OauthClientError::RedirectUrl));
    assert_eq!(OauthClientError::RedirectUrl.message(), "redirect url should be a valid url");
}

#[test]
fn redirect_url_names_the_provider() {
    assert_eq!(redirect_url(ROOT, "spotify"), "https://tokens.example.com/oauth/spotify");
}

#[test]
fn cookie_names_differ() {
    assert_eq!(cookie_name("spotify"), "oauth_state__spotify");
    assert_eq!(cookie_name(""), "oauth_state__");
    assert_ne!(cookie_name("spotify"), cookie_name("youtube"));
}

#[test]
fn statuses_have_numbers() {
    assert_eq!(StatusCode::BadRequest.as_u16(), 400);
    assert_eq!(StatusCode::NotFound.as_u16(), 404);
    assert_eq!(StatusCode::FailedDependency.as_u16(), 424);
    assert_eq!(StatusCode::InternalServerError.as_u16(), 500);
}

#[test]
fn user_is_sent_to_the_provider() {
    let (jar, url) = start("spotify", no_cookies(), "the token");
    assert_eq!(
        url,
        "https://provider.example.com/auth?response_type=code&client_id=the+client\
         &state=the+token\
         &redirect_uri=https%3A%2F%2Ftokens.example.com%2Foauth%2Fspotify\
         &scope=read+write+all&access_type=offline&prompt=consent"
    );
    assert_eq!(jar.get("oauth_state__spotify").unwrap().value(), "the token");
}

fn provider_with(config: OauthStaticConfig, scopes: Vec<String>) -> Providers {
    let mut providers = Providers::new();
    match oauth_client("p", config, ROOT) {
        Ok(client) => {
            let mut asked = self::config();
            asked.scope = scopes;
            asked.extra = Vec::new();
            providers.insert("p".to_string(), (client, asked));
        }
        Err(error) => panic!("{}", error.message()),
    }
    providers
}

#[test]
fn fragment_stays_behind_the_query() {
    let mut config = config();
    config.auth_url = "https://provider.example.com/auth#part".to_string();
    let providers = provider_with(config, vec!["read".to_string()]);
    assert!(can_start_auth("p", &providers));
    match start_auth_with("p", &providers, no_cookies(), "token".to_string()) {
        Ok((_jar, url)) => assert_eq!(
            url,
            "https://provider.example.com/auth?response_type=code&client_id=the+client\
             &state=token&redirect_uri=https%3A%2F%2Ftokens.example.com%2Foauth%2Fp\
             &scope=read#part"
        ),
        Err(status) => panic!("{}", status.as_u16()),
    }
}

#[test]
fn length_of_a_request_is_limited() {
    // The identifier, the redirect URL, the separator of the scope and the token.
    let fixed = "the client".len() + redirect_url(ROOT, "p").len() + 1 + 22;
    let mut plain = config();
    plain.auth_url = "https://provider.example.com/auth".to_string();
    let mut with_fragment = config();
    with_fragment.auth_url = "https://provider.example.com/auth#".to_string();
    let room = PARTS_MAX_BYTES as usize - with_fragment.auth_url.len() - fixed;
    let fits = provider_with(with_fragment, vec!["s".repeat(room)]);
    assert!(can_start_auth("p", &fits));
    assert!(can_start_auth("unknown", &fits));

    let mut with_fragment = config();
    with_fragment.auth_url = "https://provider.example.com/auth#".to_string();
    let too_long = provider_with(with_fragment, vec!["s".repeat(room + 1)]);
    assert!(!can_start_auth("p", &too_long));
    assert!(can_start_auth("unknown", &too_long));
    assert!(can_start_auth("p", &provider_with(plain, vec!["s".repeat(room + 1)])));
}

#[test]
fn state_cookie_is_guarded() {
    let (jar, _url) = start("spotify", no_cookies(), "the token");
    let cookies = set_cookies(jar);
    assert_eq!(cookies.len(), 1);
    assert!(cookies[0].starts_with("oauth_state__spotify="));
    assert!(!cookies[0].contains("the token"));
    let mut attributes: Vec<&str> = cookies[0].split("; ").skip(1).collect();
    attributes.sort();
    assert_eq!(attributes, vec!["HttpOnly", "Max-Age=300", "Path=/", "SameSite=Lax", "Secure"]);
}

#[test]
fn each_attempt_has_a_token_of_its_own() {
    let mut tokens = Vec::new();
    for _ in 0..2 {
        match start_auth("youtube", &providers(), no_cookies()) {
            Ok((jar, url)) => {
                let token = jar.get("oauth_state__youtube").unwrap().value().to_string();
                assert_eq!(token.len(), 22);
                assert!(token.chars().all(|c| c.is_ascii_alphanumeric() || c == '-' || c == '_'));
                assert!(url.contains(&format!("&state={token}&")));
                tokens.push(token);
            }
            Err(status) => panic!("{}", status.as_u16()),
        }
    }
    assert_ne!(tokens[0], tokens[1]);
}

#[test]
fn unknown_provider_is_not_found() {
    assert!(matches!(
        start_auth("other", &providers(), no_cookies()),
        Err(StatusCode::NotFound)
    ));
    let (jar, _url) = start("spotify", no_cookies(), "token");
    let jar = jar.add(("oauth_state__other", "token"));
    assert_eq!(
        code_of("other", success("code", "token"), &jar),
        Err((StatusCode::NotFound, String::new()))
    );
}

#[test]
fn answer_to_own_question_is_accepted() {
    let (jar, _url) = start("spotify", no_cookies(), "the token");
    let back = next_request(jar);
    assert_eq!(code_of("spotify", success("the code", "the token"), &back), Ok("the code".into()));
    let providers = providers();
    match complete_auth("spotify", success("the code", "the token"), &providers, &back) {
        Ok((client, _code)) => {
            assert_eq!(client.redirect_url(), "https://tokens.example.com/oauth/spotify");
        }
        Err(refusal) => panic!("{}", refusal.body),
    };
}

#[test]
fn code_needs_matching_token() {
    let (jar, _url) = start("spotify", no_cookies(), "the token");
    let back = next_request(jar);
    assert_eq!(code_of("spotify", success("code", "another token"), &back), mismatch());
    assert_eq!(code_of("spotify", success("code", ""), &back), mismatch());
    assert_eq!(code_of("spotify", success("code", "the token"), &no_cookies()), mismatch());
    assert_eq!(code_of("youtube", success("code", "the token"), &back), mismatch());
    // An unknown provider is only looked at once the token matches.
    assert_eq!(code_of("other", success("code", "the token"), &back), mismatch());
}

#[test]
fn cookie_of_another_key_is_ignored() {
    let (jar, _url) = start("spotify", no_cookies(), "the token");
    let mut headers = HeaderMap::new();
    for cookie in set_cookies(jar) {
        headers.append(COOKIE, cookie.split(';').next().unwrap().parse().unwrap());
    }
    let other = PrivateCookieJar::from_headers(&headers, Key::from(&[9; 64]));
    assert_eq!(code_of("spotify", success("code", "the token"), &other), mismatch());
}

#[test]
fn error_of_the_provider_is_passed_on() {
    let query = OAuthRedirectQueryParams::Failure { error: "access_denied".to_string() };
    assert_eq!(
        code_of("spotify", query, &no_cookies()),
        Err((StatusCode::FailedDependency, "error from provider: access_denied".to_string()))
    );
}

#[test]
fn attempts_at_two_providers_do_not_mix() {
    let (jar, _url) = start("spotify", no_cookies(), "first");
    let (jar, _url) = start("youtube", jar, "second");
    let back = next_request(jar);
    assert_eq!(code_of("spotify", success("code", "first"), &back), Ok("code".into()));
    assert_eq!(code_of("youtube", success("code", "second"), &back), Ok("code".into()));
    match finish_auth("spotify", back, Ok(())) {
        Ok((after, _url)) => {
            assert_eq!(code_of("spotify", success("code", "first"), &after), mismatch());
            assert_eq!(code_of("youtube", success("code", "second"), &after), Ok("code".into()));
        }
        Err(refusal) => panic!("{}", refusal.body),
    }
}

fn tokens() -> TokenResponse {
    TokenResponse {
        access_token: "access".to_string(),
        refresh_token: Some("refresh".to_string()),
        expires_in: Some(3600),
    }
}

fn refusal_of(response: TokenResponse) -> (StatusCode, String) {
    match accept_tokens(response, Timestamp::from_nanoseconds(0).unwrap()) {
        Ok(_) => panic!("the tokens are incomplete"),
        Err(ErrorResponse { status, body }) => (status, body),
    }
}

#[test]
fn accepted_tokens_expire_on_time() {
    let acquired_at = Timestamp::from_nanoseconds(1_700_000_000_000_000_001).unwrap();
    match accept_tokens(tokens(), acquired_at) {
        Ok(state) => {
            assert_eq!(state.acquired_at.local_nanoseconds(), 1_700_000_000_000_000_001);
            assert_eq!(state.acquired_at.offset_seconds(), 0);
            assert_eq!(state.expires_at.local_nanoseconds(), 1_700_003_600_000_000_001);
            assert_eq!(state.expires_at.offset_seconds(), 0);
            assert_eq!(state.access_token, "access");
            assert_eq!(state.refresh_token, "refresh");
        }
        Err(refusal) => panic!("{}", refusal.body),
    }
}

#[test]
fn incomplete_tokens_are_refused() {
    let mut no_lifetime = tokens();
    no_lifetime.expires_in = None;
    no_lifetime.refresh_token = None;
    assert_eq!(
        refusal_of(no_lifetime),
        (StatusCode::FailedDependency, "offline authorization missing expires_in".to_string())
    );
    let mut no_refresh = tokens();
    no_refresh.refresh_token = None;
    assert_eq!(
        refusal_of(no_refresh),
        (
            StatusCode::FailedDependency,
            "offline authorization should always provide a refresh token".to_string()
        )
    );
}

#[test]
fn redirect_is_taken_once() {
    let (jar, _url) = start("spotify", no_cookies(), "the token");
    let back = next_request(jar);
    match finish_auth("spotify", back, Ok(())) {
        Ok((after, url)) => {
            assert_eq!(url, "/");
            assert_eq!(code_of("spotify", success("code", "the token"), &after), mismatch());
            let cookies = set_cookies(after);
            assert_eq!(cookies.len(), 1);
            assert!(cookies[0].starts_with("oauth_state__spotify=; "));
            assert!(cookies[0].contains("Max-Age=0"));
        }
        Err(refusal) => panic!("{}", refusal.body),
    }
}

#[test]
fn cookie_that_was_never_sent_is_dropped() {
    let (jar, _url) = start("spotify", no_cookies(), "the token");
    match finish_auth("spotify", jar, Ok(())) {
        Ok((after, _url)) => {
            assert!(after.get("oauth_state__spotify").is_none());
            assert!(set_cookies(after).is_empty());
        }
        Err(refusal) => panic!("{}", refusal.body),
    }
}

#[test]
fn failure_to_insert_is_reported() {
    match finish_auth("spotify", no_cookies(), Err("disk full".to_string())) {
        Ok(_) => panic!("the tokens were not inserted"),
        Err(ErrorResponse { status, body }) => {
            assert_eq!(status, StatusCode::InternalServerError);
            assert_eq!(body, "failed to save youtube token: disk full");
        }
    }
}
