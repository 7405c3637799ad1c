//! What the OAuth client library computes: which texts are URLs, the URL that a
//! user is sent to, and the random token that ties the answer to the question.
use oauth2::basic::BasicClient;
use oauth2::url::ParseError;
use oauth2::{AuthUrl, ClientId, CsrfToken, RedirectUrl, RevocationUrl, Scope, TokenUrl};
use vstd::prelude::*;

use crate::text;

verus! {

/// `url::ParseError`, which tells why a text is no URL.
#[verifier::external_type_specification]
#[verifier::external_body]
pub struct ExParseError(ParseError);

/// Whether `AuthUrl::new` takes a text.
pub uninterp spec fn auth_url_valid(url: Seq<char>) -> bool;

/// Whether `TokenUrl::new` takes a text.
pub uninterp spec fn token_url_valid(url: Seq<char>) -> bool;

/// Whether `RevocationUrl::new` takes a text.
pub uninterp spec fn revocation_url_valid(url: Seq<char>) -> bool;

/// Whether `RedirectUrl::new` takes a text.
pub uninterp spec fn redirect_url_valid(url: Seq<char>) -> bool;

/// The URL that `AuthorizationRequest::url` gives for a client, the scopes and
/// extra parameters that were added to the request, in their order, and the
/// state token.
pub uninterp spec fn authorization_url(
    auth_url: Seq<char>,
    client_id: Seq<char>,
    redirect_url: Seq<char>,
    scopes: Seq<Seq<char>>,
    extra: Seq<(Seq<char>, Seq<char>)>,
    state: Seq<char>,
) -> Seq<char>;

/// The most bytes of a text that is parsed as a URL: the parser counts its
/// characters in a signed integer of 32 bits.
pub const URL_MAX_BYTES: u64 = 2_147_483_647;

/// The most bytes that the parts of a URL may have for all of it to stay below
/// 4 GiB, where the offsets inside a URL end: encoding makes a part at most 64
/// times as long.
pub const PARTS_MAX_BYTES: u64 = 67_108_863;

/// The number of bytes of a text.
pub open spec fn text_bytes(text: Seq<char>) -> nat {
    vstd::utf8::encode_utf8(text).len()
}

/// The number of bytes of the scopes of a request, each with a separator.
pub open spec fn scope_bytes(scopes: Seq<Seq<char>>) -> nat
    decreases scopes.len(),
{
    if scopes.len() == 0 {
        0
    } else {
        scope_bytes(scopes.drop_last()) + text_bytes(scopes.last()) + 1
    }
}

/// The number of bytes of the extra parameters of a request, each with two
/// separators.
pub open spec fn extra_bytes(extra: Seq<(Seq<char>, Seq<char>)>) -> nat
    decreases extra.len(),
{
    if extra.len() == 0 {
        0
    } else {
        extra_bytes(extra.drop_last()) + text_bytes(extra.last().0) + text_bytes(extra.last().1)
            + 2
    }
}

/// Whether the URL of a request can be built, given the length of its state
/// token: the query begins at an offset, and a fragment, which stands behind the
/// whole query, begins at another.
pub open spec fn authorization_url_fits(
    auth_url: Seq<char>,
    client_id: Seq<char>,
    redirect_url: Seq<char>,
    scopes: Seq<Seq<char>>,
    extra: Seq<(Seq<char>, Seq<char>)>,
    state_bytes: nat,
) -> bool {
    &&& text_bytes(auth_url) <= PARTS_MAX_BYTES
    &&& auth_url.contains('#') ==> text_bytes(auth_url) + text_bytes(client_id) + text_bytes(
        redirect_url,
    ) + scope_bytes(scopes) + extra_bytes(extra) + state_bytes <= PARTS_MAX_BYTES
}

/// `AuthUrl::new`, which parses the text as a URL.
#[verifier::external_body]
pub(crate) fn check_auth_url(url: &str) -> (result: Result<(), ParseError>)
    requires
        text_bytes(url@) <= URL_MAX_BYTES,
    ensures
        result is Ok == auth_url_valid(url@),
{
    AuthUrl::new(url.to_owned()).map(|_url| ())
}

/// `TokenUrl::new`, which parses the text as a URL.
#[verifier::external_body]
pub(crate) fn check_token_url(url: &str) -> (result: Result<(), ParseError>)
    requires
        text_bytes(url@) <= URL_MAX_BYTES,
    ensures
        result is Ok == token_url_valid(url@),
{
    TokenUrl::new(url.to_owned()).map(|_url| ())
}

/// `RevocationUrl::new`, which parses the text as a URL.
#[verifier::external_body]
pub(crate) fn check_revocation_url(url: &str) -> (result: Result<(), ParseError>)
    requires
        text_bytes(url@) <= URL_MAX_BYTES,
    ensures
        result is Ok == revocation_url_valid(url@),
{
    RevocationUrl::new(url.to_owned()).map(|_url| ())
}

/// `RedirectUrl::new`, which parses the text as a URL.
#[verifier::external_body]
pub(crate) fn check_redirect_url(url: &str) -> (result: Result<(), ParseError>)
    requires
        text_bytes(url@) <= URL_MAX_BYTES,
    ensures
        result is Ok == redirect_url_valid(url@),
{
    RedirectUrl::new(url.to_owned()).map(|_url| ())
}

/// `Client::authorize_url` and `AuthorizationRequest::url`: the URL is a
/// function of the client's authorization URL, identifier and redirect URL, of
/// the scopes and extra parameters of the request, and of the state token. Where
/// an offset inside the URL would lie beyond 4 GiB the call panics, so such
/// requests are left out.
#[verifier::external_body]
pub(crate) fn authorize_url(
    auth_url: &str,
    client_id: &str,
    redirect_url: &str,
    scopes: &Vec<String>,
    extra: &Vec<(String, String)>,
    state: &str,
) -> (url: String)
    requires
        auth_url_valid(auth_url@),
        redirect_url_valid(redirect_url@),
        text_bytes(redirect_url@) <= URL_MAX_BYTES,
        authorization_url_fits(
            auth_url@,
            client_id@,
            redirect_url@,
            text::texts(scopes@),
            text::text_pairs(extra@),
            text_bytes(state@),
        ),
    ensures
        url@ == authorization_url(
            auth_url@,
            client_id@,
            redirect_url@,
            text::texts(scopes@),
            text::text_pairs(extra@),
            state@,
        ),
{
    let client = BasicClient::new(ClientId::new(client_id.to_owned()))
        .set_auth_uri(AuthUrl::new(auth_url.to_owned()).expect("a valid URL"))
        .set_redirect_uri(RedirectUrl::new(redirect_url.to_owned()).expect("a valid URL"));
    let mut request = client
        .authorize_url(|| CsrfToken::new(state.to_owned()))
        .add_scopes(scopes.iter().cloned().map(Scope::new));
    for (name, value) in extra {
        request = request.add_extra_param(name, value);
    }
    request.url().0.into()
}

/// The number of bytes of a text.
fn count_text_bytes(text: &str) -> (bytes: u64)
    ensures
        bytes == text_bytes(text@),
{
    text.as_bytes().len() as u64
}

/// A number that stops at the largest machine integer.
spec fn capped(number: nat) -> u64 {
    if number <= u64::MAX {
        number as u64
    } else {
        u64::MAX
    }
}

fn count_scope_bytes(scopes: &Vec<String>) -> (bytes: u64)
    ensures
        bytes == capped(scope_bytes(text::texts(scopes@))),
{
    let mut bytes: u64 = 0;
    for i in 0..scopes.len()
        invariant
            bytes == capped(scope_bytes(text::texts(scopes@.take(i as int)))),
    {
        proof {
            let longer = text::texts(scopes@.take(i + 1));
            assert(longer.drop_last() =~= text::texts(scopes@.take(i as int)));
            assert(longer.last() == scopes@[i as int]@);
        }
        bytes = bytes.saturating_add(count_text_bytes(scopes[i].as_str())).saturating_add(1);
    }
    assert(scopes@.take(scopes@.len() as int) =~= scopes@);
    bytes
}

fn count_extra_bytes(extra: &Vec<(String, String)>) -> (bytes: u64)
    ensures
        bytes == capped(extra_bytes(text::text_pairs(extra@))),
{
    let mut bytes: u64 = 0;
    for i in 0..extra.len()
        invariant
            bytes == capped(extra_bytes(text::text_pairs(extra@.take(i as int)))),
    {
        proof {
            let longer = text::text_pairs(extra@.take(i + 1));
            assert(longer.drop_last() =~= text::text_pairs(extra@.take(i as int)));
            assert(longer.last() == (extra@[i as int].0@, extra@[i as int].1@));
        }
        bytes = bytes.saturating_add(count_text_bytes(extra[i].0.as_str())).saturating_add(
            count_text_bytes(extra[i].1.as_str()),
        ).saturating_add(2);
    }
    assert(extra@.take(extra@.len() as int) =~= extra@);
    bytes
}

/// Whether a text has a fragment, if it is a URL.
fn has_fragment(url: &str) -> (result: bool)
    ensures
        result == url@.contains('#'),
{
    let mut found: bool = false;
    for c in chars: url.chars()
        invariant
            chars.seq() == url@,
            found == url@.take(chars.index() as int).contains('#'),
    {
        assert(url@.take(chars.index() + 1) =~= url@.take(chars.index() as int).push(c));
        proof {
            vstd::seq_lib::lemma_seq_contains_after_push(url@.take(chars.index() as int), c, '#');
        }
        found = found || c == '#';
    }
    assert(url@.take(url@.len() as int) =~= url@);
    found
}

/// Whether the URL of a request can be built.
pub(crate) fn check_authorization_url_fits(
    auth_url: &str,
    client_id: &str,
    redirect_url: &str,
    scopes: &Vec<String>,
    extra: &Vec<(String, String)>,
    state_bytes: u64,
) -> (result: bool)
    ensures
        result == authorization_url_fits(
            auth_url@,
            client_id@,
            redirect_url@,
            text::texts(scopes@),
            text::text_pairs(extra@),
            state_bytes as nat,
        ),
{
    if count_text_bytes(auth_url) > PARTS_MAX_BYTES {
        return false;
    }
    let bytes = count_text_bytes(auth_url).saturating_add(
        count_text_bytes(client_id),
    ).saturating_add(count_text_bytes(redirect_url)).saturating_add(
        count_scope_bytes(scopes),
    ).saturating_add(count_extra_bytes(extra)).saturating_add(state_bytes);
    bytes <= PARTS_MAX_BYTES || !has_fragment(auth_url)
}

/// A character of URL-safe Base64.
pub open spec fn url_safe_base64(c: char) -> bool {
    'A' <= c <= 'Z' || 'a' <= c <= 'z' || '0' <= c <= '9' || c == '-' || c == '_'
}

/// The number of bytes of a state token.
pub const CSRF_TOKEN_BYTES: u64 = 22;

/// What every state token looks like: sixteen bytes in URL-safe Base64 without
/// padding.
pub open spec fn csrf_token_shape(token: Seq<char>) -> bool {
    &&& token.len() == CSRF_TOKEN_BYTES
    &&& forall|i: int| 0 <= i < token.len() ==> url_safe_base64(#[trigger] token[i])
}

/// `CsrfToken::new_random`: every call draws another token, and each has the
/// shape of sixteen bytes in URL-safe Base64.
#[verifier::external_body]
pub(crate) fn random_csrf_token() -> (token: String)
    ensures
        csrf_token_shape(token@),
{
    CsrfToken::new_random().into_secret()
}

/// Whether a draw gives a state token. Nothing but a draw shows that it does.
pub closed spec fn csrf_token_drawn(token: Seq<char>) -> bool {
    exists|drawn: String| #[trigger]
        call_ensures(random_csrf_token, (), drawn) && drawn@ == token
}

pub(crate) proof fn lemma_csrf_token_drawn(drawn: String)
    requires
        call_ensures(random_csrf_token, (), drawn),
    ensures
        csrf_token_drawn(drawn@),
{
}

/// A state token that was drawn is just what a draw gave, and has the shape of all
/// state tokens.
pub(crate) proof fn law_drawn_token_is_a_draw(token: Seq<char>)
    requires
        csrf_token_drawn(token),
    ensures
        token.len() == 22,
        forall|i: int| 0 <= i < token.len() ==> url_safe_base64(#[trigger] token[i]),
        exists|drawn: String| #[trigger]
            call_ensures(random_csrf_token, (), drawn) && drawn@ == token,
{
}

/// Each scope adds its bytes and a separator, each extra parameter its bytes and
/// two separators, and nothing else adds any.
pub proof fn law_parts_add_up(
    scopes: Seq<Seq<char>>,
    scope: Seq<char>,
    extra: Seq<(Seq<char>, Seq<char>)>,
    name: Seq<char>,
    value: Seq<char>,
)
    ensures
        scope_bytes(Seq::empty()) == 0,
        scope_bytes(scopes.push(scope)) == scope_bytes(scopes) + vstd::utf8::encode_utf8(
            scope,
        ).len() + 1,
        extra_bytes(Seq::empty()) == 0,
        extra_bytes(extra.push((name, value))) == extra_bytes(extra) + vstd::utf8::encode_utf8(
            name,
        ).len() + vstd::utf8::encode_utf8(value).len() + 2,
{
    assert(scopes.push(scope).drop_last() =~= scopes);
    assert(extra.push((name, value)).drop_last() =~= extra);
}

/// Without a fragment the length of the authorization URL alone decides whether the
/// URL of a request can be built; with one, all parts count.
pub proof fn law_only_a_fragment_makes_the_parts_count(
    auth_url: Seq<char>,
    client_id: Seq<char>,
    redirect_url: Seq<char>,
    scopes: Seq<Seq<char>>,
    extra: Seq<(Seq<char>, Seq<char>)>,
    state_bytes: nat,
)
    ensures
        ({
            let fits = authorization_url_fits(
                auth_url,
                client_id,
                redirect_url,
                scopes,
                extra,
                state_bytes,
            );
            let own = vstd::utf8::encode_utf8(auth_url).len();
            let rest = vstd::utf8::encode_utf8(client_id).len() + vstd::utf8::encode_utf8(
                redirect_url,
            ).len() + scope_bytes(scopes) + extra_bytes(extra) + state_bytes;
            if auth_url.contains('#') {
                fits <==> own + rest < 0x400_0000
            } else {
                fits <==> own < 0x400_0000
            }
        }),
{
}

}
