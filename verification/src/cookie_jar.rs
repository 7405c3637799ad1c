//! The encrypted cookie jar of a request and its response.
//!
//! A jar is a collection with two layers: the cookies that the request
//! carried, and the changes that the response will make on top of them.
use axum_extra::extract::cookie::{Cookie, Key, PrivateCookieJar, SameSite};
use vstd::prelude::*;

verus! {

/// The `SameSite` attribute of a cookie.
#[derive(Clone, Copy, Debug, PartialEq, Eq, Structural)]
pub enum SameSitePolicy {
    Strict,
    Lax,
    Unrestricted,
}

/// A cookie as the library writes it.
pub struct SetCookie {
    pub name: String,
    pub value: String,
    pub path: String,
    pub http_only: bool,
    pub secure: bool,
    pub same_site: SameSitePolicy,
    pub max_age_seconds: i64,
}

/// What a [`SetCookie`] says, over plain values.
pub struct SetCookieView {
    pub name: Seq<char>,
    pub value: Seq<char>,
    pub path: Seq<char>,
    pub http_only: bool,
    pub secure: bool,
    pub same_site: SameSitePolicy,
    pub max_age_seconds: int,
}

impl View for SetCookie {
    type V = SetCookieView;

    open spec fn view(&self) -> SetCookieView {
        SetCookieView {
            name: self.name@,
            value: self.value@,
            path: self.path@,
            http_only: self.http_only,
            secure: self.secure,
            same_site: self.same_site,
            max_age_seconds: self.max_age_seconds as int,
        }
    }
}

/// A change that a response makes to one cookie of the client.
pub enum CookieChange {
    Stored(SetCookieView),
    Removed,
}

/// `axum_extra::extract::cookie::Key`, the key of a jar.
#[verifier::external_type_specification]
#[verifier::external_body]
pub struct ExKey(Key);

/// `axum_extra::extract::cookie::PrivateCookieJar`, the jar itself.
#[verifier::external_type_specification]
#[verifier::external_body]
#[verifier::reject_recursive_types(K)]
pub struct ExPrivateCookieJar<K>(PrivateCookieJar<K>);

/// The cookies that the request carried, by name, each with its decrypted value.
pub uninterp spec fn request_cookies(jar: PrivateCookieJar) -> Map<Seq<char>, Seq<char>>;

/// The changes that the response will make, by cookie name.
pub uninterp spec fn cookie_changes(jar: PrivateCookieJar) -> Map<Seq<char>, CookieChange>;

/// The value that a jar gives for a cookie name: a change hides what the
/// request carried.
pub open spec fn cookie_value(jar: PrivateCookieJar, name: Seq<char>) -> Option<Seq<char>> {
    if cookie_changes(jar).contains_key(name) {
        match cookie_changes(jar)[name] {
            CookieChange::Stored(cookie) => Some(cookie.value),
            CookieChange::Removed => None,
        }
    } else if request_cookies(jar).contains_key(name) {
        Some(request_cookies(jar)[name])
    } else {
        None
    }
}

/// The most bytes that a cookie's name may have: the name is authenticated
/// along with the value, and the cipher takes no more.
pub const COOKIE_NAME_MAX_BYTES: u64 = 68_719_476_736;

/// The most bytes that a cookie's value may have: the cipher encrypts no more
/// under one nonce.
pub const COOKIE_VALUE_MAX_BYTES: u64 = 68_719_476_704;

/// `PrivateCookieJar::get`, and the value of the cookie that it finds: the jar
/// looks at its changes first and at the cookies of the request after that.
#[verifier::external_body]
pub(crate) fn jar_get(jar: &PrivateCookieJar, name: &str) -> (value: Option<String>)
    ensures
        value is Some == cookie_value(*jar, name@) is Some,
        value is Some ==> value->0@ == cookie_value(*jar, name@)->0,
{
    jar.get(name).map(|cookie| cookie.value().to_owned())
}

/// `PrivateCookieJar::add`: the cookie becomes a change of the jar, under its
/// name and with its attributes, and takes the place of an earlier change. The
/// cookies of the request stay as they are.
#[verifier::external_body]
pub(crate) fn jar_add(jar: PrivateCookieJar, cookie: SetCookie) -> (result: PrivateCookieJar)
    requires
        vstd::utf8::encode_utf8(cookie.name@).len() <= COOKIE_NAME_MAX_BYTES,
        vstd::utf8::encode_utf8(cookie.value@).len() <= COOKIE_VALUE_MAX_BYTES,
    ensures
        request_cookies(result) == request_cookies(jar),
        cookie_changes(result) == cookie_changes(jar).insert(
            cookie.name@,
            CookieChange::Stored(cookie@),
        ),
{
    let same_site = match cookie.same_site {
        SameSitePolicy::Strict => SameSite::Strict,
        SameSitePolicy::Lax => SameSite::Lax,
        SameSitePolicy::Unrestricted => SameSite::None,
    };
    let builder = Cookie::build((cookie.name, cookie.value))
        .path(cookie.path)
        .http_only(cookie.http_only)
        .secure(cookie.secure)
        .same_site(same_site)
        .max_age(time::Duration::seconds(cookie.max_age_seconds));
    jar.add(builder.build())
}

/// `PrivateCookieJar::remove` with a name alone: a cookie that the request
/// carried is marked as removed, and a cookie that is only a change is dropped.
#[verifier::external_body]
pub(crate) fn jar_remove(jar: PrivateCookieJar, name: String) -> (result: PrivateCookieJar)
    ensures
        request_cookies(result) == request_cookies(jar),
        cookie_changes(result) == if request_cookies(jar).contains_key(name@) {
            cookie_changes(jar).insert(name@, CookieChange::Removed)
        } else {
            cookie_changes(jar).remove(name@)
        },
{
    jar.remove(name)
}

/// A cookie that was stored has the value that it was stored with, one that was
/// removed has none, and one that was not touched has the value that the request
/// carried, if any.
pub proof fn law_cookie_value_is_the_latest(jar: PrivateCookieJar, name: Seq<char>)
    ensures
        cookie_changes(jar).contains_key(name) && cookie_changes(jar)[name] is Stored
            ==> cookie_value(jar, name) == Some(cookie_changes(jar)[name]->Stored_0.value),
        cookie_changes(jar).contains_key(name) && cookie_changes(jar)[name] is Removed
            ==> cookie_value(jar, name) is None,
        !cookie_changes(jar).contains_key(name) && request_cookies(jar).contains_key(name)
            ==> cookie_value(jar, name) == Some(request_cookies(jar)[name]),
        !cookie_changes(jar).contains_key(name) && !request_cookies(jar).contains_key(name)
            ==> cookie_value(jar, name) is None,
{
}

/// What a cookie says is what it was built from.
pub proof fn law_cookie_says_what_it_holds(cookie: SetCookie)
    ensures
        cookie@.name == cookie.name@,
        cookie@.value == cookie.value@,
        cookie@.path == cookie.path@,
        cookie@.http_only == cookie.http_only,
        cookie@.secure == cookie.secure,
        cookie@.same_site == cookie.same_site,
        cookie@.max_age_seconds == cookie.max_age_seconds,
{
}

}
