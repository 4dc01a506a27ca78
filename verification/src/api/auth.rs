//! Logging in: where the user is sent back to after logging in.

use url::Url;
use vstd::prelude::*;

use crate::text::{str_eq, to_owned_string};

verus! {

/// A request to log in, and where to go afterwards.
#[derive(Debug, Clone)]
pub struct LoginQuery {
    pub next: Option<String>,
}

/// A request to log in without a prompt, for an address, and where to go
/// afterwards.
#[derive(Debug, Clone)]
pub struct NoPromptQuery {
    pub next: Option<String>,
    pub email: Option<String>,
}

/// A parsed address: its text and the text of its origin, where the origin
/// is a (scheme, host, port) tuple; other origins equal no other origin.
#[derive(Debug, Clone)]
pub struct UrlParts {
    pub href: String,
    pub origin: Option<String>,
}

/// The parts of an address as plain values.
pub open spec fn url_parts_view(p: UrlParts) -> (Seq<char>, Option<Seq<char>>) {
    (p.href@, match p.origin { Some(o) => Some(o@), None => None })
}

/// The address that a text reads as, with its origin; nothing where it is
/// not an address.
pub uninterp spec fn parsed_url(text: Seq<char>) -> Option<(Seq<char>, Option<Seq<char>>)>;

/// The address that a text reads as relative to a base address, with its
/// origin; nothing where the base or the text is not an address.
pub uninterp spec fn joined_url(base: Seq<char>, text: Seq<char>) -> Option<(Seq<char>, Option<Seq<char>>)>;

/// Reads an address (`url::Url::parse`); the result is named by `parsed_url`.
#[verifier::external_body]
fn parse_url(text: &str) -> (res: Option<UrlParts>)
    ensures
        match res {
            Some(p) => parsed_url(text@) == Some(url_parts_view(p)),
            None => parsed_url(text@) is None,
        },
{
    let u = Url::parse(text).ok()?;
    let origin = u.origin();
    Some(UrlParts {
        href: u.as_str().to_owned(),
        origin: if origin.is_tuple() { Some(origin.ascii_serialization()) } else { None },
    })
}

/// Reads an address relative to a base (`url::Url::parse` of the base, then
/// `ParseOptions::base_url` and `ParseOptions::parse`); the result is named
/// by `joined_url`.
#[verifier::external_body]
fn join_url(base: &str, text: &str) -> (res: Option<UrlParts>)
    ensures
        match res {
            Some(p) => joined_url(base@, text@) == Some(url_parts_view(p)),
            None => joined_url(base@, text@) is None,
        },
{
    let b = Url::parse(base).ok()?;
    let u = Url::options().base_url(Some(&b)).parse(text).ok()?;
    let origin = u.origin();
    Some(UrlParts {
        href: u.as_str().to_owned(),
        origin: if origin.is_tuple() { Some(origin.ascii_serialization()) } else { None },
    })
}

/// Where to go after logging in: the address asked for, read relative to
/// the site, if it is on the site's origin; the home page otherwise.
pub open spec fn redirect_target(base: Seq<char>, next: Seq<char>) -> Seq<char> {
    match (joined_url(base, next), parsed_url(base)) {
        (Some((href, Some(o))), Some((_, Some(bo)))) => if o == bo { href } else { "/"@ },
        _ => "/"@,
    }
}

/// Where to go after logging in, for the site whose address is `base`.
pub fn resolve_redirect(base: &str, next: &str) -> (res: String)
    ensures
        res@ == redirect_target(base@, next@),
{
    match (join_url(base, next), parse_url(base)) {
        (Some(j), Some(b)) => match (&j.origin, &b.origin) {
            (Some(o), Some(bo)) => {
                if str_eq(o.as_str(), bo.as_str()) {
                    j.href
                } else {
                    to_owned_string("/")
                }
            },
            _ => to_owned_string("/"),
        },
        _ => to_owned_string("/"),
    }
}

/// Where the login callback sends the user: nowhere (unauthorized) when the
/// state does not match the login's token; else the page asked for at login,
/// or the home page.
pub fn callback_redirect(base: &str, csrf_secret: &str, state: &str, next: Option<String>) -> (res: Option<String>)
    ensures
        csrf_secret@ != state@ ==> res is None,
        csrf_secret@ == state@ ==> (res matches Some(r) && r@ == match next {
            Some(n) => redirect_target(base@, n@),
            None => "/"@,
        }),
{
    if !str_eq(csrf_secret, state) {
        return None;
    }
    match next {
        Some(n) => Some(resolve_redirect(base, n.as_str())),
        None => Some(to_owned_string("/")),
    }
}

/// What is kept in a cookie between the login and its callback: the
/// login's anti-forgery token, its nonce, and where to go afterwards.
#[derive(Debug, Clone)]
pub struct LoginCookie {
    pub csrf_token: String,
    pub nonce: String,
    pub next: Option<String>,
}

/// How a cookie is set: hidden from scripts or not, sent over secure
/// connections only or not, kept from cross-site requests but top-level
/// navigations ("lax") or not, how long it lives (none: for the session;
/// zero: removed), and whether it holds for the whole site.
#[derive(Debug, Clone, Copy, PartialEq, Eq, Structural)]
pub struct CookieAttributes {
    pub http_only: bool,
    pub secure: bool,
    pub same_site_lax: bool,
    pub max_age_minutes: Option<u32>,
    pub root_path: bool,
}

/// The login cookie lives fifteen minutes.
pub const LOGIN_COOKIE_MINUTES: u32 = 15;

/// How the login cookie is set: hidden from scripts, secure as configured,
/// lax, for fifteen minutes, on the whole site.
pub fn login_cookie_attributes(secure: bool) -> (res: CookieAttributes)
    ensures
        res == (CookieAttributes {
            http_only: true,
            secure,
            same_site_lax: true,
            max_age_minutes: Some(15),
            root_path: true,
        }),
{
    CookieAttributes {
        http_only: true,
        secure,
        same_site_lax: true,
        max_age_minutes: Some(LOGIN_COOKIE_MINUTES),
        root_path: true,
    }
}

/// How the login cookie is removed: hidden from scripts, on the whole site,
/// expired at once.
pub fn login_cookie_removal() -> (res: CookieAttributes)
    ensures
        res == (CookieAttributes {
            http_only: true,
            secure: false,
            same_site_lax: false,
            max_age_minutes: Some(0),
            root_path: true,
        }),
{
    CookieAttributes { http_only: true, secure: false, same_site_lax: false, max_age_minutes: Some(0), root_path: true }
}

} // verus!
