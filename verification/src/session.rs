//! Opaque session tokens. A session is valid exactly as long as the store
//! holds its marker; the token itself says nothing.

use crate::store::{
    session_key, session_key_of, Stored, StoreWrite, StoreWriteModel, StoredModel, SESSION_TTL,
};
use vstd::prelude::*;
use vstd::string::StringExecFns;

verus! {

/// The name of the cookie that carries the session token.
pub const COOKIE_NAME: &'static str = "token";

/// The number of letters and digits in a session token.
pub const TOKEN_LENGTH: usize = 64;

/// How a cookie travels with requests from other sites.
#[derive(Debug, Clone, Copy, PartialEq, Eq)]
pub enum SameSite {
    Strict,
    Lax,
}

/// A cookie to be set, as its attributes.
#[derive(Debug, Clone, PartialEq, Eq)]
pub struct Cookie {
    pub name: String,
    pub value: String,
    pub secure: bool,
    pub same_site: SameSite,
    pub http_only: bool,
    /// Seconds for which the browser keeps the cookie.
    pub max_age: u64,
    pub path: String,
}

/// A `Cookie` as pure text.
pub struct CookieModel {
    pub name: Seq<char>,
    pub value: Seq<char>,
    pub secure: bool,
    pub same_site: SameSite,
    pub http_only: bool,
    pub max_age: u64,
    pub path: Seq<char>,
}

impl View for Cookie {
    type V = CookieModel;

    open spec fn view(&self) -> CookieModel {
        CookieModel {
            name: self.name@,
            value: self.value@,
            secure: self.secure,
            same_site: self.same_site,
            http_only: self.http_only,
            max_age: self.max_age,
            path: self.path@,
        }
    }
}

/// The cookie that carries the session token `token`: sent over TLS only,
/// hidden from scripts, sent along with top-level navigation from other
/// sites, valid for the whole site and for as long as the session.
pub open spec fn session_cookie(token: Seq<char>) -> CookieModel {
    CookieModel {
        name: COOKIE_NAME@,
        value: token,
        secure: true,
        same_site: SameSite::Lax,
        http_only: true,
        max_age: SESSION_TTL,
        path: "/"@,
    }
}

/// The write that makes the session with token `token` valid for a day.
pub open spec fn session_write(token: Seq<char>) -> StoreWriteModel {
    StoreWriteModel { key: session_key_of(token), value: StoredModel::Session, ttl: SESSION_TTL }
}

/// Builds the session cookie for `token`.
pub fn cookie(token: String) -> (cookie: Cookie)
    ensures
        cookie@ == session_cookie(token@),
{
    Cookie {
        name: String::from_str(COOKIE_NAME),
        value: token,
        secure: true,
        same_site: SameSite::Lax,
        http_only: true,
        max_age: SESSION_TTL,
        path: String::from_str("/"),
    }
}

/// The write that issues the session `token`.
pub fn issue_with(token: &str) -> (write: StoreWrite)
    ensures
        write@ == session_write(token@),
{
    StoreWrite { key: session_key(token), value: Stored::Session, ttl: SESSION_TTL }
}

} // verus!
