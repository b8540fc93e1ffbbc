//! The handshake and the session from start to end, run against the
//! in-memory store, and what holds of them whatever the store contains.

use crate::auth::{
    admission, middleware, oauthify_with, redeem, redeemed, roundtrip_write, Admission,
    SessionCheck,
};
use crate::error::Error;
use crate::oauth::{all_base64url, login_url_of, new_csrf_token, PkceVerifier};
use crate::random::{all_alphanumeric, randstring};
use crate::session::{issue_with, session_write, TOKEN_LENGTH};
use crate::state::AppState;
use crate::store::{
    later, peek, put, roundtrip_key, roundtrip_key_of, session_key, session_key_of, without,
    MemoryStore, OAuth2RoundtripData, RoundtripModel, StoreModel, StoreWriteModel, StoredModel,
    ROUNDTRIP_TTL, SESSION_TTL,
};
use vstd::prelude::*;

verus! {

/// The store after `write` has been performed on it.
pub open spec fn performed(m: StoreModel, write: StoreWriteModel) -> StoreModel {
    put(m, write.key, write.value, write.ttl as nat)
}

/// The store after a login was begun on `path` with `verifier` and `csrf`.
pub open spec fn begun(m: StoreModel, path: Seq<char>, verifier: Seq<char>, csrf: Seq<char>)
    -> StoreModel {
    performed(m, roundtrip_write(path, verifier, csrf))
}

/// What a callback that presents `csrf` gets, and the store it leaves.
pub open spec fn completed(m: StoreModel, csrf: Seq<char>) -> (
    Result<RoundtripModel, Error>,
    StoreModel,
) {
    (redeemed(peek(m, roundtrip_key_of(csrf))), without(m, roundtrip_key_of(csrf)))
}

/// The store after the session `token` was issued.
pub open spec fn issued(m: StoreModel, token: Seq<char>) -> StoreModel {
    performed(m, session_write(token))
}

/// Whether the session `token` is valid.
pub open spec fn valid(m: StoreModel, token: Seq<char>) -> bool {
    peek(m, session_key_of(token)).is_some()
}

/// The store after the session `token` was deleted.
pub open spec fn ended(m: StoreModel, token: Seq<char>) -> StoreModel {
    without(m, session_key_of(token))
}

/// Begins a login for a request to `original_path`: draws a fresh
/// verifier and CSRF token, records them in `store` for ten minutes, and
/// returns the URL to send the user to.
pub fn begin(state: &AppState, store: &mut MemoryStore, original_path: &str) -> (redirect_url:
    String)
    ensures
        exists|verifier: Seq<char>, csrf: Seq<char>|
            {
                &&& verifier.len() == 43
                &&& all_base64url(verifier)
                &&& csrf.len() == 22
                &&& all_base64url(csrf)
                &&& redirect_url@ == #[trigger] login_url_of(state@.oauth, verifier, csrf)
                &&& final(store)@ == begun(old(store)@, original_path@, verifier, csrf)
            },
{
    let verifier = PkceVerifier::new_random();
    let csrf_token = new_csrf_token();
    let ghost v = verifier@;
    let ghost c = csrf_token@;
    let login = oauthify_with(state, original_path, verifier, csrf_token);
    store.apply(login.write);
    assert(login.location@ == login_url_of(state@.oauth, v, c));
    assert(store@ == begun(old(store)@, original_path@, v, c));
    login.location
}

/// Completes the login whose callback presents `csrf_token`: fetches the
/// handshake record and deletes it in the same step.
pub fn complete(store: &mut MemoryStore, csrf_token: &str) -> (record: Result<
    OAuth2RoundtripData,
    Error,
>)
    ensures
        match record {
            Ok(d) => completed(old(store)@, csrf_token@).0 == Ok::<RoundtripModel, Error>(d@),
            Err(e) => completed(old(store)@, csrf_token@).0 == Err::<RoundtripModel, Error>(e),
        },
        final(store)@ == completed(old(store)@, csrf_token@).1,
{
    let key = roundtrip_key(csrf_token);
    let found = store.get_del(key.as_str());
    redeem(found)
}

/// Issues a session: draws a fresh token of 64 letters and digits and
/// marks it valid in `store` for a day.
pub fn issue(store: &mut MemoryStore) -> (token: String)
    ensures
        token@.len() == TOKEN_LENGTH,
        all_alphanumeric(token@),
        final(store)@ == issued(old(store)@, token@),
{
    let token = randstring(TOKEN_LENGTH);
    store.apply(issue_with(token.as_str()));
    token
}

/// Whether `token` names a valid session: a single lookup, without
/// looking into the token.
pub fn validate(store: &MemoryStore, token: &str) -> (ok: bool)
    ensures
        ok == valid(store@, token@),
{
    let key = session_key(token);
    store.contains_key(key.as_str())
}

/// What becomes of a request that carries the session cookie `cookie`, if
/// any: it is handled if the cookie names a valid session, and starts a
/// login otherwise.
pub open spec fn checked(m: StoreModel, cookie: Option<Seq<char>>) -> Admission {
    match cookie {
        Some(token) => if valid(m, token) {
            Admission::Pass
        } else {
            Admission::Login
        },
        None => Admission::Login,
    }
}

/// Checks the session of a request that carries the session cookie
/// `cookie`, if any.
pub fn check_session(store: &MemoryStore, cookie: Option<&str>) -> (decision: Admission)
    ensures
        decision == checked(
            store@,
            match cookie {
                Some(token) => Some(token@),
                None => None,
            },
        ),
{
    match middleware(cookie) {
        SessionCheck::Login => Admission::Login,
        SessionCheck::Lookup { key } => admission(Ok(store.contains_key(key.as_str()))),
    }
}

/// A CSRF token is redeemed at most once: after a callback has presented
/// it, successfully or not, the next callback that presents it fails with
/// `InvalidState`.
pub proof fn law_redeemed_at_most_once(m: StoreModel, csrf: Seq<char>)
    ensures
        completed(completed(m, csrf).1, csrf).0 == Err::<RoundtripModel, Error>(
            Error::InvalidState,
        ),
{
}

/// A redeemed CSRF token stays redeemed: however much time passes, and
/// whatever is written or taken under other keys, a callback that presents
/// it fails with `InvalidState`.
pub proof fn law_redeemed_stays_redeemed(
    m: StoreModel,
    csrf: Seq<char>,
    secs: nat,
    key: Seq<char>,
    value: StoredModel,
    ttl: nat,
)
    requires
        key != roundtrip_key_of(csrf),
    ensures
        completed(later(completed(m, csrf).1, secs), csrf).0 == Err::<RoundtripModel, Error>(
            Error::InvalidState,
        ),
        completed(put(completed(m, csrf).1, key, value, ttl), csrf).0 == Err::<
            RoundtripModel,
            Error,
        >(Error::InvalidState),
        completed(without(completed(m, csrf).1, key), csrf).0 == Err::<RoundtripModel, Error>(
            Error::InvalidState,
        ),
{
}

/// A login that was begun can be completed within ten minutes, and gets
/// back the verifier and the path it was begun with.
pub proof fn law_begun_login_completes(
    m: StoreModel,
    path: Seq<char>,
    verifier: Seq<char>,
    csrf: Seq<char>,
    secs: nat,
)
    requires
        secs < ROUNDTRIP_TTL,
    ensures
        completed(later(begun(m, path, verifier, csrf), secs), csrf).0 == Ok::<
            RoundtripModel,
            Error,
        >(RoundtripModel { pkce: verifier, redirect: path }),
{
}

/// A handshake record that is not redeemed is out of reach once ten
/// minutes have passed.
pub proof fn law_handshake_lapses(
    m: StoreModel,
    path: Seq<char>,
    verifier: Seq<char>,
    csrf: Seq<char>,
    secs: nat,
)
    requires
        secs >= ROUNDTRIP_TTL,
    ensures
        completed(later(begun(m, path, verifier, csrf), secs), csrf).0 == Err::<
            RoundtripModel,
            Error,
        >(Error::InvalidState),
{
}

/// A session is valid from the moment it is issued until a day has
/// passed or its marker is deleted, and not after. Its validity is not
/// extended by being looked at.
pub proof fn law_session_lifetime(m: StoreModel, token: Seq<char>, secs: nat)
    ensures
        valid(issued(m, token), token),
        secs < SESSION_TTL ==> valid(later(issued(m, token), secs), token),
        secs >= SESSION_TTL ==> !valid(later(issued(m, token), secs), token),
        !valid(ended(issued(m, token), token), token),
{
}

/// A request passes the session check exactly while its cookie names a
/// session that was issued less than a day ago and has not been deleted;
/// a request without a cookie never passes.
pub proof fn law_session_check(m: StoreModel, token: Seq<char>, secs: nat)
    ensures
        checked(m, None) == Admission::Login,
        checked(later(issued(m, token), secs), Some(token)) == if secs < SESSION_TTL {
            Admission::Pass
        } else {
            Admission::Login
        },
        checked(ended(issued(m, token), token), Some(token)) == Admission::Login,
{
}

/// Handshake records and session markers live under keys that never
/// coincide, so a CSRF token cannot pass for a session nor the reverse.
pub proof fn law_keys_apart(csrf: Seq<char>, token: Seq<char>)
    ensures
        roundtrip_key_of(csrf) != session_key_of(token),
{
    reveal_strlit("token:csrf:");
    reveal_strlit("token:auth:");
    assert(roundtrip_key_of(csrf)[6] == 'c');
    assert(session_key_of(token)[6] == 'a');
}

/// Different tokens have different keys, so issuing or ending one
/// session leaves every other session as it was.
pub proof fn law_sessions_independent(m: StoreModel, token: Seq<char>, other: Seq<char>)
    requires
        token != other,
    ensures
        session_key_of(token) != session_key_of(other),
        valid(issued(m, token), other) == valid(m, other),
        valid(ended(m, token), other) == valid(m, other),
{
    reveal_strlit("token:auth:");
    let a = session_key_of(token);
    let b = session_key_of(other);
    if a == b {
        assert(a.subrange(11, a.len() as int) =~= token);
        assert(b.subrange(11, b.len() as int) =~= other);
    }
}

} // verus!
