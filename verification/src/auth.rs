//! The login handshake: sending a user to the provider, and taking them
//! back in. Every step that waits on the store, the provider or the chat
//! platform is a pause in a small machine; the caller does the waiting and
//! reports what came back.

use crate::error::{status_code, Error};
use crate::interact::{moderates, MODERATE_MEMBERS};
use crate::oauth::{all_base64url, login_url_of, new_csrf_token, PkceVerifier};
use crate::random::{all_alphanumeric, randstring};
use crate::session::{
    cookie, issue_with, session_cookie, session_write, Cookie, CookieModel, TOKEN_LENGTH,
};
use crate::state::AppState;
use crate::store::{
    roundtrip_key, roundtrip_key_of, session_key, session_key_of, store_error,
    OAuth2RoundtripData, RoundtripModel, StoreFailure, StoreWrite, StoreWriteModel, Stored,
    StoredModel, ROUNDTRIP_TTL,
};
use vstd::prelude::*;
use vstd::string::StringExecFns;

verus! {

/// The query of the provider's callback.
#[derive(Debug, Clone, PartialEq, Eq)]
pub struct SetIdQuery {
    /// The authorization code to exchange.
    pub code: String,
    /// The CSRF token that the login redirect carried.
    pub state: String,
}

/// The tokens that the provider hands out for an authorization code.
#[derive(Debug, Clone, PartialEq, Eq)]
pub struct TokenPair {
    pub access_token: String,
    pub refresh_token: Option<String>,
}

/// A `TokenPair` as pure text.
pub struct TokenPairModel {
    pub access_token: Seq<char>,
    pub refresh_token: Option<Seq<char>>,
}

impl View for TokenPair {
    type V = TokenPairModel;

    open spec fn view(&self) -> TokenPairModel {
        TokenPairModel {
            access_token: self.access_token@,
            refresh_token: match self.refresh_token {
                Some(t) => Some(t@),
                None => None,
            },
        }
    }
}

/// What the chat platform says of the principal's standing in a guild.
#[derive(Debug, Clone, Copy, PartialEq, Eq)]
pub struct Guild {
    pub id: u64,
    pub permissions: u64,
}

/// Why the chat platform did not say which guilds the principal is in.
#[derive(Debug, Clone, Copy, PartialEq, Eq)]
pub enum OracleFailure {
    /// The request could not be put together.
    Validate,
    /// The request failed on its way or was refused.
    Http,
    /// The answer could not be read.
    Deserialize,
}

/// The failure of a callback that ran into `failure`.
pub open spec fn oracle_error(failure: OracleFailure) -> Error {
    match failure {
        OracleFailure::Validate => Error::DiscordApiRequestValidate,
        OracleFailure::Http => Error::DiscordApiHttp,
        OracleFailure::Deserialize => Error::DiscordApiDeserializeModel,
    }
}

impl OracleFailure {
    /// The failure with which the callback ends.
    pub fn error(self) -> (e: Error)
        ensures
            e == oracle_error(self),
            status_code(e) == 500,
    {
        match self {
            OracleFailure::Validate => Error::DiscordApiRequestValidate,
            OracleFailure::Http => Error::DiscordApiHttp,
            OracleFailure::Deserialize => Error::DiscordApiDeserializeModel,
        }
    }
}

/// What the session check asks of its caller.
#[derive(Debug, Clone, PartialEq, Eq)]
pub enum SessionCheck {
    /// No token came with the request: start a login.
    Login,
    /// Look this key up in the store.
    Lookup { key: String },
}

/// What to do with a request once its session has been looked up.
#[derive(Debug, PartialEq, Eq)]
pub enum Admission {
    /// The session is valid: handle the request.
    Pass,
    /// There is no such session: start a login.
    Login,
    /// The store could not be asked.
    Fail(Error),
}

/// Starts the session check of a request that carries the session cookie
/// `token`, if any.
pub fn middleware(token: Option<&str>) -> (check: SessionCheck)
    ensures
        match token {
            None => check is Login,
            Some(t) => check matches SessionCheck::Lookup { key } && key@ == session_key_of(t@),
        },
{
    match token {
        None => SessionCheck::Login,
        Some(t) => SessionCheck::Lookup { key: session_key(t) },
    }
}

/// Ends the session check: `found` is the store's answer to the lookup.
pub fn admission(found: Result<bool, StoreFailure>) -> (decision: Admission)
    ensures
        decision == match found {
            Ok(true) => Admission::Pass,
            Ok(false) => Admission::Login,
            Err(failure) => Admission::Fail(store_error(failure)),
        },
{
    match found {
        Ok(true) => Admission::Pass,
        Ok(false) => Admission::Login,
        Err(failure) => Admission::Fail(failure.error()),
    }
}

/// Where to send a user who has to log in, and what to remember of it.
#[derive(Debug, Clone, PartialEq, Eq)]
pub struct LoginRedirect {
    /// The provider's authorization URL.
    pub location: String,
    /// The record to keep until the provider calls back.
    pub write: StoreWrite,
}

/// The record kept for a login that was started on `path`: the verifier
/// and the path, under the key of the CSRF token, for ten minutes.
pub open spec fn roundtrip_write(path: Seq<char>, verifier: Seq<char>, csrf: Seq<char>)
    -> StoreWriteModel {
    StoreWriteModel {
        key: roundtrip_key_of(csrf),
        value: StoredModel::Roundtrip(RoundtripModel { pkce: verifier, redirect: path }),
        ttl: ROUNDTRIP_TTL,
    }
}

/// Starts a login for a request to `path` with the given verifier and CSRF
/// token.
pub fn oauthify_with(state: &AppState, path: &str, verifier: PkceVerifier, csrf_token: String)
    -> (login: LoginRedirect)
    ensures
        login.location@ == login_url_of(state@.oauth, verifier@, csrf_token@),
        login.write@ == roundtrip_write(path@, verifier@, csrf_token@),
{
    let location = state.oauth().login_url(&verifier, csrf_token.as_str());
    let data = OAuth2RoundtripData {
        pkce: verifier.secret().clone(),
        redirect: String::from_str(path),
    };
    let write = StoreWrite {
        key: roundtrip_key(csrf_token.as_str()),
        value: Stored::Roundtrip(data),
        ttl: ROUNDTRIP_TTL,
    };
    LoginRedirect { location, write }
}

/// Starts a login for a request to `path`, with a fresh random verifier
/// and a fresh random CSRF token.
pub fn oauthify(state: &AppState, path: &str) -> (login: LoginRedirect)
    ensures
        exists|verifier: Seq<char>, csrf: Seq<char>|
            {
                &&& verifier.len() == 43
                &&& all_base64url(verifier)
                &&& csrf.len() == 22
                &&& all_base64url(csrf)
                &&& login.location@ == #[trigger] login_url_of(state@.oauth, verifier, csrf)
                &&& login.write@ == roundtrip_write(path@, verifier, csrf)
            },
{
    let verifier = PkceVerifier::new_random();
    let csrf_token = new_csrf_token();
    let ghost v = verifier@;
    let ghost c = csrf_token@;
    let login = oauthify_with(state, path, verifier, csrf_token);
    assert(login.location@ == login_url_of(state@.oauth, v, c));
    login
}

/// What the callback makes of the store's answer `found` to its
/// fetch-and-delete: the record, `InvalidState` if there is none (it never
/// existed, has lapsed, or was redeemed before), and `Json` if what was
/// found is no handshake record.
pub open spec fn redeemed(found: Option<StoredModel>) -> Result<RoundtripModel, Error> {
    match found {
        None => Err(Error::InvalidState),
        Some(StoredModel::Roundtrip(data)) => Ok(data),
        Some(StoredModel::Session) => Err(Error::Json),
    }
}

/// The view of what a lookup found.
pub open spec fn found_model(found: Option<Stored>) -> Option<StoredModel> {
    match found {
        Some(v) => Some(v@),
        None => None,
    }
}

/// Redeems the record that the fetch-and-delete of a callback found.
pub fn redeem(found: Option<Stored>) -> (data: Result<OAuth2RoundtripData, Error>)
    ensures
        match data {
            Ok(d) => redeemed(found_model(found)) == Ok::<RoundtripModel, Error>(d@),
            Err(e) => redeemed(found_model(found)) == Err::<RoundtripModel, Error>(e),
        },
{
    match found {
        None => Err(Error::InvalidState),
        Some(Stored::Roundtrip(data)) => Ok(data),
        Some(Stored::Session) => Err(Error::Json),
    }
}

/// Whether the guilds that the platform listed show the principal to be a
/// moderator of `guild`: the first one listed is `guild`, with the
/// `MODERATE_MEMBERS` permission.
pub open spec fn authorized(guild: u64, guilds: Seq<Guild>) -> bool {
    guilds.len() > 0 && moderates(guilds[0].permissions) && guilds[0].id == guild
}

/// Decides `authorized`.
pub fn check_authorized(guild: u64, guilds: &Vec<Guild>) -> (ok: bool)
    ensures
        ok == authorized(guild, guilds@),
{
    guilds.len() > 0 && guilds[0].permissions & MODERATE_MEMBERS == MODERATE_MEMBERS
        && guilds[0].id == guild
}

/// One token to hand back to the provider.
#[derive(Debug, Clone, PartialEq, Eq)]
pub enum Revocation {
    RefreshToken(String),
    AccessToken(String),
}

/// A `Revocation` as pure text.
pub enum RevocationModel {
    RefreshToken(Seq<char>),
    AccessToken(Seq<char>),
}

impl View for Revocation {
    type V = RevocationModel;

    open spec fn view(&self) -> RevocationModel {
        match self {
            Revocation::RefreshToken(t) => RevocationModel::RefreshToken(t@),
            Revocation::AccessToken(t) => RevocationModel::AccessToken(t@),
        }
    }
}

/// The revocations that dispose of `tokens`: the refresh token first, if
/// there is one, then the access token.
pub open spec fn revocations(tokens: TokenPairModel) -> Seq<RevocationModel> {
    match tokens.refresh_token {
        Some(refresh) => seq![
            RevocationModel::RefreshToken(refresh),
            RevocationModel::AccessToken(tokens.access_token),
        ],
        None => seq![RevocationModel::AccessToken(tokens.access_token)],
    }
}

/// Lists what has to be revoked to dispose of `tokens`. The caller sends
/// the revocations without waiting for them, and ignores how they end.
pub fn revoke_tokens(tokens: TokenPair) -> (list: Vec<Revocation>)
    ensures
        list@.map_values(|r: Revocation| r@) == revocations(tokens@),
{
    let mut list: Vec<Revocation> = Vec::new();
    match tokens.refresh_token {
        Some(refresh) => {
            list.push(Revocation::RefreshToken(refresh));
        },
        None => {},
    }
    list.push(Revocation::AccessToken(tokens.access_token));
    assert(list@.map_values(|r: Revocation| r@) =~= revocations(tokens@));
    list
}

/// Where a callback stands.
#[derive(Debug, Clone, PartialEq, Eq)]
pub enum Login {
    /// Nothing has happened yet.
    Arrived,
    /// The handshake record is being fetched and deleted.
    AwaitingRoundtrip { code: String },
    /// The authorization code is being exchanged.
    AwaitingTokens { redirect: String },
    /// The platform is being asked for the principal's guilds.
    AwaitingGuilds { redirect: String, tokens: TokenPair },
    /// The session marker is being written.
    AwaitingSession { redirect: String, token: String },
    /// The callback has been answered.
    Finished,
}

/// A `Login` as pure text.
pub enum LoginModel {
    Arrived,
    AwaitingRoundtrip { code: Seq<char> },
    AwaitingTokens { redirect: Seq<char> },
    AwaitingGuilds { redirect: Seq<char>, tokens: TokenPairModel },
    AwaitingSession { redirect: Seq<char>, token: Seq<char> },
    Finished,
}

impl View for Login {
    type V = LoginModel;

    open spec fn view(&self) -> LoginModel {
        match self {
            Login::Arrived => LoginModel::Arrived,
            Login::AwaitingRoundtrip { code } => LoginModel::AwaitingRoundtrip { code: code@ },
            Login::AwaitingTokens { redirect } => LoginModel::AwaitingTokens {
                redirect: redirect@,
            },
            Login::AwaitingGuilds { redirect, tokens } => LoginModel::AwaitingGuilds {
                redirect: redirect@,
                tokens: tokens@,
            },
            Login::AwaitingSession { redirect, token } => LoginModel::AwaitingSession {
                redirect: redirect@,
                token: token@,
            },
            Login::Finished => LoginModel::Finished,
        }
    }
}

/// What the caller reports back to the machine.
#[derive(Debug, PartialEq, Eq)]
pub enum LoginEvent {
    /// The provider called back.
    Callback(SetIdQuery),
    /// The store answered the fetch-and-delete, or could not.
    Roundtrip(Result<Option<Stored>, StoreFailure>),
    /// The provider exchanged the code for tokens, or did not.
    Tokens(Option<TokenPair>),
    /// The platform listed the principal's guilds, or could not.
    Guilds(Result<Vec<Guild>, OracleFailure>),
    /// The store wrote the session marker, or could not.
    SessionStored(Result<(), StoreFailure>),
}

/// What the machine asks of its caller.
#[derive(Debug, PartialEq, Eq)]
pub enum LoginAction {
    /// Fetch and delete, in one step, what the store holds under `key`.
    TakeRoundtrip { key: String },
    /// Exchange `code` at the provider, presenting `pkce_verifier`.
    Exchange { code: String, pkce_verifier: String },
    /// Ask the platform for at most `limit` guilds of the principal
    /// after the identifier `after`, authorizing with `authorization`.
    ListGuilds { authorization: String, after: u64, limit: u16 },
    /// Hand the tokens back to the provider, without waiting for it.
    Revoke(TokenPair),
    /// Perform this write on the store.
    Store(StoreWrite),
    /// Answer the callback: set `cookie` and send the user to `location`.
    Redirect { cookie: Cookie, location: String },
    /// Answer the callback with this failure.
    Fail(Error),
}

/// A `LoginAction` as pure text.
pub enum LoginActionModel {
    TakeRoundtrip { key: Seq<char> },
    Exchange { code: Seq<char>, pkce_verifier: Seq<char> },
    ListGuilds { authorization: Seq<char>, after: u64, limit: u16 },
    Revoke(TokenPairModel),
    Store(StoreWriteModel),
    Redirect { cookie: CookieModel, location: Seq<char> },
    Fail(Error),
}

impl View for LoginAction {
    type V = LoginActionModel;

    open spec fn view(&self) -> LoginActionModel {
        match self {
            LoginAction::TakeRoundtrip { key } => LoginActionModel::TakeRoundtrip { key: key@ },
            LoginAction::Exchange { code, pkce_verifier } => LoginActionModel::Exchange {
                code: code@,
                pkce_verifier: pkce_verifier@,
            },
            LoginAction::ListGuilds { authorization, after, limit } => {
                LoginActionModel::ListGuilds {
                    authorization: authorization@,
                    after: *after,
                    limit: *limit,
                }
            },
            LoginAction::Revoke(tokens) => LoginActionModel::Revoke(tokens@),
            LoginAction::Store(write) => LoginActionModel::Store(write@),
            LoginAction::Redirect { cookie, location } => LoginActionModel::Redirect {
                cookie: cookie@,
                location: location@,
            },
            LoginAction::Fail(e) => LoginActionModel::Fail(*e),
        }
    }
}

/// The views of `actions`, in order.
pub open spec fn action_models(actions: Seq<LoginAction>) -> Seq<LoginActionModel> {
    actions.map_values(|a: LoginAction| a@)
}

/// The request that asks the platform whether the principal is in `guild`:
/// the one guild that follows the identifier just below `guild`.
pub open spec fn guild_query(guild: u64, access_token: Seq<char>) -> LoginActionModel {
    LoginActionModel::ListGuilds {
        authorization: "Bearer "@ + access_token,
        after: (guild - 1) as u64,
        limit: 1,
    }
}

/// The machine: where the callback stands after `event`, and what the
/// caller is to do next, in order. `fresh` is the session token that is
/// issued if this step admits the principal.
///
/// A callback is answered exactly once, with `Redirect` or `Fail`. Tokens
/// are handed back as soon as the platform has answered, whatever the
/// answer says. An event that the machine is not waiting for ends the
/// callback with `Unauthorized`, after handing back any tokens it holds;
/// once the callback is answered, events are ignored.
pub open spec fn login_step(guild: u64, login: LoginModel, event: LoginEvent, fresh: Seq<char>) -> (
    LoginModel,
    Seq<LoginActionModel>,
) {
    match (login, event) {
        (LoginModel::Finished, _) => (LoginModel::Finished, Seq::empty()),
        (LoginModel::Arrived, LoginEvent::Callback(query)) => (
            LoginModel::AwaitingRoundtrip { code: query.code@ },
            seq![LoginActionModel::TakeRoundtrip { key: roundtrip_key_of(query.state@) }],
        ),
        (LoginModel::AwaitingRoundtrip { code }, LoginEvent::Roundtrip(Err(failure))) => (
            LoginModel::Finished,
            seq![LoginActionModel::Fail(store_error(failure))],
        ),
        (LoginModel::AwaitingRoundtrip { code }, LoginEvent::Roundtrip(Ok(found))) => {
            match redeemed(found_model(found)) {
                Ok(data) => (
                    LoginModel::AwaitingTokens { redirect: data.redirect },
                    seq![LoginActionModel::Exchange { code, pkce_verifier: data.pkce }],
                ),
                Err(e) => (LoginModel::Finished, seq![LoginActionModel::Fail(e)]),
            }
        },
        (LoginModel::AwaitingTokens { redirect }, LoginEvent::Tokens(Some(tokens))) => (
            LoginModel::AwaitingGuilds { redirect, tokens: tokens@ },
            seq![guild_query(guild, tokens.access_token@)],
        ),
        (LoginModel::AwaitingTokens { redirect }, LoginEvent::Tokens(None)) => (
            LoginModel::Finished,
            seq![LoginActionModel::Fail(Error::CodeExchangeFailed)],
        ),
        (LoginModel::AwaitingGuilds { redirect, tokens }, LoginEvent::Guilds(Ok(guilds))) => {
            if authorized(guild, guilds@) {
                (
                    LoginModel::AwaitingSession { redirect, token: fresh },
                    seq![
                        LoginActionModel::Revoke(tokens),
                        LoginActionModel::Store(session_write(fresh)),
                    ],
                )
            } else {
                (
                    LoginModel::Finished,
                    seq![
                        LoginActionModel::Revoke(tokens),
                        LoginActionModel::Fail(Error::NoPermissions),
                    ],
                )
            }
        },
        (LoginModel::AwaitingGuilds { redirect, tokens }, LoginEvent::Guilds(Err(failure))) => (
            LoginModel::Finished,
            seq![LoginActionModel::Fail(oracle_error(failure))],
        ),
        (LoginModel::AwaitingGuilds { redirect, tokens }, _) => (
            LoginModel::Finished,
            seq![LoginActionModel::Revoke(tokens), LoginActionModel::Fail(Error::Unauthorized)],
        ),
        (LoginModel::AwaitingSession { redirect, token }, LoginEvent::SessionStored(Ok(_))) => (
            LoginModel::Finished,
            seq![LoginActionModel::Redirect { cookie: session_cookie(token), location: redirect }],
        ),
        (
            LoginModel::AwaitingSession { redirect, token },
            LoginEvent::SessionStored(Err(failure)),
        ) => (LoginModel::Finished, seq![LoginActionModel::Fail(store_error(failure))]),
        _ => (LoginModel::Finished, seq![LoginActionModel::Fail(Error::Unauthorized)]),
    }
}

/// Whether `action` answers the callback.
pub open spec fn is_answer(action: LoginActionModel) -> bool {
    action is Redirect || action is Fail
}

/// Once the platform has said which guilds the principal is in, the
/// tokens are handed back first, whatever was said. A principal without
/// standing is then refused with `NoPermissions` and the callback is over,
/// with nothing written to the store; a principal with standing gets a
/// session marker written.
pub proof fn law_tokens_handed_back(
    guild: u64,
    redirect: Seq<char>,
    tokens: TokenPairModel,
    guilds: Vec<Guild>,
    fresh: Seq<char>,
)
    ensures
        ({
            let login = LoginModel::AwaitingGuilds { redirect, tokens };
            let step = login_step(guild, login, LoginEvent::Guilds(Ok(guilds)), fresh);
            &&& step.1.len() == 2
            &&& step.1[0] == LoginActionModel::Revoke(tokens)
            &&& authorized(guild, guilds@) ==> step.1[1] == LoginActionModel::Store(
                session_write(fresh),
            )
            &&& !authorized(guild, guilds@) ==> step.1[1] == LoginActionModel::Fail(
                Error::NoPermissions,
            ) && step.0 == LoginModel::Finished
        }),
{
}

/// A session marker is written for no one but a moderator of the guild:
/// a step asks for a write only when the platform has just listed guilds
/// that show the principal's standing, and the write is the marker of the
/// fresh token, and follows the return of the tokens.
pub proof fn law_session_needs_standing(
    guild: u64,
    login: LoginModel,
    event: LoginEvent,
    fresh: Seq<char>,
    i: int,
)
    requires
        0 <= i < login_step(guild, login, event, fresh).1.len(),
        login_step(guild, login, event, fresh).1[i] is Store,
    ensures
        login is AwaitingGuilds,
        event matches LoginEvent::Guilds(Ok(guilds)) && authorized(guild, guilds@),
        i == 1,
        login_step(guild, login, event, fresh).1[i] == LoginActionModel::Store(
            session_write(fresh),
        ),
{
}

/// A callback is answered once: a step holds at most one answer, as its
/// last action, a step that answers ends the callback, and a callback that
/// has ended asks for nothing more.
pub proof fn law_answered_once(guild: u64, login: LoginModel, event: LoginEvent, fresh: Seq<char>)
    ensures
        ({
            let step = login_step(guild, login, event, fresh);
            &&& forall|i: int|
                0 <= i < step.1.len() && is_answer(#[trigger] step.1[i]) ==> i == step.1.len() - 1
                    && step.0 == LoginModel::Finished
            &&& step.0 == LoginModel::Finished && !(login is Finished) ==> step.1.len() > 0
                && is_answer(step.1.last())
            &&& login is Finished ==> step.0 == LoginModel::Finished && step.1.len() == 0
        }),
{
}

/// How a callback fails: with `InvalidState` (400) when the store holds
/// no record for the presented state, with `CodeExchangeFailed` (400) when
/// the provider does not exchange the code, with `NoPermissions` (403) when
/// the platform answers and the principal lacks standing, and with a 500
/// when the store or the platform cannot be asked.
pub proof fn law_failure_taxonomy(
    guild: u64,
    code: Seq<char>,
    redirect: Seq<char>,
    tokens: TokenPairModel,
    token: Seq<char>,
    store_failure: StoreFailure,
    oracle_failure: OracleFailure,
    guilds: Vec<Guild>,
    fresh: Seq<char>,
)
    requires
        !authorized(guild, guilds@),
    ensures
        login_step(
            guild,
            LoginModel::AwaitingRoundtrip { code },
            LoginEvent::Roundtrip(Ok(None)),
            fresh,
        ).1 == seq![LoginActionModel::Fail(Error::InvalidState)],
        status_code(Error::InvalidState) == 400,
        login_step(
            guild,
            LoginModel::AwaitingTokens { redirect },
            LoginEvent::Tokens(None),
            fresh,
        ).1 == seq![LoginActionModel::Fail(Error::CodeExchangeFailed)],
        status_code(Error::CodeExchangeFailed) == 400,
        login_step(
            guild,
            LoginModel::AwaitingGuilds { redirect, tokens },
            LoginEvent::Guilds(Ok(guilds)),
            fresh,
        ).1.last() == LoginActionModel::Fail(Error::NoPermissions),
        status_code(Error::NoPermissions) == 403,
        login_step(
            guild,
            LoginModel::AwaitingRoundtrip { code },
            LoginEvent::Roundtrip(Err(store_failure)),
            fresh,
        ).1 == seq![LoginActionModel::Fail(store_error(store_failure))],
        login_step(
            guild,
            LoginModel::AwaitingGuilds { redirect, tokens },
            LoginEvent::Guilds(Err(oracle_failure)),
            fresh,
        ).1 == seq![LoginActionModel::Fail(oracle_error(oracle_failure))],
        login_step(
            guild,
            LoginModel::AwaitingSession { redirect, token },
            LoginEvent::SessionStored(Err(store_failure)),
            fresh,
        ).1 == seq![LoginActionModel::Fail(store_error(store_failure))],
        status_code(store_error(store_failure)) == 500,
        status_code(oracle_error(oracle_failure)) == 500,
{
}

/// Whether `action` reaches beyond the service: to the store's
/// handshake records, the provider or the platform.
pub open spec fn leaves_the_service(action: LoginActionModel) -> bool {
    action is TakeRoundtrip || action is Exchange || action is ListGuilds || action is Revoke
}

/// The session token stays home: which token is issued has no bearing on
/// how many actions a step asks for, nor on anything that is sent to the
/// provider or the platform, nor on how the callback fails.
pub proof fn law_session_token_stays_home(
    guild: u64,
    login: LoginModel,
    event: LoginEvent,
    fresh: Seq<char>,
    other: Seq<char>,
    i: int,
)
    requires
        0 <= i < login_step(guild, login, event, fresh).1.len(),
    ensures
        login_step(guild, login, event, other).1.len() == login_step(
            guild,
            login,
            event,
            fresh,
        ).1.len(),
        leaves_the_service(login_step(guild, login, event, fresh).1[i]) || login_step(
            guild,
            login,
            event,
            fresh,
        ).1[i] is Fail ==> login_step(guild, login, event, other).1[i] == login_step(
            guild,
            login,
            event,
            fresh,
        ).1[i],
{
}

/// Ends a callback with the failure `e`.
fn fail(e: Error) -> (step: (Login, Vec<LoginAction>))
    ensures
        step.0@ == LoginModel::Finished,
        action_models(step.1@) == seq![LoginActionModel::Fail(e)],
{
    let mut actions: Vec<LoginAction> = Vec::new();
    actions.push(LoginAction::Fail(e));
    assert(action_models(actions@) =~= seq![LoginActionModel::Fail(e)]);
    (Login::Finished, actions)
}

/// Moves the callback on to `next` with the one action `action`.
fn proceed(next: Login, action: LoginAction) -> (step: (Login, Vec<LoginAction>))
    ensures
        step.0 == next,
        action_models(step.1@) == seq![action@],
{
    let mut actions: Vec<LoginAction> = Vec::new();
    actions.push(action);
    assert(action_models(actions@) =~= seq![action@]);
    (next, actions)
}

/// Hands `tokens` back and then moves on to `next` with `action`.
fn settle(tokens: TokenPair, next: Login, action: LoginAction) -> (step: (Login, Vec<LoginAction>))
    ensures
        step.0 == next,
        action_models(step.1@) == seq![LoginActionModel::Revoke(tokens@), action@],
{
    let mut actions: Vec<LoginAction> = Vec::new();
    actions.push(LoginAction::Revoke(tokens));
    actions.push(action);
    assert(action_models(actions@) =~= seq![LoginActionModel::Revoke(tokens@), action@]);
    (next, actions)
}

/// Takes one step of the callback, issuing `fresh_token` as the session
/// token if the step admits the principal.
pub fn authenticate_with(state: &AppState, login: Login, event: LoginEvent, fresh_token: String)
    -> (step: (Login, Vec<LoginAction>))
    ensures
        (step.0@, action_models(step.1@)) == login_step(
            state@.guild,
            login@,
            event,
            fresh_token@,
        ),
{
    match login {
        Login::Finished => {
            let actions: Vec<LoginAction> = Vec::new();
            assert(action_models(actions@) =~= Seq::empty());
            (Login::Finished, actions)
        },
        Login::Arrived => match event {
            LoginEvent::Callback(query) => {
                let key = roundtrip_key(query.state.as_str());
                proceed(
                    Login::AwaitingRoundtrip { code: query.code },
                    LoginAction::TakeRoundtrip { key },
                )
            },
            _ => fail(Error::Unauthorized),
        },
        Login::AwaitingRoundtrip { code } => match event {
            LoginEvent::Roundtrip(Err(failure)) => fail(failure.error()),
            LoginEvent::Roundtrip(Ok(found)) => match redeem(found) {
                Ok(data) => proceed(
                    Login::AwaitingTokens { redirect: data.redirect },
                    LoginAction::Exchange { code, pkce_verifier: data.pkce },
                ),
                Err(e) => fail(e),
            },
            _ => fail(Error::Unauthorized),
        },
        Login::AwaitingTokens { redirect } => match event {
            LoginEvent::Tokens(Some(tokens)) => {
                let authorization = String::from_str("Bearer ").concat(
                    tokens.access_token.as_str(),
                );
                let after: u64 = state.guild() - 1;
                proceed(
                    Login::AwaitingGuilds { redirect, tokens },
                    LoginAction::ListGuilds { authorization, after, limit: 1 },
                )
            },
            LoginEvent::Tokens(None) => fail(Error::CodeExchangeFailed),
            _ => fail(Error::Unauthorized),
        },
        Login::AwaitingGuilds { redirect, tokens } => match event {
            LoginEvent::Guilds(Ok(guilds)) => {
                if check_authorized(state.guild(), &guilds) {
                    let write = issue_with(fresh_token.as_str());
                    settle(
                        tokens,
                        Login::AwaitingSession { redirect, token: fresh_token },
                        LoginAction::Store(write),
                    )
                } else {
                    settle(tokens, Login::Finished, LoginAction::Fail(Error::NoPermissions))
                }
            },
            LoginEvent::Guilds(Err(failure)) => fail(failure.error()),
            _ => settle(tokens, Login::Finished, LoginAction::Fail(Error::Unauthorized)),
        },
        Login::AwaitingSession { redirect, token } => match event {
            LoginEvent::SessionStored(Ok(_)) => proceed(
                Login::Finished,
                LoginAction::Redirect { cookie: cookie(token), location: redirect },
            ),
            LoginEvent::SessionStored(Err(failure)) => fail(failure.error()),
            _ => fail(Error::Unauthorized),
        },
    }
}

/// Takes one step of the callback. The session token, if one is issued,
/// is a fresh random string of 64 letters and digits.
pub fn authenticate(state: &AppState, login: Login, event: LoginEvent) -> (step: (
    Login,
    Vec<LoginAction>,
))
    ensures
        exists|fresh: Seq<char>|
            {
                &&& fresh.len() == TOKEN_LENGTH
                &&& all_alphanumeric(fresh)
                &&& (step.0@, action_models(step.1@)) == #[trigger] login_step(
                    state@.guild,
                    login@,
                    event,
                    fresh,
                )
            },
{
    let fresh_token = randstring(TOKEN_LENGTH);
    let ghost fresh = fresh_token@;
    let step = authenticate_with(state, login, event, fresh_token);
    assert((step.0@, action_models(step.1@)) == login_step(state@.guild, login@, event, fresh));
    step
}

} // verus!
