//! The provider side of the login handshake: the client's registration, the
//! PKCE verifier and the authorization URL.

use crate::error::Error;
use crate::text::decimal;
use crate::text::decimal_digits;
use oauth2::basic::BasicClient;
use oauth2::{
    AuthUrl, ClientId, CsrfToken, PkceCodeChallenge, PkceCodeVerifier, RedirectUrl, Scope,
};
use vstd::prelude::*;
use vstd::string::StringExecFns;
use vstd::utf8::{encode_utf8, is_ascii_chars, is_ascii_chars_encode_utf8};

verus! {

/// Where the provider asks the user to grant access.
pub const AUTH_URL: &'static str = "https://discord.com/oauth2/authorize";

/// Where an authorization code is traded for tokens.
pub const TOKEN_URL: &'static str = "https://discord.com/api/oauth2/token";

/// Where tokens are handed back.
pub const REVOCATION_URL: &'static str = "https://discord.com/api/oauth2/token/revoke";

/// The path of the callback endpoint below the service's root URL.
pub const CALLBACK_PATH: &'static str = "/oauth2/callback";

/// Whether `url::Url::parse` accepts `s`.
pub uninterp spec fn url_parses(s: Seq<char>) -> bool;

/// The authorization URL that the `oauth2` crate builds for a client that is
/// registered as `client_id` with the endpoint `auth_url` and the redirect
/// `redirect_url`, when it asks for `scopes` with the S256 challenge of
/// `pkce_verifier`, the opaque `state` and one extra parameter.
pub uninterp spec fn authorization_url(
    auth_url: Seq<char>,
    client_id: Seq<char>,
    redirect_url: Seq<char>,
    scopes: Seq<Seq<char>>,
    pkce_verifier: Seq<char>,
    state: Seq<char>,
    extra_name: Seq<char>,
    extra_value: Seq<char>,
) -> Seq<char>;

/// Whether `c` is in the URL-safe base64 alphabet.
pub open spec fn is_base64url(c: char) -> bool {
    ('A' <= c && c <= 'Z') || ('a' <= c && c <= 'z') || ('0' <= c && c <= '9') || c == '-' || c
        == '_'
}

/// Whether `s` is made of the URL-safe base64 alphabet only.
pub open spec fn all_base64url(s: Seq<char>) -> bool {
    forall|i: int| 0 <= i < s.len() ==> is_base64url(#[trigger] s[i])
}

/// The texts of `v`, in order.
pub open spec fn texts(v: Seq<String>) -> Seq<Seq<char>> {
    v.map_values(|s: String| s@)
}

/// Asks `url::Url::parse`, which the `oauth2` crate re-exports and uses for
/// every endpoint it is given, whether it accepts `s`.
#[verifier::external_body]
fn parses_as_url(s: &str) -> (ok: bool)
    ensures
        ok == url_parses(s@),
{
    oauth2::url::Url::parse(s).is_ok()
}

/// The verifier half of `oauth2::PkceCodeChallenge::new_random_sha256`: 32
/// random bytes in unpadded URL-safe base64, which is 43 characters.
#[verifier::external_body]
fn random_pkce_verifier() -> (secret: String)
    ensures
        secret@.len() == 43,
        all_base64url(secret@),
{
    PkceCodeChallenge::new_random_sha256().1.secret().clone()
}

/// `oauth2::CsrfToken::new_random`: 16 random bytes in unpadded URL-safe
/// base64, which is 22 characters.
#[verifier::external_body]
fn random_csrf_token() -> (token: String)
    ensures
        token@.len() == 22,
        all_base64url(token@),
{
    CsrfToken::new_random().secret().clone()
}

/// Builds the authorization URL with `oauth2`: a `BasicClient` for
/// `client_id` with `auth_url` and `redirect_url`, whose `authorize_url`
/// request gets the scopes, the S256 challenge that
/// `PkceCodeChallenge::from_code_verifier_sha256` derives from
/// `pkce_verifier`, and one extra parameter, and is then rendered with `url`.
/// The crate refuses verifiers outside 43 to 128 bytes and endpoints that
/// do not parse; both are excluded here.
#[verifier::external_body]
fn authorize_url(
    auth_url: &str,
    client_id: &str,
    redirect_url: &str,
    scopes: &Vec<String>,
    pkce_verifier: &str,
    state: &str,
    extra_name: &str,
    extra_value: &str,
) -> (url: String)
    requires
        url_parses(auth_url@),
        url_parses(redirect_url@),
        43 <= encode_utf8(pkce_verifier@).len() <= 128,
    ensures
        url@ == authorization_url(
            auth_url@,
            client_id@,
            redirect_url@,
            texts(scopes@),
            pkce_verifier@,
            state@,
            extra_name@,
            extra_value@,
        ),
{
    let client = BasicClient::new(ClientId::new(client_id.to_owned()))
        .set_auth_uri(AuthUrl::new(auth_url.to_owned()).unwrap())
        .set_redirect_uri(RedirectUrl::new(redirect_url.to_owned()).unwrap());
    let verifier = PkceCodeVerifier::new(pkce_verifier.to_owned());
    let csrf = CsrfToken::new(state.to_owned());
    let request = client
        .authorize_url(|| csrf)
        .add_scopes(scopes.iter().cloned().map(Scope::new))
        .set_pkce_challenge(PkceCodeChallenge::from_code_verifier_sha256(&verifier))
        .add_extra_param(extra_name, extra_value);
    request.url().0.into()
}

/// A PKCE code verifier of a length that the provider accepts: between 43
/// and 128 bytes.
pub struct PkceVerifier {
    secret: String,
}

impl View for PkceVerifier {
    type V = Seq<char>;

    closed spec fn view(&self) -> Seq<char> {
        self.secret@
    }
}

impl PkceVerifier {
    #[verifier::type_invariant]
    spec fn well_sized(self) -> bool {
        43 <= encode_utf8(self.secret@).len() <= 128
    }

    /// Accepts `secret` as a verifier if its length allows it.
    pub fn new(secret: String) -> (verifier: Option<PkceVerifier>)
        ensures
            match verifier {
                Some(v) => v@ == secret@ && 43 <= encode_utf8(secret@).len() <= 128,
                None => !(43 <= encode_utf8(secret@).len() <= 128),
            },
    {
        let len = secret.as_str().as_bytes().len();
        if 43 <= len && len <= 128 {
            Some(PkceVerifier { secret })
        } else {
            None
        }
    }

    /// A fresh random verifier: 43 characters of URL-safe base64.
    pub fn new_random() -> (verifier: PkceVerifier)
        ensures
            verifier@.len() == 43,
            all_base64url(verifier@),
    {
        let secret = random_pkce_verifier();
        proof {
            assert(is_ascii_chars(secret@)) by {
                assert forall|i: int| 0 <= i < secret@.len() implies (secret@[i] as nat) < 128 by {
                    assert(is_base64url(secret@[i]));
                }
            }
            is_ascii_chars_encode_utf8(secret@);
        }
        PkceVerifier { secret }
    }

    /// The verifier's text, which goes to the provider only when the
    /// authorization code is exchanged.
    pub fn secret(&self) -> (secret: &String)
        ensures
            secret@ == self@,
            43 <= encode_utf8(secret@).len() <= 128,
    {
        proof {
            use_type_invariant(self);
        }
        &self.secret
    }
}

/// A fresh random CSRF token: 22 characters of URL-safe base64.
pub fn new_csrf_token() -> (token: String)
    ensures
        token@.len() == 22,
        all_base64url(token@),
{
    random_csrf_token()
}

/// The service's registration with the provider. A value of this type
/// always holds endpoints that parse as URLs.
pub struct OAuth2Client {
    client_id: String,
    client_secret: String,
    auth_url: String,
    token_url: String,
    revocation_url: String,
    redirect_url: String,
}

/// An `OAuth2Client` as pure text.
pub struct OAuth2ClientModel {
    pub client_id: Seq<char>,
    pub client_secret: Seq<char>,
    pub auth_url: Seq<char>,
    pub token_url: Seq<char>,
    pub revocation_url: Seq<char>,
    pub redirect_url: Seq<char>,
}

impl View for OAuth2Client {
    type V = OAuth2ClientModel;

    closed spec fn view(&self) -> OAuth2ClientModel {
        OAuth2ClientModel {
            client_id: self.client_id@,
            client_secret: self.client_secret@,
            auth_url: self.auth_url@,
            token_url: self.token_url@,
            revocation_url: self.revocation_url@,
            redirect_url: self.redirect_url@,
        }
    }
}

/// The registration of application `id` below `root_url`, as pure text.
pub open spec fn registration(id: u64, client_secret: Seq<char>, root_url: Seq<char>)
    -> OAuth2ClientModel {
    OAuth2ClientModel {
        client_id: decimal_digits(id as nat),
        client_secret,
        auth_url: AUTH_URL@,
        token_url: TOKEN_URL@,
        revocation_url: REVOCATION_URL@,
        redirect_url: root_url + CALLBACK_PATH@,
    }
}

/// Whether every endpoint of `m` parses as a URL.
pub open spec fn endpoints_parse(m: OAuth2ClientModel) -> bool {
    &&& url_parses(m.auth_url)
    &&& url_parses(m.token_url)
    &&& url_parses(m.revocation_url)
    &&& url_parses(m.redirect_url)
}

impl OAuth2Client {
    #[verifier::type_invariant]
    spec fn usable(self) -> bool {
        endpoints_parse(self@)
    }

    /// The identifier under which the provider knows the service.
    pub fn client_id(&self) -> (s: &String)
        ensures
            s@ == self@.client_id,
    {
        &self.client_id
    }

    /// The secret that the service shares with the provider.
    pub fn client_secret(&self) -> (s: &String)
        ensures
            s@ == self@.client_secret,
    {
        &self.client_secret
    }

    /// Where users are sent to grant access.
    pub fn auth_url(&self) -> (s: &String)
        ensures
            s@ == self@.auth_url,
            url_parses(s@),
    {
        proof {
            use_type_invariant(self);
        }
        &self.auth_url
    }

    /// Where authorization codes are exchanged.
    pub fn token_url(&self) -> (s: &String)
        ensures
            s@ == self@.token_url,
            url_parses(s@),
    {
        proof {
            use_type_invariant(self);
        }
        &self.token_url
    }

    /// Where tokens are handed back.
    pub fn revocation_url(&self) -> (s: &String)
        ensures
            s@ == self@.revocation_url,
            url_parses(s@),
    {
        proof {
            use_type_invariant(self);
        }
        &self.revocation_url
    }

    /// Where the provider sends users back to.
    pub fn redirect_url(&self) -> (s: &String)
        ensures
            s@ == self@.redirect_url,
            url_parses(s@),
    {
        proof {
            use_type_invariant(self);
        }
        &self.redirect_url
    }

    /// The URL to which a user is sent to log in: the provider's
    /// authorization endpoint, asking for the scopes `identify` and `guilds`
    /// without a consent prompt, bound to `state` and to the S256 challenge of
    /// `verifier`. The verifier itself is not part of the request.
    pub fn login_url(&self, verifier: &PkceVerifier, state: &str) -> (url: String)
        ensures
            url@ == login_url_of(self@, verifier@, state@),
    {
        let mut scopes: Vec<String> = Vec::new();
        scopes.push(String::from_str("identify"));
        scopes.push(String::from_str("guilds"));
        proof {
            use_type_invariant(self);
            assert(texts(scopes@) =~= seq!["identify"@, "guilds"@]);
        }
        authorize_url(
            self.auth_url.as_str(),
            self.client_id.as_str(),
            self.redirect_url.as_str(),
            &scopes,
            verifier.secret().as_str(),
            state,
            "prompt",
            "none",
        )
    }
}

/// The login URL of the registration `m` for `verifier` and `state`.
pub open spec fn login_url_of(m: OAuth2ClientModel, verifier: Seq<char>, state: Seq<char>) -> Seq<
    char,
> {
    authorization_url(
        m.auth_url,
        m.client_id,
        m.redirect_url,
        seq!["identify"@, "guilds"@],
        verifier,
        state,
        "prompt"@,
        "none"@,
    )
}

/// Registers application `id` with the provider's fixed endpoints and the
/// callback below `root_url`. Fails with `OAuth2Url` exactly when one of the
/// endpoints does not parse as a URL.
pub fn get_oauth(id: u64, client_secret: String, root_url: &str) -> (client: Result<
    OAuth2Client,
    Error,
>)
    ensures
        match client {
            Ok(c) => c@ == registration(id, client_secret@, root_url@) && endpoints_parse(c@),
            Err(e) => e == Error::OAuth2Url && !endpoints_parse(
                registration(id, client_secret@, root_url@),
            ),
        },
{
    let redirect_url = String::from_str(root_url).concat(CALLBACK_PATH);
    if parses_as_url(AUTH_URL) && parses_as_url(TOKEN_URL) && parses_as_url(REVOCATION_URL)
        && parses_as_url(redirect_url.as_str()) {
        Ok(
            OAuth2Client {
                client_id: decimal(id),
                client_secret,
                auth_url: String::from_str(AUTH_URL),
                token_url: String::from_str(TOKEN_URL),
                revocation_url: String::from_str(REVOCATION_URL),
                redirect_url,
            },
        )
    } else {
        Err(Error::OAuth2Url)
    }
}

} // verus!
