use base64::Engine;
use mod_images::oauth::{
    get_oauth, new_csrf_token, PkceVerifier, AUTH_URL, CALLBACK_PATH, REVOCATION_URL, TOKEN_URL,
};
use mod_images::Error;
use oauth2::url::Url;
use sha2::{Digest, Sha256};

fn is_base64url(s: &str) -> bool {
    s.chars().all(|c| c.is_ascii_alphanumeric() || c == '-' || c == '_')
}

fn param(url: &Url, name: &str) -> Option<String> {
    let mut found = url.query_pairs().filter(|(k, _)| k == name).map(|(_, v)| v.into_owned());
    let first = found.next();
    assert_eq!(found.next(), None);
    first
}

#[test]
fn endpoints_are_the_providers() {
    assert_eq!(AUTH_URL, "https://discord.com/oauth2/authorize");
    assert_eq!(TOKEN_URL, "https://discord.com/api/oauth2/token");
    assert_eq!(REVOCATION_URL, "https://discord.com/api/oauth2/token/revoke");
    assert_eq!(CALLBACK_PATH, "/oauth2/callback");
}

#[test]
fn registration_holds_what_it_was_given() {
    let client = get_oauth(1234, "hush".to_string(), "https://img.example.com").ok().unwrap();
    assert_eq!(client.client_id(), "1234");
    assert_eq!(client.client_secret(), "hush");
    assert_eq!(client.auth_url(), AUTH_URL);
    assert_eq!(client.token_url(), TOKEN_URL);
    assert_eq!(client.revocation_url(), REVOCATION_URL);
    assert_eq!(client.redirect_url(), "https://img.example.com/oauth2/callback");
}

#[test]
fn registration_needs_a_root_that_is_a_url() {
    assert!(matches!(get_oauth(1, String::new(), "not a url"), Err(Error::OAuth2Url)));
    assert!(matches!(get_oauth(1, String::new(), ""), Err(Error::OAuth2Url)));
    assert!(matches!(get_oauth(1, String::new(), "//img.example.com"), Err(Error::OAuth2Url)));
}

#[test]
fn random_verifier_is_43_url_safe_characters() {
    let verifier = PkceVerifier::new_random();
    assert_eq!(verifier.secret().len(), 43);
    assert!(is_base64url(verifier.secret()));
    assert_ne!(verifier.secret(), PkceVerifier::new_random().secret());
}

#[test]
fn random_csrf_token_is_22_url_safe_characters() {
    let token = new_csrf_token();
    assert_eq!(token.len(), 22);
    assert!(is_base64url(&token));
    assert_ne!(token, new_csrf_token());
}

#[test]
fn verifier_length_is_bounded() {
    assert!(PkceVerifier::new("a".repeat(42)).is_none());
    assert!(PkceVerifier::new("a".repeat(43)).is_some());
    assert!(PkceVerifier::new("a".repeat(128)).is_some());
    assert!(PkceVerifier::new("a".repeat(129)).is_none());
    assert!(PkceVerifier::new(String::new()).is_none());
    let kept = PkceVerifier::new("b".repeat(50)).unwrap();
    assert_eq!(kept.secret(), &"b".repeat(50));
}

#[test]
fn verifier_length_counts_bytes() {
    // 22 two-byte characters are 44 bytes.
    assert!(PkceVerifier::new("é".repeat(22)).is_some());
    assert!(PkceVerifier::new("é".repeat(21)).is_none());
    assert!(PkceVerifier::new("é".repeat(65)).is_none());
}

#[test]
fn login_url_asks_the_provider_for_a_code() {
    let client = get_oauth(1234, "hush".to_string(), "https://img.example.com").ok().unwrap();
    let verifier = PkceVerifier::new("v".repeat(43)).unwrap();
    let url = Url::parse(&client.login_url(&verifier, "the-state")).unwrap();
    assert_eq!(url.scheme(), "https");
    assert_eq!(url.host_str(), Some("discord.com"));
    assert_eq!(url.path(), "/oauth2/authorize");
    assert_eq!(param(&url, "response_type").as_deref(), Some("code"));
    assert_eq!(param(&url, "client_id").as_deref(), Some("1234"));
    assert_eq!(param(&url, "state").as_deref(), Some("the-state"));
    assert_eq!(
        param(&url, "redirect_uri").as_deref(),
        Some("https://img.example.com/oauth2/callback")
    );
    assert_eq!(param(&url, "scope").as_deref(), Some("identify guilds"));
    assert_eq!(param(&url, "prompt").as_deref(), Some("none"));
    assert_eq!(param(&url, "code_challenge_method").as_deref(), Some("S256"));
}

#[test]
fn login_url_carries_the_challenge_and_not_the_verifier() {
    let client = get_oauth(1234, "hush".to_string(), "https://img.example.com").ok().unwrap();
    let secret = "0123456789abcdefghijklmnopqrstuvwxyzABCDEFG-_";
    let verifier = PkceVerifier::new(secret.to_string()).unwrap();
    let text = client.login_url(&verifier, "s");
    let url = Url::parse(&text).unwrap();
    let digest = Sha256::digest(secret.as_bytes());
    let challenge = base64::engine::general_purpose::URL_SAFE_NO_PAD.encode(digest);
    assert_eq!(param(&url, "code_challenge"), Some(challenge));
    assert!(!text.contains(secret));
    assert!(!text.contains("hush"));
    assert_eq!(param(&url, "code_verifier"), None);
}

#[test]
fn login_url_is_exactly_the_crates() {
    let client = get_oauth(77, String::new(), "https://img.example.com").ok().unwrap();
    let verifier = PkceVerifier::new("A".repeat(43)).unwrap();
    let digest = Sha256::digest("A".repeat(43).as_bytes());
    let challenge = base64::engine::general_purpose::URL_SAFE_NO_PAD.encode(digest);
    let expected = format!(
        "https://discord.com/oauth2/authorize?response_type=code&client_id=77&state=xyz&code_challenge={challenge}&code_challenge_method=S256&redirect_uri=https%3A%2F%2Fimg.example.com%2Foauth2%2Fcallback&scope=identify+guilds&prompt=none"
    );
    assert_eq!(client.login_url(&verifier, "xyz"), expected);
}

#[test]
fn login_url_escapes_the_state() {
    let client = get_oauth(77, String::new(), "https://img.example.com").ok().unwrap();
    let verifier = PkceVerifier::new("A".repeat(43)).unwrap();
    let url = Url::parse(&client.login_url(&verifier, "a b&c=d")).unwrap();
    assert_eq!(param(&url, "state").as_deref(), Some("a b&c=d"));
}
