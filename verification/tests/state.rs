use ed25519_dalek::SigningKey;
use mod_images::signature_validation::KeyConversionError;
use mod_images::state::{
    get_root_url, ConfigError, Discord, DEFAULT_ASSET_DIR, DEFAULT_TEMPLATE_DIR,
};
use mod_images::AppState;

fn verify_key_hex() -> String {
    hex::encode(SigningKey::from_bytes(&[7u8; 32]).verifying_key().to_bytes())
}

fn identity() -> Discord {
    Discord::new(1234567890, verify_key_hex().as_bytes()).ok().unwrap()
}

#[test]
fn root_url_loses_its_trailing_slashes() {
    assert_eq!(get_root_url("https://img.example.com/"), "https://img.example.com");
    assert_eq!(get_root_url("https://img.example.com"), "https://img.example.com");
    assert_eq!(get_root_url("https://img.example.com/base//"), "https://img.example.com/base");
}

#[test]
fn identity_keeps_id_and_key() {
    let discord = identity();
    assert_eq!(discord.application_id(), 1234567890);
    assert_eq!(hex::encode(discord.verify_key().to_bytes()), verify_key_hex());
}

#[test]
fn identity_needs_a_key_of_64_hex_digits() {
    assert!(matches!(Discord::new(1, b"abcd"), Err(KeyConversionError::Hex)));
    assert!(matches!(Discord::new(1, &[b'x'; 64]), Err(KeyConversionError::Hex)));
}

#[test]
fn state_is_assembled_from_its_parts() {
    let state =
        AppState::new(42, identity(), "hush".to_string(), "https://img.example.com//").ok().unwrap();
    assert_eq!(state.guild(), 42);
    assert_eq!(state.root_url(), "https://img.example.com");
    assert_eq!(state.discord().application_id(), 1234567890);
    assert_eq!(state.oauth().client_id(), "1234567890");
    assert_eq!(state.oauth().client_secret(), "hush");
    assert_eq!(state.oauth().redirect_url(), "https://img.example.com/oauth2/callback");
}

#[test]
fn state_needs_a_guild() {
    let outcome = AppState::new(0, identity(), String::new(), "https://img.example.com");
    assert!(matches!(outcome, Err(ConfigError::Guild)));
}

#[test]
fn state_needs_a_root_that_is_a_url() {
    let outcome = AppState::new(1, identity(), String::new(), "img.example.com");
    assert!(matches!(outcome, Err(ConfigError::Url)));
    let outcome = AppState::new(1, identity(), String::new(), "/");
    assert!(matches!(outcome, Err(ConfigError::Url)));
}

#[test]
fn guild_is_checked_before_the_urls() {
    let outcome = AppState::new(0, identity(), String::new(), "nonsense");
    assert!(matches!(outcome, Err(ConfigError::Guild)));
}

#[test]
fn lookup_counts_presence_only() {
    assert!(AppState::redis_exists(Some(true)));
    assert!(AppState::redis_exists(Some(false)));
    assert!(!AppState::redis_exists(None));
}

#[test]
fn directories_have_defaults() {
    assert_eq!(DEFAULT_ASSET_DIR, "./assets/");
    assert_eq!(DEFAULT_TEMPLATE_DIR, "./templates/");
    assert_eq!(AppState::asset_dir(None), "./assets/");
    assert_eq!(AppState::asset_dir(Some("/srv/assets".to_string())), "/srv/assets");
    assert_eq!(AppState::template_dir(None), "./templates/");
    assert_eq!(AppState::template_dir(Some("/srv/tpl".to_string())), "/srv/tpl");
}
