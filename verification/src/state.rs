//! The service's configuration, read once at startup and never changed.

use crate::oauth::{endpoints_parse, get_oauth, registration, OAuth2Client, OAuth2ClientModel};
use crate::signature_validation::{
    ed25519_decompresses, hex_decoded, Key, KeyConversionError,
};
use crate::text::{trim_end, trimmed_end};
use vstd::prelude::*;
use vstd::string::StringExecFns;

verus! {

/// Where static assets are served from unless configured otherwise.
pub const DEFAULT_ASSET_DIR: &'static str = "./assets/";

/// Where page templates are read from unless configured otherwise.
pub const DEFAULT_TEMPLATE_DIR: &'static str = "./templates/";

/// Why a configuration was not accepted.
#[derive(Debug, Clone, Copy, PartialEq, Eq)]
pub enum ConfigError {
    /// The guild identifier is zero.
    Guild,
    /// An OAuth2 endpoint, most likely the callback below the root URL, is
    /// not a URL.
    Url,
}

/// The service's identity on the chat platform.
pub struct Discord {
    application_id: u64,
    verify_key: Key,
}

/// A `Discord` as plain values.
pub struct DiscordModel {
    pub application_id: u64,
    pub verify_key: Seq<u8>,
}

impl View for Discord {
    type V = DiscordModel;

    closed spec fn view(&self) -> DiscordModel {
        DiscordModel { application_id: self.application_id, verify_key: self.verify_key@ }
    }
}

impl Discord {
    /// The identity of application `application_id`, whose requests are
    /// signed with the key written as the hexadecimal digits `verify_key`.
    pub fn new(application_id: u64, verify_key: &[u8]) -> (discord: Result<
        Discord,
        KeyConversionError,
    >)
        ensures
            match discord {
                Ok(d) => hex_decoded(verify_key@, 32) == Some(d@.verify_key)
                    && ed25519_decompresses(d@.verify_key) && d@.application_id
                    == application_id,
                Err(KeyConversionError::Hex) => hex_decoded(verify_key@, 32) is None,
                Err(KeyConversionError::Point) => hex_decoded(verify_key@, 32) matches Some(bytes)
                    && !ed25519_decompresses(bytes),
            },
    {
        match Key::from_hex(verify_key) {
            Ok(verify_key) => Ok(Discord { application_id, verify_key }),
            Err(e) => Err(e),
        }
    }

    /// The application's identifier on the platform.
    pub fn application_id(&self) -> (id: u64)
        ensures
            id == self@.application_id,
    {
        self.application_id
    }

    /// The key with which the platform signs its requests.
    pub fn verify_key(&self) -> (key: &Key)
        ensures
            key@ == self@.verify_key,
    {
        &self.verify_key
    }
}

/// Everything the request handlers need to know about the deployment. A
/// value of this type always names a guild other than zero.
pub struct AppState {
    guild: u64,
    oauth: OAuth2Client,
    discord: Discord,
    root_url: String,
}

/// An `AppState` as plain values.
pub struct AppStateModel {
    pub guild: u64,
    pub oauth: OAuth2ClientModel,
    pub discord: DiscordModel,
    pub root_url: Seq<char>,
}

impl View for AppState {
    type V = AppStateModel;

    closed spec fn view(&self) -> AppStateModel {
        AppStateModel {
            guild: self.guild,
            oauth: self.oauth@,
            discord: self.discord@,
            root_url: self.root_url@,
        }
    }
}

/// The configuration that `AppState::new` assembles from its arguments.
pub open spec fn assembled(
    guild: u64,
    discord: DiscordModel,
    client_secret: Seq<char>,
    root_url: Seq<char>,
) -> AppStateModel {
    let root = trimmed_end(root_url, '/');
    AppStateModel {
        guild,
        oauth: registration(discord.application_id, client_secret, root),
        discord,
        root_url: root,
    }
}

/// The service's public address without trailing slashes.
pub fn get_root_url(configured: &str) -> (root_url: String)
    ensures
        root_url@ == trimmed_end(configured@, '/'),
{
    trim_end(configured, '/')
}

impl AppState {
    #[verifier::type_invariant]
    spec fn names_a_guild(self) -> bool {
        self.guild >= 1
    }

    /// Assembles the configuration. The root URL loses its trailing
    /// slashes, and the OAuth2 client is registered under the application's
    /// identifier with its callback below the root URL. Fails with `Guild`
    /// if `guild` is zero, and otherwise with `Url` exactly when an OAuth2
    /// endpoint does not parse.
    pub fn new(guild: u64, discord: Discord, client_secret: String, root_url: &str) -> (state:
        Result<AppState, ConfigError>)
        ensures
            match state {
                Ok(s) => guild >= 1 && s@ == assembled(guild, discord@, client_secret@, root_url@)
                    && endpoints_parse(s@.oauth),
                Err(ConfigError::Guild) => guild == 0,
                Err(ConfigError::Url) => guild >= 1 && !endpoints_parse(
                    assembled(guild, discord@, client_secret@, root_url@).oauth,
                ),
            },
    {
        if guild == 0 {
            return Err(ConfigError::Guild);
        }
        let root_url = get_root_url(root_url);
        match get_oauth(discord.application_id(), client_secret, root_url.as_str()) {
            Ok(oauth) => Ok(AppState { guild, oauth, discord, root_url }),
            Err(_) => Err(ConfigError::Url),
        }
    }

    /// The guild whose moderators may use the service.
    pub fn guild(&self) -> (guild: u64)
        ensures
            guild == self@.guild,
            guild >= 1,
    {
        proof {
            use_type_invariant(self);
        }
        self.guild
    }

    /// The service's registration with the provider.
    pub fn oauth(&self) -> (oauth: &OAuth2Client)
        ensures
            oauth@ == self@.oauth,
    {
        &self.oauth
    }

    /// The service's identity on the platform.
    pub fn discord(&self) -> (discord: &Discord)
        ensures
            discord@ == self@.discord,
    {
        &self.discord
    }

    /// The service's public address, without a trailing slash.
    pub fn root_url(&self) -> (root_url: &String)
        ensures
            root_url@ == self@.root_url,
    {
        &self.root_url
    }

    /// Whether a lookup that came back as `value` found its key.
    pub fn redis_exists(value: Option<bool>) -> (found: bool)
        ensures
            found == value.is_some(),
    {
        value.is_some()
    }

    /// The directory of static assets: the configured one, or `./assets/`.
    pub fn asset_dir(configured: Option<String>) -> (dir: String)
        ensures
            dir@ == match configured {
                Some(d) => d@,
                None => DEFAULT_ASSET_DIR@,
            },
    {
        match configured {
            Some(dir) => dir,
            None => String::from_str(DEFAULT_ASSET_DIR),
        }
    }

    /// The directory of page templates: the configured one, or `./templates/`.
    pub fn template_dir(configured: Option<String>) -> (dir: String)
        ensures
            dir@ == match configured {
                Some(d) => d@,
                None => DEFAULT_TEMPLATE_DIR@,
            },
    {
        match configured {
            Some(dir) => dir,
            None => String::from_str(DEFAULT_TEMPLATE_DIR),
        }
    }
}

} // verus!
