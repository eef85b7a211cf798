//! Configuration: what the application is told at startup, and how it is
//! read from the values of the environment.

use vstd::prelude::*;

use crate::text::{i64_of, parse_i64, parse_u16, u16_of};

verus! {

/// The whole configuration.
#[derive(Debug, Clone)]
pub struct Config {
    /// Discord OAuth2 and API settings.
    pub discord: DiscordConfig,
    /// Secrets.
    pub security: SecurityConfig,
    /// Where the server listens.
    pub server: ServerConfig,
}

/// Discord OAuth2 and API settings.
#[derive(Debug, Clone)]
pub struct DiscordConfig {
    /// Client id of the Discord application.
    pub client_id: String,
    /// Client secret of the Discord application.
    pub client_secret: String,
    /// OAuth2 redirect URI.
    pub redirect_uri: String,
    /// Bot token, for the entitlements API.
    pub bot_token: String,
    /// The SKU that grants premium, if there is one.
    pub premium_sku_id: Option<i64>,
}

/// Secrets.
#[derive(Debug, Clone)]
pub struct SecurityConfig {
    /// Secret that signs session tokens.
    pub jwt_secret: String,
    /// Base64 of the 32-byte key that encrypts refresh tokens.
    pub encryption_key: String,
}

/// Where the server listens.
#[derive(Debug, Clone)]
pub struct ServerConfig {
    /// Host to bind to.
    pub host: String,
    /// Port to listen on.
    pub port: u16,
}

/// The host to bind to where none is configured.
pub fn default_host() -> (host: String)
    ensures
        host@ == "0.0.0.0"@,
{
    String::from_str("0.0.0.0")
}

/// The port to listen on where none is configured.
pub fn default_port() -> (port: u16)
    ensures
        port == 3000,
{
    3000
}

impl Default for ServerConfig {
    fn default() -> (server: Self)
        ensures
            server.host@ == "0.0.0.0"@,
            server.port == 3000,
    {
        ServerConfig { host: default_host(), port: default_port() }
    }
}

/// Why a configuration could not be read.
#[derive(Debug)]
pub enum ConfigError {
    /// A required variable of the environment is not set.
    MissingEnv(&'static str),
}

impl ConfigError {
    /// The name of the variable that is missing.
    pub open spec fn variable(self) -> Seq<char> {
        match self {
            ConfigError::MissingEnv(name) => name@,
        }
    }

    /// The text of the error.
    pub fn to_string(&self) -> (s: String)
        ensures
            s@ == "missing required environment variable: "@ + self.variable(),
    {
        match self {
            ConfigError::MissingEnv(name) => {
                let mut s = String::from_str("missing required environment variable: ");
                s.append(name);
                s
            },
        }
    }
}

/// The values of the variables of the environment that make up a
/// configuration; `None` for a variable that is not set.
#[derive(Debug, Clone)]
pub struct EnvValues {
    /// `DISCORD_CLIENT_ID`
    pub discord_client_id: Option<String>,
    /// `DISCORD_CLIENT_SECRET`
    pub discord_client_secret: Option<String>,
    /// `DISCORD_REDIRECT_URI`
    pub discord_redirect_uri: Option<String>,
    /// `DISCORD_BOT_TOKEN`
    pub discord_bot_token: Option<String>,
    /// `DISCORD_PREMIUM_SKU_ID`
    pub discord_premium_sku_id: Option<String>,
    /// `JWT_SECRET`
    pub jwt_secret: Option<String>,
    /// `ENCRYPTION_KEY`
    pub encryption_key: Option<String>,
    /// `HOST`
    pub host: Option<String>,
    /// `PORT`
    pub port: Option<String>,
}

/// What a `Config` holds, as plain values.
pub ghost struct ConfigView {
    pub client_id: Seq<char>,
    pub client_secret: Seq<char>,
    pub redirect_uri: Seq<char>,
    pub bot_token: Seq<char>,
    pub premium_sku_id: Option<i64>,
    pub jwt_secret: Seq<char>,
    pub encryption_key: Seq<char>,
    pub host: Seq<char>,
    pub port: u16,
}

impl View for Config {
    type V = ConfigView;

    open spec fn view(&self) -> ConfigView {
        ConfigView {
            client_id: self.discord.client_id@,
            client_secret: self.discord.client_secret@,
            redirect_uri: self.discord.redirect_uri@,
            bot_token: self.discord.bot_token@,
            premium_sku_id: self.discord.premium_sku_id,
            jwt_secret: self.security.jwt_secret@,
            encryption_key: self.security.encryption_key@,
            host: self.server.host@,
            port: self.server.port,
        }
    }
}

/// The required variable that is missing, the first in the order in which
/// they are read.
pub open spec fn first_missing(env: EnvValues) -> Option<Seq<char>> {
    if env.discord_client_id is None {
        Some("DISCORD_CLIENT_ID"@)
    } else if env.discord_client_secret is None {
        Some("DISCORD_CLIENT_SECRET"@)
    } else if env.discord_redirect_uri is None {
        Some("DISCORD_REDIRECT_URI"@)
    } else if env.discord_bot_token is None {
        Some("DISCORD_BOT_TOKEN"@)
    } else if env.jwt_secret is None {
        Some("JWT_SECRET"@)
    } else if env.encryption_key is None {
        Some("ENCRYPTION_KEY"@)
    } else {
        None
    }
}

/// The configuration that complete values stand for. A premium SKU that is
/// no decimal `i64` counts as none; a missing host is `0.0.0.0`; a port that
/// is missing or no decimal `u16` is 3000.
pub open spec fn config_of(env: EnvValues) -> ConfigView {
    ConfigView {
        client_id: env.discord_client_id->0@,
        client_secret: env.discord_client_secret->0@,
        redirect_uri: env.discord_redirect_uri->0@,
        bot_token: env.discord_bot_token->0@,
        premium_sku_id: match env.discord_premium_sku_id {
            Some(s) => i64_of(s@),
            None => None,
        },
        jwt_secret: env.jwt_secret->0@,
        encryption_key: env.encryption_key->0@,
        host: match env.host {
            Some(h) => h@,
            None => "0.0.0.0"@,
        },
        port: match env.port {
            Some(p) => match u16_of(p@) {
                Some(port) => port,
                None => 3000,
            },
            None => 3000,
        },
    }
}

impl Config {
    /// Builds the configuration from the values of the environment. It
    /// fails exactly when a required variable is missing, and names the
    /// first one that is.
    pub fn from_values(env: EnvValues) -> (r: Result<Config, ConfigError>)
        ensures
            match r {
                Ok(config) => first_missing(env) is None && config@ == config_of(env),
                Err(e) => first_missing(env) == Some(e.variable()),
            },
    {
        let client_id = match env.discord_client_id {
            Some(v) => v,
            None => {
                return Err(ConfigError::MissingEnv("DISCORD_CLIENT_ID"));
            },
        };
        let client_secret = match env.discord_client_secret {
            Some(v) => v,
            None => {
                return Err(ConfigError::MissingEnv("DISCORD_CLIENT_SECRET"));
            },
        };
        let redirect_uri = match env.discord_redirect_uri {
            Some(v) => v,
            None => {
                return Err(ConfigError::MissingEnv("DISCORD_REDIRECT_URI"));
            },
        };
        let bot_token = match env.discord_bot_token {
            Some(v) => v,
            None => {
                return Err(ConfigError::MissingEnv("DISCORD_BOT_TOKEN"));
            },
        };
        let premium_sku_id = match &env.discord_premium_sku_id {
            Some(s) => parse_i64(s.as_str()),
            None => None,
        };
        let jwt_secret = match env.jwt_secret {
            Some(v) => v,
            None => {
                return Err(ConfigError::MissingEnv("JWT_SECRET"));
            },
        };
        let encryption_key = match env.encryption_key {
            Some(v) => v,
            None => {
                return Err(ConfigError::MissingEnv("ENCRYPTION_KEY"));
            },
        };
        let host = match env.host {
            Some(h) => h,
            None => default_host(),
        };
        let port = match &env.port {
            Some(p) => match parse_u16(p.as_str()) {
                Some(port) => port,
                None => default_port(),
            },
            None => default_port(),
        };
        Ok(
            Config {
                discord: DiscordConfig {
                    client_id,
                    client_secret,
                    redirect_uri,
                    bot_token,
                    premium_sku_id,
                },
                security: SecurityConfig { jwt_secret, encryption_key },
                server: ServerConfig { host, port },
            },
        )
    }
}

} // verus!
