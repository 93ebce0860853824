//! User configuration (`~/.config/radi/config.toml`): where recordings go
//! and how to reach LISTEN.
use vstd::prelude::*;
use crate::text::{has_prefix, starts_with};

verus! {

#[derive(Debug, PartialEq)]
pub struct Config {
    pub output_dir: Option<String>,
    pub listen: Option<ListenConfig>,
}

#[derive(Debug, Clone, PartialEq)]
pub struct ListenConfig {
    pub podcast_id: String,
    pub api_token: Option<String>,
    pub endpoint: Option<String>,
}

/// Where the API token comes from.
#[derive(Debug, PartialEq)]
pub enum TokenSource {
    /// Neither the config nor the environment names a token.
    Missing,
    /// The token itself.
    Plain(String),
    /// An `op://` reference to be read through the 1Password CLI.
    OnePassword(String),
}

pub const DEFAULT_ENDPOINT: &'static str = "https://listen.style/graphql";

/// The token the config (else the environment) supplies, classified.
pub open spec fn token_choice(config_token: Option<String>, env_token: Option<String>, r: TokenSource) -> bool {
    let raw = match config_token {
        Some(t) => Some(t),
        None => env_token,
    };
    match raw {
        None => r == TokenSource::Missing,
        Some(t) => if has_prefix(t@, "op://"@) {
            r == TokenSource::OnePassword(t)
        } else {
            r == TokenSource::Plain(t)
        },
    }
}

impl ListenConfig {
    /// The GraphQL endpoint: the configured one, else LISTEN's public one.
    pub fn endpoint_or_default(&self) -> (r: &str)
        ensures
            r@ == match self.endpoint {
                Some(e) => e@,
                None => DEFAULT_ENDPOINT@,
            },
    {
        match &self.endpoint {
            Some(e) => e.as_str(),
            None => DEFAULT_ENDPOINT,
        }
    }

    /// The token to use: the one in the config, falling back to the
    /// `LISTEN_API_TOKEN` value the caller read from the environment
    /// (`env_token`, consulted only when the config has none). Values
    /// prefixed with `op://` are references for the 1Password CLI.
    pub fn token_source(&self, env_token: Option<String>) -> (r: TokenSource)
        ensures
            token_choice(self.api_token, env_token, r),
    {
        let raw = match &self.api_token {
            Some(t) => Some(t.clone()),
            None => env_token,
        };
        match raw {
            None => TokenSource::Missing,
            Some(t) => {
                if starts_with(t.as_str(), "op://") {
                    TokenSource::OnePassword(t)
                } else {
                    TokenSource::Plain(t)
                }
            },
        }
    }
}

impl Config {
    /// Where recordings go: the configured directory, else the current one.
    pub fn output_dir_or_default(&self) -> (r: String)
        ensures
            r@ == match self.output_dir {
                Some(d) => d@,
                None => "."@,
            },
    {
        match &self.output_dir {
            Some(d) => d.clone(),
            None => String::from_str("."),
        }
    }
}

impl Default for Config {
    /// No output directory and no LISTEN section.
    fn default() -> (r: Self)
        ensures
            r.output_dir is None,
            r.listen is None,
    {
        Config { output_dir: None, listen: None }
    }
}

/// A token written in the config wins over the environment.
pub proof fn config_token_preferred(t: String, env_token: Option<String>, r: TokenSource)
    requires
        token_choice(Some(t), env_token, r),
    ensures
        r == TokenSource::Plain(t) || r == TokenSource::OnePassword(t),
{
}

} // verus!
