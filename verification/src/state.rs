//! Configuration that the gateway's rules read, and the claims of a token.

use vstd::prelude::*;

verus! {

/// Settings of a running server.
#[derive(Debug, Clone, PartialEq, Eq)]
pub struct Config {
    key: Option<String>,
    dev_mode: bool,
}

impl Config {
    /// The secret that tokens are signed with, if one is configured.
    pub closed spec fn key(&self) -> Option<String> {
        self.key
    }

    /// Whether authentication is switched off for development.
    pub closed spec fn dev_mode(&self) -> bool {
        self.dev_mode
    }

    /// Makes a configuration of the given secret and mode.
    pub fn new(key: Option<String>, dev_mode: bool) -> (c: Config)
        ensures
            c.key() == key,
            c.dev_mode() == dev_mode,
    {
        Config { key, dev_mode }
    }

    /// Returns the secret that tokens are signed with, if one is configured.
    pub fn get_key(&self) -> (k: &Option<String>)
        ensures
            *k == self.key(),
    {
        &self.key
    }

    /// Returns whether authentication is switched off for development.
    pub fn get_dev_mode(&self) -> (d: &bool)
        ensures
            *d == self.dev_mode(),
    {
        &self.dev_mode
    }
}

/// What request handlers share.
#[derive(Debug, Clone, PartialEq, Eq)]
pub struct AppState {
    config: Config,
}

impl AppState {
    /// The configuration that the state holds.
    pub closed spec fn config(&self) -> Config {
        self.config
    }

    /// Makes a state around `config`.
    pub fn new(config: Config) -> (s: AppState)
        ensures
            s.config() == config,
    {
        AppState { config }
    }

    /// Returns the configuration.
    pub fn get_config(&self) -> (c: &Config)
        ensures
            *c == self.config(),
    {
        &self.config
    }
}

/// What a token says of its bearer.
#[derive(Debug, Clone, PartialEq, Eq)]
pub struct Claims {
    /// Expiry, in seconds since the epoch.
    pub exp: u64,
    /// Time of issue, in seconds since the epoch.
    pub iat: u64,
    /// The namespace that the token gives access to; `*` stands for all.
    pub namespace: String,
}

/// Mathematical value of [`Claims`].
pub struct ClaimsView {
    pub exp: u64,
    pub iat: u64,
    pub namespace: Seq<char>,
}

impl View for Claims {
    type V = ClaimsView;

    open spec fn view(&self) -> ClaimsView {
        ClaimsView { exp: self.exp, iat: self.iat, namespace: self.namespace@ }
    }
}

} // verus!
