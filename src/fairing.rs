//! The startup hook's input: a configuration, and optionally a pool that was
//! built elsewhere and is adopted as it is.

use crate::config::{ConfigView, LogLevel, SqlxPostgresConfig};
use vstd::prelude::*;

verus! {

/// The abstract contents of a fairing.
pub struct FairingView<P> {
    pub pool: Option<P>,
    pub config: ConfigView,
}

/// What the startup hook works from: a pool to adopt, or else the
/// configuration from which to build one.
pub struct SqlxPostgresFairing<P> {
    poll: Option<P>,
    config: SqlxPostgresConfig,
}

impl<P> View for SqlxPostgresFairing<P> {
    type V = FairingView<P>;

    closed spec fn view(&self) -> FairingView<P> {
        FairingView { pool: self.poll, config: self.config@ }
    }
}

impl<P> Default for SqlxPostgresFairing<P> {
    /// The default configuration and no pool to adopt.
    fn default() -> (r: Self)
        ensures
            r@.pool is None,
            r@.config == SqlxPostgresConfig::default_view(),
    {
        SqlxPostgresFairing { poll: None, config: SqlxPostgresConfig::default() }
    }
}

impl<P> SqlxPostgresFairing<P> {
    /// A fairing that adopts `poll` when it is given, and otherwise builds a
    /// pool from `config`.
    pub fn new(config: SqlxPostgresConfig, poll: Option<P>) -> (r: Self)
        ensures
            r@ == (FairingView { pool: poll, config: config@ }),
    {
        SqlxPostgresFairing { poll, config }
    }

    /// The configuration the fairing was made with.
    pub fn config(&self) -> (r: &SqlxPostgresConfig)
        ensures
            r@ == self@.config,
    {
        &self.config
    }
}

/// The options from which the database client opens a pool: every field of the
/// configuration, as plain values.
pub struct ConnectSettings {
    pub database: String,
    pub username: String,
    pub password: String,
    pub host: String,
    pub port: u16,
    pub max_connections: u32,
    pub log_level: LogLevel,
}

impl View for ConnectSettings {
    type V = ConfigView;

    open spec fn view(&self) -> ConfigView {
        ConfigView {
            database: self.database@,
            username: self.username@,
            password: self.password@,
            host: self.host@,
            port: self.port,
            max_connections: self.max_connections,
            log_level: self.log_level,
        }
    }
}

impl ConnectSettings {
    /// The connect options that `config` describes.
    pub fn from_config(config: &SqlxPostgresConfig) -> (r: Self)
        ensures
            r@ == config@,
            r@.wf(),
    {
        ConnectSettings {
            database: config.database().to_owned(),
            username: config.username().to_owned(),
            password: config.password().to_owned(),
            host: config.host().to_owned(),
            port: config.port(),
            max_connections: config.max_connections(),
            log_level: config.log_level(),
        }
    }
}

/// What the caller of the startup hook must do next.
pub enum IgniteAction {
    /// Open a pool with these options and report the outcome.
    Connect(ConnectSettings),
    /// Nothing: a pool was adopted, or startup had already run.
    Nothing,
}

impl IgniteAction {
    /// The options of the connection attempt asked for, if one is.
    pub open spec fn connect_view(self) -> Option<ConfigView> {
        match self {
            IgniteAction::Connect(s) => Some(s@),
            IgniteAction::Nothing => None,
        }
    }
}

} // verus!

verus! {

impl<P> SqlxPostgresFairing<P> {
    /// The pool to adopt, if one was given.
    pub fn injected_pool(&self) -> (r: &Option<P>)
        ensures
            *r == self@.pool,
    {
        &self.poll
    }
}

} // verus!
