//! The configuration record from which a pool is built.

use vstd::prelude::*;

verus! {

/// The verbosity with which the database client logs the statements it runs.
#[derive(Clone, Copy, Debug, PartialEq, Eq, Structural)]
pub enum LogLevel {
    Off,
    Error,
    Warn,
    Info,
    Debug,
    Trace,
}

/// Port on which PostgreSQL listens unless told otherwise.
pub const DEFAULT_PORT: u16 = 5432;

/// Pool size used unless told otherwise.
pub const DEFAULT_MAX_CONNECTIONS: u32 = 5;

/// The abstract contents of a configuration record.
pub struct ConfigView {
    pub database: Seq<char>,
    pub username: Seq<char>,
    pub password: Seq<char>,
    pub host: Seq<char>,
    pub port: u16,
    pub max_connections: u32,
    pub log_level: LogLevel,
}

impl ConfigView {
    /// The one invariant of a configuration: a pool holds at least one connection.
    pub open spec fn wf(self) -> bool {
        self.max_connections >= 1
    }
}

/// The pool size that a request for `max` connections yields: never below one.
pub open spec fn clamp_max_connections(max: u32) -> u32 {
    if max < 1 {
        1
    } else {
        max
    }
}

/// Everything needed to open a pool: database, credentials, address, size and
/// statement log level.
#[derive(Debug)]
pub struct SqlxPostgresConfig {
    database: String,
    username: String,
    password: String,
    host: String,
    port: u16,
    max_connections: u32,
    log_level: LogLevel,
}

impl SqlxPostgresConfig {
    /// Every configuration asks for at least one connection.
    #[verifier::type_invariant]
    spec fn inv(&self) -> bool {
        self@.wf()
    }
}

impl View for SqlxPostgresConfig {
    type V = ConfigView;

    closed spec fn view(&self) -> ConfigView {
        ConfigView {
            database: self.database@,
            username: self.username@,
            password: self.password@,
            host: self.host@,
            port: self.port,
            max_connections: self.max_connections,
            log_level: self.log_level,
        }
    }
}

impl Default for SqlxPostgresConfig {
    /// No database or credentials, "localhost" on the standard port, five
    /// connections, statements logged at debug level.
    fn default() -> (r: Self)
        ensures
            r@ == Self::default_view(),
    {
        SqlxPostgresConfig {
            database: String::new(),
            username: String::new(),
            password: String::new(),
            host: "localhost".to_owned(),
            port: DEFAULT_PORT,
            max_connections: DEFAULT_MAX_CONNECTIONS,
            log_level: LogLevel::Debug,
        }
    }
}

impl SqlxPostgresConfig {
    /// Sets the pool's connection limit; a limit below one becomes one.
    pub fn set_max_connections(self, max: u32) -> (r: Self)
        ensures
            r@ == (ConfigView { max_connections: clamp_max_connections(max), ..self@ }),
            max < 1 ==> r@.max_connections == 1,
            max >= 1 ==> r@.max_connections == max,
    {
        let mut c = self;
        c.max_connections = if max < 1 {
            1
        } else {
            max
        };
        c
    }

    /// Sets the name of the database to open.
    pub fn with_database(self, database: &str) -> (r: Self)
        ensures
            r@ == (ConfigView { database: database@, ..self@ }),
    {
        let mut c = self;
        proof {
            use_type_invariant(&c);
        }
        c.database = database.to_owned();
        c
    }

    /// Sets the user to log in as.
    pub fn with_username(self, username: &str) -> (r: Self)
        ensures
            r@ == (ConfigView { username: username@, ..self@ }),
    {
        let mut c = self;
        proof {
            use_type_invariant(&c);
        }
        c.username = username.to_owned();
        c
    }

    /// Sets the password to log in with.
    pub fn with_password(self, password: &str) -> (r: Self)
        ensures
            r@ == (ConfigView { password: password@, ..self@ }),
    {
        let mut c = self;
        proof {
            use_type_invariant(&c);
        }
        c.password = password.to_owned();
        c
    }

    /// Sets the address of the database server.
    pub fn with_host(self, host: &str) -> (r: Self)
        ensures
            r@ == (ConfigView { host: host@, ..self@ }),
    {
        let mut c = self;
        proof {
            use_type_invariant(&c);
        }
        c.host = host.to_owned();
        c
    }

    /// Sets the port of the database server.
    pub fn with_port(self, port: u16) -> (r: Self)
        ensures
            r@ == (ConfigView { port: port, ..self@ }),
    {
        let mut c = self;
        proof {
            use_type_invariant(&c);
        }
        c.port = port;
        c
    }

    /// Sets the level at which the client logs the statements it runs.
    pub fn with_loglevel(self, level: LogLevel) -> (r: Self)
        ensures
            r@ == (ConfigView { log_level: level, ..self@ }),
    {
        let mut c = self;
        proof {
            use_type_invariant(&c);
        }
        c.log_level = level;
        c
    }
}

} // verus!

verus! {

impl SqlxPostgresConfig {
    /// The contents of the default configuration.
    pub open spec fn default_view() -> ConfigView {
        ConfigView {
            database: Seq::empty(),
            username: Seq::empty(),
            password: Seq::empty(),
            host: "localhost"@,
            port: DEFAULT_PORT,
            max_connections: DEFAULT_MAX_CONNECTIONS,
            log_level: LogLevel::Debug,
        }
    }

    /// The name of the database to open.
    pub fn database(&self) -> (r: &str)
        ensures
            r@ == self@.database,
    {
        self.database.as_str()
    }

    /// The user to log in as.
    pub fn username(&self) -> (r: &str)
        ensures
            r@ == self@.username,
    {
        self.username.as_str()
    }

    /// The password to log in with.
    pub fn password(&self) -> (r: &str)
        ensures
            r@ == self@.password,
    {
        self.password.as_str()
    }

    /// The address of the database server.
    pub fn host(&self) -> (r: &str)
        ensures
            r@ == self@.host,
    {
        self.host.as_str()
    }

    /// The port of the database server.
    pub fn port(&self) -> (r: u16)
        ensures
            r == self@.port,
    {
        self.port
    }

    /// The most connections the pool may hold.
    pub fn max_connections(&self) -> (r: u32)
        ensures
            r == self@.max_connections,
            r >= 1,
    {
        proof {
            use_type_invariant(self);
        }
        self.max_connections
    }

    /// The level at which the client logs the statements it runs.
    pub fn log_level(&self) -> (r: LogLevel)
        ensures
            r == self@.log_level,
    {
        self.log_level
    }
}

} // verus!
