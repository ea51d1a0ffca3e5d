//! The engine's configuration, kept in `multimeter-engine.toml` in the
//! configuration directory.

use vstd::prelude::*;

verus! {

/// The TCP server.
#[derive(Debug, Clone, Copy, PartialEq, Eq, Structural)]
pub struct TcpConfig {
    pub enable: bool,
    pub port: u16,
}

impl Default for TcpConfig {
    /// Off, on port 5000.
    fn default() -> (c: Self)
        ensures
            c == (TcpConfig { enable: false, port: 5000 }),
    {
        TcpConfig { enable: false, port: 5000 }
    }
}

/// The HTTP server.
#[derive(Debug, Clone, Copy, PartialEq, Eq, Structural)]
pub struct HttpConfig {
    pub enable: bool,
    pub port: u16,
}

impl Default for HttpConfig {
    /// Off, on port 5100.
    fn default() -> (c: Self)
        ensures
            c == (HttpConfig { enable: false, port: 5100 }),
    {
        HttpConfig { enable: false, port: 5100 }
    }
}

/// The terminal interface.
#[derive(Debug, Clone, Copy, PartialEq, Eq, Structural)]
pub struct TuiConfig {
    pub enable: bool,
}

impl Default for TuiConfig {
    /// On.
    fn default() -> (c: Self)
        ensures
            c == (TuiConfig { enable: true }),
    {
        TuiConfig { enable: true }
    }
}

/// What a system migration carries over: the packages the user installed,
/// the configuration, and the listed files of the home directory.
#[derive(Debug, Clone, PartialEq)]
pub struct SystemMigrationConfig {
    pub user_package: bool,
    pub configuration: bool,
    pub home_file: Vec<String>,
}

impl Default for SystemMigrationConfig {
    /// Packages and configuration, and no home files.
    fn default() -> (c: Self)
        ensures
            c.user_package,
            c.configuration,
            c.home_file@.len() == 0,
    {
        SystemMigrationConfig { user_package: true, configuration: true, home_file: Vec::new() }
    }
}

/// The whole configuration.
#[derive(Debug, Clone, PartialEq)]
pub struct Config {
    pub tcp: TcpConfig,
    pub http: HttpConfig,
    pub tui: TuiConfig,
    pub system_migration: SystemMigrationConfig,
}

impl Default for Config {
    /// Every part at its default.
    fn default() -> (c: Self)
        ensures
            c.tcp == (TcpConfig { enable: false, port: 5000 }),
            c.http == (HttpConfig { enable: false, port: 5100 }),
            c.tui == (TuiConfig { enable: true }),
            c.system_migration.user_package,
            c.system_migration.configuration,
            c.system_migration.home_file@.len() == 0,
    {
        Config {
            tcp: TcpConfig::default(),
            http: HttpConfig::default(),
            tui: TuiConfig::default(),
            system_migration: SystemMigrationConfig::default(),
        }
    }
}

/// The name of the configuration file.
pub open spec fn config_file_name() -> Seq<char> {
    "multimeter-engine.toml"@
}

/// A path joined onto a directory by std's `Path::join`, with the separator
/// of the platform the engine was built for.
pub uninterp spec fn joined_path(dir: Seq<char>, name: Seq<char>) -> Seq<char>;

/// Joins `name` onto `dir` with `std::path::Path::join`. The contract claims
/// only that the result depends on the two texts alone (the separator is
/// fixed for a build); what it is, is left to the name `joined_path`.
#[verifier::external_body]
fn path_join(dir: &str, name: &str) -> (p: String)
    ensures
        p@ == joined_path(dir@, name@),
{
    std::path::Path::new(dir).join(name).to_string_lossy().into_owned()
}

impl Config {
    /// The path of the configuration file inside the configuration
    /// directory: the file name joined onto the directory.
    pub fn config_path(config_dir: &str) -> (p: String)
        ensures
            p@ == joined_path(config_dir@, config_file_name()),
    {
        path_join(config_dir, "multimeter-engine.toml")
    }
}

/// What the engine starts from a configuration: the TCP server on its
/// port when enabled; the HTTP server and the terminal interface are only
/// noted, since neither exists yet.
#[derive(Debug, Clone, Copy, PartialEq, Eq, Structural)]
pub struct StartupPlan {
    pub tcp_port: Option<u16>,
    pub http_requested: bool,
    pub tui_requested: bool,
}

/// Decides what the engine starts.
pub fn startup_plan(config: &Config) -> (p: StartupPlan)
    ensures
        p.tcp_port == if config.tcp.enable { Some(config.tcp.port) } else { None::<u16> },
        p.http_requested == config.http.enable,
        p.tui_requested == config.tui.enable,
{
    StartupPlan {
        tcp_port: if config.tcp.enable { Some(config.tcp.port) } else { None },
        http_requested: config.http.enable,
        tui_requested: config.tui.enable,
    }
}

} // verus!
