//! The recorder's configuration and its defaults.

use vstd::prelude::*;
use vstd::string::*;
use crate::time::TimeSpan;

verus! {

/// Where the configuration is read from when no path is given.
pub const DEFAULT_CONFIG_PATH: &'static str = "config.toml";

/// The application name under which the recorder connects to its databases
/// when none is configured.
pub const DEFAULT_APPLICATION_NAME: &'static str = "recent-messages2";

/// The address on which the web server listens when none is configured.
pub const DEFAULT_LISTEN_ADDRESS: &'static str = "127.0.0.1:2790";

/// Command line arguments.
#[derive(Debug, Clone)]
pub struct Args {
    /// File path to read the configuration from.
    pub config_path: String,
}

/// Configuration file options.
#[derive(Debug, Clone)]
pub struct Config {
    pub app: AppConfig,
    pub irc: IrcConfig,
    pub web: WebConfig,
    /// The main partition, which holds channels and authorizations.
    pub main_db: DatabaseConfig,
    /// The shard partitions, which hold messages.
    pub shard_db: Vec<DatabaseConfig>,
}

#[derive(Debug, Clone, Copy)]
pub struct AppConfig {
    pub vacuum_channels_every: TimeSpan,
    pub channels_expire_after: TimeSpan,
    pub vacuum_messages_every: TimeSpan,
    pub messages_expire_after: TimeSpan,
    pub max_buffer_size: usize,
}

impl Default for AppConfig {
    /// Channels and messages are vacuumed every 30 minutes and expire after
    /// 24 hours; a channel keeps at most 500 messages.
    fn default() -> (config: Self)
        ensures
            config.vacuum_channels_every.millis == 30 * 60 * 1000,
            config.channels_expire_after.millis == 24 * 60 * 60 * 1000,
            config.vacuum_messages_every.millis == 30 * 60 * 1000,
            config.messages_expire_after.millis == 24 * 60 * 60 * 1000,
            config.max_buffer_size == 500,
    {
        AppConfig {
            vacuum_channels_every: TimeSpan::from_secs(30 * 60),
            channels_expire_after: TimeSpan::from_secs(24 * 60 * 60),
            vacuum_messages_every: TimeSpan::from_secs(30 * 60),
            messages_expire_after: TimeSpan::from_secs(24 * 60 * 60),
            max_buffer_size: 500,
        }
    }
}

#[derive(Debug, Clone, Copy)]
pub struct IrcConfig {
    pub new_connection_every: TimeSpan,
    pub forwarder_run_every: TimeSpan,
    pub forwarder_max_chunk_size: usize,
}

impl Default for IrcConfig {
    /// A new connection every 550 ms, a forwarder run every 100 ms, chunks
    /// of at most 256 messages.
    fn default() -> (config: Self)
        ensures
            config.new_connection_every.millis == 550,
            config.forwarder_run_every.millis == 100,
            config.forwarder_max_chunk_size == 256,
    {
        IrcConfig {
            new_connection_every: TimeSpan::from_millis(550),
            forwarder_run_every: TimeSpan::from_millis(100),
            forwarder_max_chunk_size: 256,
        }
    }
}

#[derive(Debug, Clone)]
pub struct TwitchApiClientCredentials {
    pub client_id: String,
    pub client_secret: String,
    pub redirect_uri: String,
}

#[derive(Debug, Clone)]
pub struct WebConfig {
    pub listen_address: ListenAddr,
    pub twitch_api_credentials: TwitchApiClientCredentials,
    pub sessions_expire_after: TimeSpan,
    pub recheck_twitch_auth_after: TimeSpan,
    pub request_timeout: TimeSpan,
}

/// Where the web server listens: a TCP socket address or the path of a Unix
/// socket, each as text.
#[derive(Debug, Clone)]
#[allow(inconsistent_fields)]
pub enum ListenAddr {
    Tcp { address: String },
    Unix { path: String },
}

/// The listen address when none is configured: TCP on
/// [`DEFAULT_LISTEN_ADDRESS`].
pub fn default_listen_addr() -> (addr: ListenAddr)
    ensures
        addr matches ListenAddr::Tcp { address } && address@ == DEFAULT_LISTEN_ADDRESS@,
{
    ListenAddr::Tcp { address: DEFAULT_LISTEN_ADDRESS.to_owned() }
}

/// The default life of a session.
pub fn seven_days() -> (span: TimeSpan)
    ensures
        span.millis == 7 * 24 * 60 * 60 * 1000,
{
    TimeSpan::from_secs(7 * 24 * 60 * 60)
}

/// The default time after which an upstream authorization is checked again.
pub fn one_hour() -> (span: TimeSpan)
    ensures
        span.millis == 60 * 60 * 1000,
{
    TimeSpan::from_secs(60 * 60)
}

/// The default time that a request may take.
pub fn ten_seconds() -> (span: TimeSpan)
    ensures
        span.millis == 10 * 1000,
{
    TimeSpan::from_secs(10)
}

/// The port of a database host when none is configured.
pub fn default_pg_port() -> (port: u16)
    ensures
        port == 5432,
{
    5432
}

#[derive(Debug, Clone)]
pub struct DatabaseConfig {
    /// A name for the partition, shown in logs and metrics.
    pub name: Option<String>,
    pub user: Option<String>,
    pub password: Option<String>,
    pub dbname: Option<String>,
    pub options: Option<String>,
    pub application_name: Option<String>,
    pub ssl_mode: PgSslMode,
    pub host: Vec<PgHost>,
    pub connect_timeout: Option<TimeSpan>,
    pub keepalives: bool,
    pub keepalives_idle: TimeSpan,
    pub target_session_attrs: PgTargetSessionAttrs,
    pub channel_binding: PgChannelBinding,
    pub pool: PoolConfig,
}

#[derive(Debug, Clone, Copy, PartialEq, Eq, Structural)]
pub enum PgSslMode {
    Disable,
    Prefer,
    Require,
}

/// A database host: a Unix socket directory or a host name, each with a
/// port.
#[derive(Debug, Clone)]
#[allow(inconsistent_fields)]
pub enum PgHost {
    Unix { path: String, port: u16 },
    Tcp { hostname: String, port: u16 },
}

#[derive(Debug, Clone, Copy, PartialEq, Eq, Structural)]
pub enum PgTargetSessionAttrs {
    Any,
    ReadWrite,
}

#[derive(Debug, Clone, Copy, PartialEq, Eq, Structural)]
pub enum PgChannelBinding {
    Disable,
    Prefer,
    Require,
}

#[derive(Debug, Clone, Copy)]
pub struct PoolConfig {
    pub max_size: usize,
    pub create_timeout: TimeSpan,
    pub wait_timeout: TimeSpan,
    pub recycle_timeout: TimeSpan,
}

/// The number of logical processors.
///
/// Trusted: calls `num_cpus::get`. Nothing is stated of the result: it
/// depends on the machine.
#[verifier::external_body]
fn available_cpus() -> usize {
    num_cpus::get()
}

/// The pool size for a machine with `cpus` processors: four connections for
/// each, held at the largest size that can be written.
pub open spec fn pool_size_for(cpus: usize) -> int {
    if cpus * 4 <= usize::MAX {
        cpus * 4
    } else {
        usize::MAX as int
    }
}

impl PoolConfig {
    /// The default pool for a machine with `cpus` processors: four
    /// connections for each, and five seconds for each timeout.
    pub fn for_cpus(cpus: usize) -> (config: Self)
        ensures
            config.max_size == pool_size_for(cpus),
            config.create_timeout.millis == 5000,
            config.wait_timeout.millis == 5000,
            config.recycle_timeout.millis == 5000,
    {
        let max_size = if cpus <= usize::MAX / 4 {
            cpus * 4
        } else {
            usize::MAX
        };
        PoolConfig {
            max_size,
            create_timeout: TimeSpan::from_secs(5),
            wait_timeout: TimeSpan::from_secs(5),
            recycle_timeout: TimeSpan::from_secs(5),
        }
    }
}

impl Default for PoolConfig {
    /// The default pool for this machine, see [`PoolConfig::for_cpus`].
    fn default() -> (config: Self)
        ensures
            exists|cpus: usize| config.max_size == #[trigger] pool_size_for(cpus),
            config.create_timeout.millis == 5000,
            config.wait_timeout.millis == 5000,
            config.recycle_timeout.millis == 5000,
    {
        PoolConfig::for_cpus(available_cpus())
    }
}

/// The address part of a database host.
#[derive(Debug, Clone)]
#[allow(inconsistent_fields)]
pub enum HostAddress {
    Unix { path: String },
    Tcp { hostname: String },
}

/// The port that goes with the host at `index`: a single port serves every
/// host, otherwise each host has the port at its own place.
pub open spec fn port_for_host(ports: Seq<u16>, index: int) -> u16 {
    if ports.len() == 1 {
        ports[0]
    } else {
        ports[index]
    }
}

/// How many hosts get a port: all of them where there is a single port,
/// otherwise as many as there are ports for.
pub open spec fn paired_host_count(hosts: nat, ports: nat) -> nat {
    if ports == 1 || hosts <= ports {
        hosts
    } else {
        ports
    }
}

/// The host `address` with the port `port`.
pub open spec fn host_with_port(address: HostAddress, port: u16, host: PgHost) -> bool {
    match address {
        HostAddress::Unix { path } => host matches PgHost::Unix { path: p, port: q } && p@
            == path@ && q == port,
        HostAddress::Tcp { hostname } => host matches PgHost::Tcp { hostname: h, port: q }
            && h@ == hostname@ && q == port,
    }
}

/// Gives each host its port. A single port serves every host; otherwise the
/// hosts and ports are paired in order, and what is left over of the longer
/// list is dropped.
pub fn pair_hosts_with_ports(hosts: &Vec<HostAddress>, ports: &Vec<u16>) -> (paired: Vec<PgHost>)
    ensures
        paired.len() == paired_host_count(hosts.len() as nat, ports.len() as nat),
        forall|i: int|
            0 <= i < paired.len() ==> host_with_port(
                hosts[i],
                port_for_host(ports@, i),
                #[trigger] paired[i],
            ),
{
    let mut paired: Vec<PgHost> = Vec::new();
    let mut i: usize = 0;
    while i < hosts.len() && (ports.len() == 1 || i < ports.len())
        invariant
            i <= hosts.len(),
            ports.len() == 1 || i <= ports.len(),
            paired.len() == i,
            forall|j: int|
                0 <= j < i ==> host_with_port(
                    hosts[j],
                    port_for_host(ports@, j),
                    #[trigger] paired[j],
                ),
        decreases hosts.len() - i,
    {
        let port = if ports.len() == 1 {
            ports[0]
        } else {
            ports[i]
        };
        let host = match &hosts[i] {
            HostAddress::Unix { path } => PgHost::Unix { path: path.clone(), port },
            HostAddress::Tcp { hostname } => PgHost::Tcp { hostname: hostname.clone(), port },
        };
        paired.push(host);
        i = i + 1;
    }
    paired
}

impl DatabaseConfig {
    /// The application name under which to connect: the configured one, or
    /// [`DEFAULT_APPLICATION_NAME`].
    pub fn effective_application_name(&self) -> (name: String)
        ensures
            name@ == match self.application_name {
                Some(configured) => configured@,
                None => DEFAULT_APPLICATION_NAME@,
            },
    {
        match &self.application_name {
            Some(configured) => configured.clone(),
            None => DEFAULT_APPLICATION_NAME.to_owned(),
        }
    }
}

} // verus!
