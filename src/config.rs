use vstd::prelude::*;

verus! {

/// Where the server listens.
#[derive(Clone, Debug)]
pub struct ServerConfig {
    pub port: u16,
    pub host: String,
    pub debug: bool,
}

/// How the server drives the simulation.
#[derive(Clone, Copy, Debug, PartialEq, Eq, Structural)]
pub struct SimulationConfig {
    /// Particles generated at start-up.
    pub default_particles: usize,
    /// Interval of the physics tick, in milliseconds.
    pub update_rate_ms: u64,
    /// Frames between two statistics messages.
    pub stats_frequency: u64,
}

/// Liveness checking of one connection.
#[derive(Clone, Copy, Debug, PartialEq, Eq, Structural)]
pub struct WebSocketConfig {
    pub heartbeat_interval_sec: u64,
    pub client_timeout_sec: u64,
}

/// The whole server configuration.
#[derive(Clone, Debug)]
pub struct Config {
    pub server: ServerConfig,
    pub simulation: SimulationConfig,
    pub websocket: WebSocketConfig,
}

pub const DEFAULT_PORT: u16 = 4000;

pub const DEFAULT_PARTICLES: usize = 1000;

pub const DEFAULT_UPDATE_RATE_MS: u64 = 33;

pub const DEFAULT_STATS_FREQUENCY: u64 = 30;

pub const DEFAULT_HEARTBEAT_INTERVAL_SEC: u64 = 5;

pub const DEFAULT_CLIENT_TIMEOUT_SEC: u64 = 10;

impl Default for Config {
    /// Listens on all interfaces at port 4000, starts with 1000 particles
    /// ticking every 33 ms, pings every 5 s and drops a client after 10 s.
    fn default() -> (r: Config)
        ensures
            r.server.port == DEFAULT_PORT,
            r.server.host@ == "0.0.0.0"@,
            !r.server.debug,
            r.simulation == (SimulationConfig {
                default_particles: DEFAULT_PARTICLES,
                update_rate_ms: DEFAULT_UPDATE_RATE_MS,
                stats_frequency: DEFAULT_STATS_FREQUENCY,
            }),
            r.websocket == (WebSocketConfig {
                heartbeat_interval_sec: DEFAULT_HEARTBEAT_INTERVAL_SEC,
                client_timeout_sec: DEFAULT_CLIENT_TIMEOUT_SEC,
            }),
    {
        Config {
            server: ServerConfig { port: DEFAULT_PORT, host: "0.0.0.0".to_owned(), debug: false },
            simulation: SimulationConfig {
                default_particles: DEFAULT_PARTICLES,
                update_rate_ms: DEFAULT_UPDATE_RATE_MS,
                stats_frequency: DEFAULT_STATS_FREQUENCY,
            },
            websocket: WebSocketConfig {
                heartbeat_interval_sec: DEFAULT_HEARTBEAT_INTERVAL_SEC,
                client_timeout_sec: DEFAULT_CLIENT_TIMEOUT_SEC,
            },
        }
    }
}

/// What reading the configuration file gave.
#[derive(Clone, Debug)]
pub enum ConfigSource {
    /// No file: the defaults are used and written out.
    Missing,
    /// A file that could not be read or parsed: the defaults are used.
    Invalid,
    /// A file that parsed.
    Parsed(Config),
}

impl Config {
    /// The configuration to run with: the parsed file, or the defaults.
    /// When the environment asks for debug mode, it is switched on, except
    /// where a file was there and could not be used.
    pub fn resolve(source: ConfigSource, debug_requested: bool) -> (r: Config)
        ensures
            match source {
                ConfigSource::Parsed(c) => {
                    &&& r.server.port == c.server.port
                    &&& r.server.host@ == c.server.host@
                    &&& r.server.debug == (c.server.debug || debug_requested)
                    &&& r.simulation == c.simulation
                    &&& r.websocket == c.websocket
                },
                _ => {
                    &&& r.server.port == DEFAULT_PORT
                    &&& r.server.host@ == "0.0.0.0"@
                    &&& r.server.debug == (source is Missing && debug_requested)
                    &&& r.simulation.default_particles == DEFAULT_PARTICLES
                    &&& r.simulation.update_rate_ms == DEFAULT_UPDATE_RATE_MS
                    &&& r.simulation.stats_frequency == DEFAULT_STATS_FREQUENCY
                    &&& r.websocket.heartbeat_interval_sec == DEFAULT_HEARTBEAT_INTERVAL_SEC
                    &&& r.websocket.client_timeout_sec == DEFAULT_CLIENT_TIMEOUT_SEC
                },
            },
    {
        match source {
            ConfigSource::Parsed(c) => {
                let mut c = c;
                if debug_requested {
                    c.server.debug = true;
                }
                c
            },
            ConfigSource::Invalid => Config::default(),
            ConfigSource::Missing => {
                let mut c = Config::default();
                if debug_requested {
                    c.server.debug = true;
                }
                c
            },
        }
    }
}

} // verus!
