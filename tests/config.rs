use n_body::config::{Config, ConfigSource};

#[test]
fn default_config_values() {
    let c = Config::default();
    assert_eq!(c.server.port, 4000);
    assert_eq!(c.server.host, "0.0.0.0");
    assert!(!c.server.debug);
    assert_eq!(c.simulation.default_particles, 1000);
    assert_eq!(c.simulation.update_rate_ms, 33);
    assert_eq!(c.simulation.stats_frequency, 30);
    assert_eq!(c.websocket.heartbeat_interval_sec, 5);
    assert_eq!(c.websocket.client_timeout_sec, 10);
}

#[test]
fn resolve_parsed_file_with_debug_override() {
    let mut file = Config::default();
    file.server.port = 8080;
    file.simulation.default_particles = 42;
    let c = Config::resolve(ConfigSource::Parsed(file.clone()), true);
    assert_eq!(c.server.port, 8080);
    assert_eq!(c.simulation.default_particles, 42);
    assert!(c.server.debug);
    let c = Config::resolve(ConfigSource::Parsed(file), false);
    assert!(!c.server.debug);
}

#[test]
fn resolve_missing_file_uses_defaults() {
    let c = Config::resolve(ConfigSource::Missing, true);
    assert_eq!(c.server.port, 4000);
    assert!(c.server.debug);
}

#[test]
fn resolve_invalid_file_ignores_debug_request() {
    let c = Config::resolve(ConfigSource::Invalid, true);
    assert_eq!(c.server.port, 4000);
    assert!(!c.server.debug);
}
