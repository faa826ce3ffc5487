//! Settings of the programs around the bridge.

use vstd::prelude::*;
use crate::bridge::ActionRoute;
use crate::table::Table;

verus! {

/// What the system logger forwards.
#[derive(Debug, Clone)]
pub struct LoggerConfig {
    pub tags: Vec<String>,
    pub min_level: u8,
    pub stream_size: Option<usize>,
}

/// The certificates and the key of the device.
#[derive(Debug, Clone)]
pub struct Authentication {
    pub ca_certificate: String,
    pub device_certificate: String,
    pub device_private_key: String,
}

/// Which processes are watched, and how often.
#[derive(Debug, Clone, Default)]
pub struct Stats {
    pub enabled: bool,
    pub process_names: Vec<String>,
    pub update_period: u64,
    pub stream_size: Option<usize>,
}

/// Where the simulator finds its paths, and the actions it takes.
#[derive(Debug, Clone, Default)]
pub struct SimulatorConfig {
    pub gps_paths: String,
    pub actions: Vec<ActionRoute>,
}

/// Where downloads go, and the actions that start one.
#[derive(Debug, Clone, Default)]
pub struct DownloaderConfig {
    pub path: String,
    pub actions: Vec<ActionRoute>,
}

/// Where updates are unpacked, the actions that start one, and the port
/// on which the installer reaches the bridge.
#[derive(Debug, Clone, Default)]
pub struct InstallerConfig {
    pub path: String,
    pub actions: Vec<ActionRoute>,
    pub uplink_port: u16,
}

/// Whether and where the serializer reports its counters.
#[derive(Debug, Clone, Default)]
pub struct SerializerMetricsConfig {
    pub enabled: bool,
    pub topic: String,
    pub timeout: u64,
}

/// Whether and where the transport reports its counters.
#[derive(Debug, Clone, Default)]
pub struct MqttMetricsConfig {
    pub enabled: bool,
    pub topic: String,
}

/// The port of an application and the actions it takes.
#[derive(Debug, Clone, Default)]
pub struct AppConfig {
    pub port: u16,
    pub actions: Vec<ActionRoute>,
}

/// Whether tracing is served, and on which port.
#[derive(Debug, Clone, Default)]
pub struct TracingConfig {
    pub enabled: bool,
    pub port: u16,
}

/// Limits of the connection to the broker.
#[derive(Debug, Clone, Default)]
pub struct MqttConfig {
    pub max_packet_size: usize,
    pub max_inflight: u16,
    pub keep_alive: u64,
}

/// Everything the device is set up with.
#[derive(Debug, Clone, Default)]
pub struct Config {
    pub bridge: crate::bridge::Config,
    pub broker: String,
    pub port: u16,
    pub apis: TracingConfig,
    pub authentication: Option<Authentication>,
    /// The applications that connect over TCP, by name.
    pub tcpapps: Table<AppConfig>,
    pub mqtt: MqttConfig,
    pub processes: Vec<ActionRoute>,
    pub actions_subscription: String,
    pub serializer_metrics: SerializerMetricsConfig,
    pub mqtt_metrics: MqttMetricsConfig,
    pub downloader: DownloaderConfig,
    pub system_stats: Stats,
    pub simulator: Option<SimulatorConfig>,
    pub ota_installer: InstallerConfig,
    pub logging: Option<LoggerConfig>,
}

} // verus!
