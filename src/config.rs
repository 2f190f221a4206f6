//! The simulator's configuration, its defaults and its validation.

use vstd::prelude::*;

verus! {

/// Default path of the local stream socket.
pub const SOCKET_PATH: &'static str = "market_ticks.sock";

/// Default generator period, in milliseconds.
pub const TICK_INTERVAL_MS: u64 = 8;

/// Default period between correlation refreshes, in seconds.
pub const CORRELATION_REFRESH_SECS: u64 = 30;

/// Default bind address of the websocket gateway.
pub const GATEWAY_BIND_ADDR: &'static str = "127.0.0.1:9001";

/// Default batch cadence of the gateway, in milliseconds.
pub const GATEWAY_THROTTLE_MS: u64 = 1_000;

/// Default capacity, in batches, of the queue between aggregator and dispatcher.
pub const QUEUE_DEPTH: usize = 64;

/// Capacity of the broadcast of single ticks.
pub const TICK_CHANNEL_CAPACITY: usize = 4096;

/// The largest queue depth whose queue and batch broadcast can be made.
pub const MAX_QUEUE_DEPTH: usize = usize::MAX / 8;

/// What the service runs with. Periods are plain integers: the generator's
/// in microseconds, the others in milliseconds.
#[derive(Debug, Clone)]
pub struct SimulatorConfig {
    pub socket_path: String,
    pub tick_interval_us: u64,
    pub correlation_refresh_ms: u64,
    pub gateway_addr: String,
    pub gateway_throttle_ms: u64,
    pub queue_depth: usize,
    pub max_ticks: Option<usize>,
    pub enable_socket: bool,
}

impl Default for SimulatorConfig {
    fn default() -> (r: SimulatorConfig)
        ensures
            r.socket_path@ == SOCKET_PATH@,
            r.tick_interval_us == TICK_INTERVAL_MS * 1000,
            r.correlation_refresh_ms == CORRELATION_REFRESH_SECS * 1000,
            r.gateway_addr@ == GATEWAY_BIND_ADDR@,
            r.gateway_throttle_ms == GATEWAY_THROTTLE_MS,
            r.queue_depth == QUEUE_DEPTH,
            r.max_ticks is None,
            r.enable_socket,
    {
        SimulatorConfig {
            socket_path: String::from_str(SOCKET_PATH),
            tick_interval_us: TICK_INTERVAL_MS * 1000,
            correlation_refresh_ms: CORRELATION_REFRESH_SECS * 1000,
            gateway_addr: String::from_str(GATEWAY_BIND_ADDR),
            gateway_throttle_ms: GATEWAY_THROTTLE_MS,
            queue_depth: QUEUE_DEPTH,
            max_ticks: None,
            enable_socket: true,
        }
    }
}

/// Why a configuration cannot run.
#[derive(Debug, Clone, Copy, PartialEq, Eq, Structural)]
pub enum ConfigError {
    /// The stream socket is enabled with an empty path.
    InvalidSocketPath,
    /// The gateway address does not parse as a socket address.
    InvalidBindAddress,
    /// The generator period is zero.
    ZeroTickInterval,
    /// The gateway throttle is zero.
    ZeroThrottle,
    /// The queue depth is zero or too large for its channels.
    InvalidQueueDepth,
}

impl SimulatorConfig {
    /// The first problem of the configuration, checked in field order, or
    /// none. The gateway address is checked where it is parsed.
    pub open spec fn spec_problem(&self) -> Option<ConfigError> {
        if self.enable_socket && self.socket_path@.len() == 0 {
            Some(ConfigError::InvalidSocketPath)
        } else if self.tick_interval_us == 0 {
            Some(ConfigError::ZeroTickInterval)
        } else if self.gateway_throttle_ms == 0 {
            Some(ConfigError::ZeroThrottle)
        } else if self.queue_depth == 0 || self.queue_depth > MAX_QUEUE_DEPTH {
            Some(ConfigError::InvalidQueueDepth)
        } else {
            None
        }
    }

    pub fn validate(&self) -> (r: Result<(), ConfigError>)
        ensures
            r is Ok <==> self.spec_problem() is None,
            r matches Err(e) ==> self.spec_problem() == Some(e),
    {
        if self.enable_socket && self.socket_path.as_str().unicode_len() == 0 {
            Err(ConfigError::InvalidSocketPath)
        } else if self.tick_interval_us == 0 {
            Err(ConfigError::ZeroTickInterval)
        } else if self.gateway_throttle_ms == 0 {
            Err(ConfigError::ZeroThrottle)
        } else if self.queue_depth == 0 || self.queue_depth > MAX_QUEUE_DEPTH {
            Err(ConfigError::InvalidQueueDepth)
        } else {
            Ok(())
        }
    }

    /// Capacity of the broadcast that carries batches to websocket clients:
    /// twice the queue depth.
    pub fn batch_channel_capacity(&self) -> (r: usize)
        requires
            self.spec_problem() is None,
        ensures
            r == 2 * self.queue_depth,
    {
        self.queue_depth * 2
    }
}

} // verus!
