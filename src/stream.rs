//! The dashboard's websocket client: its connection status and the
//! reconnection policy with doubling back-off.

use vstd::prelude::*;

verus! {

/// Errors of the websocket connection.
#[derive(Debug, Clone)]
pub enum TickStreamError {
    /// The socket could not be opened.
    Open(String),
    /// A message did not decode as a batch.
    Deserialize(String),
}

impl TickStreamError {
    /// The text shown for the error.
    pub fn message(&self) -> (r: String)
        ensures
            self matches TickStreamError::Open(e) ==> r@ == "websocket open error: "@ + e@,
            self matches TickStreamError::Deserialize(e) ==> r@ == e@,
    {
        match self {
            TickStreamError::Open(e) => {
                let mut text = String::from_str("websocket open error: ");
                text.append(e.as_str());
                text
            },
            TickStreamError::Deserialize(e) => e.clone(),
        }
    }
}

/// The state of the connection, as the dashboard shows it.
#[derive(Debug, Clone, Copy, PartialEq, Eq, Structural)]
pub enum StreamStatus {
    Idle,
    Connecting,
    Connected,
    Reconnecting { attempt: u32 },
    Failed,
}

/// The first wait before reconnecting, in milliseconds.
pub const INITIAL_BACKOFF_MS: u64 = 500;

/// The longest wait before reconnecting, in milliseconds.
pub const MAX_BACKOFF_MS: u64 = 10_000;

/// The reconnection policy of the websocket client.
#[derive(Debug, Clone, Copy, PartialEq, Eq, Structural)]
pub struct Reconnect {
    /// Failed attempts since the last successful open.
    pub attempt: u32,
    /// The wait before the next attempt.
    pub backoff_ms: u64,
    /// Whether any message has ever been delivered.
    pub ever_connected: bool,
}

impl Reconnect {
    /// The back-off never leaves its bounds.
    pub open spec fn wf(&self) -> bool {
        INITIAL_BACKOFF_MS <= self.backoff_ms <= MAX_BACKOFF_MS
    }

    pub fn new() -> (r: Reconnect)
        ensures
            r.wf(),
            r == (Reconnect { attempt: 0, backoff_ms: INITIAL_BACKOFF_MS, ever_connected: false }),
    {
        Reconnect { attempt: 0, backoff_ms: INITIAL_BACKOFF_MS, ever_connected: false }
    }

    /// The status to show before an attempt to open: connecting, until a
    /// connection has once delivered and failed since.
    pub fn status_before_attempt(&self) -> (r: StreamStatus)
        ensures
            (self.attempt == 0 || !self.ever_connected) ==> r == StreamStatus::Connecting,
            (self.attempt != 0 && self.ever_connected) ==> r == (StreamStatus::Reconnecting {
                attempt: self.attempt,
            }),
    {
        if self.attempt == 0 || !self.ever_connected {
            StreamStatus::Connecting
        } else {
            StreamStatus::Reconnecting { attempt: self.attempt }
        }
    }

    /// The socket opened: the count and the back-off start over.
    pub fn on_open(&mut self)
        ensures
            *final(self) == (Reconnect {
                attempt: 0,
                backoff_ms: INITIAL_BACKOFF_MS,
                ever_connected: old(self).ever_connected,
            }),
    {
        self.attempt = 0;
        self.backoff_ms = INITIAL_BACKOFF_MS;
    }

    /// A message was delivered on a session that has `announced` its
    /// connection or not: whether `Connected` is to be shown now.
    pub fn on_delivered(&mut self, announced: bool) -> (r: bool)
        ensures
            r == !announced,
            final(self).ever_connected == (old(self).ever_connected || !announced),
            final(self).attempt == old(self).attempt,
            final(self).backoff_ms == old(self).backoff_ms,
    {
        if !announced {
            self.ever_connected = true;
        }
        !announced
    }

    /// An attempt ended: the wait before the next one, after which the
    /// back-off doubles, up to its maximum.
    pub fn next_delay(&mut self) -> (r: u64)
        requires
            old(self).wf(),
        ensures
            final(self).wf(),
            r == old(self).backoff_ms,
            final(self).attempt == (if old(self).attempt == u32::MAX {
                u32::MAX
            } else {
                (old(self).attempt + 1) as u32
            }),
            final(self).backoff_ms == (if 2 * old(self).backoff_ms > MAX_BACKOFF_MS {
                MAX_BACKOFF_MS as int
            } else {
                2 * old(self).backoff_ms
            }),
            final(self).ever_connected == old(self).ever_connected,
    {
        self.attempt = self.attempt.saturating_add(1);
        let delay = self.backoff_ms;
        let doubled = self.backoff_ms * 2;
        self.backoff_ms = if doubled > MAX_BACKOFF_MS {
            MAX_BACKOFF_MS
        } else {
            doubled
        };
        delay
    }
}

/// The host the dashboard connects to when the page has no host name.
pub const FALLBACK_GATEWAY_HOST: &'static str = "127.0.0.1";

/// The websocket URL of the gateway on the page's host, or on the fallback
/// host when the page's host name is missing or empty.
pub fn gateway_url(hostname: Option<&str>) -> (r: String)
    ensures
        r@ == "ws://"@ + (match hostname {
            Some(h) => if h@.len() > 0 {
                h@
            } else {
                FALLBACK_GATEWAY_HOST@
            },
            None => FALLBACK_GATEWAY_HOST@,
        }) + ":9001/ws"@,
{
    let host = match hostname {
        Some(h) => if h.unicode_len() > 0 {
            h
        } else {
            FALLBACK_GATEWAY_HOST
        },
        None => FALLBACK_GATEWAY_HOST,
    };
    let mut url = String::from_str("ws://");
    url.append(host);
    url.append(":9001/ws");
    url
}

} // verus!
