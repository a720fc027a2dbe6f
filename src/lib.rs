//! Connection lifecycle control for a small network client: the decisions of
//! the link manager and of the session driver, as verified state machines.
//! The caller performs each action that a machine asks for and reports back
//! what happened as an event.

mod config;
mod laws;
mod link;
mod session;

pub use config::{ConfigError, LinkConfig, PASSPHRASE_CAPACITY, SSID_CAPACITY};
pub use laws::{
    attempts_are_paced, connect_retried_until_success, eof_ends_attempt_cleanly,
    no_socket_before_ready, socket_never_leaks,
};
pub use link::{
    only_start_failure_is_fatal, LinkAction, LinkEvent, LinkManager, LinkPhase, LINK_COOLDOWN_MS,
};
pub use session::{
    Endpoint, Ipv4Address, SessionAction, SessionConfig, SessionDriver, SessionEnd, SessionEvent,
    SessionPhase, COOLDOWN_MS, PACING_MS, POLL_INTERVAL_MS, SOCKET_TIMEOUT_MS,
};
