use vstd::prelude::*;

verus! {

/// Pause between two polls of the readiness gate.
pub const POLL_INTERVAL_MS: u64 = 500;

/// Pause before each connection attempt.
pub const PACING_MS: u64 = 1000;

/// Pause after an exchange has ended, before the next pacing pause.
pub const COOLDOWN_MS: u64 = 3000;

/// Idle timeout given to every socket.
pub const SOCKET_TIMEOUT_MS: u64 = 10_000;

/// An IPv4 address, octet by octet.
#[derive(Debug, Clone, Copy, PartialEq, Eq, Structural)]
pub struct Ipv4Address {
    pub a: u8,
    pub b: u8,
    pub c: u8,
    pub d: u8,
}

/// Remote address and port of the exchange.
#[derive(Debug, Clone, Copy, PartialEq, Eq, Structural)]
pub struct Endpoint {
    pub addr: Ipv4Address,
    pub port: u16,
}

/// Timings and target of the session driver.
#[derive(Debug, Clone, Copy, PartialEq, Eq, Structural)]
pub struct SessionConfig {
    pub poll_ms: u64,
    pub pacing_ms: u64,
    pub cooldown_ms: u64,
    pub socket_timeout_ms: u64,
    pub remote: Endpoint,
}

impl SessionConfig {
    /// The usual timings, toward `remote`.
    pub fn standard(remote: Endpoint) -> (r: SessionConfig)
        ensures
            r == (SessionConfig {
                poll_ms: POLL_INTERVAL_MS,
                pacing_ms: PACING_MS,
                cooldown_ms: COOLDOWN_MS,
                socket_timeout_ms: SOCKET_TIMEOUT_MS,
                remote,
            }),
    {
        SessionConfig {
            poll_ms: POLL_INTERVAL_MS,
            pacing_ms: PACING_MS,
            cooldown_ms: COOLDOWN_MS,
            socket_timeout_ms: SOCKET_TIMEOUT_MS,
            remote,
        }
    }
}

/// How one connection attempt ended.
#[derive(Debug, Clone, Copy, PartialEq, Eq, Structural)]
pub enum SessionEnd {
    ConnectError,
    WriteError,
    ReadError,
    Eof,
}

/// Where the session driver stands.
#[derive(Debug, Clone, Copy, PartialEq, Eq, Structural)]
pub enum SessionPhase {
    /// Waiting for the stack to report the link up.
    AwaitLink,
    /// The link was down; pausing before polling again.
    LinkBackoff,
    /// Waiting for an IPv4 configuration.
    AwaitAddress,
    /// No address yet; pausing before polling again.
    AddressBackoff,
    /// Pausing before the next attempt.
    Pacing,
    /// A socket has been asked for.
    Opening,
    /// The socket is connecting to the remote endpoint.
    Connecting,
    /// The request is being written.
    Writing,
    /// A read is under way.
    Reading,
    /// This many received bytes are being handed out.
    Delivering(usize),
    /// The socket is being released after the attempt ended this way.
    Closing(SessionEnd),
    /// Pausing after an exchange.
    CoolingDown,
}

/// What the driver asks its caller to do next.
#[derive(Debug, Clone, Copy, PartialEq, Eq, Structural)]
pub enum SessionAction {
    /// Report whether the link is up.
    PollLink,
    /// Report the IPv4 configuration, if one was assigned.
    PollAddress,
    /// Wait this many milliseconds.
    Sleep(u64),
    /// Create a socket over the shared buffers, with this idle timeout in ms.
    OpenSocket(u64),
    /// Connect the socket to this endpoint.
    Connect(Endpoint),
    /// Write the whole request.
    WriteRequest,
    /// Read into the receive buffer.
    Read,
    /// Hand out this many bytes from the receive buffer.
    Deliver(usize),
    /// Release the socket; the attempt ended this way.
    Close(SessionEnd),
    /// The event did not answer the pending request, which still stands.
    Hold,
}

/// What the caller reports after doing what was asked.
#[derive(Debug, Clone, Copy, PartialEq, Eq, Structural)]
pub enum SessionEvent {
    Elapsed,
    Link(bool),
    Address(Option<Ipv4Address>),
    Opened,
    Connected,
    ConnectFailed,
    Written,
    WriteFailed,
    Received(usize),
    ReadFailed,
    Delivered,
    Closed,
}

/// The request that stands while the driver is in `p`.
pub open spec fn request(cfg: SessionConfig, p: SessionPhase) -> SessionAction {
    match p {
        SessionPhase::AwaitLink => SessionAction::PollLink,
        SessionPhase::LinkBackoff => SessionAction::Sleep(cfg.poll_ms),
        SessionPhase::AwaitAddress => SessionAction::PollAddress,
        SessionPhase::AddressBackoff => SessionAction::Sleep(cfg.poll_ms),
        SessionPhase::Pacing => SessionAction::Sleep(cfg.pacing_ms),
        SessionPhase::Opening => SessionAction::OpenSocket(cfg.socket_timeout_ms),
        SessionPhase::Connecting => SessionAction::Connect(cfg.remote),
        SessionPhase::Writing => SessionAction::WriteRequest,
        SessionPhase::Reading => SessionAction::Read,
        SessionPhase::Delivering(n) => SessionAction::Deliver(n),
        SessionPhase::Closing(end) => SessionAction::Close(end),
        SessionPhase::CoolingDown => SessionAction::Sleep(cfg.cooldown_ms),
    }
}

/// The phase that `e` leads to from `p`, or `None` where `e` does not answer
/// the request of `p`.
pub open spec fn transition(p: SessionPhase, e: SessionEvent) -> Option<SessionPhase> {
    match (p, e) {
        (SessionPhase::AwaitLink, SessionEvent::Link(up)) => Some(
            if up {
                SessionPhase::AwaitAddress
            } else {
                SessionPhase::LinkBackoff
            },
        ),
        (SessionPhase::LinkBackoff, SessionEvent::Elapsed) => Some(SessionPhase::AwaitLink),
        (SessionPhase::AwaitAddress, SessionEvent::Address(a)) => Some(
            if a is Some {
                SessionPhase::Pacing
            } else {
                SessionPhase::AddressBackoff
            },
        ),
        (SessionPhase::AddressBackoff, SessionEvent::Elapsed) => Some(SessionPhase::AwaitAddress),
        (SessionPhase::Pacing, SessionEvent::Elapsed) => Some(SessionPhase::Opening),
        (SessionPhase::Opening, SessionEvent::Opened) => Some(SessionPhase::Connecting),
        (SessionPhase::Connecting, SessionEvent::Connected) => Some(SessionPhase::Writing),
        (SessionPhase::Connecting, SessionEvent::ConnectFailed) => Some(
            SessionPhase::Closing(SessionEnd::ConnectError),
        ),
        (SessionPhase::Writing, SessionEvent::Written) => Some(SessionPhase::Reading),
        (SessionPhase::Writing, SessionEvent::WriteFailed) => Some(
            SessionPhase::Closing(SessionEnd::WriteError),
        ),
        (SessionPhase::Reading, SessionEvent::Received(n)) => Some(
            if n == 0 {
                SessionPhase::Closing(SessionEnd::Eof)
            } else {
                SessionPhase::Delivering(n)
            },
        ),
        (SessionPhase::Reading, SessionEvent::ReadFailed) => Some(
            SessionPhase::Closing(SessionEnd::ReadError),
        ),
        (SessionPhase::Delivering(_), SessionEvent::Delivered) => Some(SessionPhase::Reading),
        (SessionPhase::Closing(end), SessionEvent::Closed) => Some(
            if end == SessionEnd::ConnectError {
                SessionPhase::Pacing
            } else {
                SessionPhase::CoolingDown
            },
        ),
        (SessionPhase::CoolingDown, SessionEvent::Elapsed) => Some(SessionPhase::Pacing),
        _ => None,
    }
}

/// The phase after `e`.
pub open spec fn after(p: SessionPhase, e: SessionEvent) -> SessionPhase {
    match transition(p, e) {
        Some(q) => q,
        None => p,
    }
}

/// The action answered to `e`.
pub open spec fn emitted(cfg: SessionConfig, p: SessionPhase, e: SessionEvent) -> SessionAction {
    match transition(p, e) {
        Some(q) => request(cfg, q),
        None => SessionAction::Hold,
    }
}

/// The session driver: a phase under fixed timings and target.
pub struct SessionDriver {
    pub config: SessionConfig,
    pub phase: SessionPhase,
}

impl SessionDriver {
    /// A driver at the start of its readiness gate.
    pub fn new(config: SessionConfig) -> (r: SessionDriver)
        ensures
            r.config == config,
            r.phase == SessionPhase::AwaitLink,
    {
        SessionDriver { config, phase: SessionPhase::AwaitLink }
    }

    /// The request that stands now.
    pub fn pending(&self) -> (r: SessionAction)
        ensures
            r == request(self.config, self.phase),
    {
        let cfg = self.config;
        match self.phase {
            SessionPhase::AwaitLink => SessionAction::PollLink,
            SessionPhase::LinkBackoff => SessionAction::Sleep(cfg.poll_ms),
            SessionPhase::AwaitAddress => SessionAction::PollAddress,
            SessionPhase::AddressBackoff => SessionAction::Sleep(cfg.poll_ms),
            SessionPhase::Pacing => SessionAction::Sleep(cfg.pacing_ms),
            SessionPhase::Opening => SessionAction::OpenSocket(cfg.socket_timeout_ms),
            SessionPhase::Connecting => SessionAction::Connect(cfg.remote),
            SessionPhase::Writing => SessionAction::WriteRequest,
            SessionPhase::Reading => SessionAction::Read,
            SessionPhase::Delivering(n) => SessionAction::Deliver(n),
            SessionPhase::Closing(end) => SessionAction::Close(end),
            SessionPhase::CoolingDown => SessionAction::Sleep(cfg.cooldown_ms),
        }
    }

    /// Takes in what happened and returns what to do next.
    pub fn step(&mut self, e: SessionEvent) -> (r: SessionAction)
        ensures
            final(self).config == old(self).config,
            final(self).phase == after(old(self).phase, e),
            r == emitted(old(self).config, old(self).phase, e),
    {
        let next: Option<SessionPhase> = match (self.phase, e) {
            (SessionPhase::AwaitLink, SessionEvent::Link(up)) => Some(
                if up {
                    SessionPhase::AwaitAddress
                } else {
                    SessionPhase::LinkBackoff
                },
            ),
            (SessionPhase::LinkBackoff, SessionEvent::Elapsed) => Some(SessionPhase::AwaitLink),
            (SessionPhase::AwaitAddress, SessionEvent::Address(a)) => Some(
                match a {
                    Some(_) => SessionPhase::Pacing,
                    None => SessionPhase::AddressBackoff,
                },
            ),
            (SessionPhase::AddressBackoff, SessionEvent::Elapsed) => Some(
                SessionPhase::AwaitAddress,
            ),
            (SessionPhase::Pacing, SessionEvent::Elapsed) => Some(SessionPhase::Opening),
            (SessionPhase::Opening, SessionEvent::Opened) => Some(SessionPhase::Connecting),
            (SessionPhase::Connecting, SessionEvent::Connected) => Some(SessionPhase::Writing),
            (SessionPhase::Connecting, SessionEvent::ConnectFailed) => Some(
                SessionPhase::Closing(SessionEnd::ConnectError),
            ),
            (SessionPhase::Writing, SessionEvent::Written) => Some(SessionPhase::Reading),
            (SessionPhase::Writing, SessionEvent::WriteFailed) => Some(
                SessionPhase::Closing(SessionEnd::WriteError),
            ),
            (SessionPhase::Reading, SessionEvent::Received(n)) => Some(
                if n == 0 {
                    SessionPhase::Closing(SessionEnd::Eof)
                } else {
                    SessionPhase::Delivering(n)
                },
            ),
            (SessionPhase::Reading, SessionEvent::ReadFailed) => Some(
                SessionPhase::Closing(SessionEnd::ReadError),
            ),
            (SessionPhase::Delivering(_), SessionEvent::Delivered) => Some(SessionPhase::Reading),
            (SessionPhase::Closing(end), SessionEvent::Closed) => Some(
                match end {
                    SessionEnd::ConnectError => SessionPhase::Pacing,
                    _ => SessionPhase::CoolingDown,
                },
            ),
            (SessionPhase::CoolingDown, SessionEvent::Elapsed) => Some(SessionPhase::Pacing),
            _ => None,
        };
        match next {
            Some(q) => {
                self.phase = q;
                self.pending()
            },
            None => SessionAction::Hold,
        }
    }
}

} // verus!
