use vstd::prelude::*;
use crate::config::LinkConfig;

verus! {

/// Pause after a dropped link or a failed association, before trying again.
pub const LINK_COOLDOWN_MS: u64 = 5000;

/// Where the link manager stands.
#[derive(Debug, Clone, Copy, PartialEq, Eq, Structural)]
pub enum LinkPhase {
    /// Reading whether the station is associated.
    Observe,
    /// Associated: waiting for the link to drop.
    AwaitDrop,
    /// The link dropped; pausing before the next try.
    DropCooldown,
    /// Reading whether the radio has been started.
    CheckStarted,
    /// Configuring the radio with the credentials and starting it.
    Starting,
    /// Associating with the access point.
    Associating,
    /// Association failed; pausing before the next try.
    RetryCooldown,
    /// The radio could not be configured or started: the setup is wrong.
    Failed,
}

/// What the link manager asks its caller to do next.
#[derive(Debug, Clone, Copy, PartialEq, Eq, Structural)]
pub enum LinkAction {
    /// Report whether the station is associated.
    ReadState,
    /// Wait until the station is disconnected.
    WaitForDisconnect,
    /// Wait this many milliseconds.
    Sleep(u64),
    /// Report whether the radio has been started.
    ReadStarted,
    /// Configure the radio as a station with the credentials, then start it.
    Start,
    /// Associate with the access point.
    Associate,
    /// Give up: configuring or starting the radio failed.
    Abort,
    /// The event did not answer the pending request, which still stands.
    Hold,
}

/// What the caller reports after doing what was asked.
#[derive(Debug, Clone, Copy, PartialEq, Eq, Structural)]
pub enum LinkEvent {
    /// Whether the station is associated.
    Observed(bool),
    Disconnected,
    Elapsed,
    /// Whether the radio has been started; an error reading it counts as not.
    IsStarted(bool),
    StartOk,
    StartFailed,
    Joined,
    JoinFailed,
}

/// The request that stands while the manager is in `p`.
pub open spec fn link_request(cooldown_ms: u64, p: LinkPhase) -> LinkAction {
    match p {
        LinkPhase::Observe => LinkAction::ReadState,
        LinkPhase::AwaitDrop => LinkAction::WaitForDisconnect,
        LinkPhase::DropCooldown => LinkAction::Sleep(cooldown_ms),
        LinkPhase::CheckStarted => LinkAction::ReadStarted,
        LinkPhase::Starting => LinkAction::Start,
        LinkPhase::Associating => LinkAction::Associate,
        LinkPhase::RetryCooldown => LinkAction::Sleep(cooldown_ms),
        LinkPhase::Failed => LinkAction::Abort,
    }
}

/// The phase that `e` leads to from `p`, or `None` where `e` does not answer
/// the request of `p`. Only a failed start is final; a failed association is
/// always tried again after the cool-down.
pub open spec fn link_transition(p: LinkPhase, e: LinkEvent) -> Option<LinkPhase> {
    match (p, e) {
        (LinkPhase::Observe, LinkEvent::Observed(associated)) => Some(
            if associated {
                LinkPhase::AwaitDrop
            } else {
                LinkPhase::CheckStarted
            },
        ),
        (LinkPhase::AwaitDrop, LinkEvent::Disconnected) => Some(LinkPhase::DropCooldown),
        (LinkPhase::DropCooldown, LinkEvent::Elapsed) => Some(LinkPhase::CheckStarted),
        (LinkPhase::CheckStarted, LinkEvent::IsStarted(started)) => Some(
            if started {
                LinkPhase::Associating
            } else {
                LinkPhase::Starting
            },
        ),
        (LinkPhase::Starting, LinkEvent::StartOk) => Some(LinkPhase::Associating),
        (LinkPhase::Starting, LinkEvent::StartFailed) => Some(LinkPhase::Failed),
        (LinkPhase::Associating, LinkEvent::Joined) => Some(LinkPhase::Observe),
        (LinkPhase::Associating, LinkEvent::JoinFailed) => Some(LinkPhase::RetryCooldown),
        (LinkPhase::RetryCooldown, LinkEvent::Elapsed) => Some(LinkPhase::Observe),
        _ => None,
    }
}

/// The link manager: keeps the station associated with the access point.
pub struct LinkManager {
    pub config: LinkConfig,
    pub cooldown_ms: u64,
    pub phase: LinkPhase,
}

impl LinkManager {
    /// A manager that first reads the association state, with the usual cool-down.
    pub fn new(config: LinkConfig) -> (r: LinkManager)
        ensures
            r.config == config,
            r.cooldown_ms == LINK_COOLDOWN_MS,
            r.phase == LinkPhase::Observe,
    {
        LinkManager { config, cooldown_ms: LINK_COOLDOWN_MS, phase: LinkPhase::Observe }
    }

    /// The request that stands now.
    pub fn pending(&self) -> (r: LinkAction)
        ensures
            r == link_request(self.cooldown_ms, self.phase),
    {
        match self.phase {
            LinkPhase::Observe => LinkAction::ReadState,
            LinkPhase::AwaitDrop => LinkAction::WaitForDisconnect,
            LinkPhase::DropCooldown => LinkAction::Sleep(self.cooldown_ms),
            LinkPhase::CheckStarted => LinkAction::ReadStarted,
            LinkPhase::Starting => LinkAction::Start,
            LinkPhase::Associating => LinkAction::Associate,
            LinkPhase::RetryCooldown => LinkAction::Sleep(self.cooldown_ms),
            LinkPhase::Failed => LinkAction::Abort,
        }
    }

    /// Takes in what happened and returns what to do next.
    pub fn step(&mut self, e: LinkEvent) -> (r: LinkAction)
        ensures
            final(self).config == old(self).config,
            final(self).cooldown_ms == old(self).cooldown_ms,
            final(self).phase == match link_transition(old(self).phase, e) {
                Some(q) => q,
                None => old(self).phase,
            },
            r == match link_transition(old(self).phase, e) {
                Some(q) => link_request(old(self).cooldown_ms, q),
                None => LinkAction::Hold,
            },
    {
        let next: Option<LinkPhase> = match (self.phase, e) {
            (LinkPhase::Observe, LinkEvent::Observed(associated)) => Some(
                if associated {
                    LinkPhase::AwaitDrop
                } else {
                    LinkPhase::CheckStarted
                },
            ),
            (LinkPhase::AwaitDrop, LinkEvent::Disconnected) => Some(LinkPhase::DropCooldown),
            (LinkPhase::DropCooldown, LinkEvent::Elapsed) => Some(LinkPhase::CheckStarted),
            (LinkPhase::CheckStarted, LinkEvent::IsStarted(started)) => Some(
                if started {
                    LinkPhase::Associating
                } else {
                    LinkPhase::Starting
                },
            ),
            (LinkPhase::Starting, LinkEvent::StartOk) => Some(LinkPhase::Associating),
            (LinkPhase::Starting, LinkEvent::StartFailed) => Some(LinkPhase::Failed),
            (LinkPhase::Associating, LinkEvent::Joined) => Some(LinkPhase::Observe),
            (LinkPhase::Associating, LinkEvent::JoinFailed) => Some(LinkPhase::RetryCooldown),
            (LinkPhase::RetryCooldown, LinkEvent::Elapsed) => Some(LinkPhase::Observe),
            _ => None,
        };
        match next {
            Some(q) => {
                self.phase = q;
                self.pending()
            },
            None => LinkAction::Hold,
        }
    }
}

/// Only a failed start of the radio stops the link manager; a failed
/// association always leads, after the cool-down, back to observing the link.
pub proof fn only_start_failure_is_fatal(cooldown_ms: u64, p: LinkPhase, e: LinkEvent)
    ensures
        link_transition(p, e) == Some(LinkPhase::Failed) <==> (p == LinkPhase::Starting && e
            == LinkEvent::StartFailed),
        (p == LinkPhase::Associating && e == LinkEvent::JoinFailed) ==> link_transition(p, e)
            == Some(LinkPhase::RetryCooldown) && link_request(cooldown_ms, LinkPhase::RetryCooldown)
            == LinkAction::Sleep(cooldown_ms) && link_transition(
            LinkPhase::RetryCooldown,
            LinkEvent::Elapsed,
        ) == Some(LinkPhase::Observe),
{
}

} // verus!
