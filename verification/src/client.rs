//! The client lifecycle controller: one outbound connection at a time,
//! one session actor run to completion, and — after an unplanned drop —
//! reconnection under a capped doubling backoff, with the user-visible
//! identity kept across reconnects. Modeled as a state machine; the
//! surrounding runtime performs each directive (dial, run the session,
//! sleep out the backoff delay) and feeds the outcome back as an event.

use vstd::prelude::*;

verus! {

/// The backoff policy: the first delay and the cap, in milliseconds.
/// Each retry doubles the previous delay until the cap is reached; a
/// base equal to the cap gives a fixed delay.
#[derive(Clone, Copy, Debug, PartialEq, Eq, Structural)]
pub struct ReconnectPolicy {
    pub base_ms: u64,
    pub cap_ms: u64,
}

impl ReconnectPolicy {
    /// The delay before retry number `attempt`: the base, doubled once
    /// per previous attempt, never above the cap.
    pub open spec fn delay_spec(self, attempt: nat) -> u64
        decreases attempt,
    {
        if attempt == 0 {
            if self.base_ms <= self.cap_ms {
                self.base_ms
            } else {
                self.cap_ms
            }
        } else {
            let previous = self.delay_spec((attempt - 1) as nat);
            if previous <= self.cap_ms / 2 {
                (2 * previous) as u64
            } else {
                self.cap_ms
            }
        }
    }

    /// Law: every backoff delay stays within the configured window: no
    /// retry ever waits longer than the cap.
    pub proof fn lemma_delay_within_cap(self, attempt: nat)
        ensures
            self.delay_spec(attempt) <= self.cap_ms,
        decreases attempt,
    {
        if attempt > 0 {
            self.lemma_delay_within_cap((attempt - 1) as nat);
        }
    }

    /// Compute the delay before retry number `attempt`.
    pub fn delay_ms(&self, attempt: u32) -> (delay: u64)
        ensures
            delay == self.delay_spec(attempt as nat),
            delay <= self.cap_ms,
    {
        let mut delay: u64 = if self.base_ms <= self.cap_ms {
            self.base_ms
        } else {
            self.cap_ms
        };
        let mut i: u32 = 0;
        while i < attempt
            invariant
                i <= attempt,
                delay == self.delay_spec(i as nat),
                delay <= self.cap_ms,
            decreases attempt - i,
        {
            if delay <= self.cap_ms / 2 {
                delay = delay * 2;
            } else {
                delay = self.cap_ms;
            }
            i = i + 1;
        }
        delay
    }
}

/// Where the client controller stands in its connection lifecycle.
#[derive(Clone, Copy, Debug, PartialEq, Eq, Structural)]
pub enum ClientPhase {
    /// A connection attempt is in flight.
    Connecting,
    /// A session actor is running on an established transport.
    Connected,
    /// Waiting out the backoff delay before the next attempt.
    Reconnecting,
    /// Shut down for good: the user closed the session gracefully.
    Closed,
}

/// An outcome the runtime reports back to the controller.
#[derive(Clone, Copy, Debug, PartialEq, Eq, Structural)]
pub enum ClientEvent {
    /// The outbound connection was established.
    ConnectOk,
    /// The connection attempt failed.
    ConnectFailed,
    /// The backoff delay has elapsed.
    RetryElapsed,
    /// The running session ended with a graceful, user-initiated close.
    SessionGraceful,
    /// The running session's transport dropped without a user close.
    SessionDropped,
}

/// What the runtime must do next.
#[derive(Clone, Copy, Debug, PartialEq, Eq, Structural)]
pub enum ClientDirective {
    /// Construct a session actor on the fresh transport and run it.
    RunSession,
    /// Wait this many milliseconds, then report that the retry is due.
    WaitRetry(u64),
    /// Start a connection attempt.
    Dial,
    /// Nothing to do for this event in this phase.
    Idle,
    /// Release everything: the controller is done.
    Stop,
}

/// The phase the controller moves to on an event.
pub open spec fn next_phase(phase: ClientPhase, event: ClientEvent) -> ClientPhase {
    match phase {
        ClientPhase::Connecting => match event {
            ClientEvent::ConnectOk => ClientPhase::Connected,
            ClientEvent::ConnectFailed => ClientPhase::Reconnecting,
            _ => ClientPhase::Connecting,
        },
        ClientPhase::Connected => match event {
            ClientEvent::SessionGraceful => ClientPhase::Closed,
            ClientEvent::SessionDropped => ClientPhase::Reconnecting,
            _ => ClientPhase::Connected,
        },
        ClientPhase::Reconnecting => match event {
            ClientEvent::RetryElapsed => ClientPhase::Connecting,
            _ => ClientPhase::Reconnecting,
        },
        ClientPhase::Closed => ClientPhase::Closed,
    }
}

/// The controller: a stable user-visible identity, the policy, and the
/// lifecycle bookkeeping. The identity is assigned at creation and kept
/// across every reconnect.
pub struct ClientController {
    /// The user-visible identity, never changed by any event.
    pub id: u64,
    /// The configured backoff policy.
    pub policy: ReconnectPolicy,
    /// Where the controller stands.
    pub phase: ClientPhase,
    /// How many connection attempts have failed since the last
    /// established connection.
    pub attempt: u32,
}

/// The retry counter after an event: reset on an established
/// connection, advanced (without wrapping) when a delay is scheduled.
pub open spec fn next_attempt(controller: ClientController, event: ClientEvent) -> u32 {
    match controller.phase {
        ClientPhase::Connecting => match event {
            ClientEvent::ConnectOk => 0,
            ClientEvent::ConnectFailed => if controller.attempt < u32::MAX {
                (controller.attempt + 1) as u32
            } else {
                controller.attempt
            },
            _ => controller.attempt,
        },
        ClientPhase::Connected => match event {
            ClientEvent::SessionDropped => if controller.attempt < u32::MAX {
                (controller.attempt + 1) as u32
            } else {
                controller.attempt
            },
            _ => controller.attempt,
        },
        _ => controller.attempt,
    }
}

/// The directive the runtime gets for an event.
pub open spec fn directive_of(controller: ClientController, event: ClientEvent) -> ClientDirective {
    match controller.phase {
        ClientPhase::Connecting => match event {
            ClientEvent::ConnectOk => ClientDirective::RunSession,
            ClientEvent::ConnectFailed => ClientDirective::WaitRetry(
                controller.policy.delay_spec(controller.attempt as nat),
            ),
            _ => ClientDirective::Idle,
        },
        ClientPhase::Connected => match event {
            ClientEvent::SessionGraceful => ClientDirective::Stop,
            ClientEvent::SessionDropped => ClientDirective::WaitRetry(
                controller.policy.delay_spec(controller.attempt as nat),
            ),
            _ => ClientDirective::Idle,
        },
        ClientPhase::Reconnecting => match event {
            ClientEvent::RetryElapsed => ClientDirective::Dial,
            _ => ClientDirective::Idle,
        },
        ClientPhase::Closed => ClientDirective::Stop,
    }
}

impl ClientController {
    /// A new controller, about to make its first connection attempt.
    pub fn new(id: u64, policy: ReconnectPolicy) -> (controller: ClientController)
        ensures
            controller.id == id,
            controller.policy == policy,
            controller.phase == ClientPhase::Connecting,
            controller.attempt == 0,
    {
        ClientController { id, policy, phase: ClientPhase::Connecting, attempt: 0 }
    }

    /// React to one outcome: move to the next phase and tell the runtime
    /// what to do. The identity and the policy never change.
    pub fn on_event(&mut self, event: ClientEvent) -> (directive: ClientDirective)
        ensures
            final(self).id == old(self).id,
            final(self).policy == old(self).policy,
            final(self).phase == next_phase(old(self).phase, event),
            final(self).attempt == next_attempt(*old(self), event),
            directive == directive_of(*old(self), event),
    {
        match self.phase {
            ClientPhase::Connecting => match event {
                ClientEvent::ConnectOk => {
                    self.phase = ClientPhase::Connected;
                    self.attempt = 0;
                    ClientDirective::RunSession
                },
                ClientEvent::ConnectFailed => {
                    let delay = self.policy.delay_ms(self.attempt);
                    self.phase = ClientPhase::Reconnecting;
                    if self.attempt < u32::MAX {
                        self.attempt = self.attempt + 1;
                    }
                    ClientDirective::WaitRetry(delay)
                },
                _ => ClientDirective::Idle,
            },
            ClientPhase::Connected => match event {
                ClientEvent::SessionGraceful => {
                    self.phase = ClientPhase::Closed;
                    ClientDirective::Stop
                },
                ClientEvent::SessionDropped => {
                    let delay = self.policy.delay_ms(self.attempt);
                    self.phase = ClientPhase::Reconnecting;
                    if self.attempt < u32::MAX {
                        self.attempt = self.attempt + 1;
                    }
                    ClientDirective::WaitRetry(delay)
                },
                _ => ClientDirective::Idle,
            },
            ClientPhase::Reconnecting => match event {
                ClientEvent::RetryElapsed => {
                    self.phase = ClientPhase::Connecting;
                    ClientDirective::Dial
                },
                _ => ClientDirective::Idle,
            },
            ClientPhase::Closed => ClientDirective::Stop,
        }
    }
}

/// Law: a transport drop that the user did not close moves a connected
/// controller into reconnecting with a wait no longer than the cap, and
/// the path back — delay elapses, dial succeeds — ends connected again;
/// the identity is untouched throughout (`on_event` never changes it).
/// A graceful close, by contrast, ends the controller for good.
pub proof fn lemma_drop_reconnects_within_window(controller: ClientController)
    requires
        controller.phase == ClientPhase::Connected,
    ensures
        next_phase(controller.phase, ClientEvent::SessionDropped) == ClientPhase::Reconnecting,
        directive_of(controller, ClientEvent::SessionDropped) matches ClientDirective::WaitRetry(
            delay,
        ) && delay <= controller.policy.cap_ms,
        next_phase(ClientPhase::Reconnecting, ClientEvent::RetryElapsed)
            == ClientPhase::Connecting,
        next_phase(ClientPhase::Connecting, ClientEvent::ConnectOk) == ClientPhase::Connected,
        next_phase(controller.phase, ClientEvent::SessionGraceful) == ClientPhase::Closed,
        directive_of(controller, ClientEvent::SessionGraceful) == ClientDirective::Stop,
{
    controller.policy.lemma_delay_within_cap(controller.attempt as nat);
}

} // verus!
