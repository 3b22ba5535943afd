//! The feed-ingestion engine's decisions: one active connection at a time,
//! endpoints tried in order, failover on any failure, a backoff pass when
//! every endpoint failed, a probe instead of a teardown when the read
//! times out. The transport itself — sockets, TLS, websocket frames — is
//! the outside world's; it hands events in and performs the actions handed
//! back.

use vstd::prelude::*;

verus! {

/// What the transport reports to the engine.
#[derive(Clone, Copy, PartialEq, Eq, Structural, Debug)]
pub enum ConnectionEvent {
    /// The transport-level upgrade of the current endpoint completed.
    UpgradeCompleted,
    /// The current endpoint could not be connected.
    ConnectFailed,
    /// A text frame arrived.
    TextFrame,
    /// The remote side sent a liveness probe.
    RemotePing,
    /// No frame arrived within the bounded wait.
    ReadTimedOut,
    /// The remote side closed the connection.
    CloseFrame,
    /// A send or receive on the connection failed.
    TransportFailed,
}

/// What the engine asks the transport to do next.
#[derive(Clone, Copy, PartialEq, Eq, Structural, Debug)]
pub enum EngineAction {
    /// Send the subscription payload, once, on the fresh connection.
    SendSubscription,
    /// Hand the frame's payload to the dispatcher; keep reading whatever
    /// the dispatcher makes of it.
    DispatchFrame,
    /// Reply in kind to the remote probe.
    SendPong,
    /// Send a liveness probe; the connection is not torn down.
    SendProbe,
    /// Abandon the connection and try the endpoint at this index now.
    TryConnect { endpoint: usize },
    /// Every endpoint failed in this pass: wait one fixed backoff interval,
    /// then restart the pass at this index.
    BackoffThenRetry { endpoint: usize },
}

/// Seconds waited after a whole pass over the endpoints failed.
pub const BACKOFF_SECONDS: u64 = 3;

/// Seconds without a frame before the engine probes the connection.
pub const READ_TIMEOUT_SECONDS: u64 = 30;

/// Which endpoint a failover moves to, and whether the move closes a pass
/// (so the retry waits out the backoff interval first): the next endpoint
/// in order, or back to the first after the last one failed.
pub open spec fn spec_next_attempt(current: nat, count: nat) -> (nat, bool)
    recommends
        current < count,
{
    if current + 1 < count {
        ((current + 1) as nat, false)
    } else {
        (0nat, true)
    }
}

/// The engine's connection state: the endpoints it may try, which one the
/// current attempt is on, and whether that attempt is an established
/// connection.
pub struct IngestionEngine {
    pub endpoints: Vec<String>,
    pub current: usize,
    pub connected: bool,
}

impl IngestionEngine {
    /// There is at least one endpoint and the cursor points at one.
    pub open spec fn wf(self) -> bool {
        &&& self.endpoints@.len() > 0
        &&& self.current < self.endpoints@.len()
    }

    /// A fresh engine starts its first pass at the first endpoint.
    pub fn new(endpoints: Vec<String>) -> (engine: IngestionEngine)
        requires
            endpoints@.len() > 0,
        ensures
            engine.wf(),
            engine.endpoints@ == endpoints@,
            engine.current == 0,
            !engine.connected,
    {
        IngestionEngine { endpoints, current: 0, connected: false }
    }

    /// Decides what to do on one transport event. Failures and closes move
    /// to the next endpoint at once — only a whole failed pass waits out
    /// the backoff; a read timeout probes instead of failing; a text frame
    /// is dispatched and the connection kept, whatever the dispatcher
    /// returns for it.
    pub fn on_event(&mut self, event: ConnectionEvent) -> (action: EngineAction)
        requires
            old(self).wf(),
        ensures
            final(self).wf(),
            final(self).endpoints@ == old(self).endpoints@,
            event == ConnectionEvent::UpgradeCompleted ==> action
                == EngineAction::SendSubscription && final(self).connected && final(self).current
                == old(self).current,
            event == ConnectionEvent::TextFrame ==> action == EngineAction::DispatchFrame
                && *final(self) == *old(self),
            event == ConnectionEvent::RemotePing ==> action == EngineAction::SendPong
                && *final(self) == *old(self),
            event == ConnectionEvent::ReadTimedOut ==> action == EngineAction::SendProbe
                && *final(self) == *old(self),
            (event == ConnectionEvent::ConnectFailed || event == ConnectionEvent::CloseFrame
                || event == ConnectionEvent::TransportFailed) ==> {
                let (next, pass_ended) = spec_next_attempt(
                    old(self).current as nat,
                    old(self).endpoints@.len(),
                );
                &&& final(self).current == next
                &&& !final(self).connected
                &&& action == (if pass_ended {
                    EngineAction::BackoffThenRetry { endpoint: final(self).current }
                } else {
                    EngineAction::TryConnect { endpoint: final(self).current }
                })
            },
    {
        match event {
            ConnectionEvent::UpgradeCompleted => {
                self.connected = true;
                EngineAction::SendSubscription
            },
            ConnectionEvent::TextFrame => EngineAction::DispatchFrame,
            ConnectionEvent::RemotePing => EngineAction::SendPong,
            ConnectionEvent::ReadTimedOut => EngineAction::SendProbe,
            ConnectionEvent::ConnectFailed
            | ConnectionEvent::CloseFrame
            | ConnectionEvent::TransportFailed => {
                self.connected = false;
                if self.current < self.endpoints.len() - 1 {
                    self.current = self.current + 1;
                    EngineAction::TryConnect { endpoint: self.current }
                } else {
                    self.current = 0;
                    EngineAction::BackoffThenRetry { endpoint: self.current }
                }
            },
        }
    }
}

/// With endpoints `[A, B]` and A refusing to connect, the engine moves to
/// B at once — within the same pass, before any backoff — and a failure of
/// B only then closes the pass, so message flow resumes within one backoff
/// cycle of a working B.
pub proof fn lemma_failover_reaches_second_endpoint()
    ensures
        spec_next_attempt(0, 2) == (1nat, false),
        spec_next_attempt(1, 2) == (0nat, true),
{
}

} // verus!
