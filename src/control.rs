use vstd::prelude::*;

verus! {

/// Wait before the worker first connects to the broker.
pub const STARTUP_DELAY_MS: u64 = 2000;

/// Duration of the simulated unit of work on one job.
pub const WORK_DURATION_MS: u64 = 3000;

/// How many times the worker tries to connect to the broker in all.
pub const CONNECT_ATTEMPTS: u32 = 5;

/// Wait after the first failed connection; each later failure waits one more step.
pub const RETRY_STEP_MS: u64 = 1000;

/// Longest wait between two connection attempts.
pub const MAX_RETRY_DELAY_MS: u64 = 4000;

/// Wait after the failed attempt numbered `attempt` (from zero): grows by
/// one step per failure, capped.
pub open spec fn retry_delay(attempt: nat) -> nat {
    let d: nat = (RETRY_STEP_MS * (attempt + 1)) as nat;
    if d <= MAX_RETRY_DELAY_MS {
        d
    } else {
        MAX_RETRY_DELAY_MS as nat
    }
}

/// Outcome of one attempt to connect the worker to the broker and subscribe.
#[derive(Clone, Copy, Debug, PartialEq, Eq, Structural)]
pub enum ConnectOutcome {
    Connected,
    Failed,
}

/// What the worker does after a connection attempt.
#[derive(Clone, Copy, Debug, PartialEq, Eq, Structural)]
pub enum StartupAction {
    /// Subscribed: start receiving job identifiers.
    Listen,
    /// Try again after this many milliseconds.
    RetryAfter(u64),
    /// Stop this worker; the request-handling path is unaffected.
    GiveUp,
}

/// Decision after the connection attempt numbered `attempt` (from zero).
pub fn startup_step(attempt: u32, outcome: ConnectOutcome) -> (r: StartupAction)
    ensures
        outcome == ConnectOutcome::Connected ==> r == StartupAction::Listen,
        outcome == ConnectOutcome::Failed && attempt + 1 < CONNECT_ATTEMPTS ==> r
            == StartupAction::RetryAfter(retry_delay(attempt as nat) as u64),
        outcome == ConnectOutcome::Failed && attempt + 1 >= CONNECT_ATTEMPTS ==> r
            == StartupAction::GiveUp,
{
    match outcome {
        ConnectOutcome::Connected => StartupAction::Listen,
        ConnectOutcome::Failed => {
            if attempt >= CONNECT_ATTEMPTS - 1 {
                StartupAction::GiveUp
            } else {
                let d: u64 = RETRY_STEP_MS * (attempt as u64 + 1);
                if d <= MAX_RETRY_DELAY_MS {
                    StartupAction::RetryAfter(d)
                } else {
                    StartupAction::RetryAfter(MAX_RETRY_DELAY_MS)
                }
            }
        },
    }
}

/// What a client connection's relay task observed last.
#[derive(Clone, Debug)]
pub enum RelayEvent {
    /// An event arrived from the bus.
    Received(String),
    /// The subscription fell behind and this many events were skipped.
    Lagged(u64),
    /// The bus was closed.
    Closed,
    /// Sending to the peer failed: it disconnected or the write failed.
    SendFailed,
}

/// What the relay task does next.
#[derive(Clone, Debug)]
pub enum RelayAction {
    /// Send this text to the peer.
    Send(String),
    /// End the relay and release the subscription.
    Stop,
}

/// Relay decision: every received event goes to the peer unchanged; a lag,
/// a closed bus or a failed send ends the connection.
pub fn relay_step(event: RelayEvent) -> (r: RelayAction)
    ensures
        match event {
            RelayEvent::Received(m) => r == RelayAction::Send(m),
            _ => r == RelayAction::Stop,
        },
{
    match event {
        RelayEvent::Received(m) => RelayAction::Send(m),
        _ => RelayAction::Stop,
    }
}

} // verus!
