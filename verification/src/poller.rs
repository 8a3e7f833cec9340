//! The poller's decisions as a state machine: from the current phase and the
//! event observed at the last suspension point to the next phase and the
//! action the driving loop must perform. The loop around it — the timer, the
//! network calls, the cancellation signal — lives outside; every decision is
//! made here.

use vstd::prelude::*;

use crate::client::{Bill, BillV, Usage, UsageV};

verus! {

/// Outer phase of the poller.
#[derive(PartialEq, Eq, Structural, Clone, Copy, Debug)]
pub enum PollerPhase {
    /// No session. `ever_connected` records whether any login has succeeded
    /// before: a login failure is fatal on the very first attempt and
    /// retried indefinitely afterwards.
    Disconnected { ever_connected: bool },
    /// Holding a session, polling on the timer.
    Connected,
    /// Terminal. `login_failed` records whether the poller ended on the
    /// fatal first login failure rather than on cancellation.
    Stopped { login_failed: bool },
}

/// What the driving loop observed at its last suspension point.
pub enum PollEvent {
    /// The cancellation signal fired.
    Stop,
    /// The login handshake returned success.
    LoginSucceeded,
    /// The login handshake failed.
    LoginFailed,
    /// The poll interval elapsed.
    Tick,
    /// Both pages were fetched and extracted in sequence.
    CycleSucceeded { usage: Usage, bill: Bill },
    /// A fetch or extraction failed on either page.
    CycleFailed,
}

/// Mathematical value of a poll event.
pub ghost enum PollEventV {
    Stop,
    LoginSucceeded,
    LoginFailed,
    Tick,
    CycleSucceeded { usage: UsageV, bill: BillV },
    CycleFailed,
}

impl View for PollEvent {
    type V = PollEventV;

    open spec fn view(&self) -> PollEventV {
        match self {
            PollEvent::Stop => PollEventV::Stop,
            PollEvent::LoginSucceeded => PollEventV::LoginSucceeded,
            PollEvent::LoginFailed => PollEventV::LoginFailed,
            PollEvent::Tick => PollEventV::Tick,
            PollEvent::CycleSucceeded { usage, bill } => PollEventV::CycleSucceeded {
                usage: usage@,
                bill: bill@,
            },
            PollEvent::CycleFailed => PollEventV::CycleFailed,
        }
    }
}

/// What the driving loop must do before handing back the next event.
pub enum PollAction {
    /// Attempt the login handshake; cancellation is checked first.
    AttemptLogin,
    /// Wait for the next timer tick, racing the cancellation signal.
    Wait,
    /// Fetch and extract the usage page, then the bill page.
    RunCycle,
    /// Write the cycle's snapshots into the shared state, then wait for the
    /// next tick as `Wait` does.
    Publish { usage: Usage, bill: Bill },
    /// Terminate cleanly: cancellation was observed.
    ExitStopped,
    /// Terminate with the fatal first-login failure.
    ExitLoginFailure,
}

/// Mathematical value of a poll action.
pub ghost enum PollActionV {
    AttemptLogin,
    Wait,
    RunCycle,
    Publish { usage: UsageV, bill: BillV },
    ExitStopped,
    ExitLoginFailure,
}

impl View for PollAction {
    type V = PollActionV;

    open spec fn view(&self) -> PollActionV {
        match self {
            PollAction::AttemptLogin => PollActionV::AttemptLogin,
            PollAction::Wait => PollActionV::Wait,
            PollAction::RunCycle => PollActionV::RunCycle,
            PollAction::Publish { usage, bill } => PollActionV::Publish {
                usage: usage@,
                bill: bill@,
            },
            PollAction::ExitStopped => PollActionV::ExitStopped,
            PollAction::ExitLoginFailure => PollActionV::ExitLoginFailure,
        }
    }
}

/// The poller's transition function. Cancellation moves every phase to the
/// terminal one. Disconnected: a login success enters Connected (the first
/// fetch happens only after one full interval, so the entry action is a
/// wait); a login failure is fatal on the first attempt and retried after a
/// session has ever been held. Connected: a tick runs one fetch cycle; a
/// successful cycle publishes its snapshots and waits on; a failed cycle
/// discards the session and re-attempts login. The terminal phase only ever
/// re-issues its exit. Events that a phase cannot observe leave it unchanged
/// and re-issue the phase's own action.
pub open spec fn spec_step(phase: PollerPhase, ev: PollEventV) -> (PollerPhase, PollActionV) {
    match phase {
        PollerPhase::Disconnected { ever_connected } => match ev {
            PollEventV::Stop => (
                PollerPhase::Stopped { login_failed: false },
                PollActionV::ExitStopped,
            ),
            PollEventV::LoginSucceeded => (PollerPhase::Connected, PollActionV::Wait),
            PollEventV::LoginFailed => if ever_connected {
                (PollerPhase::Disconnected { ever_connected: true }, PollActionV::AttemptLogin)
            } else {
                (PollerPhase::Stopped { login_failed: true }, PollActionV::ExitLoginFailure)
            },
            _ => (PollerPhase::Disconnected { ever_connected }, PollActionV::AttemptLogin),
        },
        PollerPhase::Connected => match ev {
            PollEventV::Stop => (
                PollerPhase::Stopped { login_failed: false },
                PollActionV::ExitStopped,
            ),
            PollEventV::Tick => (PollerPhase::Connected, PollActionV::RunCycle),
            PollEventV::CycleSucceeded { usage, bill } => (
                PollerPhase::Connected,
                PollActionV::Publish { usage, bill },
            ),
            PollEventV::CycleFailed => (
                PollerPhase::Disconnected { ever_connected: true },
                PollActionV::AttemptLogin,
            ),
            _ => (PollerPhase::Connected, PollActionV::Wait),
        },
        PollerPhase::Stopped { login_failed } => (
            PollerPhase::Stopped { login_failed },
            if login_failed {
                PollActionV::ExitLoginFailure
            } else {
                PollActionV::ExitStopped
            },
        ),
    }
}

/// The phase the poller starts in: no session, no login ever made, so the
/// first login failure is fatal. Its first action is `AttemptLogin`.
pub fn initial_phase() -> (r: PollerPhase)
    ensures
        r == (PollerPhase::Disconnected { ever_connected: false }),
{
    PollerPhase::Disconnected { ever_connected: false }
}

/// One transition of the poller.
pub fn step(phase: PollerPhase, ev: PollEvent) -> (r: (PollerPhase, PollAction))
    ensures
        r.0 == spec_step(phase, ev@).0,
        r.1@ == spec_step(phase, ev@).1,
{
    match phase {
        PollerPhase::Disconnected { ever_connected } => match ev {
            PollEvent::Stop => (
                PollerPhase::Stopped { login_failed: false },
                PollAction::ExitStopped,
            ),
            PollEvent::LoginSucceeded => (PollerPhase::Connected, PollAction::Wait),
            PollEvent::LoginFailed => if ever_connected {
                (PollerPhase::Disconnected { ever_connected: true }, PollAction::AttemptLogin)
            } else {
                (PollerPhase::Stopped { login_failed: true }, PollAction::ExitLoginFailure)
            },
            _ => (PollerPhase::Disconnected { ever_connected }, PollAction::AttemptLogin),
        },
        PollerPhase::Connected => match ev {
            PollEvent::Stop => (
                PollerPhase::Stopped { login_failed: false },
                PollAction::ExitStopped,
            ),
            PollEvent::Tick => (PollerPhase::Connected, PollAction::RunCycle),
            PollEvent::CycleSucceeded { usage, bill } => (
                PollerPhase::Connected,
                PollAction::Publish { usage, bill },
            ),
            PollEvent::CycleFailed => (
                PollerPhase::Disconnected { ever_connected: true },
                PollAction::AttemptLogin,
            ),
            _ => (PollerPhase::Connected, PollAction::Wait),
        },
        PollerPhase::Stopped { login_failed } => (
            PollerPhase::Stopped { login_failed },
            if login_failed {
                PollAction::ExitLoginFailure
            } else {
                PollAction::ExitStopped
            },
        ),
    }
}

/// Cancellation law: from every phase, the stop event reaches the terminal
/// phase with a terminating action, and the terminal phase never leaves and
/// only ever re-issues its exit — so a driver that performs the issued
/// actions terminates at its next checkpoint once cancellation fires.
pub proof fn lemma_stop_terminates(phase: PollerPhase)
    ensures
        spec_step(phase, PollEventV::Stop).0 is Stopped,
        spec_step(phase, PollEventV::Stop).1 is ExitStopped || spec_step(
            phase,
            PollEventV::Stop,
        ).1 is ExitLoginFailure,
        forall|f: bool, ev: PollEventV|
            (#[trigger] spec_step(PollerPhase::Stopped { login_failed: f }, ev)).0
                == (PollerPhase::Stopped { login_failed: f }),
        forall|f: bool, ev: PollEventV|
            (#[trigger] spec_step(PollerPhase::Stopped { login_failed: f }, ev)).1 is ExitStopped
                || spec_step(PollerPhase::Stopped { login_failed: f }, ev).1 is ExitLoginFailure,
{
}

} // verus!
