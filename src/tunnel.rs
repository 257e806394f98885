//! The live tunnel and its accept loop.
//!
//! A tunnel owns the local port that its listener is bound to and a stop
//! flag shared with the accept loop, which reads it through a `StopSignal`.
//! Dropping the tunnel raises the flag; the loop reads it before each accept, exits once it is raised and
//! releases the listener. Forwarders already running are left to end on
//! their own.
use vstd::prelude::*;
use std::sync::Arc;
use std::sync::atomic::{AtomicBool, Ordering};
use crate::error::TunnelError;
use crate::setup::{SessionSetup, SetupPhase};

verus! {

/// Pause of the accept loop when no connection is waiting, in milliseconds.
pub const ACCEPT_POLL_MS: u64 = 50;

/// A tunnel whose listener is bound.
pub struct SshTunnel {
    local_port: u16,
    stop_signal: Arc<AtomicBool>,
    /// Whether `true` has been stored into the stop flag through this
    /// handle. Only `raise_stop_flag`, which performs the store, sets it.
    stopped: Ghost<bool>,
}

/// A handle on a tunnel's stop flag that can only read it: the flag is
/// raised by the tunnel alone, and nothing lowers it.
pub struct StopSignal {
    flag: Arc<AtomicBool>,
}

/// Relies on `Arc::clone`: a second handle on the same stop flag, for the
/// accept loop.
#[verifier::external_body]
fn share_flag(flag: &Arc<AtomicBool>) -> Arc<AtomicBool> {
    Arc::clone(flag)
}

/// Relies on `AtomicBool::load`: the current value of the flag.
#[verifier::external_body]
fn read_flag(flag: &Arc<AtomicBool>) -> bool {
    flag.load(Ordering::SeqCst)
}

impl StopSignal {
    /// Whether the tunnel has raised its stop flag.
    pub fn is_raised(&self) -> bool {
        read_flag(&self.flag)
    }
}

impl SshTunnel {
    /// The tunnel of a finished creation setup: `Ok` with a lowered stop
    /// flag when the setup ended listening, its error when it failed. No
    /// tunnel, and so no accept loop, comes of a failed setup.
    pub fn new(setup: &SessionSetup) -> (r: Result<SshTunnel, TunnelError>)
        requires
            setup.phase is Listening || setup.phase is Failed,
        ensures
            setup.phase matches SetupPhase::Listening { port } ==> r is Ok && r->Ok_0.port() == port
                && !r->Ok_0.stop_requested(),
            setup.phase matches SetupPhase::Failed { error } ==> r == Err::<SshTunnel, TunnelError>(
                error,
            ),
    {
        match &setup.phase {
            SetupPhase::Listening { port } => Ok(
                SshTunnel {
                    local_port: *port,
                    stop_signal: Arc::new(AtomicBool::new(false)),
                    stopped: Ghost(false),
                },
            ),
            SetupPhase::Failed { error } => Err(error.duplicate()),
            _ => Err(TunnelError::IoError),
        }
    }

    /// Whether `true` has been stored into the stop flag through this
    /// handle. Once it holds, it holds for good: every method that takes
    /// the tunnel mutably ends with it holding.
    pub closed spec fn stop_requested(&self) -> bool {
        self.stopped@
    }

    /// The port of the tunnel's listener.
    pub closed spec fn port(&self) -> u16 {
        self.local_port
    }

    /// The port of the tunnel's listener, for the whole life of the tunnel.
    pub fn local_port(&self) -> (r: u16)
        ensures
            r == self.port(),
    {
        self.local_port
    }

    /// A read-only handle on the stop flag, for the accept loop.
    pub fn stop_signal(&self) -> StopSignal {
        StopSignal { flag: share_flag(&self.stop_signal) }
    }

    /// Relies on `AtomicBool::store`, which panics only for the orderings
    /// `Acquire` and `AcqRel`: a store of `true` with `SeqCst` returns
    /// normally, and afterwards the flag shared with the accept loop holds
    /// `true`.
    #[verifier::external_body]
    fn raise_stop_flag(&mut self)
        ensures
            final(self).stop_requested(),
            final(self).port() == old(self).port(),
        opens_invariants none
        no_unwind
    {
        self.stop_signal.store(true, Ordering::SeqCst);
    }

    /// Raises the stop flag; raising it again changes nothing.
    pub fn stop(&mut self)
        ensures
            final(self).stop_requested(),
            final(self).port() == old(self).port(),
    {
        self.raise_stop_flag();
    }
}

impl Drop for SshTunnel {
    /// Releasing the tunnel raises its stop flag.
    fn drop(&mut self)
        ensures
            final(self).stop_requested(),
        opens_invariants none
        no_unwind
    {
        self.raise_stop_flag();
    }
}

/// Where the accept loop stands.
#[derive(Clone, Copy, Debug, PartialEq, Eq, Structural)]
pub enum AcceptPhase {
    /// About to read the stop flag.
    CheckStop,
    /// About to poll the listener once, without blocking.
    Accept,
    /// Handing an accepted connection to a forwarder of its own.
    Spawning,
    Sleeping,
    /// The loop has exited and its listener is released.
    Stopped,
}

/// The outcome of the accept loop's last action.
#[derive(Clone, Copy, Debug, PartialEq, Eq, Structural)]
pub enum AcceptEvent {
    /// The value read from the stop flag.
    StopFlag(bool),
    /// A connection was accepted.
    Accepted,
    /// No connection was waiting.
    WouldBlock,
    /// Accepting failed.
    Failed,
    /// A forwarder was started, or a sleep is over.
    Done,
}

/// The accept loop's next piece of outside work.
#[derive(Clone, Copy, Debug, PartialEq, Eq, Structural)]
pub enum AcceptAction {
    ReadStopFlag,
    Accept,
    /// Start a forwarder, on a task of its own, for the accepted connection.
    SpawnForwarder,
    Sleep { ms: u64 },
    /// Release the listener and end the loop.
    Exit,
}

/// The accept loop after the outcome `e`. An outcome that does not fit the
/// action ends the loop, as a failed accept does.
pub open spec fn accept_next(p: AcceptPhase, e: AcceptEvent) -> AcceptPhase {
    match p {
        AcceptPhase::CheckStop => match e {
            AcceptEvent::StopFlag(raised) => if raised {
                AcceptPhase::Stopped
            } else {
                AcceptPhase::Accept
            },
            _ => AcceptPhase::Stopped,
        },
        AcceptPhase::Accept => match e {
            AcceptEvent::Accepted => AcceptPhase::Spawning,
            AcceptEvent::WouldBlock => AcceptPhase::Sleeping,
            _ => AcceptPhase::Stopped,
        },
        AcceptPhase::Spawning | AcceptPhase::Sleeping => match e {
            AcceptEvent::Done => AcceptPhase::CheckStop,
            _ => AcceptPhase::Stopped,
        },
        AcceptPhase::Stopped => AcceptPhase::Stopped,
    }
}

/// The action that each phase asks for.
pub open spec fn accept_action(p: AcceptPhase) -> AcceptAction {
    match p {
        AcceptPhase::CheckStop => AcceptAction::ReadStopFlag,
        AcceptPhase::Accept => AcceptAction::Accept,
        AcceptPhase::Spawning => AcceptAction::SpawnForwarder,
        AcceptPhase::Sleeping => AcceptAction::Sleep { ms: ACCEPT_POLL_MS },
        AcceptPhase::Stopped => AcceptAction::Exit,
    }
}

/// The accept loop of a tunnel.
pub struct AcceptLoop {
    pub phase: AcceptPhase,
}

impl AcceptLoop {
    /// A loop at its start, and its first action: reading the stop flag.
    pub fn new() -> (r: (AcceptLoop, AcceptAction))
        ensures
            r.0.phase == AcceptPhase::CheckStop,
            r.1 == accept_action(r.0.phase),
    {
        (AcceptLoop { phase: AcceptPhase::CheckStop }, AcceptAction::ReadStopFlag)
    }

    /// Takes the outcome of the last action and returns the next action.
    pub fn step(&mut self, event: AcceptEvent) -> (a: AcceptAction)
        ensures
            final(self).phase == accept_next(old(self).phase, event),
            a == accept_action(final(self).phase),
    {
        let next = match self.phase {
            AcceptPhase::CheckStop => match event {
                AcceptEvent::StopFlag(raised) => if raised {
                    AcceptPhase::Stopped
                } else {
                    AcceptPhase::Accept
                },
                _ => AcceptPhase::Stopped,
            },
            AcceptPhase::Accept => match event {
                AcceptEvent::Accepted => AcceptPhase::Spawning,
                AcceptEvent::WouldBlock => AcceptPhase::Sleeping,
                _ => AcceptPhase::Stopped,
            },
            AcceptPhase::Spawning | AcceptPhase::Sleeping => match event {
                AcceptEvent::Done => AcceptPhase::CheckStop,
                _ => AcceptPhase::Stopped,
            },
            AcceptPhase::Stopped => AcceptPhase::Stopped,
        };
        self.phase = next;
        match next {
            AcceptPhase::CheckStop => AcceptAction::ReadStopFlag,
            AcceptPhase::Accept => AcceptAction::Accept,
            AcceptPhase::Spawning => AcceptAction::SpawnForwarder,
            AcceptPhase::Sleeping => AcceptAction::Sleep { ms: ACCEPT_POLL_MS },
            AcceptPhase::Stopped => AcceptAction::Exit,
        }
    }
}

/// The accept loop after the outcomes `events`, reported one by one.
pub open spec fn accept_run(p: AcceptPhase, events: Seq<AcceptEvent>) -> AcceptPhase
    decreases events.len(),
{
    if events.len() == 0 {
        p
    } else {
        accept_next(accept_run(p, events.drop_last()), events.last())
    }
}

/// Once the stop flag is read raised, the loop exits and releases its
/// listener, and nothing brings it back; until then the flag is read at
/// least once in every three steps, so the exit comes within one accept and
/// one pause of `ACCEPT_POLL_MS`.
pub proof fn lemma_stop_ends_loop(p: AcceptPhase, e1: AcceptEvent, e2: AcceptEvent, events: Seq<
    AcceptEvent,
>)
    ensures
        accept_next(AcceptPhase::CheckStop, AcceptEvent::StopFlag(true)) == AcceptPhase::Stopped,
        accept_action(AcceptPhase::Stopped) == AcceptAction::Exit,
        accept_run(AcceptPhase::Stopped, events) == AcceptPhase::Stopped,
        ({
            let q1 = accept_next(p, e1);
            let q2 = accept_next(q1, e2);
            p == AcceptPhase::CheckStop || q1 == AcceptPhase::CheckStop || q2
                == AcceptPhase::CheckStop || q2 == AcceptPhase::Stopped
        }),
    decreases events.len(),
{
    if events.len() > 0 {
        lemma_stop_ends_loop(p, e1, e2, events.drop_last());
    }
}

} // verus!
