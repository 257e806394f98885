//! The pump of one forwarded connection: the non-blocking, two-way copy
//! between the accepted local socket and the SSH channel to the target.
//!
//! Each iteration reads once from the local socket and once from the
//! channel, writes what was read to the other side, asks whether the channel
//! has reached end-of-data, and sleeps when nothing moved. When one side
//! closes, end-of-data is passed on to the other, and the pump goes on
//! carrying what the other side still sends until it closes too. The pump
//! is a state machine: `step` takes the outcome of the previous action and
//! returns the next one. The bytes of a read are moved into the write action
//! that follows it, and the pump keeps, as ghost state, every byte read from
//! and written to each side.
use vstd::prelude::*;
use crate::error::TunnelError;
use crate::text::{contains, contains_spec};

verus! {

/// Size of the buffer of each read.
pub const BUFFER_SIZE: usize = 32768;

/// Idle iterations after which the pump sleeps longer.
pub const IDLE_ESCALATION: u32 = 100;

/// Sleep after an idle iteration, in milliseconds.
pub const SHORT_SLEEP_MS: u64 = 1;

/// Sleep after an idle iteration once idling has gone on, in milliseconds.
pub const LONG_SLEEP_MS: u64 = 10;

/// How a pump ended.
#[derive(Clone, Copy, Debug, PartialEq, Eq, Structural)]
pub enum PumpEnd {
    /// Both sides closed, and everything each sent was delivered.
    Closed,
    /// A read or write failed on either side.
    Failed,
}

/// Where the pump stands: which action it waits on.
#[derive(Clone, Copy, Debug, PartialEq, Eq, Structural)]
pub enum PumpPhase {
    ReadLocal,
    WriteChannel,
    SendEof,
    ReadChannel,
    WriteLocal,
    CheckEof,
    ShutdownLocal,
    Sleeping,
    Finished { end: PumpEnd },
}

/// The outcome of the action that the pump asked for.
#[derive(Debug)]
pub enum PumpEvent {
    /// A read returned these bytes.
    Data(Vec<u8>),
    /// A read returned no bytes.
    Closed,
    /// A read found nothing to read yet.
    WouldBlock,
    /// A read, write or shutdown failed.
    Failed,
    /// A write or shutdown was carried out in full, or a sleep is over.
    Done,
    /// Whether the channel has reached end-of-data.
    EndOfData(bool),
}

/// The next piece of outside work.
#[derive(Debug)]
pub enum PumpAction {
    /// One non-blocking read from the local socket.
    ReadLocal,
    /// Write all these bytes to the channel and flush it; this write may
    /// block until it is done.
    WriteChannel(Vec<u8>),
    /// The local peer closed its side: send end-of-data on the channel.
    SendEof,
    /// One non-blocking read from the channel.
    ReadChannel,
    /// Write all these bytes to the local socket and flush it.
    WriteLocal(Vec<u8>),
    /// Ask the channel whether it has reached end-of-data.
    CheckEof,
    /// The target closed its side: shut down the writing half of the local
    /// socket.
    ShutdownLocal,
    Sleep { ms: u64 },
    /// Close the channel, waiting for its close, and shut the local socket
    /// down.
    Finish { end: PumpEnd },
}

/// What a pump is, as a value: its phase, idle counting, which sides have
/// closed, and the bytes read from and delivered to each side so far.
pub struct PumpModel {
    pub phase: PumpPhase,
    /// Consecutive iterations in which nothing moved.
    pub idle: u32,
    /// Whether bytes moved in the current iteration.
    pub progress: bool,
    /// Whether the local peer has closed its side.
    pub local_done: bool,
    /// Whether the channel has reached end-of-data.
    pub remote_done: bool,
    pub from_local: Seq<u8>,
    pub to_channel: Seq<u8>,
    pub from_channel: Seq<u8>,
    pub to_local: Seq<u8>,
    /// The bytes of the write under way.
    pub in_flight: Seq<u8>,
}

/// A pump.
pub struct Pump {
    pub phase: PumpPhase,
    pub idle: u32,
    pub progress: bool,
    pub local_done: bool,
    pub remote_done: bool,
    pub from_local: Ghost<Seq<u8>>,
    pub to_channel: Ghost<Seq<u8>>,
    pub from_channel: Ghost<Seq<u8>>,
    pub to_local: Ghost<Seq<u8>>,
    pub in_flight: Ghost<Seq<u8>>,
}

impl View for Pump {
    type V = PumpModel;

    open spec fn view(&self) -> PumpModel {
        PumpModel {
            phase: self.phase,
            idle: self.idle,
            progress: self.progress,
            local_done: self.local_done,
            remote_done: self.remote_done,
            from_local: self.from_local@,
            to_channel: self.to_channel@,
            from_channel: self.from_channel@,
            to_local: self.to_local@,
            in_flight: self.in_flight@,
        }
    }
}

/// The sleep after the idle iteration that brought the count to `idle`.
pub open spec fn backoff_ms(idle: u32) -> u64 {
    if idle > IDLE_ESCALATION {
        LONG_SLEEP_MS
    } else {
        SHORT_SLEEP_MS
    }
}

/// One more idle iteration, the count held at its largest value.
pub open spec fn count_idle(idle: u32) -> u32 {
    if idle < u32::MAX {
        (idle + 1) as u32
    } else {
        idle
    }
}

/// A pump at its start: both sides open, nothing read, nothing written.
pub open spec fn initial_model() -> PumpModel {
    PumpModel {
        phase: PumpPhase::ReadLocal,
        idle: 0,
        progress: false,
        local_done: false,
        remote_done: false,
        from_local: Seq::empty(),
        to_channel: Seq::empty(),
        from_channel: Seq::empty(),
        to_local: Seq::empty(),
        in_flight: Seq::empty(),
    }
}

pub open spec fn finish(s: PumpModel, end: PumpEnd) -> PumpModel {
    PumpModel { phase: PumpPhase::Finished { end }, ..s }
}

/// A new iteration: it reads from the sides that are still open, and the
/// pump ends once both have closed.
pub open spec fn start_iteration(s: PumpModel) -> PumpModel {
    if !s.local_done {
        PumpModel { phase: PumpPhase::ReadLocal, progress: false, ..s }
    } else if !s.remote_done {
        PumpModel { phase: PumpPhase::ReadChannel, progress: false, ..s }
    } else {
        finish(s, PumpEnd::Closed)
    }
}

/// The end of an iteration: the pump ends once both sides have closed; it
/// goes on at once when bytes moved, and sleeps first when none did.
pub open spec fn end_iteration(s: PumpModel) -> PumpModel {
    if s.local_done && s.remote_done {
        finish(s, PumpEnd::Closed)
    } else if s.progress {
        start_iteration(PumpModel { idle: 0, ..s })
    } else {
        PumpModel { phase: PumpPhase::Sleeping, idle: count_idle(s.idle), ..s }
    }
}

/// After the local side's turn: the channel's turn while it is open.
pub open spec fn after_local(s: PumpModel) -> PumpModel {
    if !s.remote_done {
        PumpModel { phase: PumpPhase::ReadChannel, ..s }
    } else {
        end_iteration(s)
    }
}

/// The pump after the outcome `e` of its action. An outcome that does not
/// fit the action is taken as a failure.
pub open spec fn pump_next(s: PumpModel, e: PumpEvent) -> PumpModel {
    match s.phase {
        PumpPhase::ReadLocal => match e {
            PumpEvent::Data(b) => PumpModel {
                phase: PumpPhase::WriteChannel,
                progress: true,
                from_local: s.from_local + b@,
                in_flight: b@,
                ..s
            },
            PumpEvent::Closed => PumpModel { phase: PumpPhase::SendEof, local_done: true, ..s },
            PumpEvent::WouldBlock => after_local(s),
            _ => finish(s, PumpEnd::Failed),
        },
        PumpPhase::WriteChannel => match e {
            PumpEvent::Done => after_local(
                PumpModel {
                    to_channel: s.to_channel + s.in_flight,
                    in_flight: Seq::empty(),
                    ..s
                },
            ),
            _ => finish(s, PumpEnd::Failed),
        },
        PumpPhase::SendEof => match e {
            PumpEvent::Done => after_local(s),
            _ => finish(s, PumpEnd::Failed),
        },
        PumpPhase::ReadChannel => match e {
            PumpEvent::Data(b) => PumpModel {
                phase: PumpPhase::WriteLocal,
                progress: true,
                from_channel: s.from_channel + b@,
                in_flight: b@,
                ..s
            },
            PumpEvent::Closed => PumpModel { phase: PumpPhase::CheckEof, ..s },
            PumpEvent::WouldBlock => PumpModel { phase: PumpPhase::CheckEof, ..s },
            _ => finish(s, PumpEnd::Failed),
        },
        PumpPhase::WriteLocal => match e {
            PumpEvent::Done => PumpModel {
                phase: PumpPhase::CheckEof,
                to_local: s.to_local + s.in_flight,
                in_flight: Seq::empty(),
                ..s
            },
            _ => finish(s, PumpEnd::Failed),
        },
        PumpPhase::CheckEof => match e {
            PumpEvent::EndOfData(eof) => if eof {
                PumpModel { phase: PumpPhase::ShutdownLocal, remote_done: true, ..s }
            } else {
                end_iteration(s)
            },
            _ => finish(s, PumpEnd::Failed),
        },
        PumpPhase::ShutdownLocal => match e {
            PumpEvent::Done => end_iteration(s),
            _ => finish(s, PumpEnd::Failed),
        },
        PumpPhase::Sleeping => match e {
            PumpEvent::Done => start_iteration(s),
            _ => finish(s, PumpEnd::Failed),
        },
        PumpPhase::Finished { .. } => s,
    }
}

/// The action that a pump in state `s` asks for.
pub open spec fn action_fits(s: PumpModel, a: PumpAction) -> bool {
    match s.phase {
        PumpPhase::ReadLocal => a is ReadLocal,
        PumpPhase::WriteChannel => a matches PumpAction::WriteChannel(b) && b@ == s.in_flight,
        PumpPhase::SendEof => a is SendEof,
        PumpPhase::ReadChannel => a is ReadChannel,
        PumpPhase::WriteLocal => a matches PumpAction::WriteLocal(b) && b@ == s.in_flight,
        PumpPhase::CheckEof => a is CheckEof,
        PumpPhase::ShutdownLocal => a is ShutdownLocal,
        PumpPhase::Sleeping => a == (PumpAction::Sleep { ms: backoff_ms(s.idle) }),
        PumpPhase::Finished { end } => a == (PumpAction::Finish { end }),
    }
}

impl Pump {
    /// A pump at its start, and its first action: a read from the local
    /// socket.
    pub fn new() -> (r: (Pump, PumpAction))
        ensures
            r.0@ == initial_model(),
            action_fits(r.0@, r.1),
    {
        let pump = Pump {
            phase: PumpPhase::ReadLocal,
            idle: 0,
            progress: false,
            local_done: false,
            remote_done: false,
            from_local: Ghost(Seq::empty()),
            to_channel: Ghost(Seq::empty()),
            from_channel: Ghost(Seq::empty()),
            to_local: Ghost(Seq::empty()),
            in_flight: Ghost(Seq::empty()),
        };
        (pump, PumpAction::ReadLocal)
    }

    fn finish(&mut self, end: PumpEnd) -> (a: PumpAction)
        ensures
            final(self)@ == finish(old(self)@, end),
            action_fits(final(self)@, a),
    {
        self.phase = PumpPhase::Finished { end };
        PumpAction::Finish { end }
    }

    fn start_iteration(&mut self) -> (a: PumpAction)
        ensures
            final(self)@ == start_iteration(old(self)@),
            action_fits(final(self)@, a),
    {
        if !self.local_done {
            self.phase = PumpPhase::ReadLocal;
            self.progress = false;
            PumpAction::ReadLocal
        } else if !self.remote_done {
            self.phase = PumpPhase::ReadChannel;
            self.progress = false;
            PumpAction::ReadChannel
        } else {
            self.finish(PumpEnd::Closed)
        }
    }

    fn end_iteration(&mut self) -> (a: PumpAction)
        ensures
            final(self)@ == end_iteration(old(self)@),
            action_fits(final(self)@, a),
    {
        if self.local_done && self.remote_done {
            self.finish(PumpEnd::Closed)
        } else if self.progress {
            self.idle = 0;
            self.start_iteration()
        } else {
            if self.idle < u32::MAX {
                self.idle = self.idle + 1;
            }
            self.phase = PumpPhase::Sleeping;
            let ms = if self.idle > IDLE_ESCALATION {
                LONG_SLEEP_MS
            } else {
                SHORT_SLEEP_MS
            };
            PumpAction::Sleep { ms }
        }
    }

    fn after_local(&mut self) -> (a: PumpAction)
        ensures
            final(self)@ == after_local(old(self)@),
            action_fits(final(self)@, a),
    {
        if !self.remote_done {
            self.phase = PumpPhase::ReadChannel;
            PumpAction::ReadChannel
        } else {
            self.end_iteration()
        }
    }

    /// Takes the outcome of the last action and returns the next action.
    pub fn step(&mut self, event: PumpEvent) -> (a: PumpAction)
        ensures
            final(self)@ == pump_next(old(self)@, event),
            action_fits(final(self)@, a),
    {
        match self.phase {
            PumpPhase::ReadLocal => match event {
                PumpEvent::Data(bytes) => {
                    self.phase = PumpPhase::WriteChannel;
                    self.progress = true;
                    self.from_local = Ghost(self.from_local@ + bytes@);
                    self.in_flight = Ghost(bytes@);
                    PumpAction::WriteChannel(bytes)
                },
                PumpEvent::Closed => {
                    self.phase = PumpPhase::SendEof;
                    self.local_done = true;
                    PumpAction::SendEof
                },
                PumpEvent::WouldBlock => self.after_local(),
                _ => self.finish(PumpEnd::Failed),
            },
            PumpPhase::WriteChannel => match event {
                PumpEvent::Done => {
                    self.to_channel = Ghost(self.to_channel@ + self.in_flight@);
                    self.in_flight = Ghost(Seq::empty());
                    self.after_local()
                },
                _ => self.finish(PumpEnd::Failed),
            },
            PumpPhase::SendEof => match event {
                PumpEvent::Done => self.after_local(),
                _ => self.finish(PumpEnd::Failed),
            },
            PumpPhase::ReadChannel => match event {
                PumpEvent::Data(bytes) => {
                    self.phase = PumpPhase::WriteLocal;
                    self.progress = true;
                    self.from_channel = Ghost(self.from_channel@ + bytes@);
                    self.in_flight = Ghost(bytes@);
                    PumpAction::WriteLocal(bytes)
                },
                PumpEvent::Closed | PumpEvent::WouldBlock => {
                    self.phase = PumpPhase::CheckEof;
                    PumpAction::CheckEof
                },
                _ => self.finish(PumpEnd::Failed),
            },
            PumpPhase::WriteLocal => match event {
                PumpEvent::Done => {
                    self.phase = PumpPhase::CheckEof;
                    self.to_local = Ghost(self.to_local@ + self.in_flight@);
                    self.in_flight = Ghost(Seq::empty());
                    PumpAction::CheckEof
                },
                _ => self.finish(PumpEnd::Failed),
            },
            PumpPhase::CheckEof => match event {
                PumpEvent::EndOfData(eof) => if eof {
                    self.phase = PumpPhase::ShutdownLocal;
                    self.remote_done = true;
                    PumpAction::ShutdownLocal
                } else {
                    self.end_iteration()
                },
                _ => self.finish(PumpEnd::Failed),
            },
            PumpPhase::ShutdownLocal => match event {
                PumpEvent::Done => self.end_iteration(),
                _ => self.finish(PumpEnd::Failed),
            },
            PumpPhase::Sleeping => match event {
                PumpEvent::Done => self.start_iteration(),
                _ => self.finish(PumpEnd::Failed),
            },
            PumpPhase::Finished { end } => PumpAction::Finish { end },
        }
    }

    /// How the pump ended: `Ok` after both sides closed, `IoError` after a
    /// failed read, write or shutdown; `None` while it runs.
    pub fn result(&self) -> (r: Option<Result<(), TunnelError>>)
        ensures
            !(self.phase is Finished) ==> r is None,
            self.phase == (PumpPhase::Finished { end: PumpEnd::Failed }) ==> r == Some(
                Err::<(), TunnelError>(TunnelError::IoError),
            ),
            self.phase == (PumpPhase::Finished { end: PumpEnd::Closed }) ==> r == Some(
                Ok::<(), TunnelError>(()),
            ),
    {
        match self.phase {
            PumpPhase::Finished { end: PumpEnd::Failed } => Some(Err(TunnelError::IoError)),
            PumpPhase::Finished { end: PumpEnd::Closed } => Some(Ok(())),
            _ => None,
        }
    }
}

/// Whether a failed read of the channel only means that nothing was there
/// yet: an error of the would-block kind, or one whose message says so in
/// the words of the SSH library (`EAGAIN`, `would block`).
pub open spec fn would_block_spec(kind_would_block: bool, message: Seq<char>) -> bool {
    kind_would_block || contains_spec(message, "EAGAIN"@) || contains_spec(message, "would block"@)
}

/// Tells apart a failed channel read that only found nothing to read.
pub fn read_would_block(kind_would_block: bool, message: &str) -> (r: bool)
    ensures
        r == would_block_spec(kind_would_block, message@),
{
    kind_would_block || contains(message, "EAGAIN") || contains(message, "would block")
}


/// The pump after the outcomes `events`, reported one by one.
pub open spec fn pump_run(s: PumpModel, events: Seq<PumpEvent>) -> PumpModel
    decreases events.len(),
{
    if events.len() == 0 {
        s
    } else {
        pump_next(pump_run(s, events.drop_last()), events.last())
    }
}

/// What has been written to each side is what was read from the other, in
/// the same order: all of it, but for the one write under way, or the one
/// that failed; and a pump that ended cleanly saw both sides close.
pub open spec fn delivered_so_far(s: PumpModel) -> bool {
    &&& s.to_channel.len() <= s.from_local.len()
    &&& s.to_channel == s.from_local.take(s.to_channel.len() as int)
    &&& s.to_local.len() <= s.from_channel.len()
    &&& s.to_local == s.from_channel.take(s.to_local.len() as int)
    &&& s.phase == PumpPhase::WriteChannel ==> s.from_local == s.to_channel + s.in_flight
        && s.to_local == s.from_channel
    &&& s.phase == PumpPhase::WriteLocal ==> s.from_channel == s.to_local + s.in_flight
        && s.to_channel == s.from_local
    &&& !(s.phase == PumpPhase::WriteChannel || s.phase == PumpPhase::WriteLocal || s.phase == (
    PumpPhase::Finished { end: PumpEnd::Failed })) ==> s.to_channel == s.from_local && s.to_local
        == s.from_channel
    &&& s.phase == (PumpPhase::Finished { end: PumpEnd::Closed }) ==> s.local_done
        && s.remote_done
}

/// One step keeps every byte that was read on its way: nothing is lost,
/// repeated or reordered.
pub proof fn lemma_step_delivers(s: PumpModel, e: PumpEvent)
    requires
        delivered_so_far(s),
    ensures
        delivered_so_far(pump_next(s, e)),
{
    let t = pump_next(s, e);
    if s.phase == PumpPhase::ReadLocal && e is Data {
        assert(t.from_local.take(t.to_channel.len() as int) =~= t.to_channel);
    }
    if s.phase == PumpPhase::ReadChannel && e is Data {
        assert(t.from_channel.take(t.to_local.len() as int) =~= t.to_local);
    }
    if s.phase == PumpPhase::WriteChannel {
        assert(s.from_local.take(s.from_local.len() as int) =~= s.from_local);
        assert(s.from_local.take(s.to_channel.len() as int) =~= s.to_channel);
    }
    if s.phase == PumpPhase::WriteLocal {
        assert(s.from_channel.take(s.from_channel.len() as int) =~= s.from_channel);
        assert(s.from_channel.take(s.to_local.len() as int) =~= s.to_local);
    }
    if t.to_channel == t.from_local {
        assert(t.from_local.take(t.to_channel.len() as int) =~= t.to_channel);
    }
    if t.to_local == t.from_channel {
        assert(t.from_channel.take(t.to_local.len() as int) =~= t.to_local);
    }
}

/// Bytes pass through the pump unchanged, in order and exactly once, in
/// each direction and for any data sizes: at every point of its course the
/// bytes written to a side are a prefix of those read from the other; and
/// a pump ends cleanly only after both sides have closed, with everything
/// that each side sent delivered to the other.
pub proof fn lemma_pump_delivers_in_order(events: Seq<PumpEvent>)
    ensures
        delivered_so_far(pump_run(initial_model(), events)),
        pump_run(initial_model(), events).phase == (PumpPhase::Finished { end: PumpEnd::Closed })
            ==> pump_run(initial_model(), events).local_done && pump_run(
            initial_model(),
            events,
        ).remote_done && pump_run(initial_model(), events).to_channel == pump_run(
            initial_model(),
            events,
        ).from_local && pump_run(initial_model(), events).to_local == pump_run(
            initial_model(),
            events,
        ).from_channel,
    decreases events.len(),
{
    if events.len() == 0 {
        assert(Seq::<u8>::empty().take(0) =~= Seq::<u8>::empty());
    } else {
        lemma_pump_delivers_in_order(events.drop_last());
        lemma_step_delivers(pump_run(initial_model(), events.drop_last()), events.last());
    }
}

/// Half-close: when the local peer closes first, end-of-data goes to the
/// channel and the pump goes on reading the channel, so that what the
/// target still sends reaches the local socket; when the target closes
/// first, the local socket's writing half is shut down and the pump goes
/// on reading the local socket, so that what the local peer still sends
/// reaches the channel. Neither close alone ends the pump.
pub proof fn lemma_half_close_drains(s: PumpModel)
    ensures
        s.phase == PumpPhase::ReadLocal && !s.remote_done ==> pump_next(s, PumpEvent::Closed).phase
            == PumpPhase::SendEof && pump_next(pump_next(s, PumpEvent::Closed), PumpEvent::Done)
            == (PumpModel { phase: PumpPhase::ReadChannel, local_done: true, ..s }),
        s.phase == PumpPhase::CheckEof && !s.local_done ==> pump_next(
            s,
            PumpEvent::EndOfData(true),
        ).phase == PumpPhase::ShutdownLocal && !(pump_next(
            pump_next(s, PumpEvent::EndOfData(true)),
            PumpEvent::Done,
        ).phase is Finished),
        s.local_done && !s.remote_done && !(s.phase is Finished) ==> start_iteration(s).phase
            == PumpPhase::ReadChannel,
        s.remote_done && !s.local_done ==> start_iteration(s).phase == PumpPhase::ReadLocal,
{
}

/// Milliseconds slept over the first `k` iterations of an idle stretch.
pub open spec fn idle_sleep_total(k: nat) -> int
    decreases k,
{
    if k == 0 {
        0
    } else {
        idle_sleep_total((k - 1) as nat) + backoff_ms(k as u32)
    }
}

/// An iteration in which nothing moves, both sides open, ends in a sleep of
/// `backoff_ms` of the raised idle count, and the next iteration starts
/// from there.
pub proof fn lemma_idle_iteration(s: PumpModel)
    requires
        s.phase == PumpPhase::ReadLocal,
        !s.progress,
        !s.local_done,
        !s.remote_done,
    ensures
        pump_run(s, seq![PumpEvent::WouldBlock, PumpEvent::WouldBlock, PumpEvent::EndOfData(false)])
            == (PumpModel { phase: PumpPhase::Sleeping, idle: count_idle(s.idle), ..s }),
        pump_run(
            s,
            seq![
                PumpEvent::WouldBlock,
                PumpEvent::WouldBlock,
                PumpEvent::EndOfData(false),
                PumpEvent::Done,
            ],
        ) == (PumpModel { phase: PumpPhase::ReadLocal, idle: count_idle(s.idle), ..s }),
        action_fits(
            PumpModel { phase: PumpPhase::Sleeping, idle: count_idle(s.idle), ..s },
            PumpAction::Sleep { ms: backoff_ms(count_idle(s.idle)) },
        ),
{
    let e1 = seq![PumpEvent::WouldBlock];
    let e2 = seq![PumpEvent::WouldBlock, PumpEvent::WouldBlock];
    let e3 = seq![PumpEvent::WouldBlock, PumpEvent::WouldBlock, PumpEvent::EndOfData(false)];
    let e4 = seq![
        PumpEvent::WouldBlock,
        PumpEvent::WouldBlock,
        PumpEvent::EndOfData(false),
        PumpEvent::Done,
    ];
    assert(e1.drop_last() =~= Seq::<PumpEvent>::empty());
    assert(e2.drop_last() =~= e1);
    assert(e3.drop_last() =~= e2);
    assert(e4.drop_last() =~= e3);
    assert(pump_run(s, Seq::<PumpEvent>::empty()) == s);
    let s1 = PumpModel { phase: PumpPhase::ReadChannel, ..s };
    assert(pump_run(s, e1) == s1);
    let s2 = PumpModel { phase: PumpPhase::CheckEof, ..s };
    assert(pump_run(s, e2) == s2);
    let s3 = PumpModel { phase: PumpPhase::Sleeping, idle: count_idle(s.idle), ..s };
    assert(pump_run(s, e3) == s3);
    assert(pump_run(s, e4) == pump_next(s3, PumpEvent::Done));
}

/// Idle iterations are paced: `k` of them in a row sleep `k` milliseconds
/// in all while `k` is at most `IDLE_ESCALATION`, and `LONG_SLEEP_MS` more
/// for each one after that. So an idle window of `w` milliseconds holds at
/// most `w` iterations, and at most `IDLE_ESCALATION + (w -
/// IDLE_ESCALATION) / LONG_SLEEP_MS` of them.
pub proof fn lemma_idle_sleep_total(k: nat, w: int)
    requires
        k <= u32::MAX,
    ensures
        idle_sleep_total(k) == (if k <= IDLE_ESCALATION {
            k as int
        } else {
            IDLE_ESCALATION + LONG_SLEEP_MS * (k - IDLE_ESCALATION)
        }),
        idle_sleep_total(k) >= k,
        idle_sleep_total(k) <= w ==> k <= w && LONG_SLEEP_MS * k <= (LONG_SLEEP_MS - 1)
            * IDLE_ESCALATION + w,
    decreases k,
{
    if k > 0 {
        lemma_idle_sleep_total((k - 1) as nat, w);
    }
}

/// Two pumps driven side by side: each event goes to the first pump
/// (`true`) or to the second.
pub open spec fn pair_run(a: PumpModel, b: PumpModel, events: Seq<(bool, PumpEvent)>) -> (
    PumpModel,
    PumpModel,
)
    decreases events.len(),
{
    if events.len() == 0 {
        (a, b)
    } else {
        let (x, y) = pair_run(a, b, events.drop_last());
        let (first, e) = events.last();
        if first {
            (pump_next(x, e), y)
        } else {
            (x, pump_next(y, e))
        }
    }
}

/// The events of `events` meant for one of the two pumps, in order.
pub open spec fn events_for(events: Seq<(bool, PumpEvent)>, first: bool) -> Seq<PumpEvent>
    decreases events.len(),
{
    if events.len() == 0 {
        Seq::empty()
    } else {
        let rest = events_for(events.drop_last(), first);
        if events.last().0 == first {
            rest.push(events.last().1)
        } else {
            rest
        }
    }
}

/// Connections are isolated: however the events of two connections
/// interleave, and whatever befalls the other one, failures included, each
/// pump takes the course that its own events alone give it.
pub proof fn lemma_connections_isolated(a: PumpModel, b: PumpModel, events: Seq<(bool, PumpEvent)>)
    ensures
        pair_run(a, b, events).0 == pump_run(a, events_for(events, true)),
        pair_run(a, b, events).1 == pump_run(b, events_for(events, false)),
    decreases events.len(),
{
    if events.len() > 0 {
        lemma_connections_isolated(a, b, events.drop_last());
        let rest_a = events_for(events.drop_last(), true);
        let rest_b = events_for(events.drop_last(), false);
        assert(rest_a.push(events.last().1).drop_last() =~= rest_a);
        assert(rest_b.push(events.last().1).drop_last() =~= rest_b);
    }
}

} // verus!
