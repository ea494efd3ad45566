//! The pipeline driver: a state machine that is told what happened and says
//! what to log and what to do next. The caller reads the source and talks to
//! the bus; every decision between the two is taken here.

use crate::codec::msgpack_named;
use crate::document::json_document;
use crate::envelope::{document_of, envelope_of, normalize, symbol_of, EncodeError};
use crate::publisher::{
    report, report_of, DeliveryMode, LogLine, LogLineView, PublishOutcome, PublishOutcomeView,
    Submission, SubmissionView,
};
use crate::sequencer::Sequencer;
use crate::source::{record_text, record_text_of, Inbound, InboundView};
use crate::subject::{subject_for, subject_of};
use vstd::prelude::*;

verus! {

/// The exit status of a run whose source ended cleanly.
pub const EXIT_CLEAN: i32 = 0;

/// The exit status of a run that ended on a setup failure or a broken source.
pub const EXIT_FAILED: i32 = 1;

/// Where a run stands.
#[derive(Debug, Clone, Copy, PartialEq, Eq, Structural)]
pub enum Phase {
    /// The bus connection and the source are being set up.
    Connecting,
    /// Records are read and published, one at a time.
    Running,
    /// The source has ended. Nothing is ever buffered, so a run leaves this
    /// phase as soon as it enters it.
    Draining,
    /// The run is over.
    Terminated,
}

/// What happened, as the caller reports it to the driver.
#[derive(Debug, PartialEq, Eq)]
pub enum Event {
    /// The bus connection and the source are up.
    Connected,
    /// Setting up the bus connection or the source failed.
    SetupFailed { reason: String },
    /// The source delivered an item at the given time, in microseconds since
    /// the Unix epoch.
    Item { item: Inbound, now_us: u64 },
    /// The publish attempt that was asked for came to this.
    Outcome { outcome: PublishOutcome },
    /// The source ended cleanly.
    SourceEnded,
    /// The source broke off with an error.
    SourceFailed { reason: String },
}

/// What an [`Event`] holds.
pub enum EventView {
    Connected,
    SetupFailed { reason: Seq<char> },
    Item { item: InboundView, now_us: u64 },
    Outcome { outcome: PublishOutcomeView },
    SourceEnded,
    SourceFailed { reason: Seq<char> },
}

impl View for Event {
    type V = EventView;

    open spec fn view(&self) -> EventView {
        match self {
            Event::Connected => EventView::Connected,
            Event::SetupFailed { reason } => EventView::SetupFailed { reason: reason@ },
            Event::Item { item, now_us } => EventView::Item { item: item@, now_us: *now_us },
            Event::Outcome { outcome } => EventView::Outcome { outcome: outcome@ },
            Event::SourceEnded => EventView::SourceEnded,
            Event::SourceFailed { reason } => EventView::SourceFailed { reason: reason@ },
        }
    }
}

/// What the caller is to do next.
#[derive(Debug, PartialEq, Eq)]
pub enum Command {
    /// Set up the bus connection, for the given mode, and the source; then
    /// report `Connected` or `SetupFailed`.
    Connect { mode: DeliveryMode },
    /// Read the next item from the source; then report `Item`, `SourceEnded`
    /// or `SourceFailed`.
    Pull,
    /// Publish the payload under the subject in the given mode; then report
    /// `Outcome`.
    Publish { mode: DeliveryMode, seq: u64, subject: String, payload: Vec<u8> },
    /// Report the `Outcome` that is still due.
    Await,
    /// Leave with the given exit status.
    Exit { code: i32 },
}

/// What a [`Command`] holds.
pub enum CommandView {
    Connect { mode: DeliveryMode },
    Pull,
    Publish { mode: DeliveryMode, seq: nat, subject: Seq<char>, payload: Seq<u8> },
    Await,
    Exit { code: i32 },
}

impl View for Command {
    type V = CommandView;

    open spec fn view(&self) -> CommandView {
        match self {
            Command::Connect { mode } => CommandView::Connect { mode: *mode },
            Command::Pull => CommandView::Pull,
            Command::Publish { mode, seq, subject, payload } => CommandView::Publish {
                mode: *mode,
                seq: *seq as nat,
                subject: subject@,
                payload: payload@,
            },
            Command::Await => CommandView::Await,
            Command::Exit { code } => CommandView::Exit { code: *code },
        }
    }
}

/// The driver's answer to an event: at most one log line, and the next command.
#[derive(Debug, PartialEq, Eq)]
pub struct Reaction {
    pub log: Option<LogLine>,
    pub command: Command,
}

/// What a [`Reaction`] holds.
pub struct ReactionView {
    pub log: Option<LogLineView>,
    pub command: CommandView,
}

impl View for Reaction {
    type V = ReactionView;

    open spec fn view(&self) -> ReactionView {
        ReactionView {
            log: match self.log {
                Some(line) => Some(line@),
                None => None,
            },
            command: self.command@,
        }
    }
}

impl ReactionView {
    /// What the encoder complained of, where the reaction reports that it did.
    pub open spec fn encode_fault(self) -> Option<Seq<char>> {
        match self.log {
            Some(LogLineView::EncodeFailed { error, .. }) => Some(error),
            _ => None,
        }
    }
}

/// The state of a run.
pub struct DriverState {
    pub phase: Phase,
    pub prefix: Seq<char>,
    pub mode: DeliveryMode,
    /// How many sequence numbers the run has issued: the next one to issue.
    pub issued: nat,
    /// The submission whose outcome is due, if any.
    pub pending: Option<SubmissionView>,
    /// Whether the run met a setup failure or a broken source.
    pub failed: bool,
}

impl DriverState {
    /// The state in which every run starts.
    pub open spec fn initial(prefix: Seq<char>, mode: DeliveryMode) -> DriverState {
        DriverState {
            phase: Phase::Connecting,
            prefix,
            mode,
            issued: 0,
            pending: None,
            failed: false,
        }
    }

    /// The exit status that the run ends with.
    pub open spec fn exit_code(self) -> i32 {
        if self.failed {
            EXIT_FAILED
        } else {
            EXIT_CLEAN
        }
    }

    /// The command that the state waits on.
    pub open spec fn due(self) -> CommandView {
        match self.phase {
            Phase::Connecting => CommandView::Connect { mode: self.mode },
            Phase::Running => if self.pending is Some {
                CommandView::Await
            } else {
                CommandView::Pull
            },
            Phase::Draining => CommandView::Exit { code: self.exit_code() },
            Phase::Terminated => CommandView::Exit { code: self.exit_code() },
        }
    }

    /// An event that the state has no use for changes nothing and logs
    /// nothing; the answer repeats the command that is due.
    pub open spec fn unmoved(self) -> (DriverState, ReactionView) {
        (self, ReactionView { log: None, command: self.due() })
    }

    /// Setup is done: the run starts to read.
    pub open spec fn started(self) -> (DriverState, ReactionView) {
        (
            DriverState { phase: Phase::Running, ..self },
            ReactionView { log: None, command: CommandView::Pull },
        )
    }

    /// A failure that ends the run: it is logged, and the run leaves with a
    /// non-zero status.
    pub open spec fn aborted(self, line: LogLineView) -> (DriverState, ReactionView) {
        (
            DriverState { phase: Phase::Terminated, failed: true, ..self },
            ReactionView { log: Some(line), command: CommandView::Exit { code: EXIT_FAILED } },
        )
    }

    /// Draining has nothing to wait for: the run is over.
    pub open spec fn drained(self) -> (DriverState, ReactionView) {
        (
            DriverState { phase: Phase::Terminated, ..self },
            ReactionView { log: None, command: CommandView::Exit { code: self.exit_code() } },
        )
    }

    /// The source has ended: the run drains, which is immediate.
    pub open spec fn ended(self) -> (DriverState, ReactionView) {
        DriverState { phase: Phase::Draining, ..self }.drained()
    }

    /// The outcome of the pending submission is logged, success or failure,
    /// and the run reads on.
    pub open spec fn concluded(self, outcome: PublishOutcomeView) -> (DriverState, ReactionView)
        recommends
            self.pending is Some,
    {
        (
            DriverState { pending: None, ..self },
            ReactionView {
                log: Some(report_of(self.mode, self.pending->0, outcome)),
                command: CommandView::Pull,
            },
        )
    }

    /// A normalised record takes the next sequence number, whatever follows.
    /// Where the encoder gave bytes they are to be published and the outcome
    /// is due; where it failed, that is logged and the run reads on.
    pub open spec fn dispatched(self, subject: Seq<char>, encoded: Result<Seq<u8>, Seq<char>>) -> (
        DriverState,
        ReactionView,
    ) {
        if self.phase == Phase::Running && self.pending is None {
            match encoded {
                Ok(payload) => (
                    DriverState {
                        issued: self.issued + 1,
                        pending: Some(
                            SubmissionView { seq: self.issued, subject, bytes: payload.len() },
                        ),
                        ..self
                    },
                    ReactionView {
                        log: None,
                        command: CommandView::Publish {
                            mode: self.mode,
                            seq: self.issued,
                            subject,
                            payload,
                        },
                    },
                ),
                Err(error) => (
                    DriverState { issued: self.issued + 1, ..self },
                    ReactionView {
                        log: Some(LogLineView::EncodeFailed { seq: self.issued, subject, error }),
                        command: CommandView::Pull,
                    },
                ),
            }
        } else {
            self.unmoved()
        }
    }

    /// An item from the source. A blank line or a control frame is passed
    /// over in silence. A text that is no JSON document is logged and takes
    /// no sequence number. Any other record is normalised with the next
    /// sequence number, encoded and dispatched under the subject of its
    /// symbol. `fault` is what the encoder complains of, if it does.
    pub open spec fn accepted(self, item: InboundView, now_us: u64, fault: Option<Seq<char>>) -> (
        DriverState,
        ReactionView,
    ) {
        match record_text_of(item) {
            None => self.unmoved(),
            Some(text) => match json_document(text) {
                Err(message) => (
                    self,
                    ReactionView {
                        log: Some(LogLineView::ParseFailed { error: message }),
                        command: CommandView::Pull,
                    },
                ),
                Ok(doc) => self.dispatched(
                    subject_of(self.prefix, symbol_of(doc)),
                    match fault {
                        Some(error) => Err(error),
                        None => Ok(
                            msgpack_named(document_of(envelope_of(doc, self.issued as u64, now_us))),
                        ),
                    },
                ),
            },
        }
    }

    /// The state after an event, and the answer to it.
    pub open spec fn react(self, event: EventView, fault: Option<Seq<char>>) -> (
        DriverState,
        ReactionView,
    ) {
        match self.phase {
            Phase::Connecting => match event {
                EventView::Connected => self.started(),
                EventView::SetupFailed { reason } => self.aborted(
                    LogLineView::SetupFailed { reason },
                ),
                _ => self.unmoved(),
            },
            Phase::Running => if self.pending is Some {
                match event {
                    EventView::Outcome { outcome } => self.concluded(outcome),
                    _ => self.unmoved(),
                }
            } else {
                match event {
                    EventView::Item { item, now_us } => self.accepted(item, now_us, fault),
                    EventView::SourceEnded => self.ended(),
                    EventView::SourceFailed { reason } => self.aborted(
                        LogLineView::SourceFailed { reason },
                    ),
                    _ => self.unmoved(),
                }
            },
            Phase::Draining => self.drained(),
            Phase::Terminated => self.unmoved(),
        }
    }
}

/// The driver of one pipeline run.
pub struct Driver {
    phase: Phase,
    subj_prefix: String,
    mode: DeliveryMode,
    sequencer: Sequencer,
    pending: Option<Submission>,
    failed: bool,
}

impl View for Driver {
    type V = DriverState;

    closed spec fn view(&self) -> DriverState {
        DriverState {
            phase: self.phase,
            prefix: self.subj_prefix@,
            mode: self.mode,
            issued: self.sequencer@,
            pending: match self.pending {
                Some(p) => Some(p@),
                None => None,
            },
            failed: self.failed,
        }
    }
}

impl Driver {
    /// A driver for a run that publishes under `subj_prefix` in `mode`. It
    /// starts in `Connecting`, with a sequencer of its own at zero.
    pub fn new(subj_prefix: &str, mode: DeliveryMode) -> (driver: Driver)
        ensures
            driver@ == DriverState::initial(subj_prefix@, mode),
    {
        Driver {
            phase: Phase::Connecting,
            subj_prefix: String::from_str(subj_prefix),
            mode,
            sequencer: Sequencer::new(),
            pending: None,
            failed: false,
        }
    }

    /// The phase of the run.
    pub fn phase(&self) -> (phase: Phase)
        ensures
            phase == self@.phase,
    {
        self.phase
    }

    /// The delivery mode of the run.
    pub fn mode(&self) -> (mode: DeliveryMode)
        ensures
            mode == self@.mode,
    {
        self.mode
    }

    /// How many sequence numbers the run has issued.
    pub fn issued(&self) -> (n: u64)
        ensures
            n == self@.issued,
    {
        self.sequencer.issued()
    }

    /// Whether the outcome of a publish attempt is due.
    pub fn awaits_outcome(&self) -> (b: bool)
        ensures
            b == (self@.pending is Some),
    {
        self.pending.is_some()
    }

    /// The exit status that the run ends with: zero unless setup failed or
    /// the source broke off.
    pub fn exit_code(&self) -> (code: i32)
        ensures
            code == self@.exit_code(),
    {
        if self.failed {
            EXIT_FAILED
        } else {
            EXIT_CLEAN
        }
    }

    /// The command that the driver waits on.
    pub fn due(&self) -> (command: Command)
        ensures
            command@ == self@.due(),
    {
        match self.phase {
            Phase::Connecting => Command::Connect { mode: self.mode },
            Phase::Running => {
                if self.pending.is_some() {
                    Command::Await
                } else {
                    Command::Pull
                }
            },
            Phase::Draining => Command::Exit { code: self.exit_code() },
            Phase::Terminated => Command::Exit { code: self.exit_code() },
        }
    }

    fn unmoved(&self) -> (r: Reaction)
        ensures
            (self@, r@) == self@.unmoved(),
    {
        Reaction { log: None, command: self.due() }
    }

    fn abort(&mut self, line: LogLine) -> (r: Reaction)
        ensures
            (final(self)@, r@) == old(self)@.aborted(line@),
    {
        self.phase = Phase::Terminated;
        self.failed = true;
        Reaction { log: Some(line), command: Command::Exit { code: EXIT_FAILED } }
    }

    fn drain(&mut self) -> (r: Reaction)
        ensures
            (final(self)@, r@) == old(self)@.drained(),
    {
        let code = self.exit_code();
        self.phase = Phase::Terminated;
        Reaction { log: None, command: Command::Exit { code } }
    }

    /// Hands a normalised record on with what the encoder made of it. While
    /// the run is reading, the record takes the next sequence number: with
    /// bytes it is to be published and its outcome is due; with an encoder
    /// error that is logged and the run reads on. At any other time nothing
    /// changes.
    pub fn dispatch(&mut self, subject: String, encoded: Result<Vec<u8>, EncodeError>) -> (r:
        Reaction)
        requires
            old(self)@.issued < u64::MAX,
        ensures
            (final(self)@, r@) == old(self)@.dispatched(
                subject@,
                match encoded {
                    Ok(payload) => Ok(payload@),
                    Err(error) => Err(error.message@),
                },
            ),
    {
        match self.phase {
            Phase::Running => {},
            _ => {
                return self.unmoved();
            },
        }
        if self.pending.is_some() {
            return self.unmoved();
        }
        let seq = self.sequencer.issue();
        match encoded {
            Ok(payload) => {
                self.pending = Some(
                    Submission { seq, subject: subject.clone(), bytes: payload.len() },
                );
                Reaction {
                    log: None,
                    command: Command::Publish { mode: self.mode, seq, subject, payload },
                }
            },
            Err(error) => Reaction {
                log: Some(LogLine::EncodeFailed { seq, subject, error: error.message }),
                command: Command::Pull,
            },
        }
    }

    fn accept(&mut self, item: Inbound, now_us: u64) -> (r: Reaction)
        requires
            old(self)@.issued < u64::MAX,
            old(self)@.phase == Phase::Running,
            old(self)@.pending is None,
        ensures
            (final(self)@, r@) == old(self)@.accepted(item@, now_us, r@.encode_fault()),
    {
        let text = match record_text(item) {
            Some(text) => text,
            None => {
                return self.unmoved();
            },
        };
        let envelope = match normalize(text.as_str(), self.sequencer.issued(), now_us) {
            Ok(envelope) => envelope,
            Err(error) => {
                return Reaction {
                    log: Some(LogLine::ParseFailed { error: error.message }),
                    command: Command::Pull,
                };
            },
        };
        let subject = subject_for(self.subj_prefix.as_str(), envelope.symbol());
        let encoded = envelope.encode();
        self.dispatch(subject, encoded)
    }

    /// Takes one event and answers with at most one log line and the next
    /// command. The answer is settled by the state and the event, but for
    /// one thing: whether the encoder fails, which the answer itself shows.
    pub fn step(&mut self, event: Event) -> (r: Reaction)
        requires
            old(self)@.issued < u64::MAX,
        ensures
            (final(self)@, r@) == old(self)@.react(event@, r@.encode_fault()),
    {
        match self.phase {
            Phase::Connecting => match event {
                Event::Connected => {
                    self.phase = Phase::Running;
                    Reaction { log: None, command: Command::Pull }
                },
                Event::SetupFailed { reason } => self.abort(LogLine::SetupFailed { reason }),
                _ => self.unmoved(),
            },
            Phase::Running => {
                if self.pending.is_some() {
                    match event {
                        Event::Outcome { outcome } => {
                            let submission = self.pending.take().unwrap();
                            let line = report(self.mode, submission, outcome);
                            Reaction { log: Some(line), command: Command::Pull }
                        },
                        _ => self.unmoved(),
                    }
                } else {
                    match event {
                        Event::Item { item, now_us } => self.accept(item, now_us),
                        Event::SourceEnded => {
                            self.phase = Phase::Draining;
                            self.drain()
                        },
                        Event::SourceFailed { reason } => self.abort(
                            LogLine::SourceFailed { reason },
                        ),
                        _ => self.unmoved(),
                    }
                }
            },
            Phase::Draining => self.drain(),
            Phase::Terminated => self.unmoved(),
        }
    }
}

} // verus!
