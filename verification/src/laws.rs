//! What holds of every run of the driver, stated over the model of a run and
//! proved from the transition function.

use crate::document::{json_document, Json};
use crate::driver::{CommandView, DriverState, EventView, Phase, ReactionView};
use crate::envelope::{symbol_of, UNKNOWN_SYMBOL};
use crate::publisher::{DeliveryMode, LogLineView, PublishOutcomeView};
use crate::source::{record_text_of, InboundView};
use crate::subject::subject_of;
use crate::text::blank;
use vstd::prelude::*;

verus! {

/// One step of a run: the event, and what the encoder complains of should
/// the step ask it and it fail.
pub struct Occurrence {
    pub event: EventView,
    pub fault: Option<Seq<char>>,
}

/// A run from a state: where it ends, and the driver's answers in order.
pub open spec fn run(start: DriverState, steps: Seq<Occurrence>) -> (
    DriverState,
    Seq<ReactionView>,
)
    decreases steps.len(),
{
    if steps.len() == 0 {
        (start, Seq::empty())
    } else {
        let (before, trace) = run(start, steps.drop_last());
        let (after, reaction) = before.react(steps.last().event, steps.last().fault);
        (after, trace.push(reaction))
    }
}

/// Whether the event hands the state a record that passes normalisation: the
/// run is reading, and the item carries a text that is a JSON document.
pub open spec fn passes_normalization(state: DriverState, event: EventView) -> bool {
    &&& state.phase == Phase::Running
    &&& state.pending is None
    &&& event matches EventView::Item { item, .. }
    &&& record_text_of(item) matches Some(text)
    &&& json_document(text) is Ok
}

/// How many records passed normalisation in a run.
pub open spec fn normalized_count(start: DriverState, steps: Seq<Occurrence>) -> nat
    decreases steps.len(),
{
    if steps.len() == 0 {
        0
    } else {
        let before = run(start, steps.drop_last()).0;
        normalized_count(start, steps.drop_last()) + if passes_normalization(
            before,
            steps.last().event,
        ) {
            1nat
        } else {
            0nat
        }
    }
}

/// The sequence number that an answer assigns to a record, if it assigns
/// one: that of the publish it asks for, or of the encoder failure it logs.
pub open spec fn assigned_by(reaction: ReactionView) -> Option<nat> {
    match reaction.command {
        CommandView::Publish { seq, .. } => Some(seq),
        _ => match reaction.log {
            Some(LogLineView::EncodeFailed { seq, .. }) => Some(seq),
            _ => None,
        },
    }
}

/// The sequence number that an answer logs, if it logs one.
pub open spec fn logged_by(reaction: ReactionView) -> Option<nat> {
    match reaction.log {
        Some(line) => line.seq(),
        None => None,
    }
}

/// The sequence numbers that a run assigned, in order.
pub open spec fn assigned(trace: Seq<ReactionView>) -> Seq<nat>
    decreases trace.len(),
{
    if trace.len() == 0 {
        Seq::empty()
    } else {
        match assigned_by(trace.last()) {
            Some(seq) => assigned(trace.drop_last()).push(seq),
            None => assigned(trace.drop_last()),
        }
    }
}

/// The sequence numbers that a run logged, in order.
pub open spec fn logged(trace: Seq<ReactionView>) -> Seq<nat>
    decreases trace.len(),
{
    if trace.len() == 0 {
        Seq::empty()
    } else {
        match logged_by(trace.last()) {
            Some(seq) => logged(trace.drop_last()).push(seq),
            None => logged(trace.drop_last()),
        }
    }
}

/// The numbers below `n`, counting up from zero.
pub open spec fn count_up(n: nat) -> Seq<nat> {
    Seq::new(n, |i: int| i as nat)
}

/// How many of the issued sequence numbers a state has seen logged: all but
/// the one whose outcome is due.
pub open spec fn settled(state: DriverState) -> int {
    if state.pending is Some {
        state.issued - 1
    } else {
        state.issued as int
    }
}

/// What holds of every state that a run reaches: an outcome is due only
/// while the run is reading, and only for the number issued last.
pub open spec fn coherent(state: DriverState) -> bool {
    state.pending matches Some(submission) ==> {
        &&& state.phase == Phase::Running
        &&& submission.seq + 1 == state.issued
    }
}

proof fn lemma_step(state: DriverState, event: EventView, fault: Option<Seq<char>>)
    requires
        coherent(state),
    ensures
        ({
            let (after, reaction) = state.react(event, fault);
            &&& coherent(after)
            &&& after.issued == state.issued + if passes_normalization(state, event) {
                1nat
            } else {
                0nat
            }
            &&& assigned_by(reaction) == if passes_normalization(state, event) {
                Some(state.issued)
            } else {
                None
            }
            &&& match logged_by(reaction) {
                Some(seq) => seq == settled(state) && settled(after) == settled(state) + 1,
                None => settled(after) == settled(state),
            }
        }),
{
}

proof fn lemma_run(start: DriverState, steps: Seq<Occurrence>)
    requires
        coherent(start),
        start.issued == 0,
    ensures
        ({
            let (end, trace) = run(start, steps);
            &&& coherent(end)
            &&& end.issued == normalized_count(start, steps)
            &&& assigned(trace) == count_up(end.issued)
            &&& 0 <= settled(end)
            &&& logged(trace) == count_up(settled(end) as nat)
        }),
    decreases steps.len(),
{
    if steps.len() == 0 {
        assert(assigned(Seq::<ReactionView>::empty()) =~= count_up(0));
        assert(logged(Seq::<ReactionView>::empty()) =~= count_up(0));
    } else {
        lemma_run(start, steps.drop_last());
        let (before, trace) = run(start, steps.drop_last());
        lemma_step(before, steps.last().event, steps.last().fault);
        let (after, reaction) = before.react(steps.last().event, steps.last().fault);
        assert(trace.push(reaction).drop_last() =~= trace);
        assert(count_up(before.issued).push(before.issued) =~= count_up(before.issued + 1));
        assert(count_up(settled(before) as nat).push(settled(before) as nat) =~= count_up(
            (settled(before) + 1) as nat,
        ));
    }
}

/// The sequence numbers of a run are gap-free. In every run from the
/// initial state, with any events and whatever the publish attempts came to,
/// the numbers assigned are `0, 1, .., N-1` in this order, where `N` is the
/// count of records that passed normalisation. The numbers logged are the
/// same, short of the last one while its outcome is still due; no number is
/// logged twice and none is left out.
pub proof fn sequence_numbers_are_gap_free(
    prefix: Seq<char>,
    mode: DeliveryMode,
    steps: Seq<Occurrence>,
)
    ensures
        ({
            let start = DriverState::initial(prefix, mode);
            let (end, trace) = run(start, steps);
            let n = normalized_count(start, steps);
            &&& end.issued == n
            &&& assigned(trace) == count_up(n)
            &&& end.pending is None ==> logged(trace) == count_up(n)
            &&& end.pending is Some ==> n > 0 && logged(trace) == count_up((n - 1) as nat)
        }),
{
    lemma_run(DriverState::initial(prefix, mode), steps);
}

/// The subject of a record is its prefix, a dot and its symbol, in either
/// delivery mode and for every kind of item. Whatever the encoder does, the
/// answer to a record that passes normalisation names that subject: in the
/// publish it asks for, or in the encoder failure it logs.
pub proof fn subject_is_prefix_dot_symbol(
    state: DriverState,
    item: InboundView,
    now_us: u64,
    fault: Option<Seq<char>>,
)
    requires
        passes_normalization(state, EventView::Item { item, now_us }),
    ensures
        ({
            let doc = json_document(record_text_of(item)->0)->Ok_0;
            let subject = subject_of(state.prefix, symbol_of(doc));
            let reaction = state.react(EventView::Item { item, now_us }, fault).1;
            match fault {
                None => reaction.command matches CommandView::Publish {
                    mode,
                    subject: named,
                    ..
                } && named == subject && mode == state.mode,
                Some(error) => reaction.log matches Some(
                    LogLineView::EncodeFailed { subject: named, .. },
                ) && named == subject,
            }
        }),
{
}

/// The symbol is the sentinel whenever the record's `symbol` is missing,
/// null, or anything else that is not a string.
pub proof fn symbol_defaults_to_unknown(doc: Json)
    requires
        match doc.field("symbol"@) {
            None => true,
            Some(value) => !(value is Text),
        },
    ensures
        symbol_of(doc) == UNKNOWN_SYMBOL@,
{
}

/// A blank line never produces a log line and never advances the sequence
/// counter, in whatever state it arrives. While the run is reading it
/// changes nothing at all.
pub proof fn blank_line_is_passed_over(
    state: DriverState,
    line: Seq<char>,
    now_us: u64,
    fault: Option<Seq<char>>,
)
    requires
        blank(line),
    ensures
        ({
            let (after, reaction) = state.react(
                EventView::Item { item: InboundView::Line(line), now_us },
                fault,
            );
            &&& reaction.log is None
            &&& after.issued == state.issued
            &&& state.phase == Phase::Running ==> after == state
        }),
{
}

/// A record that is no JSON document is skipped: while the run is reading it
/// is logged as a parse error, and the state stays as it was, so no sequence
/// number is used up.
pub proof fn malformed_record_is_skipped(
    state: DriverState,
    item: InboundView,
    now_us: u64,
    fault: Option<Seq<char>>,
)
    requires
        state.phase == Phase::Running,
        state.pending is None,
        record_text_of(item) matches Some(text) && json_document(text) is Err,
    ensures
        ({
            let message = json_document(record_text_of(item)->0)->Err_0;
            let (after, reaction) = state.react(EventView::Item { item, now_us }, fault);
            &&& after == state
            &&& reaction.log == Some(LogLineView::ParseFailed { error: message })
            &&& reaction.command == CommandView::Pull
        }),
{
}

/// The record after a malformed one takes the number that the malformed one
/// would have taken: the next after the last record that passed
/// normalisation.
pub proof fn record_after_malformed_takes_next_number(
    state: DriverState,
    malformed: InboundView,
    valid: InboundView,
    now_us: u64,
    later_us: u64,
    fault: Option<Seq<char>>,
)
    requires
        state.phase == Phase::Running,
        state.pending is None,
        record_text_of(malformed) matches Some(text) && json_document(text) is Err,
        record_text_of(valid) matches Some(text) && json_document(text) is Ok,
    ensures
        ({
            let between = state.react(EventView::Item { item: malformed, now_us }, None).0;
            let (after, reaction) = between.react(
                EventView::Item { item: valid, now_us: later_us },
                fault,
            );
            &&& assigned_by(reaction) == Some(state.issued)
            &&& after.issued == state.issued + 1
        }),
{
}

/// A publish that fails does not end the run. The failure is logged with
/// the sequence number and the subject of the record, the number stays used
/// up, and the next command is to read on.
pub proof fn failed_publish_is_logged_and_run_goes_on(
    state: DriverState,
    outcome: PublishOutcomeView,
)
    requires
        state.phase == Phase::Running,
        state.pending is Some,
        outcome.result is Err,
    ensures
        ({
            let submission = state.pending->0;
            let (after, reaction) = state.react(EventView::Outcome { outcome }, None);
            &&& reaction.log == Some(
                LogLineView::PublishFailed {
                    mode: state.mode,
                    seq: submission.seq,
                    subject: submission.subject,
                    error: outcome.result->Err_0,
                },
            )
            &&& reaction.command == CommandView::Pull
            &&& after.phase == Phase::Running
            &&& after.pending is None
            &&& after.issued == state.issued
        }),
{
}

/// Every outcome produces exactly one log line, success or failure, and the
/// line carries the sequence number of the record that was submitted.
pub proof fn every_outcome_is_logged(state: DriverState, outcome: PublishOutcomeView)
    requires
        state.phase == Phase::Running,
        state.pending is Some,
    ensures
        ({
            let reaction = state.react(EventView::Outcome { outcome }, None).1;
            &&& reaction.log matches Some(line) && line.seq() == Some(state.pending->0.seq)
            &&& reaction.log->0.is_failure() == (outcome.result is Err)
        }),
{
}

/// The sentinel is a plain identifier: upper-case ASCII letters and nothing
/// else, so it is safe in a subject.
pub proof fn sentinel_is_ascii_letters()
    ensures
        UNKNOWN_SYMBOL@.len() == 7,
        forall|i: int| 0 <= i < UNKNOWN_SYMBOL@.len() ==> 'A' <= #[trigger] UNKNOWN_SYMBOL@[i] <= 'Z',
{
    reveal_strlit("UNKNOWN");
}

/// Only a setup failure or a broken source ends a run with a non-zero
/// status; no record can. A step that leaves the run unfailed either found
/// it so, or was neither of the two.
pub proof fn only_setup_and_source_failures_are_fatal(
    state: DriverState,
    event: EventView,
    fault: Option<Seq<char>>,
)
    ensures
        ({
            let (after, reaction) = state.react(event, fault);
            after.failed && !state.failed ==> (event is SetupFailed || event is SourceFailed)
                && after.phase == Phase::Terminated
        }),
{
}

} // verus!
