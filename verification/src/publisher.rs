//! The publisher's side of a record: the delivery mode of a run, what a
//! publish attempt came to, and the log line that reports it.

use crate::text::{decimal, push_decimal};
use vstd::prelude::*;

verus! {

/// How a run delivers: chosen once, for every record alike.
#[derive(Debug, Clone, Copy, PartialEq, Eq, Structural)]
pub enum DeliveryMode {
    /// Send and flush. Success means that the bytes left the process.
    BestEffort,
    /// Send and wait for the broker's acknowledgment. Success means that the
    /// broker has accepted the message durably.
    Durable,
}

/// Timing and result of one publish attempt. The result is the
/// acknowledgment token in durable mode, nothing in best-effort mode, or the
/// error that the attempt ended with.
#[derive(Debug, PartialEq, Eq)]
pub struct PublishOutcome {
    pub elapsed_us: u128,
    pub result: Result<Option<String>, String>,
}

/// What a [`PublishOutcome`] holds.
pub struct PublishOutcomeView {
    pub elapsed_us: nat,
    pub result: Result<Option<Seq<char>>, Seq<char>>,
}

impl View for PublishOutcome {
    type V = PublishOutcomeView;

    open spec fn view(&self) -> PublishOutcomeView {
        PublishOutcomeView {
            elapsed_us: self.elapsed_us as nat,
            result: match self.result {
                Ok(Some(token)) => Ok(Some(token@)),
                Ok(None) => Ok(None),
                Err(error) => Err(error@),
            },
        }
    }
}

/// A record that was handed over for publishing and whose outcome is due.
#[derive(Debug, PartialEq, Eq)]
pub struct Submission {
    pub seq: u64,
    pub subject: String,
    pub bytes: usize,
}

/// What a [`Submission`] holds.
pub struct SubmissionView {
    pub seq: nat,
    pub subject: Seq<char>,
    pub bytes: nat,
}

impl View for Submission {
    type V = SubmissionView;

    open spec fn view(&self) -> SubmissionView {
        SubmissionView { seq: self.seq as nat, subject: self.subject@, bytes: self.bytes as nat }
    }
}

/// One line of the run's log.
#[derive(Debug, PartialEq, Eq)]
pub enum LogLine {
    /// A best-effort publish went out and was flushed.
    Published { seq: u64, subject: String, bytes: usize, elapsed_us: u128 },
    /// A durable publish was acknowledged by the broker.
    Acknowledged { seq: u64, subject: String, ack: String, elapsed_us: u128 },
    /// A publish attempt failed. The record keeps its sequence number.
    PublishFailed { mode: DeliveryMode, seq: u64, subject: String, error: String },
    /// The envelope could not be encoded. The record keeps its sequence number.
    EncodeFailed { seq: u64, subject: String, error: String },
    /// The record was no JSON document. It got no sequence number.
    ParseFailed { error: String },
    /// The bus or the source could not be set up.
    SetupFailed { reason: String },
    /// The source broke off with an error.
    SourceFailed { reason: String },
}

/// What a [`LogLine`] holds.
pub enum LogLineView {
    Published { seq: nat, subject: Seq<char>, bytes: nat, elapsed_us: nat },
    Acknowledged { seq: nat, subject: Seq<char>, ack: Seq<char>, elapsed_us: nat },
    PublishFailed { mode: DeliveryMode, seq: nat, subject: Seq<char>, error: Seq<char> },
    EncodeFailed { seq: nat, subject: Seq<char>, error: Seq<char> },
    ParseFailed { error: Seq<char> },
    SetupFailed { reason: Seq<char> },
    SourceFailed { reason: Seq<char> },
}

impl View for LogLine {
    type V = LogLineView;

    open spec fn view(&self) -> LogLineView {
        match self {
            LogLine::Published { seq, subject, bytes, elapsed_us } => LogLineView::Published {
                seq: *seq as nat,
                subject: subject@,
                bytes: *bytes as nat,
                elapsed_us: *elapsed_us as nat,
            },
            LogLine::Acknowledged { seq, subject, ack, elapsed_us } => LogLineView::Acknowledged {
                seq: *seq as nat,
                subject: subject@,
                ack: ack@,
                elapsed_us: *elapsed_us as nat,
            },
            LogLine::PublishFailed { mode, seq, subject, error } => LogLineView::PublishFailed {
                mode: *mode,
                seq: *seq as nat,
                subject: subject@,
                error: error@,
            },
            LogLine::EncodeFailed { seq, subject, error } => LogLineView::EncodeFailed {
                seq: *seq as nat,
                subject: subject@,
                error: error@,
            },
            LogLine::ParseFailed { error } => LogLineView::ParseFailed { error: error@ },
            LogLine::SetupFailed { reason } => LogLineView::SetupFailed { reason: reason@ },
            LogLine::SourceFailed { reason } => LogLineView::SourceFailed { reason: reason@ },
        }
    }
}

impl LogLineView {
    /// The sequence number that the line reports, where it reports one.
    pub open spec fn seq(self) -> Option<nat> {
        match self {
            LogLineView::Published { seq, .. } => Some(seq),
            LogLineView::Acknowledged { seq, .. } => Some(seq),
            LogLineView::PublishFailed { seq, .. } => Some(seq),
            LogLineView::EncodeFailed { seq, .. } => Some(seq),
            _ => None,
        }
    }

    /// Whether the line reports a failure.
    pub open spec fn is_failure(self) -> bool {
        !(self is Published || self is Acknowledged)
    }

    /// The text of the line.
    pub open spec fn text(self) -> Seq<char> {
        match self {
            LogLineView::Published { seq, subject, bytes, elapsed_us } => "PUB seq_local="@
                + decimal(seq) + " subj="@ + subject + " bytes="@ + decimal(bytes)
                + " flush_time_us="@ + decimal(elapsed_us),
            LogLineView::Acknowledged { seq, subject, ack, elapsed_us } => "JET_ACK seq_local="@
                + decimal(seq) + " subj="@ + subject + " ack="@ + ack + " ack_time_us="@ + decimal(
                elapsed_us,
            ),
            LogLineView::PublishFailed { mode, seq, subject, error } => (match mode {
                DeliveryMode::Durable => "JET_PUBLISH_ERROR seq_local="@,
                DeliveryMode::BestEffort => "PUB_ERROR seq_local="@,
            }) + decimal(seq) + " subj="@ + subject + " err="@ + error,
            LogLineView::EncodeFailed { seq, subject, error } => "ENCODE_ERROR seq_local="@
                + decimal(seq) + " subj="@ + subject + " err="@ + error,
            LogLineView::ParseFailed { error } => "JSON parse error: "@ + error,
            LogLineView::SetupFailed { reason } => "SETUP_ERROR err="@ + reason,
            LogLineView::SourceFailed { reason } => "SOURCE_ERROR err="@ + reason,
        }
    }
}

impl LogLine {
    /// The sequence number that the line reports, where it reports one.
    pub fn seq(&self) -> (seq: Option<u64>)
        ensures
            match seq {
                Some(n) => self@.seq() == Some(n as nat),
                None => self@.seq() is None,
            },
    {
        match self {
            LogLine::Published { seq, .. } => Some(*seq),
            LogLine::Acknowledged { seq, .. } => Some(*seq),
            LogLine::PublishFailed { seq, .. } => Some(*seq),
            LogLine::EncodeFailed { seq, .. } => Some(*seq),
            _ => None,
        }
    }

    /// Whether the line reports a failure, and so belongs on the error stream.
    pub fn is_failure(&self) -> (b: bool)
        ensures
            b == self@.is_failure(),
    {
        match self {
            LogLine::Published { .. } => false,
            LogLine::Acknowledged { .. } => false,
            _ => true,
        }
    }

    /// The text of the line, as it is printed.
    pub fn render(&self) -> (text: String)
        ensures
            text@ == self@.text(),
    {
        match self {
            LogLine::Published { seq, subject, bytes, elapsed_us } => {
                let mut text = String::from_str("PUB seq_local=");
                push_decimal(&mut text, *seq as u128);
                text.append(" subj=");
                text.append(subject.as_str());
                text.append(" bytes=");
                push_decimal(&mut text, *bytes as u128);
                text.append(" flush_time_us=");
                push_decimal(&mut text, *elapsed_us);
                text
            },
            LogLine::Acknowledged { seq, subject, ack, elapsed_us } => {
                let mut text = String::from_str("JET_ACK seq_local=");
                push_decimal(&mut text, *seq as u128);
                text.append(" subj=");
                text.append(subject.as_str());
                text.append(" ack=");
                text.append(ack.as_str());
                text.append(" ack_time_us=");
                push_decimal(&mut text, *elapsed_us);
                text
            },
            LogLine::PublishFailed { mode, seq, subject, error } => {
                let mut text = match mode {
                    DeliveryMode::Durable => String::from_str("JET_PUBLISH_ERROR seq_local="),
                    DeliveryMode::BestEffort => String::from_str("PUB_ERROR seq_local="),
                };
                push_decimal(&mut text, *seq as u128);
                text.append(" subj=");
                text.append(subject.as_str());
                text.append(" err=");
                text.append(error.as_str());
                text
            },
            LogLine::EncodeFailed { seq, subject, error } => {
                let mut text = String::from_str("ENCODE_ERROR seq_local=");
                push_decimal(&mut text, *seq as u128);
                text.append(" subj=");
                text.append(subject.as_str());
                text.append(" err=");
                text.append(error.as_str());
                text
            },
            LogLine::ParseFailed { error } => {
                let mut text = String::from_str("JSON parse error: ");
                text.append(error.as_str());
                text
            },
            LogLine::SetupFailed { reason } => {
                let mut text = String::from_str("SETUP_ERROR err=");
                text.append(reason.as_str());
                text
            },
            LogLine::SourceFailed { reason } => {
                let mut text = String::from_str("SOURCE_ERROR err=");
                text.append(reason.as_str());
                text
            },
        }
    }
}

/// The line that reports the outcome of a submission: success with the
/// elapsed time and, where the broker gave one, its acknowledgment; failure
/// with the error. Either way the line carries the submission's sequence
/// number and subject.
pub open spec fn report_of(
    mode: DeliveryMode,
    submission: SubmissionView,
    outcome: PublishOutcomeView,
) -> LogLineView {
    match outcome.result {
        Ok(None) => LogLineView::Published {
            seq: submission.seq,
            subject: submission.subject,
            bytes: submission.bytes,
            elapsed_us: outcome.elapsed_us,
        },
        Ok(Some(token)) => LogLineView::Acknowledged {
            seq: submission.seq,
            subject: submission.subject,
            ack: token,
            elapsed_us: outcome.elapsed_us,
        },
        Err(error) => LogLineView::PublishFailed {
            mode,
            seq: submission.seq,
            subject: submission.subject,
            error,
        },
    }
}

/// Reports the outcome of a submission as a log line.
pub fn report(mode: DeliveryMode, submission: Submission, outcome: PublishOutcome) -> (line:
    LogLine)
    ensures
        line@ == report_of(mode, submission@, outcome@),
{
    let Submission { seq, subject, bytes } = submission;
    let PublishOutcome { elapsed_us, result } = outcome;
    match result {
        Ok(None) => LogLine::Published { seq, subject, bytes, elapsed_us },
        Ok(Some(ack)) => LogLine::Acknowledged { seq, subject, ack, elapsed_us },
        Err(error) => LogLine::PublishFailed { mode, seq, subject, error },
    }
}

} // verus!
