//! Progress messages: what a burn job tells whoever watches it.

use vstd::prelude::*;
use vstd::string::StringExecFns;
use crate::error::{BurnError, BurnErrorView};

verus! {

/// One line of output, from an external program or from the job itself.
#[derive(Debug, PartialEq, Eq)]
pub struct LogLine {
    /// Whether the line belongs on the error stream.
    pub is_stderr: bool,
    pub line: String,
}

/// A message on the progress channel. A job publishes any number of lines
/// and then exactly one completion, which is the last message of the job.
#[derive(Debug, PartialEq, Eq)]
pub enum LogMessage {
    Line(LogLine),
    /// The job has ended: with a summary for the user, or with the reason it failed.
    Complete(Result<String, BurnError>),
}

/// The mathematical value of a [`LogMessage`].
pub enum LogMessageView {
    Line { is_stderr: bool, text: Seq<char> },
    Complete(Result<Seq<char>, BurnErrorView>),
}

impl View for LogLine {
    type V = LogMessageView;

    open spec fn view(&self) -> LogMessageView {
        LogMessageView::Line { is_stderr: self.is_stderr, text: self.line@ }
    }
}

/// The value of a job's result: the summary's text, or the error's value.
pub open spec fn outcome_view(outcome: Result<String, BurnError>) -> Result<
    Seq<char>,
    BurnErrorView,
> {
    match outcome {
        Ok(summary) => Ok(summary@),
        Err(error) => Err(error@),
    }
}

impl View for LogMessage {
    type V = LogMessageView;

    open spec fn view(&self) -> LogMessageView {
        match self {
            LogMessage::Line(line) => line@,
            LogMessage::Complete(outcome) => LogMessageView::Complete(outcome_view(*outcome)),
        }
    }
}

impl Clone for LogLine {
    fn clone(&self) -> (copy: Self)
        ensures
            copy == *self,
    {
        LogLine { is_stderr: self.is_stderr, line: self.line.clone() }
    }
}

impl Clone for LogMessage {
    fn clone(&self) -> (copy: Self)
        ensures
            copy == *self,
    {
        match self {
            LogMessage::Line(line) => LogMessage::Line(line.clone()),
            LogMessage::Complete(Ok(summary)) => LogMessage::Complete(Ok(summary.clone())),
            LogMessage::Complete(Err(error)) => LogMessage::Complete(Err(error.clone())),
        }
    }
}

/// The values of `messages`, in order.
pub open spec fn message_views(messages: Seq<LogMessage>) -> Seq<LogMessageView> {
    Seq::new(messages.len(), |i: int| messages[i]@)
}

/// What the user reads after a successful burn.
pub const SUCCESS_SUMMARY: &'static str = "✅ CD Burning Complete. Disc ejected.";

/// What the user reads after a successful burn.
pub open spec fn success_summary() -> Seq<char> {
    SUCCESS_SUMMARY@
}

impl LogMessage {
    /// A line for the output stream, written by the job itself.
    pub fn status(text: &str) -> (message: LogMessage)
        ensures
            message@ == (LogMessageView::Line { is_stderr: false, text: text@ }),
    {
        LogMessage::Line(LogLine { is_stderr: false, line: String::from_str(text) })
    }

    /// A line that an external program wrote to its output or error stream.
    pub fn output(is_stderr: bool, line: String) -> (message: LogMessage)
        ensures
            message@ == (LogMessageView::Line { is_stderr, text: line@ }),
    {
        LogMessage::Line(LogLine { is_stderr, line })
    }
}

} // verus!
