//! The two ways of watching a burn job: a loop that blocks on the progress
//! channel, and a view that polls it between frames.
//!
//! Neither owns the channel or the worker. The caller receives, prints,
//! joins and draws; what to make of each message is decided here.

use vstd::prelude::*;
use crate::error::{BurnError, BurnErrorView};
use crate::message::{LogLine, LogMessage, LogMessageView};

verus! {

/// How the worker ended, as the join tells it.
#[derive(Debug, PartialEq, Eq)]
pub enum JoinOutcome {
    /// The worker ran to its end and returned this.
    Returned(Result<(), BurnError>),
    /// The worker did not end cleanly.
    Panicked,
}

/// The mathematical value of a [`JoinOutcome`].
pub enum JoinOutcomeView {
    Returned(Result<(), BurnErrorView>),
    Panicked,
}

impl View for JoinOutcome {
    type V = JoinOutcomeView;

    open spec fn view(&self) -> JoinOutcomeView {
        match self {
            JoinOutcome::Returned(Ok(_)) => JoinOutcomeView::Returned(Ok(())),
            JoinOutcome::Returned(Err(error)) => JoinOutcomeView::Returned(Err(error@)),
            JoinOutcome::Panicked => JoinOutcomeView::Panicked,
        }
    }
}

/// What the join means for whoever waited: a worker that did not end cleanly
/// is a join failure, and a worker's own error is passed on.
pub open spec fn joined_result(joined: JoinOutcomeView) -> Result<(), BurnErrorView> {
    match joined {
        JoinOutcomeView::Returned(result) => result,
        JoinOutcomeView::Panicked => Err(BurnErrorView::ThreadJoinFailed),
    }
}

/// What the join means for whoever waited.
pub fn join_result(joined: JoinOutcome) -> (result: Result<(), BurnError>)
    ensures
        match result {
            Ok(_) => joined_result(joined@) is Ok,
            Err(error) => joined_result(joined@) == Err::<(), BurnErrorView>(error@),
        },
{
    match joined {
        JoinOutcome::Returned(result) => result,
        JoinOutcome::Panicked => Err(BurnError::ThreadJoinFailed),
    }
}

/// What the blocking loop has received.
#[derive(Debug, PartialEq, Eq)]
pub enum Received {
    Message(LogMessage),
    /// Every sender is gone and nothing is left to read.
    Disconnected,
}

/// What the blocking loop does with what it received.
#[derive(Debug, PartialEq, Eq)]
pub enum BlockingAction {
    /// Print the line to the output or the error stream and receive again.
    Print { is_stderr: bool, text: String },
    /// Stop receiving, print `summary` if there is one, join the worker and
    /// return what [`join_result`] makes of the join.
    Join { summary: Option<String> },
    /// Stop receiving and return the error.
    Fail(BurnError),
}

/// The mathematical value of a [`BlockingAction`].
pub enum BlockingActionView {
    Print { is_stderr: bool, text: Seq<char> },
    Join { summary: Option<Seq<char>> },
    Fail(BurnErrorView),
}

impl View for BlockingAction {
    type V = BlockingActionView;

    open spec fn view(&self) -> BlockingActionView {
        match self {
            BlockingAction::Print { is_stderr, text } => BlockingActionView::Print {
                is_stderr: *is_stderr,
                text: text@,
            },
            BlockingAction::Join { summary: Some(text) } => BlockingActionView::Join {
                summary: Some(text@),
            },
            BlockingAction::Join { summary: None } => BlockingActionView::Join { summary: None },
            BlockingAction::Fail(error) => BlockingActionView::Fail(error@),
        }
    }
}

/// The blocking loop's answer to a message, or to a channel that closed
/// without a completion: lines are printed, a success is printed and the
/// worker joined, a failure is returned at once, and a closed channel leaves
/// the verdict to the join.
pub open spec fn blocking_answer(received: Option<LogMessageView>) -> BlockingActionView {
    match received {
        Some(LogMessageView::Line { is_stderr, text }) => BlockingActionView::Print {
            is_stderr,
            text,
        },
        Some(LogMessageView::Complete(Ok(summary))) => BlockingActionView::Join {
            summary: Some(summary),
        },
        Some(LogMessageView::Complete(Err(error))) => BlockingActionView::Fail(error),
        None => BlockingActionView::Join { summary: None },
    }
}

impl View for Received {
    type V = Option<LogMessageView>;

    open spec fn view(&self) -> Option<LogMessageView> {
        match self {
            Received::Message(message) => Some(message@),
            Received::Disconnected => None,
        }
    }
}

/// Decides what the blocking loop does with what it received.
pub fn blocking_step(received: Received) -> (action: BlockingAction)
    ensures
        action@ == blocking_answer(received@),
{
    match received {
        Received::Message(LogMessage::Line(LogLine { is_stderr, line })) => BlockingAction::Print {
            is_stderr,
            text: line,
        },
        Received::Message(LogMessage::Complete(Ok(summary))) => BlockingAction::Join {
            summary: Some(summary),
        },
        Received::Message(LogMessage::Complete(Err(error))) => BlockingAction::Fail(error),
        Received::Disconnected => BlockingAction::Join { summary: None },
    }
}

} // verus!
