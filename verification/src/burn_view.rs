//! The burn screen of the interactive view: a log that fills while a job
//! runs, stays until the user has read it, and then gives way to the
//! playlist again.

use vstd::prelude::*;
use vstd::string::StringExecFns;
use crate::consumer::{JoinOutcome, JoinOutcomeView};
use crate::error::{error_text, BurnError, BurnErrorView};
use crate::message::{outcome_view, LogLine, LogMessage, LogMessageView};

verus! {

/// The colour of a log line.
#[derive(Clone, Copy, Debug, PartialEq, Eq, Structural)]
pub enum LineColor {
    Green,
    Red,
    White,
}

/// One line of the burn log.
#[derive(Debug, PartialEq, Eq)]
pub struct StyledLine {
    pub color: LineColor,
    pub text: String,
}

/// The mathematical value of a [`StyledLine`].
pub struct StyledLineView {
    pub color: LineColor,
    pub text: Seq<char>,
}

impl View for StyledLine {
    type V = StyledLineView;

    open spec fn view(&self) -> StyledLineView {
        StyledLineView { color: self.color, text: self.text@ }
    }
}

impl Clone for StyledLine {
    fn clone(&self) -> (copy: Self)
        ensures
            copy == *self,
    {
        StyledLine { color: self.color, text: self.text.clone() }
    }
}

/// The values of `lines`, in order.
pub open spec fn line_views(lines: Seq<StyledLine>) -> Seq<StyledLineView> {
    Seq::new(lines.len(), |i: int| lines[i]@)
}

/// Where the burn screen stands.
#[derive(Debug, PartialEq, Eq)]
pub enum BurnPhase {
    /// No burn is under way; the playlist is on screen.
    BuildingPlaylist,
    /// A job runs. `completed` is set once its completion has been logged
    /// and its worker joined.
    Burning { logs: Vec<StyledLine>, completed: bool },
    /// The job is over and its log stays up until the user lets go of it.
    Completed { logs: Vec<StyledLine> },
}

/// The mathematical value of a [`BurnPhase`].
pub enum BurnPhaseView {
    BuildingPlaylist,
    Burning { logs: Seq<StyledLineView>, completed: bool },
    Completed { logs: Seq<StyledLineView> },
}

impl View for BurnPhase {
    type V = BurnPhaseView;

    open spec fn view(&self) -> BurnPhaseView {
        match self {
            BurnPhase::BuildingPlaylist => BurnPhaseView::BuildingPlaylist,
            BurnPhase::Burning { logs, completed } => BurnPhaseView::Burning {
                logs: line_views(logs@),
                completed: *completed,
            },
            BurnPhase::Completed { logs } => BurnPhaseView::Completed { logs: line_views(logs@) },
        }
    }
}

/// What the burn screen is told.
#[derive(Debug, PartialEq, Eq)]
pub enum ViewEvent {
    /// The user asked for a burn and the job has been started.
    BurnStarted,
    /// A message was waiting on the progress channel.
    Message(LogMessage),
    /// The worker has been joined.
    Joined(JoinOutcome),
    /// A frame has been drawn.
    FrameDrawn,
    /// The user is done with the log.
    Acknowledged,
}

/// The mathematical value of a [`ViewEvent`].
pub enum ViewEventView {
    BurnStarted,
    Message(LogMessageView),
    Joined(JoinOutcomeView),
    FrameDrawn,
    Acknowledged,
}

impl View for ViewEvent {
    type V = ViewEventView;

    open spec fn view(&self) -> ViewEventView {
        match self {
            ViewEvent::BurnStarted => ViewEventView::BurnStarted,
            ViewEvent::Message(message) => ViewEventView::Message(message@),
            ViewEvent::Joined(joined) => ViewEventView::Joined(joined@),
            ViewEvent::FrameDrawn => ViewEventView::FrameDrawn,
            ViewEvent::Acknowledged => ViewEventView::Acknowledged,
        }
    }
}

/// What the caller of the burn screen has to do after a step.
#[derive(Debug, PartialEq, Eq)]
pub enum ViewAction {
    Nothing,
    /// Join the worker and report how it ended.
    Join,
    /// Give up the whole view with this error.
    Fatal(BurnError),
}

/// The mathematical value of a [`ViewAction`].
pub enum ViewActionView {
    Nothing,
    Join,
    Fatal(BurnErrorView),
}

impl View for ViewAction {
    type V = ViewActionView;

    open spec fn view(&self) -> ViewActionView {
        match self {
            ViewAction::Nothing => ViewActionView::Nothing,
            ViewAction::Join => ViewActionView::Join,
            ViewAction::Fatal(error) => ViewActionView::Fatal(error@),
        }
    }
}

/// The log line for a line of output: red from the error stream, green
/// from the output stream.
pub open spec fn output_line(is_stderr: bool, text: Seq<char>) -> StyledLineView {
    StyledLineView {
        color: if is_stderr {
            LineColor::Red
        } else {
            LineColor::Green
        },
        text,
    }
}

/// The log line for a result: the text in green, or the error's sentence in red.
pub open spec fn result_line_of(result: Result<Seq<char>, BurnErrorView>) -> StyledLineView {
    match result {
        Ok(text) => StyledLineView { color: LineColor::Green, text },
        Err(error) => StyledLineView { color: LineColor::Red, text: error_text(error) },
    }
}

/// The line that tells the user how to leave the log.
pub open spec fn leave_hint() -> StyledLineView {
    StyledLineView { color: LineColor::White, text: "Press 'Q' to build a new playlist"@ }
}

/// The log line for the way the worker ended: an empty green line when it
/// ended well, its error in red otherwise.
pub open spec fn worker_line_of(result: Result<(), BurnErrorView>) -> StyledLineView {
    match result {
        Ok(_) => StyledLineView { color: LineColor::Green, text: Seq::empty() },
        Err(error) => StyledLineView { color: LineColor::Red, text: error_text(error) },
    }
}

/// The burn screen after `event`, and what its caller has to do.
///
/// A burn request opens an empty log. While the job runs, every line is
/// logged; its completion is logged together with the hint and asks for the
/// join; the join, if the worker ended cleanly, logs how it ended and marks
/// the job as completed, and is fatal otherwise. A completed job's log is
/// carried over into `Completed` after the next frame, and the user's
/// acknowledgment there drops it. Everything else changes nothing.
pub open spec fn phase_after(phase: BurnPhaseView, event: ViewEventView) -> (
    BurnPhaseView,
    ViewActionView,
) {
    match (phase, event) {
        (BurnPhaseView::BuildingPlaylist, ViewEventView::BurnStarted) => (
            BurnPhaseView::Burning { logs: Seq::empty(), completed: false },
            ViewActionView::Nothing,
        ),
        (
            BurnPhaseView::Burning { logs, completed: false },
            ViewEventView::Message(LogMessageView::Line { is_stderr, text }),
        ) => (
            BurnPhaseView::Burning { logs: logs.push(output_line(is_stderr, text)), completed: false },
            ViewActionView::Nothing,
        ),
        (
            BurnPhaseView::Burning { logs, completed: false },
            ViewEventView::Message(LogMessageView::Complete(result)),
        ) => (
            BurnPhaseView::Burning {
                logs: logs.push(result_line_of(result)).push(leave_hint()),
                completed: false,
            },
            ViewActionView::Join,
        ),
        (
            BurnPhaseView::Burning { logs, completed: false },
            ViewEventView::Joined(JoinOutcomeView::Returned(result)),
        ) => (
            BurnPhaseView::Burning { logs: logs.push(worker_line_of(result)), completed: true },
            ViewActionView::Nothing,
        ),
        (
            BurnPhaseView::Burning { logs, completed: false },
            ViewEventView::Joined(JoinOutcomeView::Panicked),
        ) => (phase, ViewActionView::Fatal(BurnErrorView::ThreadJoinFailed)),
        (BurnPhaseView::Burning { logs, completed: true }, ViewEventView::FrameDrawn) => (
            BurnPhaseView::Completed { logs },
            ViewActionView::Nothing,
        ),
        (BurnPhaseView::Completed { logs }, ViewEventView::Acknowledged) => (
            BurnPhaseView::BuildingPlaylist,
            ViewActionView::Nothing,
        ),
        _ => (phase, ViewActionView::Nothing),
    }
}

/// The burn screen moves in a circle and in no other way: from the playlist
/// to a running job on a burn request, from a running job to its finished log
/// once the job has completed, and from there back to the playlist when the
/// user lets go. Nothing leads out of a running job before its completion.
pub proof fn law_view_transitions(phase: BurnPhaseView, event: ViewEventView)
    ensures
        ({
            let next = phase_after(phase, event).0;
            &&& phase is BuildingPlaylist ==> next is BuildingPlaylist || (next is Burning
                && event is BurnStarted)
            &&& phase is Burning ==> next is Burning || (next is Completed && phase->completed
                && event is FrameDrawn && next->Completed_logs == phase->Burning_logs)
            &&& phase is Completed ==> next == phase || (next is BuildingPlaylist
                && event is Acknowledged)
        }),
{
}

/// The log line for a line of output.
pub fn output_log_line(is_stderr: bool, text: String) -> (line: StyledLine)
    ensures
        line@ == output_line(is_stderr, text@),
{
    let color = if is_stderr {
        LineColor::Red
    } else {
        LineColor::Green
    };
    StyledLine { color, text }
}

/// The log line for a result.
pub fn result_line(result: Result<String, BurnError>) -> (line: StyledLine)
    ensures
        line@ == result_line_of(outcome_view(result)),
{
    match result {
        Ok(text) => StyledLine { color: LineColor::Green, text },
        Err(error) => StyledLine { color: LineColor::Red, text: error.message() },
    }
}

/// The log line for the way the worker ended.
pub fn worker_line(result: Result<(), BurnError>) -> (line: StyledLine)
    ensures
        match result {
            Ok(_) => line@ == worker_line_of(Ok(())),
            Err(error) => line@ == worker_line_of(Err(error@)),
        },
{
    match result {
        Ok(_) => StyledLine { color: LineColor::Green, text: String::new() },
        Err(error) => StyledLine { color: LineColor::Red, text: error.message() },
    }
}

impl BurnPhase {
    /// The burn screen at the start of a session.
    pub fn new() -> (phase: BurnPhase)
        ensures
            phase@ == BurnPhaseView::BuildingPlaylist,
    {
        BurnPhase::BuildingPlaylist
    }

    /// The log to draw, if the burn screen is up.
    pub fn logs(&self) -> (logs: Option<&Vec<StyledLine>>)
        ensures
            match logs {
                Some(lines) => (self@ is Burning && line_views(lines@) == self@->Burning_logs) || (
                self@ is Completed && line_views(lines@) == self@->Completed_logs),
                None => self@ is BuildingPlaylist,
            },
    {
        match self {
            BurnPhase::BuildingPlaylist => None,
            BurnPhase::Burning { logs, completed: _ } => Some(logs),
            BurnPhase::Completed { logs } => Some(logs),
        }
    }

    /// Takes in `event` and gives the burn screen after it, with what the
    /// caller has to do.
    pub fn step(self, event: ViewEvent) -> (next: (BurnPhase, ViewAction))
        ensures
            (next.0@, next.1@) == phase_after(self@, event@),
    {
        match self {
            BurnPhase::BuildingPlaylist => match event {
                ViewEvent::BurnStarted => {
                    let logs: Vec<StyledLine> = Vec::new();
                    assert(line_views(logs@) == Seq::<StyledLineView>::empty());
                    (BurnPhase::Burning { logs, completed: false }, ViewAction::Nothing)
                },
                _ => (BurnPhase::BuildingPlaylist, ViewAction::Nothing),
            },
            BurnPhase::Burning { logs, completed } => {
                let ghost before = line_views(logs@);
                let mut logs = logs;
                if completed {
                    match event {
                        ViewEvent::FrameDrawn => (BurnPhase::Completed { logs }, ViewAction::Nothing),
                        _ => (BurnPhase::Burning { logs, completed }, ViewAction::Nothing),
                    }
                } else {
                    match event {
                        ViewEvent::Message(LogMessage::Line(LogLine { is_stderr, line })) => {
                            logs.push(output_log_line(is_stderr, line));
                            assert(line_views(logs@) == before.push(output_line(is_stderr, line@)));
                            (BurnPhase::Burning { logs, completed: false }, ViewAction::Nothing)
                        },
                        ViewEvent::Message(LogMessage::Complete(result)) => {
                            let ghost verdict = result_line_of(outcome_view(result));
                            logs.push(result_line(result));
                            logs.push(
                                StyledLine {
                                    color: LineColor::White,
                                    text: String::from_str("Press 'Q' to build a new playlist"),
                                },
                            );
                            assert(line_views(logs@) == before.push(verdict).push(leave_hint()));
                            (BurnPhase::Burning { logs, completed: false }, ViewAction::Join)
                        },
                        ViewEvent::Joined(JoinOutcome::Returned(result)) => {
                            let line = worker_line(result);
                            logs.push(line);
                            assert(line_views(logs@) == before.push(line@));
                            (BurnPhase::Burning { logs, completed: true }, ViewAction::Nothing)
                        },
                        ViewEvent::Joined(JoinOutcome::Panicked) => (
                            BurnPhase::Burning { logs, completed: false },
                            ViewAction::Fatal(BurnError::ThreadJoinFailed),
                        ),
                        _ => (BurnPhase::Burning { logs, completed: false }, ViewAction::Nothing),
                    }
                }
            },
            BurnPhase::Completed { logs } => match event {
                ViewEvent::Acknowledged => (BurnPhase::BuildingPlaylist, ViewAction::Nothing),
                _ => (BurnPhase::Completed { logs }, ViewAction::Nothing),
            },
        }
    }
}

} // verus!
