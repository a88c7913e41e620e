//! The burn job: transcode each distinct track, normalize the batch, write
//! the disc.
//!
//! A job never runs anything itself. It is told what happened ([`JobEvent`])
//! and answers with the messages to publish and the next thing to do
//! ([`JobStep`]); the worker that owns the job publishes the messages in order,
//! then carries out the action and reports back. Every failure ends the job:
//! nothing is retried and there is no way to cancel a job once it has begun.
//!
//! Completion is the last word of a job. The disc writer's two output
//! streams are forwarded by the worker while it waits for the writer, and
//! the worker reports the writer's exit only once both streams have been
//! read to their end; the completion message is decided after that report.

use vstd::prelude::*;
use vstd::string::StringExecFns;
use crate::error::{BurnError, BurnErrorView};
use crate::invocation::{
    normalizer_call, normalizer_invocation, transcoder_call, transcoder_invocation, writer_call,
    writer_invocation, Invocation, InvocationView, CD_WRITER_DEVICE,
};
use crate::message::{
    message_views, outcome_view, success_summary, LogMessage, LogMessageView, SUCCESS_SUMMARY,
};
use crate::plan::{
    distinct_tracks, file_names, file_path, lemma_unique_len, scratch_file_names,
    scratch_file_path, unique_tracks,
};
use crate::playlist::song_views;
use crate::song::{Song, SongView};

verus! {

/// Where scratch areas are made: in memory, so that the transcoded audio
/// costs neither time nor wear on a disk.
pub const SCRATCH_ROOT: &'static str = "/dev/shm";

/// How far a job has come.
#[derive(Clone, Copy, Debug, PartialEq, Eq, Structural)]
pub enum JobPhase {
    /// Waiting for the scratch area.
    Setup,
    /// Waiting for the transcoder to finish the current track.
    Transcoding,
    /// Waiting for the normalizer.
    Normalizing,
    /// Waiting to hear whether the disc writer could be started.
    Spawning,
    /// Waiting for the disc writer to exit.
    Writing,
    /// Over, whatever the outcome.
    Finished,
}

/// What the worker reports to its job.
#[derive(Debug, PartialEq, Eq)]
pub enum JobEvent {
    /// The scratch area exists at `path`.
    ScratchCreated { path: String },
    /// The scratch area could not be created.
    ScratchFailed,
    /// The program of the last action has exited; for the disc writer, both
    /// of its output streams have also been read to their end. A program
    /// that could not be run at all counts as one that failed.
    Exited { success: bool },
    /// The disc writer is running.
    Spawned,
    /// The disc writer could not be started.
    SpawnFailed,
    /// A message could not be handed to the consumer.
    SendFailed,
}

/// The mathematical value of a [`JobEvent`].
pub enum JobEventView {
    ScratchCreated { path: Seq<char> },
    ScratchFailed,
    Exited { success: bool },
    Spawned,
    SpawnFailed,
    SendFailed,
}

impl View for JobEvent {
    type V = JobEventView;

    open spec fn view(&self) -> JobEventView {
        match self {
            JobEvent::ScratchCreated { path } => JobEventView::ScratchCreated { path: path@ },
            JobEvent::ScratchFailed => JobEventView::ScratchFailed,
            JobEvent::Exited { success } => JobEventView::Exited { success: *success },
            JobEvent::Spawned => JobEventView::Spawned,
            JobEvent::SpawnFailed => JobEventView::SpawnFailed,
            JobEvent::SendFailed => JobEventView::SendFailed,
        }
    }
}

/// What the worker does next.
#[derive(Debug, PartialEq, Eq)]
pub enum JobAction {
    /// Run the program to its end and report `Exited`.
    Run(Invocation),
    /// Start the disc writer with both output streams captured and report
    /// `Spawned` or `SpawnFailed`.
    Spawn(Invocation),
    /// Forward each line of the writer's two output streams as it arrives,
    /// wait for the writer to exit and for both streams to end, then report
    /// `Exited`.
    AwaitWriter,
    /// The report changed nothing; go on with what was being done.
    Wait,
    /// The job is over: destroy the scratch area.
    Done,
}

/// The mathematical value of a [`JobAction`].
pub enum JobActionView {
    Run(InvocationView),
    Spawn(InvocationView),
    AwaitWriter,
    Wait,
    Done,
}

impl View for JobAction {
    type V = JobActionView;

    open spec fn view(&self) -> JobActionView {
        match self {
            JobAction::Run(call) => JobActionView::Run(call@),
            JobAction::Spawn(call) => JobActionView::Spawn(call@),
            JobAction::AwaitWriter => JobActionView::AwaitWriter,
            JobAction::Wait => JobActionView::Wait,
            JobAction::Done => JobActionView::Done,
        }
    }
}

/// A job's answer to one report.
#[derive(Debug, PartialEq, Eq)]
pub struct JobStep {
    /// To be published in this order before the action is carried out.
    pub messages: Vec<LogMessage>,
    pub action: JobAction,
}

/// The mathematical value of a [`BurnJob`].
pub struct JobView {
    /// The playlist as it was when the burn was requested.
    pub playlist: Seq<SongView>,
    /// Path of the scratch area; empty until it has been created.
    pub scratch: Seq<char>,
    /// Position of the track at the transcoder among the distinct tracks.
    pub cursor: nat,
    pub phase: JobPhase,
    /// Whether a message was lost on its way to the consumer.
    pub broken: bool,
}

/// A job's answer to one report, together with the job after it.
pub struct JobStepView {
    pub job: JobView,
    pub messages: Seq<LogMessageView>,
    pub action: JobActionView,
}

impl JobView {
    /// While a track is at the transcoder, the cursor points at it.
    pub open spec fn wf(self) -> bool {
        self.phase is Transcoding ==> self.cursor < unique_tracks(self.playlist).len()
    }

    /// The job for `playlist` before anything has happened.
    pub open spec fn fresh(playlist: Seq<SongView>) -> JobView {
        JobView { playlist, scratch: Seq::empty(), cursor: 0, phase: JobPhase::Setup, broken: false }
    }
}

/// The line that announces the transcoding of `song`.
pub open spec fn transcode_notice(song: SongView) -> LogMessageView {
    LogMessageView::Line { is_stderr: false, text: "Transcoding "@ + song.path }
}

/// The line that confirms the normalization.
pub open spec fn normalize_notice() -> LogMessageView {
    LogMessageView::Line { is_stderr: false, text: "Audio normalization complete."@ }
}

/// The line that announces the writing of the disc.
pub open spec fn write_notice() -> LogMessageView {
    LogMessageView::Line { is_stderr: false, text: "--- Burning Audio CD ---"@ }
}

/// The transcoder run for `song`, with its output inside `scratch`.
pub open spec fn track_call(scratch: Seq<char>, song: SongView) -> InvocationView {
    transcoder_call(song.path, file_path(scratch, song.id))
}

/// The job ends with `outcome` as its one completion message.
pub open spec fn finish(job: JobView, outcome: Result<Seq<char>, BurnErrorView>) -> JobStepView {
    JobStepView {
        job: JobView { phase: JobPhase::Finished, ..job },
        messages: seq![LogMessageView::Complete(outcome)],
        action: JobActionView::Done,
    }
}

/// The report does not belong to the job's phase and changes nothing.
pub open spec fn ignore(job: JobView) -> JobStepView {
    JobStepView { job, messages: Seq::empty(), action: JobActionView::Wait }
}

/// The distinct track at `index` goes to the transcoder.
pub open spec fn begin_track(job: JobView, index: nat) -> JobStepView {
    let song = unique_tracks(job.playlist)[index as int];
    JobStepView {
        job: JobView { phase: JobPhase::Transcoding, cursor: index, ..job },
        messages: seq![transcode_notice(song)],
        action: JobActionView::Run(track_call(job.scratch, song)),
    }
}

/// The job's answer to `event`, and the job after it.
pub open spec fn step_of(job: JobView, event: JobEventView) -> JobStepView {
    if event is SendFailed {
        JobStepView {
            job: JobView { phase: JobPhase::Finished, broken: true, ..job },
            messages: Seq::empty(),
            action: JobActionView::Done,
        }
    } else if job.phase is Finished {
        JobStepView { job, messages: Seq::empty(), action: JobActionView::Done }
    } else {
        match job.phase {
            JobPhase::Setup => match event {
                JobEventView::ScratchFailed => finish(job, Err(BurnErrorView::ScratchSetupFailed)),
                JobEventView::ScratchCreated { path } => {
                    let placed = JobView { scratch: path, ..job };
                    if job.playlist.len() == 0 {
                        finish(placed, Err(BurnErrorView::EmptyPlaylist))
                    } else {
                        begin_track(placed, 0)
                    }
                },
                _ => ignore(job),
            },
            JobPhase::Transcoding => match event {
                JobEventView::Exited { success } => {
                    let unique = unique_tracks(job.playlist);
                    if !success {
                        finish(
                            job,
                            Err(
                                BurnErrorView::TranscodeFailed {
                                    path: unique[job.cursor as int].path,
                                },
                            ),
                        )
                    } else if job.cursor + 1 < unique.len() {
                        begin_track(job, job.cursor + 1)
                    } else {
                        JobStepView {
                            job: JobView { phase: JobPhase::Normalizing, ..job },
                            messages: Seq::empty(),
                            action: JobActionView::Run(
                                normalizer_call(job.scratch, file_names(unique)),
                            ),
                        }
                    }
                },
                _ => ignore(job),
            },
            JobPhase::Normalizing => match event {
                JobEventView::Exited { success } => {
                    if !success {
                        finish(job, Err(BurnErrorView::NormalizeFailed))
                    } else {
                        JobStepView {
                            job: JobView { phase: JobPhase::Spawning, ..job },
                            messages: seq![normalize_notice(), write_notice()],
                            action: JobActionView::Spawn(
                                writer_call(
                                    job.scratch,
                                    CD_WRITER_DEVICE@,
                                    file_names(job.playlist),
                                ),
                            ),
                        }
                    }
                },
                _ => ignore(job),
            },
            JobPhase::Spawning => match event {
                JobEventView::SpawnFailed => finish(job, Err(BurnErrorView::WriterSpawnFailed)),
                JobEventView::Spawned => JobStepView {
                    job: JobView { phase: JobPhase::Writing, ..job },
                    messages: Seq::empty(),
                    action: JobActionView::AwaitWriter,
                },
                _ => ignore(job),
            },
            JobPhase::Writing => match event {
                JobEventView::Exited { success } => {
                    if success {
                        finish(job, Ok(success_summary()))
                    } else {
                        finish(job, Err(BurnErrorView::WriteFailed))
                    }
                },
                _ => ignore(job),
            },
            JobPhase::Finished => ignore(job),
        }
    }
}

/// A step never leaves a job with its cursor off the list of distinct tracks.
pub proof fn lemma_step_keeps_wf(job: JobView, event: JobEventView)
    requires
        job.wf(),
    ensures
        step_of(job, event).job.wf(),
        step_of(job, event).job.playlist == job.playlist,
{
    lemma_unique_len(job.playlist);
}

/// One burn job: a snapshot of the playlist and how far the pipeline has come.
pub struct BurnJob {
    playlist: Vec<Song>,
    unique: Vec<Song>,
    scratch: String,
    cursor: usize,
    phase: JobPhase,
    broken: bool,
}

impl View for BurnJob {
    type V = JobView;

    closed spec fn view(&self) -> JobView {
        JobView {
            playlist: song_views(self.playlist@),
            scratch: self.scratch@,
            cursor: self.cursor as nat,
            phase: self.phase,
            broken: self.broken,
        }
    }
}

impl BurnJob {
    #[verifier::type_invariant]
    spec fn coherent(&self) -> bool {
        &&& song_views(self.unique@) == unique_tracks(song_views(self.playlist@))
        &&& self.phase is Transcoding ==> self.cursor < self.unique@.len()
    }

    /// A job for `playlist`, which it owns from now on. Nothing has happened
    /// yet: the worker begins by creating the scratch area and reports how
    /// that went.
    pub fn new(playlist: Vec<Song>) -> (job: BurnJob)
        ensures
            job@ == JobView::fresh(song_views(playlist@)),
            job@.wf(),
    {
        let unique = distinct_tracks(&playlist);
        BurnJob {
            playlist,
            unique,
            scratch: String::new(),
            cursor: 0,
            phase: JobPhase::Setup,
            broken: false,
        }
    }

    /// How far the job has come.
    pub fn phase(&self) -> (phase: JobPhase)
        ensures
            phase == self@.phase,
    {
        self.phase
    }

    /// Whether the job is over.
    pub fn is_finished(&self) -> (finished: bool)
        ensures
            finished == (self@.phase is Finished),
    {
        match self.phase {
            JobPhase::Finished => true,
            _ => false,
        }
    }

    /// What the worker itself ends with: an error when a message was lost on
    /// its way to the consumer, and success otherwise. A job that failed but
    /// said so in its completion message ended well as far as the worker goes.
    pub fn worker_result(&self) -> (result: Result<(), BurnError>)
        ensures
            result is Err <==> self@.broken,
            result is Err ==> result->Err_0@ == BurnErrorView::ChannelSendFailed,
    {
        if self.broken {
            Err(BurnError::ChannelSendFailed)
        } else {
            Ok(())
        }
    }

    fn finish(&mut self, outcome: Result<String, BurnError>) -> (step: JobStep)
        ensures
            finish(old(self)@, outcome_view(outcome)) == (JobStepView {
                job: final(self)@,
                messages: message_views(step.messages@),
                action: step.action@,
            }),
    {
        proof {
            use_type_invariant(&*self);
        }
        self.phase = JobPhase::Finished;
        let mut messages: Vec<LogMessage> = Vec::new();
        messages.push(LogMessage::Complete(outcome));
        assert(message_views(messages@) == seq![
            LogMessageView::Complete(outcome_view(outcome)),
        ]);
        JobStep { messages, action: JobAction::Done }
    }

    fn ignore(&self) -> (step: JobStep)
        ensures
            ignore(self@) == (JobStepView {
                job: self@,
                messages: message_views(step.messages@),
                action: step.action@,
            }),
    {
        let messages: Vec<LogMessage> = Vec::new();
        assert(message_views(messages@) == Seq::<LogMessageView>::empty());
        JobStep { messages, action: JobAction::Wait }
    }

    fn begin_track(&mut self, index: usize) -> (step: JobStep)
        requires
            index < old(self).unique@.len(),
        ensures
            begin_track(old(self)@, index as nat) == (JobStepView {
                job: final(self)@,
                messages: message_views(step.messages@),
                action: step.action@,
            }),
    {
        proof {
            use_type_invariant(&*self);
        }
        self.cursor = index;
        self.phase = JobPhase::Transcoding;
        let song = &self.unique[index];
        assert(song@ == unique_tracks(old(self)@.playlist)[index as int]);
        let mut text = String::from_str("Transcoding ");
        text.append(song.path.as_str());
        let mut messages: Vec<LogMessage> = Vec::new();
        messages.push(LogMessage::output(false, text));
        assert(message_views(messages@) == seq![transcode_notice(song@)]);
        let output = scratch_file_path(self.scratch.as_str(), song.id);
        let call = transcoder_invocation(song.path.as_str(), output.as_str());
        JobStep { messages, action: JobAction::Run(call) }
    }

    fn begin_normalize(&mut self) -> (step: JobStep)
        ensures
            final(self)@ == (JobView { phase: JobPhase::Normalizing, ..old(self)@ }),
            message_views(step.messages@) == Seq::<LogMessageView>::empty(),
            step.action@ == JobActionView::Run(
                normalizer_call(old(self)@.scratch, file_names(unique_tracks(old(self)@.playlist))),
            ),
    {
        proof {
            use_type_invariant(&*self);
        }
        self.phase = JobPhase::Normalizing;
        let files = scratch_file_names(&self.unique);
        let call = normalizer_invocation(self.scratch.as_str(), files);
        let messages: Vec<LogMessage> = Vec::new();
        assert(message_views(messages@) == Seq::<LogMessageView>::empty());
        JobStep { messages, action: JobAction::Run(call) }
    }

    fn begin_write(&mut self) -> (step: JobStep)
        ensures
            final(self)@ == (JobView { phase: JobPhase::Spawning, ..old(self)@ }),
            message_views(step.messages@) == seq![normalize_notice(), write_notice()],
            step.action@ == JobActionView::Spawn(
                writer_call(old(self)@.scratch, CD_WRITER_DEVICE@, file_names(old(self)@.playlist)),
            ),
    {
        proof {
            use_type_invariant(&*self);
        }
        self.phase = JobPhase::Spawning;
        let files = scratch_file_names(&self.playlist);
        let call = writer_invocation(self.scratch.as_str(), CD_WRITER_DEVICE, files);
        let mut messages: Vec<LogMessage> = Vec::new();
        messages.push(LogMessage::status("Audio normalization complete."));
        messages.push(LogMessage::status("--- Burning Audio CD ---"));
        assert(message_views(messages@) == seq![normalize_notice(), write_notice()]);
        JobStep { messages, action: JobAction::Spawn(call) }
    }

    /// Takes in what the worker reports and answers with the messages to
    /// publish and the next action. A lost message ends the job without a
    /// further word. Any other report that does not belong to the job's phase
    /// changes nothing, and a job that is over stays over.
    pub fn step(&mut self, event: JobEvent) -> (step: JobStep)
        ensures
            step_of(old(self)@, event@) == (JobStepView {
                job: final(self)@,
                messages: message_views(step.messages@),
                action: step.action@,
            }),
            final(self)@.wf(),
    {
        proof {
            use_type_invariant(&*self);
            lemma_unique_len(old(self)@.playlist);
        }
        let step = match self.phase {
            JobPhase::Finished => {
                match event {
                    JobEvent::SendFailed => {
                        self.broken = true;
                    },
                    _ => {},
                }
                let messages: Vec<LogMessage> = Vec::new();
                assert(message_views(messages@) == Seq::<LogMessageView>::empty());
                JobStep { messages, action: JobAction::Done }
            },
            phase => match event {
                JobEvent::SendFailed => {
                    self.broken = true;
                    self.phase = JobPhase::Finished;
                    let messages: Vec<LogMessage> = Vec::new();
                    assert(message_views(messages@) == Seq::<LogMessageView>::empty());
                    JobStep { messages, action: JobAction::Done }
                },
                JobEvent::ScratchFailed => match phase {
                    JobPhase::Setup => self.finish(Err(BurnError::ScratchSetupFailed)),
                    _ => self.ignore(),
                },
                JobEvent::ScratchCreated { path } => match phase {
                    JobPhase::Setup => {
                        self.scratch = path;
                        if self.playlist.len() == 0 {
                            self.finish(Err(BurnError::EmptyPlaylist))
                        } else {
                            self.begin_track(0)
                        }
                    },
                    _ => self.ignore(),
                },
                JobEvent::Exited { success } => match phase {
                    JobPhase::Transcoding => {
                        if !success {
                            let path = self.unique[self.cursor].path.clone();
                            self.finish(Err(BurnError::TranscodeFailed { path }))
                        } else if self.cursor < self.unique.len() - 1 {
                            self.begin_track(self.cursor + 1)
                        } else {
                            self.begin_normalize()
                        }
                    },
                    JobPhase::Normalizing => {
                        if !success {
                            self.finish(Err(BurnError::NormalizeFailed))
                        } else {
                            self.begin_write()
                        }
                    },
                    JobPhase::Writing => {
                        if success {
                            self.finish(Ok(String::from_str(SUCCESS_SUMMARY)))
                        } else {
                            self.finish(Err(BurnError::WriteFailed))
                        }
                    },
                    _ => self.ignore(),
                },
                JobEvent::Spawned => match phase {
                    JobPhase::Spawning => {
                        self.phase = JobPhase::Writing;
                        let messages: Vec<LogMessage> = Vec::new();
                        assert(message_views(messages@) == Seq::<LogMessageView>::empty());
                        JobStep { messages, action: JobAction::AwaitWriter }
                    },
                    _ => self.ignore(),
                },
                JobEvent::SpawnFailed => match phase {
                    JobPhase::Spawning => self.finish(Err(BurnError::WriterSpawnFailed)),
                    _ => self.ignore(),
                },
            },
        };
        proof {
            use_type_invariant(&*self);
        }
        step
    }
}


} // verus!
