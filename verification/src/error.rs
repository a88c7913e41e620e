//! Everything that can end a playlist change or a burn job early.

use vstd::prelude::*;
use vstd::string::StringExecFns;

verus! {

/// Why a playlist change or a burn job failed.
#[derive(Debug, PartialEq, Eq)]
pub enum BurnError {
    /// Adding the track would take the playlist past the disc's capacity.
    /// Carries the capacity in words.
    CapacityExceeded { budget: String },
    /// The scratch area could not be created.
    ScratchSetupFailed,
    /// A burn was requested for a playlist without tracks.
    EmptyPlaylist,
    /// The transcoder exited with a failure for the track at `path`.
    TranscodeFailed { path: String },
    /// The normalizer exited with a failure.
    NormalizeFailed,
    /// The disc writer could not be started.
    WriterSpawnFailed,
    /// The disc writer exited with a failure.
    WriteFailed,
    /// A progress message could not be handed to the consumer.
    ChannelSendFailed,
    /// The worker did not end cleanly.
    ThreadJoinFailed,
}

/// The mathematical value of a [`BurnError`].
pub enum BurnErrorView {
    CapacityExceeded { budget: Seq<char> },
    ScratchSetupFailed,
    EmptyPlaylist,
    TranscodeFailed { path: Seq<char> },
    NormalizeFailed,
    WriterSpawnFailed,
    WriteFailed,
    ChannelSendFailed,
    ThreadJoinFailed,
}

impl View for BurnError {
    type V = BurnErrorView;

    open spec fn view(&self) -> BurnErrorView {
        match self {
            BurnError::CapacityExceeded { budget } => BurnErrorView::CapacityExceeded {
                budget: budget@,
            },
            BurnError::ScratchSetupFailed => BurnErrorView::ScratchSetupFailed,
            BurnError::EmptyPlaylist => BurnErrorView::EmptyPlaylist,
            BurnError::TranscodeFailed { path } => BurnErrorView::TranscodeFailed { path: path@ },
            BurnError::NormalizeFailed => BurnErrorView::NormalizeFailed,
            BurnError::WriterSpawnFailed => BurnErrorView::WriterSpawnFailed,
            BurnError::WriteFailed => BurnErrorView::WriteFailed,
            BurnError::ChannelSendFailed => BurnErrorView::ChannelSendFailed,
            BurnError::ThreadJoinFailed => BurnErrorView::ThreadJoinFailed,
        }
    }
}

/// The sentence shown to the user for each error.
pub open spec fn error_text(e: BurnErrorView) -> Seq<char> {
    match e {
        BurnErrorView::CapacityExceeded { budget } =>
            "Track is too long! Adding would exceed the CD Limit of "@ + budget + " CD limit."@,
        BurnErrorView::ScratchSetupFailed => "Failed to create temporary staging directory"@,
        BurnErrorView::EmptyPlaylist => "Playlist is empty. Add songs first."@,
        BurnErrorView::TranscodeFailed { path } =>
            "ffmpeg failed to transcode track at path "@ + path
                + ". Check source file access and validity."@,
        BurnErrorView::NormalizeFailed => "Audio normalization failed."@,
        BurnErrorView::WriterSpawnFailed =>
            "Failed to execute wodim. Check device path and permissions."@,
        BurnErrorView::WriteFailed => "CD burning failed (wodim exit code error)."@,
        BurnErrorView::ChannelSendFailed => "Failed to deliver a progress message."@,
        BurnErrorView::ThreadJoinFailed => "Failed to join background burn thread."@,
    }
}

impl Clone for BurnError {
    fn clone(&self) -> (copy: Self)
        ensures
            copy == *self,
    {
        match self {
            BurnError::CapacityExceeded { budget } => BurnError::CapacityExceeded {
                budget: budget.clone(),
            },
            BurnError::ScratchSetupFailed => BurnError::ScratchSetupFailed,
            BurnError::EmptyPlaylist => BurnError::EmptyPlaylist,
            BurnError::TranscodeFailed { path } => BurnError::TranscodeFailed {
                path: path.clone(),
            },
            BurnError::NormalizeFailed => BurnError::NormalizeFailed,
            BurnError::WriterSpawnFailed => BurnError::WriterSpawnFailed,
            BurnError::WriteFailed => BurnError::WriteFailed,
            BurnError::ChannelSendFailed => BurnError::ChannelSendFailed,
            BurnError::ThreadJoinFailed => BurnError::ThreadJoinFailed,
        }
    }
}

impl BurnError {
    /// The sentence shown to the user for this error.
    pub fn message(&self) -> (text: String)
        ensures
            text@ == error_text(self@),
    {
        match self {
            BurnError::CapacityExceeded { budget } => {
                let mut text = String::from_str(
                    "Track is too long! Adding would exceed the CD Limit of ",
                );
                text.append(budget.as_str());
                text.append(" CD limit.");
                text
            },
            BurnError::ScratchSetupFailed => String::from_str(
                "Failed to create temporary staging directory",
            ),
            BurnError::EmptyPlaylist => String::from_str("Playlist is empty. Add songs first."),
            BurnError::TranscodeFailed { path } => {
                let mut text = String::from_str("ffmpeg failed to transcode track at path ");
                text.append(path.as_str());
                text.append(". Check source file access and validity.");
                text
            },
            BurnError::NormalizeFailed => String::from_str("Audio normalization failed."),
            BurnError::WriterSpawnFailed => String::from_str(
                "Failed to execute wodim. Check device path and permissions.",
            ),
            BurnError::WriteFailed => String::from_str("CD burning failed (wodim exit code error)."),
            BurnError::ChannelSendFailed => String::from_str(
                "Failed to deliver a progress message.",
            ),
            BurnError::ThreadJoinFailed => String::from_str(
                "Failed to join background burn thread.",
            ),
        }
    }
}

} // verus!
