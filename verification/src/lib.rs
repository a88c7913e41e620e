//! Capacity-bounded playlists and the decisions of an audio-disc burn job.
//!
//! A playlist ([`playlist`]) takes tracks as long as they fit on one disc. A
//! burn job ([`job`]) takes a copy of the playlist through three external
//! programs: it transcodes each distinct track once, normalizes the batch and
//! writes the disc, and it tells its watcher of every step ([`message`]).
//! What holds of every run of a job is proved in [`trace`].
//!
//! Everything here is pure. The crate decides what has to happen (which
//! program to run with which arguments, which message to publish, what a
//! key or a typed line means) and leaves the doing to its caller: running
//! programs, threads and channels, the catalog, the terminal.

pub mod burn_view;
pub mod consumer;
pub mod decimal;
pub mod error;
pub mod invocation;
pub mod job;
pub mod message;
pub mod mode;
pub mod plan;
pub mod playlist;
pub mod scan;
pub mod shell;
pub mod song;
pub mod timefmt;
pub mod trace;
pub mod view;
pub mod words;
