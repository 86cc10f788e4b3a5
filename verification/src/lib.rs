//! Core logic of a track downloader: it bridges a push-style decode engine
//! into a pull-based event stream, runs many per-track pipelines under a
//! bounded-parallelism policy, converts accumulated raw audio into a target
//! container format, computes the on-disk layout, and frames live per-track
//! progress messages for a fan-out notification channel.
//!
//! Everything here is plain computation on plain values; the surrounding
//! program supplies the network session, the decode engine, the async
//! runtime and the file system.
use vstd::prelude::*;

pub mod base62;
pub mod channel_sink;
pub mod download;
pub mod encoder;
pub mod errors;
pub mod naming;
pub mod output;
pub mod phase;
pub mod pipeline;
pub mod sanitize;
pub mod text;
pub mod track;
pub mod wire;

verus! {

/// Control messages that flow from the download pipelines to the
/// notification fan-out channel and its listener task.
#[derive(Debug, Clone)]
pub enum DownloadStateOpts {
    /// A framed progress message to forward to every subscriber.
    MessageSender(String),
    /// Ask the listener to close its socket once the batch is done.
    SocketCloser,
    /// Ask every listener to shut down.
    ShutdownSignal,
}

} // verus!
