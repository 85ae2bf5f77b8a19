//! Sequential, resumable downloads of remote archives.
//!
//! A session holds one active download and a first-in, first-out backlog of
//! pending ones. Each download is described by a [`descriptor::DownloadDescriptor`]
//! and travels through the backlog as an opaque token. The transfer engine
//! decides, chunk by chunk, where a download stands and what has to be
//! persisted so that an interrupted transfer resumes where it stopped; the
//! caller performs the network and file operations that the engine asks for.

pub mod status;
pub mod error;
pub mod checkpoint;
pub mod digits;
pub mod bindings;
pub mod descriptor;
pub mod codec;
pub mod session;
pub mod transfer;
pub mod pipeline;
