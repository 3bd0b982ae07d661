//! Terminal media-queue remote control, verified core.
//!
//! The crate holds the queue coordination logic of a small media-player
//! front end: the binary wire codec spoken to the playback daemon, the
//! parsers for the daemon-written status / queue / history files, the
//! list-cursor and event-merge state of the terminal UI, and the integer
//! model of the mixer volume.  File and socket I/O, the terminal renderer
//! and the playback backend live outside the crate and hand plain values
//! in and out.

use vstd::prelude::*;

pub mod daemon;
pub mod daemon_queue;
pub mod external_program_status;
pub mod history_watcher;
pub mod socket_com;
pub mod status_watcher;
pub mod tab_elements;
pub mod text;
pub mod ui_loop;
pub mod volume;
pub mod wire;

verus! {

/// The error taxonomy of the client: each variant names one way an
/// operation can fail.  Parse failures never destroy previously good
/// state; transport and mixer failures are reported to the caller.
#[derive(Debug, Clone, Copy, PartialEq, Eq, Structural)]
pub enum SmError {
    /// The IPC channel to the daemon could not be reached.
    Transport,
    /// A status, queue or history file did not parse.
    MalformedStateFile,
    /// A local path could not be canonicalized.
    PathResolution,
    /// Neither a local file nor a resolvable remote media item.
    UnrecognizedInput,
    /// The volume subsystem is unreachable.
    MixerUnavailable,
    /// The OS-level file watch could not be established.
    WatchSetup,
}

} // verus!
