//! Decisions about the competing audio players on the system.
//!
//! The players are driven through external commands; what their status
//! output means and which command a toggle must issue is decided here.
//! The caller runs the commands and hands their output in.

use vstd::prelude::*;
use crate::text::{contains_str, spec_contains_str};

verus! {

/// The command a player toggle issues.
#[derive(Debug, Clone, Copy, PartialEq, Eq, Structural)]
pub enum PeerCommand {
    Play,
    Pause,
}

/// Whether the streaming player's status reply reports it playing.
pub fn spotify_output_playing(status_stdout: &str) -> (r: bool)
    ensures
        r == spec_contains_str(status_stdout@, "Playing"@),
{
    contains_str(status_stdout, "Playing")
}

/// Whether the music daemon's status output reports it playing.
pub fn mpd_output_playing(status_stdout: &str) -> (r: bool)
    ensures
        r == spec_contains_str(status_stdout@, "playing"@),
{
    contains_str(status_stdout, "playing")
}

/// The toggle rule: pause a playing daemon, start a silent one.
pub fn mpd_play_pause(playing: bool) -> (r: PeerCommand)
    ensures
        r == (if playing {
            PeerCommand::Pause
        } else {
            PeerCommand::Play
        }),
{
    if playing {
        PeerCommand::Pause
    } else {
        PeerCommand::Play
    }
}

} // verus!
