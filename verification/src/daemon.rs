//! The daemon's decision state around its playback backend.
//!
//! The backend itself is an external sink driven over a channel; what
//! the daemon decides is here: which command message each control call
//! produces, and — on each backend event — which competing audio
//! player to pause when playback starts, which to resume when the
//! queue runs idle, and when to shut down.  The caller performs the
//! returned directives and feeds events and the peers' current playing
//! state back in.

use vstd::prelude::*;
use crate::SmError;

verus! {

/// One event of the playback backend, as the caller maps it.
#[derive(Debug, Clone, Copy, PartialEq, Eq, Structural)]
pub enum PlayerEvent {
    /// The player window was closed.
    Shutdown,
    /// The queue ran out; the player idles.
    Idle,
    /// Playback resumed.
    Unpause,
    /// A new file started.
    StartFile,
    /// Anything else.
    Other,
}

/// The commands the backend accepts.
#[derive(Debug, Clone, Copy, PartialEq, Eq, Structural)]
pub enum MpvCommand {
    /// Load and play the file named in the message.
    Playfile,
    /// Set the playback speed named in the message.
    Speed,
    DisableAudioPitchCorrection,
    EnableAudioPitchCorrection,
    Play,
    Pause,
}

/// One command for the backend, with its argument text (empty when the
/// command takes none).
#[derive(Debug)]
pub struct MpvDirective {
    pub command: MpvCommand,
    pub message: String,
}

/// What the caller must do after one backend event.
#[derive(Debug, Clone, Copy, PartialEq, Eq, Structural)]
pub struct PeerDirectives {
    /// Toggle the paused streaming player back on.
    pub resume_spotify: bool,
    /// Start the paused music daemon again.
    pub resume_mpd: bool,
    /// Pause the streaming player.
    pub pause_spotify: bool,
    /// Pause the music daemon.
    pub pause_mpd: bool,
    /// Report the idle state to the queue.
    pub notify_idle: bool,
    /// Leave the event loop.
    pub shutdown: bool,
}

/// Directives with nothing to do.
pub open spec fn no_directives() -> PeerDirectives {
    PeerDirectives {
        resume_spotify: false,
        resume_mpd: false,
        pause_spotify: false,
        pause_mpd: false,
        notify_idle: false,
        shutdown: false,
    }
}

/// The coordination rule, one backend event at a time: when playback
/// starts, every peer that is playing is paused and remembered; when
/// the queue runs idle, every remembered peer is resumed and
/// forgotten; a shutdown event only leaves the loop.  Yields the new
/// remembered flags for the two peers and the directives to perform.
pub open spec fn coordinate_spec(
    event: PlayerEvent,
    spotify_was_playing: bool,
    mpd_was_playing: bool,
    spotify_playing_now: bool,
    mpd_playing_now: bool,
) -> (bool, bool, PeerDirectives) {
    match event {
        PlayerEvent::Shutdown => (spotify_was_playing, mpd_was_playing,
            PeerDirectives { shutdown: true, ..no_directives() }),
        PlayerEvent::Idle => (false, false, PeerDirectives {
            resume_spotify: spotify_was_playing,
            resume_mpd: mpd_was_playing,
            notify_idle: true,
            ..no_directives()
        }),
        PlayerEvent::Unpause | PlayerEvent::StartFile => (
            spotify_was_playing || spotify_playing_now,
            mpd_was_playing || mpd_playing_now,
            PeerDirectives {
                pause_spotify: spotify_playing_now,
                pause_mpd: mpd_playing_now,
                ..no_directives()
            },
        ),
        PlayerEvent::Other => (spotify_was_playing, mpd_was_playing, no_directives()),
    }
}

/// The daemon's decision state: which competing players it paused and
/// still owes a resume.
#[derive(Debug)]
pub struct Daemon {
    /// The streaming player was playing when playback last started.
    pub spotify_was_playing: bool,
    /// The music daemon was playing when playback last started.
    pub mpd_was_playing: bool,
}

impl Daemon {
    /// A daemon that owes no peer a resume.
    pub fn new() -> (r: Result<Self, SmError>)
        ensures
            r is Ok,
            r->Ok_0.spotify_was_playing == false,
            r->Ok_0.mpd_was_playing == false,
    {
        Ok(Daemon { spotify_was_playing: false, mpd_was_playing: false })
    }

    /// Decides one backend event, following `coordinate_spec` exactly.
    pub fn handle_event(
        &mut self,
        event: PlayerEvent,
        spotify_playing_now: bool,
        mpd_playing_now: bool,
    ) -> (r: PeerDirectives)
        ensures
            (final(self).spotify_was_playing, final(self).mpd_was_playing, r)
                == coordinate_spec(event, old(self).spotify_was_playing,
                    old(self).mpd_was_playing, spotify_playing_now, mpd_playing_now),
    {
        let none = PeerDirectives {
            resume_spotify: false,
            resume_mpd: false,
            pause_spotify: false,
            pause_mpd: false,
            notify_idle: false,
            shutdown: false,
        };
        match event {
            PlayerEvent::Shutdown => PeerDirectives { shutdown: true, ..none },
            PlayerEvent::Idle => {
                let d = PeerDirectives {
                    resume_spotify: self.spotify_was_playing,
                    resume_mpd: self.mpd_was_playing,
                    notify_idle: true,
                    ..none
                };
                self.spotify_was_playing = false;
                self.mpd_was_playing = false;
                d
            }
            PlayerEvent::Unpause | PlayerEvent::StartFile => {
                self.spotify_was_playing = self.spotify_was_playing || spotify_playing_now;
                self.mpd_was_playing = self.mpd_was_playing || mpd_playing_now;
                PeerDirectives {
                    pause_spotify: spotify_playing_now,
                    pause_mpd: mpd_playing_now,
                    ..none
                }
            }
            PlayerEvent::Other => none,
        }
    }

    /// The command that plays one file.
    pub fn mpv_play_file(&self, file: &str) -> (r: MpvDirective)
        ensures
            r.command == MpvCommand::Playfile,
            r.message@ == file@,
    {
        MpvDirective { command: MpvCommand::Playfile, message: file.to_owned() }
    }

    /// The command that turns audio pitch correction off.
    pub fn mpv_disable_audio_pitch_correction(&self) -> (r: MpvDirective)
        ensures
            r.command == MpvCommand::DisableAudioPitchCorrection,
            r.message@.len() == 0,
    {
        MpvDirective { command: MpvCommand::DisableAudioPitchCorrection, message: String::new() }
    }

    /// The command that turns audio pitch correction on.
    pub fn mpv_enable_audio_pitch_correction(&self) -> (r: MpvDirective)
        ensures
            r.command == MpvCommand::EnableAudioPitchCorrection,
            r.message@.len() == 0,
    {
        MpvDirective { command: MpvCommand::EnableAudioPitchCorrection, message: String::new() }
    }

    /// The command that appends one file to the player's own list.
    pub fn mpv_play_add(&self, file: &str) -> (r: MpvDirective)
        ensures
            r.command == MpvCommand::Playfile,
            r.message@ == file@,
    {
        MpvDirective { command: MpvCommand::Playfile, message: file.to_owned() }
    }

    /// The command that pauses playback.
    pub fn mpv_pause(&self) -> (r: MpvDirective)
        ensures
            r.command == MpvCommand::Pause,
            r.message@.len() == 0,
    {
        MpvDirective { command: MpvCommand::Pause, message: String::new() }
    }

    /// The command that resumes playback.
    pub fn mpv_play(&self) -> (r: MpvDirective)
        ensures
            r.command == MpvCommand::Play,
            r.message@.len() == 0,
    {
        MpvDirective { command: MpvCommand::Play, message: String::new() }
    }
}

} // verus!
