use rustysm::volume::{VolumeModel, is_volume_event};
use rustysm::daemon::{Daemon, MpvCommand, PlayerEvent};
use rustysm::daemon_queue::{DaemonQueue, InputObject, Settings};
use rustysm::external_program_status::{PeerCommand, mpd_play_pause, spotify_output_playing,
    mpd_output_playing};

fn model(min: i64, max: i64, cur: i64) -> VolumeModel {
    let mut m = VolumeModel::new();
    m.update(min, max, cur);
    m
}

#[test]
fn step_targets() {
    let m = model(-6000, 0, -3000);
    assert_eq!(m.increment_target(1), Some(-2940));
    assert_eq!(m.decrement_target(1), Some(-3060));
    assert_eq!(m.increment_target(10), Some(-2400));
}

#[test]
fn steps_stop_at_the_edges() {
    let top = model(-6000, 0, 0);
    assert_eq!(top.increment_target(1), None);
    let bottom = model(-6000, 0, -6000);
    assert_eq!(bottom.decrement_target(1), None);
}

#[test]
fn degenerate_mixer_state_gives_no_target() {
    let broken = model(0, 0, 0);
    assert_eq!(broken.increment_target(1), None);
    assert_eq!(broken.decrement_target(1), None);
    let positive_min = model(100, 200, 150);
    assert_eq!(positive_min.increment_target(1), None);
}

#[test]
fn loudness_is_normalized() {
    assert_eq!(model(-6000, 0, -3000).loudness_permille(), 500);
    assert_eq!(model(-6000, 0, -6000).loudness_permille(), 0);
    assert_eq!(model(-6000, 0, 0).loudness_permille(), 1000);
    assert_eq!(model(-6000, 600, -600).loudness_permille(), 818);
    let m = model(-10_000, 300, -123);
    let l = m.loudness_permille();
    assert!(l <= 1000);
}

#[test]
fn volume_event_name_filter() {
    assert!(is_volume_event("Master Playback Volume"));
    assert!(!is_volume_event("Headphone Jack"));
    assert!(!is_volume_event(""));
}

#[test]
fn peer_coordination_on_start_and_idle() {
    let mut daemon = Daemon::new().unwrap();

    let d = daemon.handle_event(PlayerEvent::StartFile, true, false);
    assert!(daemon.spotify_was_playing);
    assert!(!daemon.mpd_was_playing);
    assert!(d.pause_spotify);
    assert!(!d.pause_mpd);
    assert!(!d.resume_spotify && !d.resume_mpd && !d.notify_idle && !d.shutdown);

    let d = daemon.handle_event(PlayerEvent::Unpause, false, true);
    assert!(daemon.spotify_was_playing);
    assert!(daemon.mpd_was_playing);
    assert!(!d.pause_spotify && d.pause_mpd);

    let d = daemon.handle_event(PlayerEvent::Other, false, false);
    assert!(daemon.spotify_was_playing && daemon.mpd_was_playing);
    assert!(!d.pause_spotify && !d.pause_mpd && !d.resume_spotify && !d.resume_mpd);
    assert!(!d.notify_idle && !d.shutdown);

    let d = daemon.handle_event(PlayerEvent::Idle, false, false);
    assert!(!daemon.spotify_was_playing && !daemon.mpd_was_playing);
    assert!(d.resume_spotify && d.resume_mpd && d.notify_idle);
    assert!(!d.pause_spotify && !d.pause_mpd && !d.shutdown);

    let d = daemon.handle_event(PlayerEvent::Shutdown, false, false);
    assert!(d.shutdown);
}

#[test]
fn mpv_directives_carry_their_message() {
    let daemon = Daemon::new().unwrap();
    let d = daemon.mpv_play_file("/media/a.mkv");
    assert!(matches!(d.command, MpvCommand::Playfile));
    assert_eq!(d.message, "/media/a.mkv");
    let d = daemon.mpv_disable_audio_pitch_correction();
    assert!(matches!(d.command, MpvCommand::DisableAudioPitchCorrection));
    assert!(d.message.is_empty());
    let d = daemon.mpv_enable_audio_pitch_correction();
    assert!(matches!(d.command, MpvCommand::EnableAudioPitchCorrection));
    let d = daemon.mpv_play_add("/media/b.mkv");
    assert!(matches!(d.command, MpvCommand::Playfile));
    assert_eq!(d.message, "/media/b.mkv");
    assert!(matches!(daemon.mpv_pause().command, MpvCommand::Pause));
    assert!(matches!(daemon.mpv_play().command, MpvCommand::Play));
}

#[test]
fn peer_status_and_toggle() {
    assert!(spotify_output_playing("variant string \"Playing\"\n"));
    assert!(!spotify_output_playing("variant string \"Paused\"\n"));
    assert!(mpd_output_playing("[playing] #1/10"));
    assert!(!mpd_output_playing("[paused] #1/10"));
    assert!(matches!(mpd_play_pause(true), PeerCommand::Pause));
    assert!(matches!(mpd_play_pause(false), PeerCommand::Play));
}

#[test]
fn daemon_prequeue_parks_inputs() {
    let mut q = DaemonQueue::new().unwrap();
    q.add_to_queue(InputObject {
        input_string: "https://a".to_string(),
        priority: 50,
        settings: Settings {
            playback_speed_milli: 1000,
            audio_pitch_correction: true,
            start_pos_milli: 0,
            duration_milli: 0,
        },
    });
    assert_eq!(q.to_be_processed_queue.len(), 1);
    assert_eq!(q.to_be_processed_queue[0].input.input_string, "https://a");
    assert!(!q.to_be_processed_queue[0].finished);
    assert!(q.media_queue.is_empty());
    q.process_prequeue();
    assert_eq!(q.to_be_processed_queue.len(), 1);
}
