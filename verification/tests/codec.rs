use rustysm::socket_com::{SocketCom, AddPlan, LocalProbe, ProviderVideo, plan_add_entry,
    DEFAULT_PRIORITY};
use rustysm::wire::{MessageKind, EntryKind, encode_frame, decode_frame, entry_frame};
use rustysm::SmError;

fn le8(x: u64) -> Vec<u8> {
    x.to_le_bytes().to_vec()
}

fn frame(priority: u64, kind_byte: u8, payload: &[u8]) -> Vec<u8> {
    let mut f = le8(priority);
    f.push(kind_byte);
    f.extend_from_slice(payload);
    f
}

#[test]
fn round_trip_entry_frame() {
    let payload: Vec<u8> = vec![2, 47, 116, 109, 112, 0, 255];
    let encoded = encode_frame(MessageKind::EntryRequest, 99, &payload);
    let decoded = decode_frame(&encoded).unwrap();
    assert!(matches!(decoded.0, MessageKind::EntryRequest));
    assert_eq!(decoded.1, 99);
    assert_eq!(decoded.2, payload);
}

#[test]
fn round_trip_control_frame() {
    let payload: Vec<u8> = vec![6, 7, 0, 0, 0, 0, 0, 0, 0, 0];
    let encoded = encode_frame(MessageKind::ControlRequest, u64::MAX, &payload);
    let decoded = decode_frame(&encoded).unwrap();
    assert!(matches!(decoded.0, MessageKind::ControlRequest));
    assert_eq!(decoded.1, u64::MAX);
    assert_eq!(decoded.2, payload);
}

#[test]
fn decode_refuses_short_and_unknown() {
    assert!(decode_frame(&vec![1, 2, 3]).is_none());
    let mut f = le8(50);
    f.push(9);
    assert!(decode_frame(&f).is_none());
}

#[test]
fn control_frames_layout() {
    let mut com = SocketCom::new().unwrap();
    assert_eq!(com.stop_playback(), frame(50, 1, &[1]));
    assert_eq!(com.pause_playback(), frame(50, 1, &[2]));
    assert_eq!(com.start_playback(), frame(50, 1, &[3]));
    assert_eq!(com.skip_playback(), frame(50, 1, &[4]));
    assert_eq!(com.clear_queue(), frame(50, 1, &[0]));
}

#[test]
fn id_control_frames_layout() {
    let mut com = SocketCom::new().unwrap();
    let mut delete_payload = vec![5u8];
    delete_payload.extend_from_slice(&7u64.to_le_bytes());
    assert_eq!(com.delete_entry(7), frame(50, 1, &delete_payload));
    let mut promote_payload = vec![6u8];
    promote_payload.extend_from_slice(&1234567890123u64.to_le_bytes());
    assert_eq!(com.promote_entry(1234567890123), frame(50, 1, &promote_payload));
}

#[test]
fn entry_frame_carries_location_bytes() {
    let f = entry_frame(EntryKind::FileStream, "http://example/live", 50);
    let mut payload = vec![1u8];
    payload.extend_from_slice("http://example/live".as_bytes());
    assert_eq!(f, frame(50, 0, &payload));
}

#[test]
fn plan_classification() {
    assert_eq!(plan_add_entry(true, LocalProbe::FileOrDir), AddPlan::RawStream);
    assert_eq!(plan_add_entry(true, LocalProbe::NoMetadata), AddPlan::RawStream);
    assert_eq!(plan_add_entry(false, LocalProbe::FileOrDir), AddPlan::LocalMedia);
    assert_eq!(plan_add_entry(false, LocalProbe::NoMetadata), AddPlan::TryProvider);
    assert_eq!(plan_add_entry(false, LocalProbe::OtherKind), AddPlan::Unrecognized);
}

#[test]
fn add_entry_local_media() {
    let mut com = SocketCom::new().unwrap();
    let (frames, feedback) = com
        .add_entry_outcome(AddPlan::LocalMedia, "/tmp/movie.mkv", Some("/tmp/movie.mkv"), None, 50)
        .unwrap();
    assert_eq!(frames.len(), 1);
    let mut payload = vec![2u8];
    payload.extend_from_slice("/tmp/movie.mkv".as_bytes());
    assert_eq!(frames[0], frame(50, 0, &payload));
    assert_eq!(feedback, b"Added /tmp/movie.mkv".to_vec());
}

#[test]
fn add_entry_unrecognized() {
    let mut com = SocketCom::new().unwrap();
    let plan = plan_add_entry(false, LocalProbe::NoMetadata);
    let r = com.add_entry_outcome(plan, "/tmp/does_not_exist", None, None, 50);
    assert_eq!(r.unwrap_err(), SmError::UnrecognizedInput);
}

#[test]
fn add_entry_path_resolution_failure() {
    let mut com = SocketCom::new().unwrap();
    let r = com.add_entry_outcome(AddPlan::LocalMedia, "/tmp/broken_link", None, None, 50);
    assert_eq!(r.unwrap_err(), SmError::PathResolution);
}

#[test]
fn add_entry_raw_stream() {
    let mut com = SocketCom::new().unwrap();
    let (frames, feedback) = com
        .add_entry_outcome(AddPlan::RawStream, "rtsp://cam/1", None, None, DEFAULT_PRIORITY)
        .unwrap();
    assert_eq!(frames.len(), 1);
    let mut payload = vec![1u8];
    payload.extend_from_slice("rtsp://cam/1".as_bytes());
    assert_eq!(frames[0], frame(50, 0, &payload));
    assert_eq!(feedback, b"Pushed 'rtsp://cam/1' as a filestream".to_vec());
}

#[test]
fn add_entry_provider_batch() {
    let mut com = SocketCom::new().unwrap();
    let videos = vec![
        ProviderVideo {
            id: b"abc123".to_vec(),
            title: b"Some Title".to_vec(),
            webpage_url: Some(b"https://yt/watch?v=abc123".to_vec()),
            from_youtube: true,
        },
        ProviderVideo {
            id: b"x9".to_vec(),
            title: b"Other".to_vec(),
            webpage_url: Some(b"https://site/v/x9".to_vec()),
            from_youtube: false,
        },
    ];
    let (frames, feedback) = com
        .add_entry_outcome(AddPlan::TryProvider, "whatever", None, Some(videos), 20)
        .unwrap();
    assert_eq!(frames.len(), 2);
    let mut p0 = vec![0u8];
    p0.extend_from_slice(b"abc123 - Some Title");
    assert_eq!(frames[0], frame(20, 0, &p0));
    let mut p1 = vec![0u8];
    p1.extend_from_slice(b"https://site/v/x9 - Other");
    assert_eq!(frames[1], frame(20, 0, &p1));
    assert_eq!(
        feedback,
        b"Added Youtube video Some Title\nAdded Youtube video Other\n".to_vec()
    );
}

#[test]
fn add_entry_provider_empty_playlist() {
    let mut com = SocketCom::new().unwrap();
    let (frames, feedback) = com
        .add_entry_outcome(AddPlan::TryProvider, "x", None, Some(vec![]), 50)
        .unwrap();
    assert!(frames.is_empty());
    assert!(feedback.is_empty());
}
