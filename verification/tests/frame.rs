use mls_worker::fault::Fault;
use mls_worker::frame::{get_frame_data, set_frame_data, Frame, FrameKind};

fn frame(kind: FrameKind, payload: &[u8]) -> Frame<String> {
    Frame { kind, payload: payload.to_vec(), metadata: "timestamp=42;ssrc=7".to_string() }
}

#[test]
fn audio_and_video_are_supported() {
    assert!(FrameKind::Audio.supported());
    assert!(FrameKind::Video.supported());
    assert!(!FrameKind::Unrecognized.supported());
}

#[test]
fn get_returns_the_payload() {
    assert_eq!(get_frame_data(&frame(FrameKind::Audio, &[1, 2, 3])), Ok(vec![1, 2, 3]));
    assert_eq!(get_frame_data(&frame(FrameKind::Video, &[])), Ok(vec![]));
}

#[test]
fn get_rejects_an_unrecognized_frame() {
    assert_eq!(
        get_frame_data(&frame(FrameKind::Unrecognized, &[1, 2, 3])),
        Err(Fault::UnrecognizedFrameType)
    );
}

#[test]
fn set_replaces_the_payload_only() {
    let mut video = frame(FrameKind::Video, &[1, 2, 3]);
    assert_eq!(set_frame_data(&mut video, &[9, 8]), Ok(()));
    assert_eq!(video, frame(FrameKind::Video, &[9, 8]));
    let mut audio = frame(FrameKind::Audio, &[1]);
    assert_eq!(set_frame_data(&mut audio, &[]), Ok(()));
    assert_eq!(audio.payload, Vec::<u8>::new());
    assert_eq!(audio.kind, FrameKind::Audio);
    assert_eq!(audio.metadata, "timestamp=42;ssrc=7");
}

#[test]
fn set_leaves_an_unrecognized_frame_alone() {
    let mut other = frame(FrameKind::Unrecognized, &[1, 2, 3]);
    assert_eq!(set_frame_data(&mut other, &[9]), Err(Fault::UnrecognizedFrameType));
    assert_eq!(other, frame(FrameKind::Unrecognized, &[1, 2, 3]));
}

#[test]
fn get_after_set_returns_what_was_set() {
    let mut audio = frame(FrameKind::Audio, &[1, 2, 3]);
    set_frame_data(&mut audio, &[5, 6, 7, 8]).unwrap();
    assert_eq!(get_frame_data(&audio), Ok(vec![5, 6, 7, 8]));
}
