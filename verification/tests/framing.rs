use tts_server::frames::{
    classify, classify_binary, classify_text, media_type, UpstreamFrame, UpstreamMessage,
    TAG_BODY_SPLIT, TAG_NONE_DATA_START,
};
use tts_server::utils::{binary_search, bytes_eq, matches_at, random_string};

const ID: &str = "6a5aa1d4eaff4e9fb37e23d68491d6f4";

fn text_frame(path: &str) -> String {
    format!(
        "X-RequestId:{}\r\nContent-Type:application/json; charset=utf-8\r\n{}\r\n\r\n{{}}",
        ID, path
    )
}

fn audio_frame(media: &str, payload: &[u8]) -> Vec<u8> {
    let header = format!(
        "X-RequestId:{}\r\nContent-Type:{}\r\nX-StreamId:AB12\r\nPath:audio\r\n",
        ID, media
    );
    let mut frame = vec![0u8, 128u8];
    frame.extend_from_slice(header.as_bytes());
    frame.extend_from_slice(payload);
    frame
}

#[test]
fn binary_search_finds_the_first_place() {
    assert_eq!(binary_search(b"abcabc", b"bc"), Some(1));
    assert_eq!(binary_search(b"abcabc", b"abcabc"), Some(0));
    assert_eq!(binary_search(b"abcabc", b"cab"), Some(2));
    assert_eq!(binary_search(b"abc", b"abcd"), None);
    assert_eq!(binary_search(b"abc", b""), Some(0));
    assert_eq!(binary_search(b"", b""), Some(0));
    assert_eq!(binary_search(b"abc", b"x"), None);
}

#[test]
fn binary_search_reaches_the_last_place() {
    assert_eq!(binary_search(b"xxPath:audio\r\n", &TAG_BODY_SPLIT), Some(2));
    assert_eq!(binary_search(b"abcd", b"d"), Some(3));
}

#[test]
fn byte_helpers_compare() {
    assert!(bytes_eq(b"abc", b"abc"));
    assert!(!bytes_eq(b"abc", b"abd"));
    assert!(!bytes_eq(b"abc", b"ab"));
    assert!(matches_at(b"hello", b"llo", 2));
    assert!(!matches_at(b"hello", b"llo", 3));
    assert!(!matches_at(b"hello", b"llo", 9));
    assert!(matches_at(b"hello", b"", 5));
    assert!(!matches_at(b"hello", b"", 6));
}

#[test]
fn the_body_split_tag_is_the_audio_path() {
    assert_eq!(&TAG_BODY_SPLIT[..], b"Path:audio\r\n");
    assert_eq!(TAG_NONE_DATA_START, [0u8, 103u8]);
}

#[test]
fn text_frame_turn_start() {
    match classify_text(text_frame("Path:turn.start").as_bytes()) {
        UpstreamFrame::TurnStart { request_id } => assert_eq!(request_id, ID.as_bytes()),
        other => panic!("{:?}", other),
    }
}

#[test]
fn text_frame_turn_end_with_and_without_space() {
    for path in ["Path:turn.end", "Path: turn.end"] {
        match classify_text(text_frame(path).as_bytes()) {
            UpstreamFrame::TurnEnd { request_id } => assert_eq!(request_id, ID.as_bytes()),
            other => panic!("{:?}", other),
        }
    }
}

#[test]
fn text_frame_of_another_path_is_other_text() {
    match classify_text(text_frame("Path:response").as_bytes()) {
        UpstreamFrame::OtherText { request_id } => assert_eq!(request_id, ID.as_bytes()),
        other => panic!("{:?}", other),
    }
}

#[test]
fn text_frame_too_short_is_malformed() {
    assert!(matches!(classify_text(b"Path:turn.end"), UpstreamFrame::Malformed));
    let whole = text_frame("Path:turn.end");
    assert!(matches!(classify_text(&whole.as_bytes()[..43]), UpstreamFrame::Malformed));
}

#[test]
fn binary_frame_is_cut_behind_the_tag() {
    let frame = audio_frame("audio/mpeg", &[1, 2, 3, 4]);
    match classify_binary(&frame) {
        UpstreamFrame::Audio { request_id, header, payload } => {
            assert_eq!(request_id, ID.as_bytes());
            assert_eq!(payload, vec![1, 2, 3, 4]);
            assert!(header.ends_with(b"Path:audio\r\n"));
            let mut again = header.clone();
            again.extend_from_slice(&payload);
            assert_eq!(again, frame);
        }
        other => panic!("{:?}", other),
    }
}

#[test]
fn binary_frame_is_cut_at_the_first_tag() {
    let frame = audio_frame("audio/mpeg", b"Path:audio\r\nrest");
    match classify_binary(&frame) {
        UpstreamFrame::Audio { payload, .. } => assert_eq!(payload, b"Path:audio\r\nrest".to_vec()),
        other => panic!("{:?}", other),
    }
}

#[test]
fn binary_frame_with_empty_payload() {
    let frame = audio_frame("audio/mpeg", &[]);
    match classify_binary(&frame) {
        UpstreamFrame::Audio { header, payload, .. } => {
            assert!(payload.is_empty());
            assert_eq!(header, frame);
        }
        other => panic!("{:?}", other),
    }
}

#[test]
fn binary_marker_frame_has_no_data() {
    let mut frame = audio_frame("audio/mpeg", &[9, 9]);
    frame[0] = 0;
    frame[1] = 103;
    match classify_binary(&frame) {
        UpstreamFrame::NoData { request_id } => assert_eq!(request_id, ID.as_bytes()),
        other => panic!("{:?}", other),
    }
}

#[test]
fn binary_frame_without_tag_or_too_short_is_malformed() {
    let mut frame = vec![0u8, 128u8];
    frame.extend_from_slice(format!("X-RequestId:{}\r\nContent-Type:audio/mpeg\r\n", ID).as_bytes());
    assert!(matches!(classify_binary(&frame), UpstreamFrame::Malformed));
    assert!(matches!(classify_binary(&[0u8, 103u8, 1, 2]), UpstreamFrame::Malformed));
    assert!(matches!(classify_binary(&[]), UpstreamFrame::Malformed));
}

#[test]
fn messages_are_classified_by_kind() {
    assert!(matches!(classify(&UpstreamMessage::Ping), UpstreamFrame::KeepAlive));
    assert!(matches!(classify(&UpstreamMessage::Pong), UpstreamFrame::KeepAlive));
    assert!(matches!(classify(&UpstreamMessage::Other), UpstreamFrame::KeepAlive));
    assert!(matches!(classify(&UpstreamMessage::Close), UpstreamFrame::Closed));
    assert!(matches!(
        classify(&UpstreamMessage::Text(text_frame("Path:turn.start"))),
        UpstreamFrame::TurnStart { .. }
    ));
    assert!(matches!(
        classify(&UpstreamMessage::Binary(audio_frame("audio/mpeg", &[1]))),
        UpstreamFrame::Audio { .. }
    ));
}

#[test]
fn media_type_is_read_from_the_header() {
    let frame = audio_frame("audio/mpeg", &[1, 2]);
    let header = &frame[..frame.len() - 2];
    assert_eq!(media_type(header), Some("audio/mpeg".to_string()));
    assert_eq!(
        media_type(b"\x00\x20X-RequestId:1\r\nContent-Type:  audio/webm; codec=opus\r\nPath:audio\r\n"),
        Some("audio/webm; codec=opus".to_string())
    );
    assert_eq!(media_type(b"Content-Type:audio/x-wav"), Some("audio/x-wav".to_string()));
}

#[test]
fn media_type_missing_or_not_utf8() {
    assert_eq!(media_type(b"\x00\x20X-RequestId:1\r\nPath:audio\r\n"), None);
    assert_eq!(media_type(b"Content-Type:\xff\xfe\r\nPath:audio\r\n"), None);
}

#[test]
fn random_string_has_the_length_and_the_alphabet() {
    let id = random_string(32);
    assert_eq!(id.len(), 32);
    assert!(id.chars().all(|c| "123456789abcdef".contains(c)));
    assert_eq!(random_string(0), "");
    assert_ne!(random_string(32), random_string(32));
}
