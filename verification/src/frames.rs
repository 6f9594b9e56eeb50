//! The framing of the messages that an upstream speech service sends.
//!
//! A text message opens with a header block whose bytes 12..44 hold the
//! request identifier; its `Path` header says whether a turn begins or ends.
//! A binary message opens with a two-byte length and a header block that
//! closes with the literal `Path:audio\r\n`; the audio follows. A binary
//! message that opens with the bytes `0x00 0x67` carries a header and no audio.

use crate::text::utf8_text;
use crate::utils::{binary_search, copy_range, find_first, first_occurrence, mentions, occurs_at};
use vstd::prelude::*;
use vstd::slice::slice_subrange;
use vstd::string::StringSliceAdditionalSpecFns;
use vstd::utf8::*;

verus! {

/// The literal `Path:audio\r\n`, which closes the header block of an audio message.
pub const TAG_BODY_SPLIT: [u8; 12] = [80, 97, 116, 104, 58, 97, 117, 100, 105, 111, 13, 10];

/// The two bytes that open a binary message without audio.
pub const TAG_NONE_DATA_START: [u8; 2] = [0, 103];

/// The offset of the request identifier in a text message.
pub const TEXT_ID_START: usize = 12;

/// The offset of the request identifier in a binary message.
pub const BINARY_ID_START: usize = 14;

/// The length of a request identifier.
pub const REQUEST_ID_LEN: usize = 32;

/// One message of an upstream session, as the transport hands it over.
#[derive(Debug)]
pub enum UpstreamMessage {
    Text(String),
    Binary(Vec<u8>),
    Ping,
    Pong,
    Close,
    Other,
}

/// What one upstream message means to the session.
#[derive(Debug)]
pub enum UpstreamFrame {
    /// A turn has begun.
    TurnStart { request_id: Vec<u8> },
    /// A turn is complete.
    TurnEnd { request_id: Vec<u8> },
    /// A text message that neither begins nor ends a turn.
    OtherText { request_id: Vec<u8> },
    /// A piece of audio with the header block that came before it.
    Audio { request_id: Vec<u8>, header: Vec<u8>, payload: Vec<u8> },
    /// A header-only marker between pieces of audio.
    NoData { request_id: Vec<u8> },
    /// A ping, a pong or a raw frame: nothing to do.
    KeepAlive,
    /// The peer closed the session.
    Closed,
    /// A message too short for its identifier, or audio without its header literal.
    Malformed,
}

/// The mathematical value of an `UpstreamFrame`.
pub enum FrameView {
    TurnStart { request_id: Seq<u8> },
    TurnEnd { request_id: Seq<u8> },
    OtherText { request_id: Seq<u8> },
    Audio { request_id: Seq<u8>, header: Seq<u8>, payload: Seq<u8> },
    NoData { request_id: Seq<u8> },
    KeepAlive,
    Closed,
    Malformed,
}

impl View for UpstreamFrame {
    type V = FrameView;

    open spec fn view(&self) -> FrameView {
        match self {
            UpstreamFrame::TurnStart { request_id } => FrameView::TurnStart {
                request_id: request_id@,
            },
            UpstreamFrame::TurnEnd { request_id } => FrameView::TurnEnd { request_id: request_id@ },
            UpstreamFrame::OtherText { request_id } => FrameView::OtherText {
                request_id: request_id@,
            },
            UpstreamFrame::Audio { request_id, header, payload } => FrameView::Audio {
                request_id: request_id@,
                header: header@,
                payload: payload@,
            },
            UpstreamFrame::NoData { request_id } => FrameView::NoData { request_id: request_id@ },
            UpstreamFrame::KeepAlive => FrameView::KeepAlive,
            UpstreamFrame::Closed => FrameView::Closed,
            UpstreamFrame::Malformed => FrameView::Malformed,
        }
    }
}

/// The message names the beginning of a turn, with or without a space after the colon.
pub open spec fn names_turn_start(payload: Seq<u8>) -> bool {
    mentions(payload, "Path:turn.start".spec_bytes()) || mentions(
        payload,
        "Path: turn.start".spec_bytes(),
    )
}

/// The message names the end of a turn, with or without a space after the colon.
pub open spec fn names_turn_end(payload: Seq<u8>) -> bool {
    mentions(payload, "Path:turn.end".spec_bytes()) || mentions(
        payload,
        "Path: turn.end".spec_bytes(),
    )
}

/// What a text message means: its identifier is bytes 12..44, and the
/// beginning of a turn is looked for before its end.
pub open spec fn text_frame(payload: Seq<u8>) -> FrameView {
    if payload.len() < TEXT_ID_START + REQUEST_ID_LEN {
        FrameView::Malformed
    } else {
        let request_id = payload.subrange(
            TEXT_ID_START as int,
            TEXT_ID_START + REQUEST_ID_LEN,
        );
        if names_turn_start(payload) {
            FrameView::TurnStart { request_id }
        } else if names_turn_end(payload) {
            FrameView::TurnEnd { request_id }
        } else {
            FrameView::OtherText { request_id }
        }
    }
}

/// What a binary message means: its identifier is bytes 14..46; the marker
/// bytes make it a message without audio; otherwise it is cut behind the
/// first `Path:audio\r\n`.
pub open spec fn binary_frame(frame: Seq<u8>) -> FrameView {
    if frame.len() < BINARY_ID_START + REQUEST_ID_LEN {
        FrameView::Malformed
    } else {
        let request_id = frame.subrange(
            BINARY_ID_START as int,
            BINARY_ID_START + REQUEST_ID_LEN,
        );
        if frame[0] == TAG_NONE_DATA_START[0] && frame[1] == TAG_NONE_DATA_START[1] {
            FrameView::NoData { request_id }
        } else {
            match find_first(frame, TAG_BODY_SPLIT@) {
                Some(i) => FrameView::Audio {
                    request_id,
                    header: frame.subrange(0, i + TAG_BODY_SPLIT@.len()),
                    payload: frame.subrange(i + TAG_BODY_SPLIT@.len(), frame.len() as int),
                },
                None => FrameView::Malformed,
            }
        }
    }
}

/// What an upstream message means.
pub open spec fn frame_of(message: UpstreamMessage) -> FrameView {
    match message {
        UpstreamMessage::Text(text) => text_frame(encode_utf8(text@)),
        UpstreamMessage::Binary(bytes) => binary_frame(bytes@),
        UpstreamMessage::Ping => FrameView::KeepAlive,
        UpstreamMessage::Pong => FrameView::KeepAlive,
        UpstreamMessage::Close => FrameView::Closed,
        UpstreamMessage::Other => FrameView::KeepAlive,
    }
}

/// Reads a text message.
pub fn classify_text(payload: &[u8]) -> (r: UpstreamFrame)
    ensures
        r@ == text_frame(payload@),
{
    if payload.len() < TEXT_ID_START + REQUEST_ID_LEN {
        return UpstreamFrame::Malformed;
    }
    let request_id = copy_range(payload, TEXT_ID_START, TEXT_ID_START + REQUEST_ID_LEN);
    if binary_search(payload, "Path:turn.start".as_bytes()).is_some() || binary_search(
        payload,
        "Path: turn.start".as_bytes(),
    ).is_some() {
        UpstreamFrame::TurnStart { request_id }
    } else if binary_search(payload, "Path:turn.end".as_bytes()).is_some() || binary_search(
        payload,
        "Path: turn.end".as_bytes(),
    ).is_some() {
        UpstreamFrame::TurnEnd { request_id }
    } else {
        UpstreamFrame::OtherText { request_id }
    }
}

/// Reads a binary message.
pub fn classify_binary(frame: &[u8]) -> (r: UpstreamFrame)
    ensures
        r@ == binary_frame(frame@),
{
    if frame.len() < BINARY_ID_START + REQUEST_ID_LEN {
        return UpstreamFrame::Malformed;
    }
    let request_id = copy_range(frame, BINARY_ID_START, BINARY_ID_START + REQUEST_ID_LEN);
    if frame[0] == TAG_NONE_DATA_START[0] && frame[1] == TAG_NONE_DATA_START[1] {
        return UpstreamFrame::NoData { request_id };
    }
    match binary_search(frame, TAG_BODY_SPLIT.as_slice()) {
        Some(index) => {
            assert(occurs_at(frame@, TAG_BODY_SPLIT@, index as int));
            let cut: usize = index + TAG_BODY_SPLIT.len();
            let header = copy_range(frame, 0, cut);
            let payload = copy_range(frame, cut, frame.len());
            UpstreamFrame::Audio { request_id, header, payload }
        },
        None => UpstreamFrame::Malformed,
    }
}

/// Reads one upstream message.
pub fn classify(message: &UpstreamMessage) -> (r: UpstreamFrame)
    ensures
        r@ == frame_of(*message),
{
    match message {
        UpstreamMessage::Text(text) => classify_text(text.as_str().as_bytes()),
        UpstreamMessage::Binary(bytes) => classify_binary(bytes.as_slice()),
        UpstreamMessage::Ping => UpstreamFrame::KeepAlive,
        UpstreamMessage::Pong => UpstreamFrame::KeepAlive,
        UpstreamMessage::Close => UpstreamFrame::Closed,
        UpstreamMessage::Other => UpstreamFrame::KeepAlive,
    }
}

/// `s` without the spaces it opens with.
pub open spec fn skip_spaces(s: Seq<u8>) -> Seq<u8>
    decreases s.len(),
{
    if s.len() > 0 && s[0] == 32 {
        skip_spaces(s.drop_first())
    } else {
        s
    }
}

/// The bytes of the `Content-Type` header of a header block: what stands
/// behind the first `Content-Type:` up to the end of its line, without
/// leading spaces.
pub open spec fn content_type_bytes(header: Seq<u8>) -> Option<Seq<u8>> {
    let key = "Content-Type:".spec_bytes();
    match find_first(header, key) {
        None => None,
        Some(i) => {
            let rest = header.subrange(i + key.len(), header.len() as int);
            let line = match find_first(rest, "\r\n".spec_bytes()) {
                Some(end) => rest.subrange(0, end),
                None => rest,
            };
            Some(skip_spaces(line))
        },
    }
}

/// The media type that a header block declares, where it declares one in
/// well-formed UTF-8.
pub open spec fn content_type(header: Seq<u8>) -> Option<Seq<char>> {
    match content_type_bytes(header) {
        Some(bytes) => if valid_utf8(bytes) {
            Some(decode_utf8(bytes))
        } else {
            None
        },
        None => None,
    }
}

proof fn lemma_skip_spaces(s: Seq<u8>, k: int)
    requires
        0 <= k <= s.len(),
        forall|m: int| 0 <= m < k ==> s[m] == 32,
        k == s.len() || s[k] != 32,
    ensures
        skip_spaces(s) == s.subrange(k, s.len() as int),
    decreases k,
{
    if k == 0 {
        assert(s.subrange(0, s.len() as int) =~= s);
    } else {
        let t = s.drop_first();
        assert forall|m: int| 0 <= m < k - 1 implies t[m] == 32 by {
            assert(t[m] == s[m + 1]);
        }
        lemma_skip_spaces(t, k - 1);
        assert(t.subrange(k - 1, t.len() as int) =~= s.subrange(k, s.len() as int));
    }
}

/// Reads the media type out of the header block of an audio message.
pub fn media_type(header: &[u8]) -> (r: Option<String>)
    ensures
        match r {
            Some(s) => content_type(header@) == Some(s@),
            None => content_type(header@) is None,
        },
{
    let key = "Content-Type:".as_bytes();
    let start = match binary_search(header, key) {
        Some(i) => {
            assert(occurs_at(header@, key@, i as int));
            assert(key.len() == key@.len());
            assert(header.len() == header@.len());
            i + key.len()
        },
        None => { return None; },
    };
    let rest = slice_subrange(header, start, header.len());
    let line = match binary_search(rest, "\r\n".as_bytes()) {
        Some(end) => {
            assert(occurs_at(rest@, "\r\n".spec_bytes(), end as int));
            slice_subrange(rest, 0, end)
        },
        None => rest,
    };
    let mut k: usize = 0;
    while k < line.len() && line[k] == 32
        invariant
            k <= line@.len(),
            forall|m: int| 0 <= m < k ==> line@[m] == 32,
        decreases line@.len() - k,
    {
        k += 1;
    }
    proof {
        lemma_skip_spaces(line@, k as int);
    }
    let value = copy_range(line, k, line.len());
    let text = utf8_text(value);
    proof {
        if text is Some {
            encode_utf8_decode_utf8(text->0@);
        }
    }
    text
}

/// Cutting an audio message behind its header literal loses nothing: the
/// header block followed by the audio is the message again, the header
/// block closes with the literal, and the literal stands nowhere earlier.
pub proof fn lemma_audio_split_round_trip(frame: Seq<u8>)
    requires
        binary_frame(frame) is Audio,
    ensures
        binary_frame(frame)->header + binary_frame(frame)->payload == frame,
        binary_frame(frame)->header.len() >= TAG_BODY_SPLIT@.len(),
        binary_frame(frame)->header.subrange(
            binary_frame(frame)->header.len() - TAG_BODY_SPLIT@.len(),
            binary_frame(frame)->header.len() as int,
        ) == TAG_BODY_SPLIT@,
        first_occurrence(
            frame,
            TAG_BODY_SPLIT@,
            binary_frame(frame)->header.len() - TAG_BODY_SPLIT@.len(),
        ),
{
    let i = find_first(frame, TAG_BODY_SPLIT@)->0;
    assert(first_occurrence(frame, TAG_BODY_SPLIT@, i));
    let header = binary_frame(frame)->header;
    let payload = binary_frame(frame)->payload;
    assert(header + payload =~= frame);
    assert(header.subrange(header.len() - TAG_BODY_SPLIT@.len(), header.len() as int)
        =~= frame.subrange(i, i + TAG_BODY_SPLIT@.len()));
}

/// A text message that opens with the header `X-RequestId:` and an
/// identifier of full length is read under that identifier.
pub proof fn lemma_text_id_is_header_value(id: Seq<u8>, rest: Seq<u8>)
    requires
        id.len() == REQUEST_ID_LEN,
    ensures
        match text_frame("X-RequestId:".spec_bytes() + id + rest) {
            FrameView::TurnStart { request_id } => request_id == id,
            FrameView::TurnEnd { request_id } => request_id == id,
            FrameView::OtherText { request_id } => request_id == id,
            _ => false,
        },
{
    reveal_strlit("X-RequestId:");
    let key = "X-RequestId:"@;
    assert(key.len() == 12);
    assert(is_ascii_chars(key)) by {
        assert(key =~= seq!['X', '-', 'R', 'e', 'q', 'u', 'e', 's', 't', 'I', 'd', ':']);
    }
    is_ascii_chars_encode_utf8(key);
    let payload = "X-RequestId:".spec_bytes() + id + rest;
    assert(payload.subrange(TEXT_ID_START as int, TEXT_ID_START + REQUEST_ID_LEN) =~= id);
}

/// A binary message that opens with its two length bytes, the header
/// `X-RequestId:` and an identifier of full length is read under that
/// identifier, unless it is malformed.
pub proof fn lemma_binary_id_is_header_value(length: Seq<u8>, id: Seq<u8>, rest: Seq<u8>)
    requires
        length.len() == 2,
        id.len() == REQUEST_ID_LEN,
    ensures
        match binary_frame(length + "X-RequestId:".spec_bytes() + id + rest) {
            FrameView::Audio { request_id, header, payload } => request_id == id,
            FrameView::NoData { request_id } => request_id == id,
            FrameView::Malformed => true,
            _ => false,
        },
{
    reveal_strlit("X-RequestId:");
    let key = "X-RequestId:"@;
    assert(key.len() == 12);
    assert(is_ascii_chars(key)) by {
        assert(key =~= seq!['X', '-', 'R', 'e', 'q', 'u', 'e', 's', 't', 'I', 'd', ':']);
    }
    is_ascii_chars_encode_utf8(key);
    let frame = length + "X-RequestId:".spec_bytes() + id + rest;
    assert(frame.subrange(BINARY_ID_START as int, BINARY_ID_START + REQUEST_ID_LEN) =~= id);
}

} // verus!
