//! The text frames that are written to an upstream session: the
//! configuration that opens a session, and for each request the frame that
//! sets the audio format and the frame that carries the markup.

use crate::clock::utc_timestamp;
use crate::origin::MsApiOrigin;
use crate::request::MsTtsMsgRequest;
use crate::text::texts;
use vstd::prelude::*;
use vstd::string::StringExecFns;

verus! {

/// The audio format of the preview backend.
pub open spec fn preview_format() -> Seq<char> {
    "audio-24khz-96kbitrate-mono-mp3"@
}

/// The frame `synthesis.context`, which sets the audio format of a request.
pub open spec fn context_frame(data: MsTtsMsgRequest, time: Seq<char>, format: Seq<char>) -> Seq<char> {
    "Path: synthesis.context\r\nX-RequestId: "@
        + data.request_id@
        + "\r\nX-Timestamp: "@
        + time
        + "\r\nContent-Type: application/json\r\n\r\n"@
        + "{\"synthesis\":{\"audio\":{\"metadataOptions\":{\"bookmarkEnabled\":false,\"sentenceBoundaryEnabled\":false,\"visemeEnabled\":false,\"wordBoundaryEnabled\":false},\"outputFormat\":\""@
        + format
        + "\"},\"language\":{\"autoDetection\":false}}}"@
}

/// The frame `ssml` of the subscription and the preview backend: voice,
/// style, speed, pitch and text.
pub open spec fn markup_frame(data: MsTtsMsgRequest, time: Seq<char>) -> Seq<char> {
    "Path: ssml\r\nX-RequestId: "@
        + data.request_id@
        + "\r\nX-Timestamp:"@
        + time
        + "\r\nContent-Type:application/ssml+xml\r\n\r\n"@
        + "<speak version='1.0' xmlns='http://www.w3.org/2001/10/synthesis' xmlns:mstts='https://www.w3.org/2001/mstts' xmlns:emo='http://www.w3.org/2009/10/emotionml' xml:lang='en-US'><voice name='"@
        + data.informant@
        + "'><mstts:express-as style='"@
        + data.style@
        + "'><prosody rate='"@
        + data.rate@
        + "%' pitch='"@
        + data.pitch@
        + "%'>"@
        + data.text@
        + "</prosody></mstts:express-as></voice></speak>"@
}

/// The frame `ssml` of the Edge backend: voice, speed, pitch and text.
pub open spec fn edge_markup_frame(data: MsTtsMsgRequest, time: Seq<char>) -> Seq<char> {
    "X-RequestId:"@
        + data.request_id@
        + "\r\nContent-Type:application/ssml+xml\r\nX-Timestamp:"@
        + time
        + "\r\nPath:ssml\r\n\r\n"@
        + "<speak version='1.0' xmlns='http://www.w3.org/2001/10/synthesis' xmlns:mstts='https://www.w3.org/2001/mstts' xml:lang='en-US'><voice name='"@
        + data.informant@
        + "'><prosody rate='"@
        + data.rate@
        + "%' pitch='"@
        + data.pitch@
        + "%' volume='+0%'>"@
        + data.text@
        + "</prosody></voice></speak>"@
}

/// The frames of one request, in the order in which they are written. The
/// Edge backend takes the markup alone, for its audio format was set when
/// the session was opened; the others take the audio format first.
pub open spec fn request_frames(origin: MsApiOrigin, data: MsTtsMsgRequest, time: Seq<char>) -> Seq<Seq<char>> {
    match origin {
        MsApiOrigin::EdgeFree => seq![edge_markup_frame(data, time)],
        MsApiOrigin::OfficialPreview => seq![
            context_frame(data, time, preview_format()),
            markup_frame(data, time),
        ],
        MsApiOrigin::Subscription => seq![
            context_frame(data, time, data.quality@),
            markup_frame(data, time),
        ],
    }
}

/// The frame `speech.config` with which a session is opened.
pub open spec fn speech_config_text(origin: MsApiOrigin, time: Seq<char>) -> Seq<char> {
    match origin {
        MsApiOrigin::EdgeFree => "X-Timestamp: "@
        + time
        + "\r\nContent-Type: application/json; charset=utf-8\r\nPath: speech.config\r\n\r\n"@
        + "{\"context\":{\"synthesis\":{\"audio\":{\"metadataoptions\":{\"sentenceBoundaryEnabled\":\"false\",\"wordBoundaryEnabled\":\"false\"},\"outputFormat\":\"webm-24khz-16bit-mono-opus\"}}}}"@,
        _ => "Path: speech.config\r\nX-Timestamp: "@
        + time
        + "\r\nContent-Type: application/json; charset=utf-8\r\n\r\n"@
        + "{\"context\":{\"system\":{\"name\":\"SpeechSDK\",\"version\":\"1.19.0\",\"build\":\"JavaScript\",\"lang\":\"JavaScript\"},\"os\":{\"platform\":\"Browser/Win32\",\"name\":\""@
        + "Mozilla/5.0 (Windows NT 10.0; Win64; x64) AppleWebKit/537.36 (KHTML, like Gecko) Chrome/107.0.0.0 Safari/537.36 Edg/107.0.1379.1"@
        + "\",\"version\":\""@
        + "5.0 (Windows NT 10.0; Win64; x64) AppleWebKit/537.36 (KHTML, like Gecko) Chrome/107.0.0.0 Safari/537.36 Edg/107.0.1379.1"@
        + "\"}}}"@,
    }
}

fn write_context_frame(data: &MsTtsMsgRequest, time: &str, format: &str) -> (r: String)
    ensures
        r@ == context_frame(*data, time@, format@),
{
    let mut out = "Path: synthesis.context\r\nX-RequestId: ".to_owned();
    out.append(data.request_id.as_str());
    out.append("\r\nX-Timestamp: ");
    out.append(time);
    out.append("\r\nContent-Type: application/json\r\n\r\n");
    out.append("{\"synthesis\":{\"audio\":{\"metadataOptions\":{\"bookmarkEnabled\":false,\"sentenceBoundaryEnabled\":false,\"visemeEnabled\":false,\"wordBoundaryEnabled\":false},\"outputFormat\":\"");
    out.append(format);
    out.append("\"},\"language\":{\"autoDetection\":false}}}");
    out
}

fn write_markup_frame(data: &MsTtsMsgRequest, time: &str) -> (r: String)
    ensures
        r@ == markup_frame(*data, time@),
{
    let mut out = "Path: ssml\r\nX-RequestId: ".to_owned();
    out.append(data.request_id.as_str());
    out.append("\r\nX-Timestamp:");
    out.append(time);
    out.append("\r\nContent-Type:application/ssml+xml\r\n\r\n");
    out.append("<speak version='1.0' xmlns='http://www.w3.org/2001/10/synthesis' xmlns:mstts='https://www.w3.org/2001/mstts' xmlns:emo='http://www.w3.org/2009/10/emotionml' xml:lang='en-US'><voice name='");
    out.append(data.informant.as_str());
    out.append("'><mstts:express-as style='");
    out.append(data.style.as_str());
    out.append("'><prosody rate='");
    out.append(data.rate.as_str());
    out.append("%' pitch='");
    out.append(data.pitch.as_str());
    out.append("%'>");
    out.append(data.text.as_str());
    out.append("</prosody></mstts:express-as></voice></speak>");
    out
}

fn write_edge_markup_frame(data: &MsTtsMsgRequest, time: &str) -> (r: String)
    ensures
        r@ == edge_markup_frame(*data, time@),
{
    let mut out = "X-RequestId:".to_owned();
    out.append(data.request_id.as_str());
    out.append("\r\nContent-Type:application/ssml+xml\r\nX-Timestamp:");
    out.append(time);
    out.append("\r\nPath:ssml\r\n\r\n");
    out.append("<speak version='1.0' xmlns='http://www.w3.org/2001/10/synthesis' xmlns:mstts='https://www.w3.org/2001/mstts' xml:lang='en-US'><voice name='");
    out.append(data.informant.as_str());
    out.append("'><prosody rate='");
    out.append(data.rate.as_str());
    out.append("%' pitch='");
    out.append(data.pitch.as_str());
    out.append("%' volume='+0%'>");
    out.append(data.text.as_str());
    out.append("</prosody></voice></speak>");
    out
}

/// Writes the frames of one request, stamped with the given time.
pub fn generate_xmml_at(origin: MsApiOrigin, data: &MsTtsMsgRequest, time: &str) -> (r: Vec<String>)
    ensures
        texts(r@) == request_frames(origin, *data, time@),
{
    let mut frames: Vec<String> = Vec::new();
    match origin {
        MsApiOrigin::EdgeFree => {
            frames.push(write_edge_markup_frame(data, time));
        },
        MsApiOrigin::OfficialPreview => {
            frames.push(write_context_frame(data, time, "audio-24khz-96kbitrate-mono-mp3"));
            frames.push(write_markup_frame(data, time));
        },
        MsApiOrigin::Subscription => {
            frames.push(write_context_frame(data, time, data.quality.as_str()));
            frames.push(write_markup_frame(data, time));
        },
    }
    assert(texts(frames@) =~= request_frames(origin, *data, time@));
    frames
}

/// Writes the frames of one request, stamped with the time of the call.
pub fn generate_xmml(origin: MsApiOrigin, data: &MsTtsMsgRequest) -> (r: Vec<String>)
    ensures
        exists|time: Seq<char>| texts(r@) == request_frames(origin, *data, time),
{
    let time = utc_timestamp();
    generate_xmml_at(origin, data, time.as_str())
}

/// Writes the frame that opens a session, stamped with the given time.
pub fn speech_config_at(origin: MsApiOrigin, time: &str) -> (r: String)
    ensures
        r@ == speech_config_text(origin, time@),
{
    match origin {
        MsApiOrigin::EdgeFree => {
            let mut out = "X-Timestamp: ".to_owned();
            out.append(time);
            out.append("\r\nContent-Type: application/json; charset=utf-8\r\nPath: speech.config\r\n\r\n");
            out.append("{\"context\":{\"synthesis\":{\"audio\":{\"metadataoptions\":{\"sentenceBoundaryEnabled\":\"false\",\"wordBoundaryEnabled\":\"false\"},\"outputFormat\":\"webm-24khz-16bit-mono-opus\"}}}}");
            out
        },
        _ => {
            let mut out = "Path: speech.config\r\nX-Timestamp: ".to_owned();
            out.append(time);
            out.append("\r\nContent-Type: application/json; charset=utf-8\r\n\r\n");
            out.append("{\"context\":{\"system\":{\"name\":\"SpeechSDK\",\"version\":\"1.19.0\",\"build\":\"JavaScript\",\"lang\":\"JavaScript\"},\"os\":{\"platform\":\"Browser/Win32\",\"name\":\"");
            out.append("Mozilla/5.0 (Windows NT 10.0; Win64; x64) AppleWebKit/537.36 (KHTML, like Gecko) Chrome/107.0.0.0 Safari/537.36 Edg/107.0.1379.1");
            out.append("\",\"version\":\"");
            out.append("5.0 (Windows NT 10.0; Win64; x64) AppleWebKit/537.36 (KHTML, like Gecko) Chrome/107.0.0.0 Safari/537.36 Edg/107.0.1379.1");
            out.append("\"}}}");
            out
        },
    }
}

/// Writes the frame that opens a session, stamped with the time of the call.
pub fn speech_config(origin: MsApiOrigin) -> (r: String)
    ensures
        exists|time: Seq<char>| r@ == speech_config_text(origin, time),
{
    let time = utc_timestamp();
    speech_config_at(origin, time.as_str())
}

} // verus!
