//! The path of one call through the broker: the credential it is pinned
//! to, its registration and frames, how long it is waited for, and what the
//! caller is answered.

use crate::error::{ErrorView, TTSServerError};
use crate::origin::MsApiOrigin;
use crate::region::{region_named, AzureApiRegionIdentifier};
use crate::request::{MsTtsMsgRequest, MS_TTS_QUALITY_LIST};
use crate::session::{holds, registered, BackendSession, MsTtsMsgResponse};
use crate::ssml::{generate_xmml, generate_xmml_at, request_frames};
use crate::subscription::AzureSubscribeKey;
use crate::text::{str_eq, texts};
use crate::voices::VoicesList;
use crate::web::error::ControllerError;
use vstd::prelude::*;
use vstd::utf8::encode_utf8;

verus! {

/// How long the broker waits for the audio of a call, in seconds.
pub const BROKER_WAIT_SECONDS: i64 = 30;

/// The voices and the audio formats that requests are checked against.
#[derive(Debug)]
pub struct MsTtsConfig {
    pub voices_list: VoicesList,
    pub quality_list: Vec<String>,
}

/// The audio formats that the services know, in their order.
pub open spec fn quality_texts() -> Seq<Seq<char>> {
    Seq::new(32, |i: int| MS_TTS_QUALITY_LIST[i]@)
}

impl MsTtsConfig {
    /// The configuration for a catalog, with every known audio format.
    pub fn new(voices_list: VoicesList) -> (r: Self)
        ensures
            r.voices_list == voices_list,
            texts(r.quality_list@) == quality_texts(),
    {
        let mut quality_list: Vec<String> = Vec::new();
        let mut i: usize = 0;
        while i < 32
            invariant
                i <= 32,
                quality_list@.len() == i,
                forall|k: int| 0 <= k < i ==> quality_list@[k]@ == MS_TTS_QUALITY_LIST[k]@,
            decreases 32 - i,
        {
            quality_list.push(MS_TTS_QUALITY_LIST[i].to_owned());
            i += 1;
        }
        assert(texts(quality_list@) =~= quality_texts());
        MsTtsConfig { voices_list, quality_list }
    }
}

/// The credential that a request is pinned to: the one it brings along as
/// key and region, if it brings both. A region tag that names no region is
/// an error.
pub open spec fn pinned_of(request: MsTtsMsgRequest) -> Result<
    Option<(Seq<char>, AzureApiRegionIdentifier)>,
    ErrorView,
> {
    match (request.subscribe_key, request.region) {
        (Some(key), Some(tag)) => match region_named(tag@) {
            Some(region) => Ok(Some((key@, region))),
            None => Err(ErrorView::ProgramError("解析地域标签错误"@)),
        },
        _ => Ok(None),
    }
}

/// Reads the credential that a request is pinned to.
pub fn pinned_credential(request: &MsTtsMsgRequest) -> (r: Result<
    Option<AzureSubscribeKey>,
    TTSServerError,
>)
    ensures
        match r {
            Ok(Some(key)) => pinned_of(*request) == Ok::<_, ErrorView>(Some(key@)),
            Ok(None) => pinned_of(*request) == Ok::<
                Option<(Seq<char>, AzureApiRegionIdentifier)>,
                ErrorView,
            >(None),
            Err(e) => pinned_of(*request) == Err::<
                Option<(Seq<char>, AzureApiRegionIdentifier)>,
                ErrorView,
            >(e@),
        },
{
    match (&request.subscribe_key, &request.region) {
        (Some(key), Some(tag)) => match AzureApiRegionIdentifier::from(tag.as_str()) {
            Ok(region) => Ok(Some(AzureSubscribeKey(key.clone(), region))),
            Err(e) => Err(e),
        },
        _ => Ok(None),
    }
}

/// Begins a call on a session: the call is registered, and only then are
/// its frames made, stamped with the given time, for the owner to write.
pub fn begin_call_at(
    session: &mut BackendSession,
    origin: MsApiOrigin,
    request: &MsTtsMsgRequest,
    time: &str,
) -> (frames: Vec<String>)
    ensures
        final(session).wf(),
        final(session)@ == registered(old(session)@, encode_utf8(request.request_id@)),
        holds(final(session)@, encode_utf8(request.request_id@)),
        texts(frames@) == request_frames(origin, *request, time@),
{
    session.register(request.request_id.clone());
    generate_xmml_at(origin, request, time)
}

/// Begins a call on a session, its frames stamped with the time of the call.
pub fn begin_call(session: &mut BackendSession, origin: MsApiOrigin, request: &MsTtsMsgRequest) -> (frames:
    Vec<String>)
    ensures
        final(session).wf(),
        final(session)@ == registered(old(session)@, encode_utf8(request.request_id@)),
        holds(final(session)@, encode_utf8(request.request_id@)),
        exists|time: Seq<char>| texts(frames@) == request_frames(origin, *request, time),
{
    session.register(request.request_id.clone());
    generate_xmml(origin, request)
}

/// A call that began at `started` has been waited for long enough at `now`
/// (both in seconds).
pub open spec fn wait_is_over(started: int, now: int) -> bool {
    now - started >= BROKER_WAIT_SECONDS
}

/// Whether a call has been waited for long enough.
pub fn deadline_passed(started: i64, now: i64) -> (r: bool)
    ensures
        r == wait_is_over(started as int, now as int),
{
    now as i128 - started as i128 >= BROKER_WAIT_SECONDS as i128
}

/// What the caller is answered.
#[derive(Debug)]
pub enum Reply {
    /// The audio, under the media type that the upstream reported.
    Audio { data: Vec<u8>, content_type: String },
    /// The built-in second of silence, as `audio/mpeg`.
    Silence,
    /// The words `未知错误`: no audio came.
    UnknownError,
    /// The error of the handler.
    Refused(ControllerError),
}

/// The answer to the outcome of a call: the audio if it came, else the
/// unknown error.
pub fn conclude(outcome: Option<MsTtsMsgResponse>) -> (r: Reply)
    ensures
        match outcome {
            Some(response) => r matches Reply::Audio { data, content_type } && data@
                == response.data@ && content_type@ == response.file_type@,
            None => r is UnknownError,
        },
{
    match outcome {
        Some(response) => Reply::Audio { data: response.data, content_type: response.file_type },
        None => Reply::UnknownError,
    }
}

/// The answer to a request that was not brought into a synthesis request:
/// silence for an empty text, else the error itself.
pub fn refuse(e: ControllerError) -> (r: Reply)
    ensures
        if e.msg@ == "文本为空"@ {
            r is Silence
        } else {
            r matches Reply::Refused(kept) && kept.code == e.code && kept.msg@ == e.msg@
        },
{
    if str_eq(e.msg.as_str(), "文本为空") {
        Reply::Silence
    } else {
        Reply::Refused(e)
    }
}

} // verus!
