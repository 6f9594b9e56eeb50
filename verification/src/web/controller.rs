//! From the values of a caller to a synthesis request.

use crate::request::{
    decode_until_stable, default_quality, default_style, default_voice, is_known_quality,
    known_quality, normalized, pitch_text, pitch_value, rate_text, rate_value, rewrite_text,
    settled, MsTtsMsgRequest,
};
use crate::text::{list_contains, lowercased, opt_text, texts, to_lowercase};
use crate::voices::{last_named, offers_name, VoicesItem, VoicesList};
use crate::web::error::ControllerError;
use vstd::prelude::*;

verus! {

/// What a caller asks for. Speed and pitch are whole percentages that
/// the front door has worked out of the caller's factors: a speed factor
/// `r` gives `100 r - 100`, a pitch factor `p` gives `50 p - 50`, each rounded.
#[derive(Debug)]
pub struct MsTtsMsgRequestJson {
    /// The text to be spoken.
    pub text: String,
    /// The short name of the voice.
    pub informant: Option<String>,
    /// The speaking style.
    pub style: Option<String>,
    /// The speed as a percentage.
    pub rate: Option<i32>,
    /// The pitch as a percentage.
    pub pitch: Option<i32>,
    /// The audio format.
    pub quality: Option<String>,
    /// The token that shows the caller's right to call.
    pub token: Option<String>,
}

/// The voice of a request: the one asked for if the catalog offers it,
/// else the default voice.
pub open spec fn chosen_voice(informant: Option<Seq<char>>, catalog: Seq<VoicesItem>) -> Seq<char> {
    match informant {
        Some(name) => if offers_name(catalog, name) {
            name
        } else {
            default_voice()
        },
        None => default_voice(),
    }
}

/// The styles that the catalog's voice of this name advertises.
pub open spec fn styles_of(catalog: Seq<VoicesItem>, voice: Seq<char>) -> Option<Seq<Seq<char>>> {
    if offers_name(catalog, voice) {
        catalog[choose|i: int| last_named(catalog, voice, i)].spec_style()
    } else {
        None
    }
}

/// The style of a request: the one asked for, in lower case, if the voice
/// advertises it, else the default style.
pub open spec fn chosen_style(lowered: Option<Seq<char>>, styles: Option<Seq<Seq<char>>>) -> Seq<
    char,
> {
    match lowered {
        Some(style) => match styles {
            Some(list) => if list.contains(style) {
                style
            } else {
                default_style()
            },
            None => default_style(),
        },
        None => default_style(),
    }
}

/// The audio format of a request: the one asked for if it is known, else
/// the default format.
pub open spec fn chosen_quality(quality: Option<Seq<char>>) -> Seq<char> {
    match quality {
        Some(q) => if known_quality(q) {
            q
        } else {
            default_quality()
        },
        None => default_quality(),
    }
}

/// The lower-case form of the style asked for.
pub open spec fn lowered_style(style: Option<Seq<char>>) -> Option<Seq<char>> {
    match style {
        Some(s) => Some(lowercased(s)),
        None => None,
    }
}

/// Where a name stands in a catalog, one place is its last.
pub proof fn lemma_last_named_unique(catalog: Seq<VoicesItem>, name: Seq<char>, i: int)
    requires
        last_named(catalog, name, i),
    ensures
        (choose|j: int| last_named(catalog, name, j)) == i,
        offers_name(catalog, name),
{
    let j = choose|j: int| last_named(catalog, name, j);
    assert(last_named(catalog, name, j));
    if i < j {
        assert(catalog[j].spec_short_name() != name);
    }
    if j < i {
        assert(catalog[i].spec_short_name() != name);
    }
}

/// Picks the voice of a request.
pub fn coerce_voice(informant: &Option<String>, voices: &VoicesList) -> (r: String)
    ensures
        r@ == chosen_voice(opt_text(*informant), voices.raw_data@),
{
    match informant {
        Some(name) => if voices.contains(name.as_str()) {
            name.clone()
        } else {
            "zh-CN-XiaoxiaoNeural".to_owned()
        },
        None => "zh-CN-XiaoxiaoNeural".to_owned(),
    }
}

/// Picks the style of a request from the style asked for, already in lower
/// case, and the styles of the voice.
pub fn coerce_style(lowered: Option<String>, styles: &Option<Vec<String>>) -> (r: String)
    ensures
        r@ == chosen_style(
            opt_text(lowered),
            match *styles {
                Some(list) => Some(texts(list@)),
                None => None,
            },
        ),
{
    match lowered {
        Some(style) => match styles {
            Some(list) => if list_contains(list, style.as_str()) {
                style
            } else {
                "general".to_owned()
            },
            None => "general".to_owned(),
        },
        None => "general".to_owned(),
    }
}

/// Picks the audio format of a request.
pub fn coerce_quality(quality: &Option<String>) -> (r: String)
    ensures
        r@ == chosen_quality(opt_text(*quality)),
{
    match quality {
        Some(q) => if is_known_quality(q.as_str()) {
            q.clone()
        } else {
            "audio-24khz-48kbitrate-mono-mp3".to_owned()
        },
        None => "audio-24khz-48kbitrate-mono-mp3".to_owned(),
    }
}

/// Looks up the styles of the catalog's voice of this name.
pub fn voice_styles(voices: &VoicesList, voice: &str) -> (r: Option<Vec<String>>)
    ensures
        match r {
            Some(list) => styles_of(voices.raw_data@, voice@) == Some(texts(list@)),
            None => styles_of(voices.raw_data@, voice@) is None,
        },
{
    match voices.get(voice) {
        Some(item) => {
            proof {
                let i = choose|i: int|
                    last_named(voices.raw_data@, voice@, i) && *item == voices.raw_data@[i];
                lemma_last_named_unique(voices.raw_data@, voice@, i);
            }
            item.get_style()
        },
        None => None,
    }
}

impl MsTtsMsgRequestJson {
    /// Brings the caller's values into a synthesis request for the backend
    /// whose catalog is given.
    ///
    /// A text that is empty once it is decoded is refused with the message
    /// `文本为空`. Everything else is brought into line without complaint.
    pub fn to_ms_request(&self, voices: &VoicesList, request_id_value: String) -> (r: Result<
        MsTtsMsgRequest,
        ControllerError,
    >)
        ensures
            match r {
                Ok(request) => {
                    &&& settled(self.text@).len() > 0
                    &&& request.text@ == normalized(self.text@)
                    &&& request.request_id@ == request_id_value@
                    &&& request.informant@ == chosen_voice(
                        opt_text(self.informant),
                        voices.raw_data@,
                    )
                    &&& request.style@ == chosen_style(
                        lowered_style(opt_text(self.style)),
                        styles_of(voices.raw_data@, request.informant@),
                    )
                    &&& request.rate@ == rate_text(self.rate)
                    &&& request.pitch@ == pitch_text(self.pitch)
                    &&& request.quality@ == chosen_quality(opt_text(self.quality))
                    &&& request.subscribe_key is None
                    &&& request.region is None
                },
                Err(e) => {
                    &&& settled(self.text@).len() == 0
                    &&& e.code == 500
                    &&& e.msg@ == "文本为空"@
                },
            },
    {
        let decoded = decode_until_stable(self.text.as_str());
        if decoded.as_str().unicode_len() == 0 {
            return Err(ControllerError::new("文本为空"));
        }
        let text = rewrite_text(decoded.as_str());
        let informant = coerce_voice(&self.informant, voices);
        let styles = voice_styles(voices, informant.as_str());
        let lowered = match &self.style {
            Some(style) => Some(to_lowercase(style.as_str())),
            None => None,
        };
        let style = coerce_style(lowered, &styles);
        Ok(
            MsTtsMsgRequest {
                text,
                request_id: request_id_value,
                informant,
                style,
                rate: rate_value(self.rate),
                pitch: pitch_value(self.pitch),
                quality: coerce_quality(&self.quality),
                subscribe_key: None,
                region: None,
            },
        )
    }
}

} // verus!
