//! The validated synthesis request and the rules that bring a caller's
//! values into it: the text is percent-decoded until it no longer changes
//! and then made safe for the markup; speed and pitch are held within their
//! bounds; voice, style and audio format fall back to defaults.

use crate::text::{int_text, int_to_text, str_eq};
use vstd::prelude::*;
use vstd::string::StringExecFns;
use vstd::utf8::encode_utf8;

verus! {

/// A synthesis request whose values are fit to be sent upstream.
#[derive(Debug)]
pub struct MsTtsMsgRequest {
    /// The text, decoded and made safe for the markup.
    pub text: String,
    /// The identifier under which the answer is found again.
    pub request_id: String,
    /// The short name of the voice.
    pub informant: String,
    /// The speaking style.
    pub style: String,
    /// The speed, a whole percentage from -100 to 200.
    pub rate: String,
    /// The pitch, a whole percentage from -50 to 50.
    pub pitch: String,
    /// The audio format.
    pub quality: String,
    /// A subscription key that the request brings along.
    pub subscribe_key: Option<String>,
    /// The region of that key.
    pub region: Option<String>,
}

/// The voice that is used where the request names none that the catalog offers.
pub open spec fn default_voice() -> Seq<char> {
    "zh-CN-XiaoxiaoNeural"@
}

/// The style that is used where the request names none that the voice advertises.
pub open spec fn default_style() -> Seq<char> {
    "general"@
}

/// The audio format that is used where the request names none that is known.
pub open spec fn default_quality() -> Seq<char> {
    "audio-24khz-48kbitrate-mono-mp3"@
}

/// The lower bound of the speed, in percent.
pub const RATE_MIN: i32 = -100;

/// The upper bound of the speed, in percent.
pub const RATE_MAX: i32 = 200;

/// The lower bound of the pitch, in percent.
pub const PITCH_MIN: i32 = -50;

/// The upper bound of the pitch, in percent.
pub const PITCH_MAX: i32 = 50;

/// The audio formats that the services know.
pub const MS_TTS_QUALITY_LIST: [&'static str; 32] = [
    "audio-16khz-128kbitrate-mono-mp3",
    "audio-16khz-16bit-32kbps-mono-opus",
    "audio-16khz-16kbps-mono-siren",
    "audio-16khz-32kbitrate-mono-mp3",
    "audio-16khz-64kbitrate-mono-mp3",
    "audio-24khz-160kbitrate-mono-mp3",
    "audio-24khz-16bit-24kbps-mono-opus",
    "audio-24khz-16bit-48kbps-mono-opus",
    "audio-24khz-48kbitrate-mono-mp3",
    "audio-24khz-96kbitrate-mono-mp3",
    "audio-48khz-192kbitrate-mono-mp3",
    "audio-48khz-96kbitrate-mono-mp3",
    "ogg-16khz-16bit-mono-opus",
    "ogg-24khz-16bit-mono-opus",
    "ogg-48khz-16bit-mono-opus",
    "raw-16khz-16bit-mono-pcm",
    "raw-16khz-16bit-mono-truesilk",
    "raw-24khz-16bit-mono-pcm",
    "raw-24khz-16bit-mono-truesilk",
    "raw-48khz-16bit-mono-pcm",
    "raw-8khz-16bit-mono-pcm",
    "raw-8khz-8bit-mono-alaw",
    "raw-8khz-8bit-mono-mulaw",
    "riff-16khz-16bit-mono-pcm",
    "riff-24khz-16bit-mono-pcm",
    "riff-48khz-16bit-mono-pcm",
    "riff-8khz-16bit-mono-pcm",
    "riff-8khz-8bit-mono-alaw",
    "riff-8khz-8bit-mono-mulaw",
    "webm-16khz-16bit-mono-opus",
    "webm-24khz-16bit-24kbps-mono-opus",
    "webm-24khz-16bit-mono-opus",
];

/// The audio format is one of those that the services know.
pub open spec fn known_quality(quality: Seq<char>) -> bool {
    exists|i: int| 0 <= i < 32 && (#[trigger] MS_TTS_QUALITY_LIST[i])@ == quality
}

/// Whether the audio format is one of those that the services know.
pub fn is_known_quality(quality: &str) -> (r: bool)
    ensures
        r == known_quality(quality@),
{
    let mut i: usize = 0;
    while i < 32
        invariant
            i <= 32,
            forall|k: int| 0 <= k < i ==> (#[trigger] MS_TTS_QUALITY_LIST[k])@ != quality@,
        decreases 32 - i,
    {
        if str_eq(MS_TTS_QUALITY_LIST[i], quality) {
            return true;
        }
        i += 1;
    }
    false
}

/// `v` held within `low..=high`.
pub open spec fn clamped(v: int, low: int, high: int) -> int {
    if v < low {
        low
    } else if v > high {
        high
    } else {
        v
    }
}

/// Holds a speed within its bounds.
pub fn clamp_rate(percent: i32) -> (r: i32)
    ensures
        r == clamped(percent as int, RATE_MIN as int, RATE_MAX as int),
{
    if percent < RATE_MIN {
        RATE_MIN
    } else if percent > RATE_MAX {
        RATE_MAX
    } else {
        percent
    }
}

/// Holds a pitch within its bounds.
pub fn clamp_pitch(percent: i32) -> (r: i32)
    ensures
        r == clamped(percent as int, PITCH_MIN as int, PITCH_MAX as int),
{
    if percent < PITCH_MIN {
        PITCH_MIN
    } else if percent > PITCH_MAX {
        PITCH_MAX
    } else {
        percent
    }
}

/// The speed as the request carries it: the percentage held within its
/// bounds, or `0` where the caller gave none.
pub open spec fn rate_text(rate: Option<i32>) -> Seq<char> {
    match rate {
        Some(percent) => int_text(clamped(percent as int, RATE_MIN as int, RATE_MAX as int)),
        None => int_text(0),
    }
}

/// The pitch as the request carries it: the percentage held within its
/// bounds, or `0` where the caller gave none.
pub open spec fn pitch_text(pitch: Option<i32>) -> Seq<char> {
    match pitch {
        Some(percent) => int_text(clamped(percent as int, PITCH_MIN as int, PITCH_MAX as int)),
        None => int_text(0),
    }
}

/// Renders the speed of a request.
pub fn rate_value(rate: Option<i32>) -> (r: String)
    ensures
        r@ == rate_text(rate),
{
    match rate {
        Some(percent) => int_to_text(clamp_rate(percent)),
        None => int_to_text(0),
    }
}

/// Renders the pitch of a request.
pub fn pitch_value(pitch: Option<i32>) -> (r: String)
    ensures
        r@ == pitch_text(pitch),
{
    match pitch {
        Some(percent) => int_to_text(clamp_pitch(percent)),
        None => int_to_text(0),
    }
}

/// Holding a value within bounds a second time changes nothing, so a speed
/// or pitch that was brought into a request reads the same when it is
/// brought in again.
pub proof fn lemma_clamp_idempotent(v: int, low: int, high: int)
    requires
        low <= high,
    ensures
        low <= clamped(v, low, high) <= high,
        clamped(clamped(v, low, high), low, high) == clamped(v, low, high),
        int_text(clamped(clamped(v, low, high), low, high)) == int_text(clamped(v, low, high)),
{
}

/// The text is a whole number from `low` to `high`.
pub open spec fn is_percentage_within(text: Seq<char>, low: int, high: int) -> bool {
    exists|v: int| low <= v <= high && text == #[trigger] int_text(v)
}

/// Whatever the caller gave, the speed and the pitch of a request are
/// whole percentages within their bounds.
pub proof fn lemma_rate_and_pitch_are_bounded(rate: Option<i32>, pitch: Option<i32>)
    ensures
        is_percentage_within(rate_text(rate), RATE_MIN as int, RATE_MAX as int),
        is_percentage_within(pitch_text(pitch), PITCH_MIN as int, PITCH_MAX as int),
{
    let r = match rate {
        Some(percent) => clamped(percent as int, RATE_MIN as int, RATE_MAX as int),
        None => 0,
    };
    assert(rate_text(rate) == int_text(r));
    let p = match pitch {
        Some(percent) => clamped(percent as int, PITCH_MIN as int, PITCH_MAX as int),
        None => 0,
    };
    assert(pitch_text(pitch) == int_text(p));
}

/// What percent-decoding makes of a text: `None` where the decoded bytes
/// are not UTF-8.
pub uninterp spec fn percent_decoded(text: Seq<char>) -> Option<Seq<char>>;

/// `urlencoding::decode`: every `%` followed by two hexadecimal digits
/// becomes the byte they write, everything else stays, and the bytes must
/// then be UTF-8. The result is `percent_decoded` of the text; it is the
/// text itself unless an escape was decoded, and then it is shorter, for
/// each escape is three bytes and gives one.
#[verifier::external_body]
fn url_decode(text: &str) -> (r: Option<String>)
    ensures
        match r {
            Some(s) => percent_decoded(text@) == Some(s@),
            None => percent_decoded(text@) is None,
        },
        r matches Some(s) ==> s@ == text@ || encode_utf8(s@).len() < encode_utf8(text@).len(),
{
    match urlencoding::decode(text) {
        Ok(s) => Some(s.into_owned()),
        Err(_) => None,
    }
}

/// Decoding the text once more leaves it as it is, or fails.
pub open spec fn is_stable(text: Seq<char>) -> bool {
    percent_decoded(text) is None || percent_decoded(text) == Some(text)
}

/// The text after it was decoded again and again until a further decoding
/// fails or no longer makes it a different, shorter text.
pub open spec fn settled(text: Seq<char>) -> Seq<char>
    decreases encode_utf8(text).len(),
{
    match percent_decoded(text) {
        Some(s) => if s != text && encode_utf8(s).len() < encode_utf8(text).len() {
            settled(s)
        } else {
            text
        },
        None => text,
    }
}

/// Decodes a text until decoding no longer changes it.
pub fn decode_until_stable(text: &str) -> (r: String)
    ensures
        r@ == settled(text@),
        is_stable(r@),
{
    let mut current: String = text.to_owned();
    loop
        invariant
            settled(current@) == settled(text@),
        decreases encode_utf8(current@).len(),
    {
        match url_decode(current.as_str()) {
            Some(s) => {
                if str_eq(current.as_str(), s.as_str()) {
                    return current;
                }
                current = s;
            },
            None => {
                return current;
            },
        }
    }
}

/// What a character becomes in the markup: the angle brackets are escaped,
/// and each full-width mark becomes its plain mark and a space.
pub open spec fn replacement(c: char) -> Seq<char> {
    if c == '<' {
        "&lt;"@
    } else if c == '>' {
        "&gt;"@
    } else if c == '？' {
        "? "@
    } else if c == '，' {
        ", "@
    } else if c == '。' {
        ". "@
    } else if c == '：' {
        ": "@
    } else if c == '；' {
        "; "@
    } else if c == '！' {
        "! "@
    } else {
        seq![c]
    }
}

/// The character is rewritten for the markup.
pub open spec fn is_rewritten(c: char) -> bool {
    c == '<' || c == '>' || c == '？' || c == '，' || c == '。' || c == '：' || c == '；' || c
        == '！'
}

/// The text with every character replaced by what it becomes in the markup.
pub open spec fn rewritten(text: Seq<char>) -> Seq<char>
    decreases text.len(),
{
    if text.len() == 0 {
        Seq::empty()
    } else {
        rewritten(text.drop_last()) + replacement(text.last())
    }
}

/// Rewrites a text for the markup.
pub fn rewrite_text(text: &str) -> (r: String)
    ensures
        r@ == rewritten(text@),
{
    let mut out = String::new();
    assert(text@.take(0) =~= Seq::<char>::empty());
    for c in it: text.chars()
        invariant
            it.seq() == text@,
            out@ == rewritten(text@.take(it.index() as int)),
    {
        proof {
            let next = text@.take(it.index() + 1);
            assert(next.drop_last() =~= text@.take(it.index() as int));
            assert(next.last() == c);
        }
        let ghost before = out@;
        if c == '<' {
            out.append("&lt;");
        } else if c == '>' {
            out.append("&gt;");
        } else if c == '？' {
            out.append("? ");
        } else if c == '，' {
            out.append(", ");
        } else if c == '。' {
            out.append(". ");
        } else if c == '：' {
            out.append(": ");
        } else if c == '；' {
            out.append("; ");
        } else if c == '！' {
            out.append("! ");
        } else {
            out.push(c);
            assert(out@ =~= before + seq![c]);
        }
    }
    assert(text@.take(text@.len() as int) =~= text@);
    out
}

/// No character of the text is rewritten for the markup.
pub open spec fn is_plain(text: Seq<char>) -> bool {
    forall|i: int| 0 <= i < text.len() ==> !is_rewritten(#[trigger] text[i])
}

proof fn lemma_replacement_is_plain(c: char)
    ensures
        is_plain(replacement(c)),
{
    reveal_strlit("&lt;");
    reveal_strlit("&gt;");
    reveal_strlit("? ");
    reveal_strlit(", ");
    reveal_strlit(". ");
    reveal_strlit(": ");
    reveal_strlit("; ");
    reveal_strlit("! ");
}

/// A rewritten text holds neither an angle bracket nor a full-width mark.
pub proof fn lemma_rewritten_is_plain(text: Seq<char>)
    ensures
        is_plain(rewritten(text)),
    decreases text.len(),
{
    if text.len() > 0 {
        lemma_rewritten_is_plain(text.drop_last());
        lemma_replacement_is_plain(text.last());
    }
}

/// Rewriting leaves a text without such characters as it is.
pub proof fn lemma_plain_is_kept(text: Seq<char>)
    requires
        is_plain(text),
    ensures
        rewritten(text) == text,
    decreases text.len(),
{
    if text.len() > 0 {
        assert(!is_rewritten(text[text.len() - 1]));
        lemma_plain_is_kept(text.drop_last());
        assert(text.drop_last() + seq![text.last()] =~= text);
    } else {
        assert(text =~= Seq::<char>::empty());
    }
}

/// The text as a request carries it: decoded until stable, then
/// rewritten for the markup.
pub open spec fn normalized(text: Seq<char>) -> Seq<char> {
    rewritten(settled(text))
}

/// Brings a text into the form in which a request carries it.
pub fn normalize_text(text: &str) -> (r: String)
    ensures
        r@ == normalized(text@),
{
    let decoded = decode_until_stable(text);
    rewrite_text(decoded.as_str())
}

/// Where decoding leaves a normalized text alone, normalizing it again
/// changes nothing.
pub proof fn lemma_normalized_once(text: Seq<char>)
    requires
        is_stable(normalized(text)),
    ensures
        normalized(normalized(text)) == normalized(text),
{
    lemma_rewrite_idempotent(settled(text));
}

/// Rewriting a rewritten text changes nothing: the replacements bring in
/// no character that is itself replaced.
pub proof fn lemma_rewrite_idempotent(text: Seq<char>)
    ensures
        rewritten(rewritten(text)) == rewritten(text),
{
    lemma_rewritten_is_plain(text);
    lemma_plain_is_kept(rewritten(text));
}

} // verus!
