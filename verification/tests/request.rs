use tts_server::broker::{
    begin_call_at, conclude, deadline_passed, pinned_credential, refuse, MsTtsConfig, Reply,
    BROKER_WAIT_SECONDS,
};
use tts_server::origin::MsApiOrigin;
use tts_server::region::AzureApiRegionIdentifier;
use tts_server::request::{
    clamp_pitch, clamp_rate, decode_until_stable, is_known_quality, normalize_text, pitch_value,
    rate_value, rewrite_text, MsTtsMsgRequest, MS_TTS_QUALITY_LIST,
};
use tts_server::session::{BackendSession, MsTtsMsgResponse};
use tts_server::ssml::{generate_xmml, generate_xmml_at, speech_config, speech_config_at};
use tts_server::voices::{
    catalog_or_fallback, collating_list_of_pronouncers, intersect_voices, list_offers,
    lookup_tag, VoicesItem, VoicesList,
};
use tts_server::web::controller::{
    coerce_quality, coerce_style, coerce_voice, voice_styles, MsTtsMsgRequestJson,
};
use tts_server::web::error::ControllerError;

fn azure(short_name: &str, locale: &str, styles: Option<Vec<&str>>) -> VoicesItem {
    VoicesItem::AzureApi {
        name: format!("Microsoft Server Speech Text to Speech Voice ({})", short_name),
        display_name: "Xiaoxiao".to_string(),
        local_name: "晓晓".to_string(),
        short_name: short_name.to_string(),
        gender: "Female".to_string(),
        locale: locale.to_string(),
        locale_name: "Chinese".to_string(),
        style_list: styles.map(|l| l.into_iter().map(|s| s.to_string()).collect()),
        sample_rate_hertz: "24000".to_string(),
        voice_type: "Neural".to_string(),
        status: "GA".to_string(),
        role_play_list: None,
        words_per_minute: None,
    }
}

fn edge(short_name: &str, locale: &str, tags: Vec<(&str, Vec<&str>)>) -> VoicesItem {
    VoicesItem::EdgeApi {
        name: short_name.to_string(),
        short_name: short_name.to_string(),
        gender: "Male".to_string(),
        locale: locale.to_string(),
        suggested_codec: "audio-24khz-48kbitrate-mono-mp3".to_string(),
        friendly_name: format!("Microsoft {} Online (Natural)", short_name),
        status: "GA".to_string(),
        voice_tag: tags
            .into_iter()
            .map(|(k, v)| (k.to_string(), v.into_iter().map(|s| s.to_string()).collect()))
            .collect(),
    }
}

fn catalog() -> VoicesList {
    collating_list_of_pronouncers(vec![
        azure("zh-CN-XiaoxiaoNeural", "zh-CN", Some(vec!["chat", "cheerful"])),
        azure("zh-CN-YunxiNeural", "zh-CN", Some(vec!["chat", "narration-relaxed"])),
        azure("en-US-JennyNeural", "en-US", None),
    ])
}

fn json(text: &str) -> MsTtsMsgRequestJson {
    MsTtsMsgRequestJson {
        text: text.to_string(),
        informant: None,
        style: None,
        rate: None,
        pitch: None,
        quality: None,
        token: None,
    }
}

fn percent_of_rate(rate: f32) -> i32 {
    (100.0 * rate - 100.0).round() as i32
}

fn percent_of_pitch(pitch: f32) -> i32 {
    (50.0 * pitch - 50.0).round() as i32
}

fn request(text: &str) -> MsTtsMsgRequest {
    json(text).to_ms_request(&catalog(), "0123456789abcdef0123456789abcdef".to_string()).unwrap()
}

#[test]
fn text_is_decoded_until_it_is_stable() {
    assert_eq!(decode_until_stable("Hello"), "Hello");
    assert_eq!(decode_until_stable("a%20b"), "a b");
    assert_eq!(decode_until_stable("a%2520b"), "a b");
    assert_eq!(decode_until_stable("a%252520b"), "a b");
    assert_eq!(decode_until_stable("%E4%BD%A0%E5%A5%BD"), "你好");
    assert_eq!(decode_until_stable("你好"), "你好");
    assert_eq!(decode_until_stable("100%"), "100%");
    assert_eq!(decode_until_stable("%zz%4"), "%zz%4");
    assert_eq!(decode_until_stable("a+b"), "a+b");
    assert_eq!(decode_until_stable(""), "");
}

#[test]
fn decoding_stops_at_bytes_that_are_not_utf8() {
    assert_eq!(decode_until_stable("%FF"), "%FF");
    assert_eq!(decode_until_stable("%25FF"), "%FF");
}

#[test]
fn text_is_rewritten_for_the_markup() {
    assert_eq!(rewrite_text("a<b>c"), "a&lt;b&gt;c");
    assert_eq!(rewrite_text("你好，世界"), "你好, 世界");
    assert_eq!(rewrite_text("？，。：；！"), "? , . : ; ! ");
    assert_eq!(rewrite_text("plain & simple; ok?"), "plain & simple; ok?");
    assert_eq!(rewrite_text(""), "");
}

#[test]
fn normalization_is_idempotent_on_examples() {
    for text in ["a%2520b", "x<y>，。", "%3C？%EF%BC%8C", "100%", "你好，世界！", "%26lt%3B"] {
        let once = rewrite_text(&decode_until_stable(text));
        let twice = rewrite_text(&decode_until_stable(&once));
        assert_eq!(once, twice);
        assert_eq!(normalize_text(text), once);
        assert_eq!(normalize_text(&normalize_text(text)), once);
    }
}

#[test]
fn rate_and_pitch_are_held_within_bounds() {
    assert_eq!(clamp_rate(-101), -100);
    assert_eq!(clamp_rate(-100), -100);
    assert_eq!(clamp_rate(0), 0);
    assert_eq!(clamp_rate(200), 200);
    assert_eq!(clamp_rate(201), 200);
    assert_eq!(clamp_rate(i32::MIN), -100);
    assert_eq!(clamp_rate(i32::MAX), 200);
    assert_eq!(clamp_pitch(-51), -50);
    assert_eq!(clamp_pitch(-50), -50);
    assert_eq!(clamp_pitch(50), 50);
    assert_eq!(clamp_pitch(51), 50);
    for v in [-500, -100, -1, 0, 37, 200, 900] {
        assert_eq!(clamp_rate(clamp_rate(v)), clamp_rate(v));
        assert_eq!(clamp_pitch(clamp_pitch(v)), clamp_pitch(v));
        assert_eq!(rate_value(Some(clamp_rate(v))), rate_value(Some(v)));
        assert_eq!(pitch_value(Some(clamp_pitch(v))), pitch_value(Some(v)));
    }
}

#[test]
fn rate_boundaries() {
    assert_eq!(rate_value(Some(percent_of_rate(0.0))), "-100");
    assert_eq!(rate_value(Some(percent_of_rate(3.0))), "200");
    assert_eq!(rate_value(Some(percent_of_rate(1.0))), "0");
    assert_eq!(rate_value(Some(percent_of_rate(1.5))), "50");
    assert_eq!(rate_value(Some(percent_of_rate(-2.0))), "-100");
    assert_eq!(rate_value(Some(percent_of_rate(10.0))), "200");
    assert_eq!(rate_value(None), "0");
}

#[test]
fn pitch_boundaries() {
    assert_eq!(pitch_value(Some(percent_of_pitch(0.0))), "-50");
    assert_eq!(pitch_value(Some(percent_of_pitch(2.0))), "50");
    assert_eq!(pitch_value(Some(percent_of_pitch(1.0))), "0");
    assert_eq!(pitch_value(Some(percent_of_pitch(0.6))), "-20");
    assert_eq!(pitch_value(Some(percent_of_pitch(5.0))), "50");
    assert_eq!(pitch_value(None), "0");
}

#[test]
fn there_are_thirty_two_audio_formats() {
    assert_eq!(MS_TTS_QUALITY_LIST.len(), 32);
    for q in MS_TTS_QUALITY_LIST {
        assert!(is_known_quality(q));
    }
    assert!(!is_known_quality("riff-16khz-16kbps-mono-siren"));
    assert!(!is_known_quality(""));
    assert_eq!(coerce_quality(&None), "audio-24khz-48kbitrate-mono-mp3");
    assert_eq!(coerce_quality(&Some("nonsense".to_string())), "audio-24khz-48kbitrate-mono-mp3");
    assert_eq!(
        coerce_quality(&Some("webm-24khz-16bit-mono-opus".to_string())),
        "webm-24khz-16bit-mono-opus"
    );
    let config = MsTtsConfig::new(catalog());
    assert_eq!(config.quality_list, MS_TTS_QUALITY_LIST.map(|q| q.to_string()).to_vec());
    assert_eq!(config.voices_list.raw_data.len(), 3);
}

#[test]
fn an_unknown_voice_becomes_the_default_voice() {
    let voices = catalog();
    assert_eq!(coerce_voice(&None, &voices), "zh-CN-XiaoxiaoNeural");
    assert_eq!(coerce_voice(&Some("xx-XX-Nobody".to_string()), &voices), "zh-CN-XiaoxiaoNeural");
    assert_eq!(coerce_voice(&Some("en-US-JennyNeural".to_string()), &voices), "en-US-JennyNeural");
    let mut req = json("hi");
    req.informant = Some("xx-XX-Nobody".to_string());
    assert_eq!(req.to_ms_request(&voices, "id".to_string()).unwrap().informant, "zh-CN-XiaoxiaoNeural");
}

#[test]
fn a_style_is_kept_if_the_voice_advertises_it() {
    let styles = Some(vec!["chat".to_string(), "cheerful".to_string()]);
    assert_eq!(coerce_style(Some("chat".to_string()), &styles), "chat");
    assert_eq!(coerce_style(Some("sad".to_string()), &styles), "general");
    assert_eq!(coerce_style(None, &styles), "general");
    assert_eq!(coerce_style(Some("chat".to_string()), &None), "general");
    let voices = catalog();
    assert_eq!(
        voice_styles(&voices, "zh-CN-YunxiNeural"),
        Some(vec!["chat".to_string(), "narration-relaxed".to_string()])
    );
    assert_eq!(voice_styles(&voices, "en-US-JennyNeural"), None);
    assert_eq!(voice_styles(&voices, "nobody"), None);
    let mut req = json("hi");
    req.style = Some("CHAT".to_string());
    assert_eq!(req.to_ms_request(&voices, "id".to_string()).unwrap().style, "chat");
    req.style = Some("Cheerful".to_string());
    req.informant = Some("zh-CN-YunxiNeural".to_string());
    assert_eq!(req.to_ms_request(&voices, "id".to_string()).unwrap().style, "general");
}

#[test]
fn an_empty_text_is_refused_and_answered_with_silence() {
    for text in ["", "%", "%25"] {
        let r = json(text).to_ms_request(&catalog(), "id".to_string());
        if text.is_empty() {
            let e = r.unwrap_err();
            assert_eq!(e.code, 500);
            assert_eq!(e.msg, "文本为空");
            assert!(matches!(refuse(e), Reply::Silence));
        } else {
            assert_eq!(r.unwrap().text, "%");
        }
    }
    match refuse(ControllerError::new("获取发音人数据错误")) {
        Reply::Refused(e) => {
            assert_eq!(e.code, 500);
            assert_eq!(e.msg, "获取发音人数据错误");
        }
        other => panic!("{:?}", other),
    }
}

#[test]
fn an_empty_query_text_is_answered_with_silence() {
    let refusal = json("").to_ms_request(&catalog(), "id".to_string()).unwrap_err();
    assert!(matches!(refuse(refusal), Reply::Silence));
    let encoded = json("%25").to_ms_request(&catalog(), "id".to_string());
    assert!(encoded.is_ok());
}

#[test]
fn a_request_is_brought_into_line() {
    let req = MsTtsMsgRequestJson {
        text: "你好%EF%BC%8C世界 <b>".to_string(),
        informant: Some("zh-CN-YunxiNeural".to_string()),
        style: Some("Chat".to_string()),
        rate: Some(percent_of_rate(2.0)),
        pitch: Some(percent_of_pitch(1.0)),
        quality: Some("audio-24khz-96kbitrate-mono-mp3".to_string()),
        token: None,
    };
    let out = req.to_ms_request(&catalog(), "abc".to_string()).unwrap();
    assert_eq!(out.text, "你好, 世界 &lt;b&gt;");
    assert_eq!(out.request_id, "abc");
    assert_eq!(out.informant, "zh-CN-YunxiNeural");
    assert_eq!(out.style, "chat");
    assert_eq!(out.rate, "100");
    assert_eq!(out.pitch, "0");
    assert_eq!(out.quality, "audio-24khz-96kbitrate-mono-mp3");
    assert_eq!(out.subscribe_key, None);
    assert_eq!(out.region, None);
}

#[test]
fn the_edge_markup_carries_voice_rate_and_pitch() {
    let mut req = json("Hello");
    req.rate = Some(percent_of_rate(1.5));
    req.pitch = Some(percent_of_pitch(1.0));
    let out = req.to_ms_request(&catalog(), "0123456789abcdef0123456789abcdef".to_string()).unwrap();
    let frames = generate_xmml_at(MsApiOrigin::EdgeFree, &out, "2022-11-13T00:00:00Z");
    assert_eq!(frames.len(), 1);
    assert!(frames[0].contains("rate='50%' pitch='0%'"));
    assert!(frames[0].contains("<voice name='zh-CN-XiaoxiaoNeural'>"));
    assert_eq!(
        frames[0],
        "X-RequestId:0123456789abcdef0123456789abcdef\r\nContent-Type:application/ssml+xml\r\nX-Timestamp:2022-11-13T00:00:00Z\r\nPath:ssml\r\n\r\n<speak version='1.0' xmlns='http://www.w3.org/2001/10/synthesis' xmlns:mstts='https://www.w3.org/2001/mstts' xml:lang='en-US'><voice name='zh-CN-XiaoxiaoNeural'><prosody rate='50%' pitch='0%' volume='+0%'>Hello</prosody></voice></speak>"
    );
}

#[test]
fn the_subscription_frames_carry_format_and_style() {
    let req = MsTtsMsgRequestJson {
        text: "你好，世界".to_string(),
        informant: Some("zh-CN-YunxiNeural".to_string()),
        style: Some("chat".to_string()),
        rate: Some(percent_of_rate(2.0)),
        pitch: Some(percent_of_pitch(1.0)),
        quality: Some("audio-24khz-96kbitrate-mono-mp3".to_string()),
        token: Some("secret".to_string()),
    };
    let out = req.to_ms_request(&catalog(), "0123456789abcdef0123456789abcdef".to_string()).unwrap();
    let frames = generate_xmml_at(MsApiOrigin::Subscription, &out, "T");
    assert_eq!(frames.len(), 2);
    assert_eq!(
        frames[0],
        "Path: synthesis.context\r\nX-RequestId: 0123456789abcdef0123456789abcdef\r\nX-Timestamp: T\r\nContent-Type: application/json\r\n\r\n{\"synthesis\":{\"audio\":{\"metadataOptions\":{\"bookmarkEnabled\":false,\"sentenceBoundaryEnabled\":false,\"visemeEnabled\":false,\"wordBoundaryEnabled\":false},\"outputFormat\":\"audio-24khz-96kbitrate-mono-mp3\"},\"language\":{\"autoDetection\":false}}}"
    );
    assert!(frames[1].starts_with(
        "Path: ssml\r\nX-RequestId: 0123456789abcdef0123456789abcdef\r\nX-Timestamp:T\r\nContent-Type:application/ssml+xml\r\n\r\n<speak "
    ));
    assert!(frames[1].contains("<voice name='zh-CN-YunxiNeural'>"));
    assert!(frames[1].contains("<mstts:express-as style='chat'>"));
    assert!(frames[1].contains("rate='100%' pitch='0%'"));
    assert!(frames[1].ends_with(">你好, 世界</prosody></mstts:express-as></voice></speak>"));
}

#[test]
fn the_preview_frames_pin_their_format() {
    let mut out = request("hi");
    out.quality = "webm-24khz-16bit-mono-opus".to_string();
    let frames = generate_xmml_at(MsApiOrigin::OfficialPreview, &out, "T");
    assert_eq!(frames.len(), 2);
    assert!(frames[0].contains("\"outputFormat\":\"audio-24khz-96kbitrate-mono-mp3\""));
    assert!(frames[1].contains("<mstts:express-as style='general'>"));
}

#[test]
fn frames_are_stamped_with_the_time_of_the_call() {
    let out = request("hi");
    let frames = generate_xmml(MsApiOrigin::Subscription, &out);
    assert_eq!(frames.len(), 2);
    let stamp = frames[0]
        .split("X-Timestamp: ")
        .nth(1)
        .unwrap()
        .split("\r\n")
        .next()
        .unwrap()
        .to_string();
    assert!(stamp.ends_with('Z') && stamp.contains('T') && stamp.len() >= 20);
    assert_eq!(frames, generate_xmml_at(MsApiOrigin::Subscription, &out, &stamp));
    let config = speech_config(MsApiOrigin::EdgeFree);
    assert!(config.starts_with("X-Timestamp: 2"));
}

#[test]
fn the_session_is_opened_with_its_configuration() {
    assert_eq!(
        speech_config_at(MsApiOrigin::EdgeFree, "T"),
        "X-Timestamp: T\r\nContent-Type: application/json; charset=utf-8\r\nPath: speech.config\r\n\r\n{\"context\":{\"synthesis\":{\"audio\":{\"metadataoptions\":{\"sentenceBoundaryEnabled\":\"false\",\"wordBoundaryEnabled\":\"false\"},\"outputFormat\":\"webm-24khz-16bit-mono-opus\"}}}}"
    );
    let sdk = speech_config_at(MsApiOrigin::Subscription, "T");
    assert!(sdk.starts_with(
        "Path: speech.config\r\nX-Timestamp: T\r\nContent-Type: application/json; charset=utf-8\r\n\r\n{\"context\":{\"system\":{\"name\":\"SpeechSDK\",\"version\":\"1.19.0\""
    ));
    assert!(sdk.ends_with(
        "\"os\":{\"platform\":\"Browser/Win32\",\"name\":\"Mozilla/5.0 (Windows NT 10.0; Win64; x64) AppleWebKit/537.36 (KHTML, like Gecko) Chrome/107.0.0.0 Safari/537.36 Edg/107.0.1379.1\",\"version\":\"5.0 (Windows NT 10.0; Win64; x64) AppleWebKit/537.36 (KHTML, like Gecko) Chrome/107.0.0.0 Safari/537.36 Edg/107.0.1379.1\"}}}"
    ));
    assert_eq!(speech_config_at(MsApiOrigin::OfficialPreview, "T"), sdk);
}

#[test]
fn a_call_is_registered_before_its_frames_are_made() {
    let mut session = BackendSession::new();
    let out = request("hi");
    let frames = begin_call_at(&mut session, MsApiOrigin::EdgeFree, &out, "T");
    assert!(session.is_registered("0123456789abcdef0123456789abcdef"));
    assert_eq!(session.len(), 1);
    assert_eq!(frames, generate_xmml_at(MsApiOrigin::EdgeFree, &out, "T"));
}

#[test]
fn the_outcome_of_a_call_is_answered() {
    let response = MsTtsMsgResponse {
        request_id: "id".to_string(),
        data: vec![1, 2, 3],
        file_type: "audio/mpeg".to_string(),
    };
    match conclude(Some(response)) {
        Reply::Audio { data, content_type } => {
            assert_eq!(data, vec![1, 2, 3]);
            assert_eq!(content_type, "audio/mpeg");
        }
        other => panic!("{:?}", other),
    }
    assert!(matches!(conclude(None), Reply::UnknownError));
    assert_eq!(BROKER_WAIT_SECONDS, 30);
    assert!(!deadline_passed(100, 129));
    assert!(deadline_passed(100, 130));
    assert!(deadline_passed(i64::MIN, i64::MAX));
    assert!(!deadline_passed(i64::MAX, i64::MIN));
}

#[test]
fn a_request_may_be_pinned_to_a_credential() {
    let mut out = request("hi");
    assert!(pinned_credential(&out).unwrap().is_none());
    out.subscribe_key = Some("k".to_string());
    assert!(pinned_credential(&out).unwrap().is_none());
    out.region = Some("eastus".to_string());
    let key = pinned_credential(&out).unwrap().unwrap();
    assert_eq!(key.0, "k");
    assert_eq!(key.1, AzureApiRegionIdentifier::EastUs);
    out.region = Some("nowhere".to_string());
    assert!(pinned_credential(&out).is_err());
}

#[test]
fn voices_are_described() {
    let a = azure("zh-CN-XiaoxiaoNeural", "zh-CN", Some(vec!["chat"]));
    assert_eq!(a.get_short_name(), "zh-CN-XiaoxiaoNeural");
    assert_eq!(a.get_local(), "zh-CN");
    assert_eq!(a.get_style(), Some(vec!["chat".to_string()]));
    assert_eq!(a.get_desc(), "Microsoft Xiaoxiao Online (Natural) - 晓晓");
    let mut standard = azure("zh-CN-Old", "zh-CN", None);
    if let VoicesItem::AzureApi { voice_type, .. } = &mut standard {
        *voice_type = "Standard".to_string();
    }
    assert_eq!(standard.get_desc(), "Microsoft Xiaoxiao Online - 晓晓");
    assert_eq!(standard.get_style(), None);
    let e = edge(
        "en-US-GuyNeural",
        "en-US",
        vec![("VoicePersonalities", vec!["Passion"]), ("ContentCategories", vec!["News", "Novel"])],
    );
    assert_eq!(e.get_short_name(), "en-US-GuyNeural");
    assert_eq!(e.get_local(), "en-US");
    assert_eq!(e.get_style(), Some(vec!["News".to_string(), "Novel".to_string()]));
    assert_eq!(e.get_desc(), "Microsoft en-US-GuyNeural Online (Natural)");
    assert_eq!(edge("x", "en-US", vec![]).get_style(), None);
    let tags = vec![("a".to_string(), vec!["1".to_string()]), ("a".to_string(), vec![])];
    assert_eq!(lookup_tag(&tags, "a"), Some(vec!["1".to_string()]));
    assert_eq!(lookup_tag(&tags, "b"), None);
}

#[test]
fn voices_are_the_same_by_service_and_short_name() {
    let a = azure("v1", "zh-CN", None);
    let a2 = azure("v1", "en-US", Some(vec!["chat"]));
    let b = azure("v2", "zh-CN", None);
    let e = edge("v1", "zh-CN", vec![]);
    assert!(a.eq(&a2));
    assert!(!a.eq(&b));
    assert!(!a.eq(&e));
    assert!(!e.eq(&a));
    assert!(e.eq(&edge("v1", "x", vec![])));
    assert!(list_offers(&vec![b, a2], &a));
    assert!(!list_offers(&vec![e], &a));
}

#[test]
fn the_catalog_is_looked_up_by_name_and_locale() {
    let voices = catalog();
    assert!(voices.contains("en-US-JennyNeural"));
    assert!(!voices.contains("en-US-Nobody"));
    assert_eq!(voices.get("zh-CN-YunxiNeural").unwrap().get_short_name(), "zh-CN-YunxiNeural");
    assert!(voices.get("nobody").is_none());
    let zh: Vec<String> = voices.by_locale("zh-CN").iter().map(|v| v.get_short_name()).collect();
    assert_eq!(zh, vec!["zh-CN-XiaoxiaoNeural", "zh-CN-YunxiNeural"]);
    assert!(voices.by_locale("fr-FR").is_empty());
    assert_eq!(
        voices.voices_name_list(),
        vec!["zh-CN-XiaoxiaoNeural", "zh-CN-YunxiNeural", "en-US-JennyNeural"]
    );
    let twice = collating_list_of_pronouncers(vec![
        azure("v", "zh-CN", Some(vec!["old"])),
        azure("v", "en-US", Some(vec!["new"])),
    ]);
    assert_eq!(twice.get("v").unwrap().get_local(), "en-US");
}

#[test]
fn the_common_catalog_is_the_intersection() {
    let a = vec![azure("v1", "x", None), azure("v2", "x", None), azure("v3", "x", None)];
    let b = vec![azure("v3", "y", None), azure("v1", "y", None), azure("v4", "y", None)];
    let c = vec![azure("v1", "z", None), azure("v3", "z", None), azure("v2", "z", None)];
    let mixed = intersect_voices(vec![a, b, c]).unwrap();
    let names: Vec<String> = mixed.iter().map(|v| v.get_short_name()).collect();
    assert_eq!(names, vec!["v1", "v3"]);
    assert_eq!(mixed[0].get_local(), "x");
    assert!(intersect_voices(Vec::new()).is_none());
    let alone = intersect_voices(vec![vec![azure("v1", "x", None)]]).unwrap();
    assert_eq!(alone.len(), 1);
    let none = intersect_voices(vec![vec![azure("v1", "x", None)], vec![]]).unwrap();
    assert!(none.is_empty());
}

#[test]
fn a_voice_of_one_credential_only_is_not_selectable() {
    let a = vec![azure("zh-CN-XiaoxiaoNeural", "zh-CN", None), azure("only-in-a", "zh-CN", None)];
    let b = vec![azure("zh-CN-XiaoxiaoNeural", "zh-CN", None)];
    let catalog_a = collating_list_of_pronouncers(vec![
        azure("zh-CN-XiaoxiaoNeural", "zh-CN", None),
        azure("only-in-a", "zh-CN", None),
    ]);
    let catalog_b = collating_list_of_pronouncers(vec![azure("zh-CN-XiaoxiaoNeural", "zh-CN", None)]);
    let exposed = collating_list_of_pronouncers(intersect_voices(vec![a, b]).unwrap());
    assert!(!exposed.contains("only-in-a"));
    assert!(catalog_a.contains("only-in-a"));
    assert!(!catalog_b.contains("only-in-a"));
    let wish = Some("only-in-a".to_string());
    assert_eq!(coerce_voice(&wish, &exposed), "zh-CN-XiaoxiaoNeural");
    assert_eq!(coerce_voice(&wish, &catalog_a), "only-in-a");
    assert_eq!(coerce_voice(&wish, &catalog_b), "zh-CN-XiaoxiaoNeural");
}

#[test]
fn the_built_in_voices_stand_in_when_fetching_fails() {
    let fetched = catalog_or_fallback(Some(vec![azure("f", "x", None)]), vec![azure("b", "x", None)]);
    assert_eq!(fetched.voices_name_list(), vec!["f"]);
    let fallback = catalog_or_fallback(None, vec![azure("b", "x", None)]);
    assert_eq!(fallback.voices_name_list(), vec!["b"]);
}
