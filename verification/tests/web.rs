use tts_server::cmd::ApiSwitches;
use tts_server::error::TTSServerError;
use tts_server::origin::MsApiOrigin;
use tts_server::voices::{collating_list_of_pronouncers, VoicesItem, VoicesList};
use tts_server::web::controller::MsTtsMsgRequestJson;
use tts_server::web::entity::ApiBaseResponse;
use tts_server::web::error::ControllerError;
use tts_server::web::middleware::{
    check_body, check_body_token, check_declared_body, check_token, error_envelope, query_token, refuse_token, AuthTokenValue,
    TokenCheck,
};
use tts_server::web::vo::{BaseResponse, EmptyVO, HttpStatus};
use tts_server::web::web_entrance::{
    api_url, get_api_list, get_ms_tts_informant, get_ms_tts_quality, get_ms_tts_style, is_enabled,
    ListDataItem, ParamType,
};

fn voice(short_name: &str, styles: Option<Vec<&str>>) -> VoicesItem {
    VoicesItem::AzureApi {
        name: short_name.to_string(),
        display_name: "Jenny".to_string(),
        local_name: "Jenny".to_string(),
        short_name: short_name.to_string(),
        gender: "Female".to_string(),
        locale: "en-US".to_string(),
        locale_name: "English".to_string(),
        style_list: styles.map(|l| l.into_iter().map(|s| s.to_string()).collect()),
        sample_rate_hertz: "24000".to_string(),
        voice_type: "Neural".to_string(),
        status: "GA".to_string(),
        role_play_list: None,
        words_per_minute: None,
    }
}

fn voices() -> VoicesList {
    collating_list_of_pronouncers(vec![
        voice("en-US-JennyNeural", Some(vec!["chat", "sad"])),
        voice("en-US-GuyNeural", None),
    ])
}

fn keys(items: &[ListDataItem]) -> Vec<&str> {
    items.iter().map(|i| i.key.as_str()).collect()
}

fn status(code: u16, reason: &str) -> HttpStatus {
    HttpStatus { code, reason: Some(reason.to_string()) }
}

#[test]
fn controller_errors_carry_a_code() {
    let e = ControllerError::new("文本为空");
    assert_eq!(e.code, 500);
    assert_eq!(e.msg, "文本为空");
    let f = ControllerError::from_status_code(403, "no");
    assert_eq!(f.code, 403);
    assert_eq!(f.msg, "no");
    assert_eq!(f.to_string(), "Error Code: 403, Controller Error: no");
    assert_eq!(
        ControllerError::from_status_code(-7, "").to_string(),
        "Error Code: -7, Controller Error: "
    );
}

#[test]
fn the_envelope_says_success_or_error() {
    let ok = ApiBaseResponse::success(Some(5));
    assert_eq!((ok.code, ok.data, ok.msg.as_str()), (200, Some(5), "success"));
    let none: ApiBaseResponse<()> = ApiBaseResponse::success(None);
    assert_eq!((none.code, none.data, none.msg.as_str()), (200, None, "success"));
    let err: ApiBaseResponse<()> = ApiBaseResponse::error("未知错误");
    assert_eq!((err.code, err.data, err.msg.as_str()), (500, None, "未知错误"));
    let coded: ApiBaseResponse<u8> = ApiBaseResponse::error_by_status_code(403, "denied");
    assert_eq!((coded.code, coded.data, coded.msg.as_str()), (403, None, "denied"));
}

#[test]
fn the_body_carries_status_and_message() {
    let ok = BaseResponse::from(vec![1, 2]);
    assert_eq!((ok.code, ok.data, ok.msg), (200, Some(vec![1, 2]), Some("OK".to_string())));
    let good: BaseResponse<u8> = BaseResponse::from_result(Ok(3));
    assert_eq!((good.code, good.data, good.msg), (200, Some(3), Some("OK".to_string())));
    let bad: BaseResponse<u8> =
        BaseResponse::from_result(Err(TTSServerError::ProgramError("boom".to_string())));
    assert_eq!(
        (bad.code, bad.data, bad.msg),
        (500, None, Some("错误信息: Program unexpected error! boom".to_string()))
    );
    let e: BaseResponse<EmptyVO> = BaseResponse::from_error(
        status(502, "Bad Gateway"),
        &TTSServerError::ThirdPartyApiCallFailed("down".to_string()),
    );
    assert_eq!(e.code, 502);
    assert!(e.data.is_none());
    assert_eq!(e.msg, Some("请求失败, 3rd party api call failed! down".to_string()));
    let i: BaseResponse<EmptyVO> = BaseResponse::from_error_info(status(404, "Not Found"), "gone");
    assert_eq!((i.code, i.msg), (404, Some("gone".to_string())));
    assert_eq!(HttpStatus::ok().code, 200);
    assert_eq!(HttpStatus::ok().reason, Some("OK".to_string()));
    assert_eq!(HttpStatus::internal_server_error().code, 500);
    assert_eq!(
        HttpStatus::internal_server_error().reason,
        Some("Internal Server Error".to_string())
    );
}

#[test]
fn the_token_is_read_from_the_query() {
    assert_eq!(query_token("token=abc"), "abc");
    assert_eq!(query_token("text=hi&token=abc&rate=1"), "abc");
    assert_eq!(query_token("token=first&token=second"), "first");
    assert_eq!(query_token("token=a=b"), "a");
    assert_eq!(query_token("token="), "");
    assert_eq!(query_token("token"), "");
    assert_eq!(query_token("token&token=late"), "");
    assert_eq!(query_token(""), "");
    assert_eq!(query_token("text=hi"), "");
    assert_eq!(query_token("tokens=abc&xtoken=def"), "");
    assert_eq!(query_token("&&token=x"), "x");
    assert_eq!(query_token("text=token=abc"), "");
    assert_eq!(query_token("token=口令"), "口令");
}

#[test]
fn a_right_token_in_query_or_header_passes() {
    assert_eq!(check_token("s3", "text=a&token=s3", None, "GET"), TokenCheck::Pass);
    assert_eq!(check_token("s3", "text=a", Some("s3"), "GET"), TokenCheck::Pass);
    assert_eq!(check_token("s3", "token=no", Some("s3"), "POST"), TokenCheck::Pass);
    assert_eq!(check_token("", "", None, "GET"), TokenCheck::Pass);
}

#[test]
fn a_wrong_token_is_refused_unless_a_body_may_carry_it() {
    assert_eq!(check_token("s3", "token=no", Some("nope"), "GET"), TokenCheck::Refuse);
    assert_eq!(check_token("s3", "", None, "GET"), TokenCheck::Refuse);
    assert_eq!(check_token("s3", "", None, "post"), TokenCheck::Refuse);
    assert_eq!(check_token("s3", "token=no", None, "POST"), TokenCheck::ReadBody);
    let refusal = refuse_token();
    assert_eq!((refusal.code, refusal.msg.as_str()), (403, "Token 错误，无法进行调用"));
}

#[test]
fn the_token_of_the_body_is_checked() {
    assert!(check_body_token("s3", Some(Some("s3"))).is_ok());
    let wrong = check_body_token("s3", Some(Some("s4"))).unwrap_err();
    assert_eq!((wrong.code, wrong.msg.as_str()), (403, "Token 错误，无法进行调用"));
    let missing = check_body_token("s3", Some(None)).unwrap_err();
    assert_eq!((missing.code, missing.msg.as_str()), (403, "Token 错误，无法进行调用"));
    let unreadable = check_body_token("s3", None).unwrap_err();
    assert_eq!((unreadable.code, unreadable.msg.as_str()), (500, "解析请求中的 Token 错误"));
    let body = MsTtsMsgRequestJson {
        text: "hi".to_string(),
        informant: None,
        style: None,
        rate: None,
        pitch: None,
        quality: None,
        token: Some("s3".to_string()),
    };
    assert_eq!(body.get_token(), Some("s3"));
    assert!(check_body_token("s3", Some(body.get_token())).is_ok());
    let without = MsTtsMsgRequestJson { token: None, ..body };
    assert_eq!(without.get_token(), None);
}

#[test]
fn a_body_is_read_only_as_json() {
    assert!(check_body(Some("application/json"), b"{}").is_ok());
    assert!(check_body(Some("Application/JSON"), b"{}").is_ok());
    assert_eq!(
        check_body(Some("text/plain"), b"{}"),
        Err("Content type is not application/json".to_string())
    );
    assert_eq!(
        check_body(Some("application/json; charset=utf-8"), b"{}"),
        Err("Content type is not application/json".to_string())
    );
    assert_eq!(check_body(None, b"{}"), Err("Content type is not application/json".to_string()));
    assert_eq!(check_body(Some("application/json"), b""), Err("Empty body received".to_string()));
    assert!(check_declared_body("application/json", b"1").is_ok());
    assert!(check_declared_body("APPLICATION/JSON", b"1").is_err());
}

#[test]
fn errors_of_handlers_are_put_into_the_envelope() {
    let plain: &[u8] = b"text/plain; charset=utf-8";
    let e = error_envelope(status(400, "Bad Request"), Some(plain), b"Json deserialize error".to_vec())
        .unwrap();
    assert_eq!(e.code, 400);
    assert!(e.data.is_none());
    assert_eq!(e.msg, Some("Json deserialize error".to_string()));
    let empty = error_envelope(status(404, "Not Found"), None, Vec::new()).unwrap();
    assert_eq!((empty.code, empty.msg), (404, Some("Not Found".to_string())));
    let bad = error_envelope(status(500, "Internal Server Error"), None, vec![0xff]).unwrap();
    assert_eq!(bad.msg, Some("from_utf8 error".to_string()));
    let unnamed =
        error_envelope(HttpStatus { code: 599, reason: None }, None, Vec::new()).unwrap();
    assert_eq!((unnamed.code, unnamed.msg), (599, Some(String::new())));
}

#[test]
fn other_answers_pass_unchanged() {
    let json: &[u8] = b"application/json; charset=utf-8";
    assert!(error_envelope(status(200, "OK"), None, b"x".to_vec()).is_none());
    assert!(error_envelope(status(399, "x"), None, b"x".to_vec()).is_none());
    assert!(error_envelope(status(600, "x"), None, b"x".to_vec()).is_none());
    assert!(error_envelope(status(403, "Forbidden"), Some(json), b"{}".to_vec()).is_none());
    assert!(error_envelope(status(403, "Forbidden"), Some(b"text/plain"), b"x".to_vec()).is_none());
}

#[test]
fn the_interface_lists_the_backends_that_are_on() {
    let on = ApiSwitches {
        close_edge_free_api: false,
        close_official_preview_api: true,
        close_official_subscribe_api: false,
    };
    assert_eq!(get_api_list(on), vec![MsApiOrigin::EdgeFree, MsApiOrigin::Subscription]);
    assert!(is_enabled(MsApiOrigin::EdgeFree, on));
    assert!(!is_enabled(MsApiOrigin::OfficialPreview, on));
    assert!(is_enabled(MsApiOrigin::Subscription, on));
    let edge_only = ApiSwitches { close_official_subscribe_api: true, ..on };
    assert_eq!(get_api_list(edge_only), vec![MsApiOrigin::EdgeFree]);
    let sub_only = ApiSwitches { close_edge_free_api: true, ..on };
    assert_eq!(get_api_list(sub_only), vec![MsApiOrigin::Subscription]);
    let none = ApiSwitches { close_edge_free_api: true, ..edge_only };
    assert!(get_api_list(none).is_empty());
    assert_eq!(api_url(MsApiOrigin::EdgeFree), Some("/api/tts-ms-edge".to_string()));
    assert_eq!(api_url(MsApiOrigin::Subscription), Some("/api/tts-ms-subscribe".to_string()));
    assert_eq!(api_url(MsApiOrigin::OfficialPreview), None);
}

#[test]
fn the_styles_of_a_voice_begin_with_general() {
    let voices = voices();
    let jenny = get_ms_tts_style(&voices, "en-US-JennyNeural").unwrap();
    assert_eq!(keys(&jenny), vec!["general", "chat", "sad"]);
    assert!(jenny.iter().all(|i| i.desc.is_empty()));
    let guy = get_ms_tts_style(&voices, "en-US-GuyNeural").unwrap();
    assert_eq!(keys(&guy), vec!["general"]);
    assert!(get_ms_tts_style(&voices, "nobody").is_none());
}

#[test]
fn the_voices_and_formats_are_listed() {
    let list = get_ms_tts_informant(&voices());
    assert_eq!(keys(&list), vec!["en-US-JennyNeural", "en-US-GuyNeural"]);
    assert_eq!(list[0].desc, "Microsoft Jenny Online (Natural) - Jenny");
    let formats = get_ms_tts_quality();
    assert_eq!(formats.len(), 32);
    assert_eq!(formats[0].key, "audio-16khz-128kbitrate-mono-mp3");
    assert_eq!(formats[8].key, "audio-24khz-48kbitrate-mono-mp3");
    assert_eq!(formats[31].key, "webm-24khz-16bit-mono-opus");
    assert!(formats.iter().all(|i| i.desc.is_empty()));
    assert_ne!(ParamType::String, ParamType::Float);
    assert_eq!(ParamType::List, ParamType::List);
}
