use std::hash::{Hash, Hasher};
use tts_server::cmd::{check_startup, ApiSwitches, ServerArea, StartupError};
use tts_server::error::TTSServerError;
use tts_server::origin::MsApiOrigin;
use tts_server::region::AzureApiRegionIdentifier;
use tts_server::subscription::{
    read_token_answer, read_voices_status, AzureApiSubscribeToken, AzureSubscribeKey,
};
use tts_server::text::{int_to_text, lower_hex, str_eq};

const ALL_REGIONS: [(&str, AzureApiRegionIdentifier); 31] = [
    ("southafricanorth", AzureApiRegionIdentifier::SouthAfricaNorth),
    ("eastasia", AzureApiRegionIdentifier::EastAsia),
    ("southeastasia", AzureApiRegionIdentifier::SoutheastAsia),
    ("australiaeast", AzureApiRegionIdentifier::AustraliaEast),
    ("centralindia", AzureApiRegionIdentifier::CentralIndia),
    ("jioindiawest", AzureApiRegionIdentifier::JioIndiaWest),
    ("japaneast", AzureApiRegionIdentifier::JapanEast),
    ("japanwest", AzureApiRegionIdentifier::JapanWest),
    ("koreacentral", AzureApiRegionIdentifier::KoreaCentral),
    ("canadacentral", AzureApiRegionIdentifier::CanadaCentral),
    ("northeurope", AzureApiRegionIdentifier::NorthEurope),
    ("westeurope", AzureApiRegionIdentifier::WestEurope),
    ("francecentral", AzureApiRegionIdentifier::FranceCentral),
    ("germanywestcentral", AzureApiRegionIdentifier::GermanyWestCentral),
    ("norwayeast", AzureApiRegionIdentifier::NorwayEast),
    ("switzerlandnorth", AzureApiRegionIdentifier::SwitzerlandNorth),
    ("switzerlandwest", AzureApiRegionIdentifier::SwitzerlandWest),
    ("uksouth", AzureApiRegionIdentifier::UkSouth),
    ("uaenorth", AzureApiRegionIdentifier::UaeNorth),
    ("brazilsouth", AzureApiRegionIdentifier::BrazilSouth),
    ("centralus", AzureApiRegionIdentifier::CentralUs),
    ("eastus", AzureApiRegionIdentifier::EastUs),
    ("eastus2", AzureApiRegionIdentifier::EastUs2),
    ("northcentralus", AzureApiRegionIdentifier::NorthCentralUs),
    ("southcentralus", AzureApiRegionIdentifier::SouthCentralUs),
    ("usgovarizona", AzureApiRegionIdentifier::UsGovArizona),
    ("usgovvirginia", AzureApiRegionIdentifier::UsGovVirginia),
    ("westcentralus", AzureApiRegionIdentifier::WestCentralUs),
    ("westus", AzureApiRegionIdentifier::WestUs),
    ("westus2", AzureApiRegionIdentifier::WestUs2),
    ("westus3", AzureApiRegionIdentifier::WestUs3),
];

fn switches(edge: bool, preview: bool, subscribe: bool) -> ApiSwitches {
    ApiSwitches {
        close_edge_free_api: edge,
        close_official_preview_api: preview,
        close_official_subscribe_api: subscribe,
    }
}

#[test]
fn every_region_has_its_tag_and_is_read_back() {
    for (tag, region) in ALL_REGIONS {
        assert_eq!(region.value(), tag);
        assert_eq!(AzureApiRegionIdentifier::from(tag).unwrap(), region);
    }
}

#[test]
fn an_unknown_region_tag_is_refused() {
    for tag in ["", "mars", "EastUs", "eastus ", "eastus22"] {
        match AzureApiRegionIdentifier::from(tag) {
            Err(TTSServerError::ProgramError(detail)) => assert_eq!(detail, "解析地域标签错误"),
            other => panic!("{:?}", other),
        }
    }
}

#[test]
fn backends_have_interface_names() {
    for (name, origin) in [
        ("ms-tts-edge", MsApiOrigin::EdgeFree),
        ("ms-tts-preview", MsApiOrigin::OfficialPreview),
        ("ms-tts-subscribe", MsApiOrigin::Subscription),
    ] {
        assert_eq!(MsApiOrigin::try_from(name.to_string()).unwrap(), origin);
        assert_eq!(origin.into(), name);
    }
    match MsApiOrigin::try_from("ms-tts".to_string()) {
        Err(TTSServerError::ProgramError(detail)) => assert_eq!(detail, "不存在的接口名称"),
        other => panic!("{:?}", other),
    }
}

#[test]
fn errors_have_their_text() {
    assert_eq!(
        TTSServerError::ProgramError("x".to_string()).message(),
        "Program unexpected error! x"
    );
    assert_eq!(
        TTSServerError::ThirdPartyApiCallFailed("y".to_string()).message(),
        "3rd party api call failed! y"
    );
}

#[test]
fn a_configuration_entry_is_key_comma_region() {
    let key = AzureSubscribeKey::try_from("956d0b8cb34e4kb1b9cb8c614d313ae3,southeastasia").unwrap();
    assert_eq!(key.0, "956d0b8cb34e4kb1b9cb8c614d313ae3");
    assert_eq!(key.1, AzureApiRegionIdentifier::SoutheastAsia);
    let empty_key = AzureSubscribeKey::try_from(",eastus").unwrap();
    assert_eq!(empty_key.0, "");
}

#[test]
fn a_configuration_entry_with_the_wrong_shape_is_refused() {
    for entry in ["", "abc", "a,eastus,b", "a,,eastus", ","] {
        match AzureSubscribeKey::try_from(entry) {
            Err(TTSServerError::ProgramError(detail)) => {
                if entry == "," {
                    assert_eq!(detail, "解析地域标签错误");
                } else {
                    assert_eq!(detail, "错误的订阅字符串, 请检查订阅key参数是否符合要求");
                }
            }
            other => panic!("{:?}", other),
        }
    }
    match AzureSubscribeKey::try_from("key,nowhere") {
        Err(TTSServerError::ProgramError(detail)) => assert_eq!(detail, "解析地域标签错误"),
        other => panic!("{:?}", other),
    }
}

#[test]
fn invalid_entries_are_passed_over() {
    let list = vec![
        "k1,eastus".to_string(),
        "broken".to_string(),
        "k2,nowhere".to_string(),
        "k3,westus2".to_string(),
    ];
    let keys = AzureSubscribeKey::from(&list);
    assert_eq!(keys.len(), 2);
    assert_eq!(keys[0].0, "k1");
    assert_eq!(keys[0].1, AzureApiRegionIdentifier::EastUs);
    assert_eq!(keys[1].0, "k3");
    assert_eq!(keys[1].1, AzureApiRegionIdentifier::WestUs2);
    assert!(AzureSubscribeKey::from(&Vec::new()).is_empty());
}

#[test]
fn the_hash_depends_on_key_and_region() {
    let a = AzureSubscribeKey("k1".to_string(), AzureApiRegionIdentifier::EastUs);
    let a2 = AzureSubscribeKey("k1".to_string(), AzureApiRegionIdentifier::EastUs);
    let b = AzureSubscribeKey("k1".to_string(), AzureApiRegionIdentifier::EastUs2);
    let c = AzureSubscribeKey("k2".to_string(), AzureApiRegionIdentifier::EastUs);
    assert_eq!(a.hash_str(), a2.hash_str());
    assert_ne!(a.hash_str(), b.hash_str());
    assert_ne!(a.hash_str(), c.hash_str());
    let h = a.hash_str();
    assert!(!h.is_empty() && h.len() <= 16);
    assert!(h.chars().all(|ch| ch.is_ascii_hexdigit() && !ch.is_ascii_uppercase()));
    let token = AzureApiSubscribeToken::new(AzureApiRegionIdentifier::EastUs, "k1");
    assert_eq!(token.hash_str(), h);
}

#[test]
fn the_hash_is_that_of_the_standard_hasher() {
    let mut hasher = std::collections::hash_map::DefaultHasher::new();
    "k1".hash(&mut hasher);
    "eastus".hash(&mut hasher);
    let expected = format!("{:x}", hasher.finish());
    let key = AzureSubscribeKey("k1".to_string(), AzureApiRegionIdentifier::EastUs);
    assert_eq!(key.hash_str(), expected);
}

#[test]
fn numbers_are_rendered() {
    assert_eq!(int_to_text(0), "0");
    assert_eq!(int_to_text(7), "7");
    assert_eq!(int_to_text(-100), "-100");
    assert_eq!(int_to_text(200), "200");
    assert_eq!(int_to_text(i32::MAX), "2147483647");
    assert_eq!(int_to_text(i32::MIN), "-2147483648");
    assert_eq!(lower_hex(0), "0");
    assert_eq!(lower_hex(255), "ff");
    assert_eq!(lower_hex(0xdead_beef), "deadbeef");
    assert_eq!(lower_hex(u64::MAX), "ffffffffffffffff");
    assert!(str_eq("你好", "你好"));
    assert!(!str_eq("你好", "你"));
}

#[test]
fn a_token_is_used_for_less_than_eight_minutes() {
    let mut token = AzureApiSubscribeToken::new(AzureApiRegionIdentifier::WestEurope, "key");
    assert!(token.token_is_none());
    assert!(token.is_expired(1_700_000_000));
    assert_eq!(token.get_oauth_token(1_700_000_000), None);
    token.set_new_token("bearer-1".to_string(), 1_700_000_000);
    assert!(!token.token_is_none());
    assert!(!token.is_expired(1_700_000_000));
    assert_eq!(token.get_oauth_token(1_700_000_479), Some("bearer-1".to_string()));
    assert!(!token.is_expired(1_700_000_479));
    assert!(token.is_expired(1_700_000_480));
    assert_eq!(token.get_oauth_token(1_700_000_480), None);
    assert!(token.is_expired(i64::MAX));
    assert!(!token.is_expired(i64::MIN));
    token.set_new_token("bearer-2".to_string(), 1_700_000_480);
    assert_eq!(token.get_oauth_token(1_700_000_481), Some("bearer-2".to_string()));
    assert_eq!(token.get_subscription_key(), "key");
    assert_eq!(token.get_region_identifier(), AzureApiRegionIdentifier::WestEurope);
}

#[test]
fn a_token_renewed_now_is_usable_now() {
    let mut token = AzureApiSubscribeToken::new(AzureApiRegionIdentifier::WestEurope, "key");
    assert_eq!(token.current_oauth_token(), None);
    token.renew_token("fresh".to_string());
    assert_eq!(token.current_oauth_token(), Some("fresh".to_string()));
    assert!(!token.is_expired(1_600_000_000));
    assert!(token.is_expired(4_000_000_000));
    token.set_new_token("old".to_string(), 1_000_000_000);
    assert_eq!(token.current_oauth_token(), None);
}

#[test]
fn a_credential_knows_its_addresses() {
    let key = AzureSubscribeKey("k".to_string(), AzureApiRegionIdentifier::EastAsia);
    let token = AzureApiSubscribeToken::new_from_subscribe_key(&key);
    assert_eq!(
        token.issue_token_url(),
        "https://eastasia.api.cognitive.microsoft.com/sts/v1.0/issueToken"
    );
    assert_eq!(
        token.voices_list_url(),
        "https://eastasia.tts.speech.microsoft.com/cognitiveservices/voices/list"
    );
}

#[test]
fn the_answer_of_the_token_service_is_read() {
    assert_eq!(read_token_answer(200, b"abc.def".to_vec()).unwrap(), "abc.def");
    match read_token_answer(200, vec![0xff, 0xfe]) {
        Err(TTSServerError::ProgramError(detail)) => assert_eq!(detail, "Binary to string error!"),
        other => panic!("{:?}", other),
    }
    match read_token_answer(401, b"denied".to_vec()) {
        Err(TTSServerError::ThirdPartyApiCallFailed(detail)) => {
            assert_eq!(detail, "Call without permission!")
        }
        other => panic!("{:?}", other),
    }
    for status in [201u16, 403, 500, 0] {
        match read_token_answer(status, b"x".to_vec()) {
            Err(TTSServerError::ThirdPartyApiCallFailed(detail)) => {
                assert_eq!(detail, "Third-party interface corresponding error")
            }
            other => panic!("{:?}", other),
        }
    }
    assert!(read_voices_status(200).is_ok());
    assert!(matches!(
        read_voices_status(404),
        Err(TTSServerError::ThirdPartyApiCallFailed(_))
    ));
}

#[test]
fn startup_needs_a_backend_and_a_credential() {
    let keys = vec!["k1,eastus".to_string(), "bad".to_string()];
    assert_eq!(
        check_startup(switches(true, true, true), &keys).err(),
        Some(StartupError::NoApiEnabled)
    );
    assert_eq!(
        check_startup(switches(false, true, false), &vec!["bad".to_string()]).err(),
        Some(StartupError::NoSubscribeKey)
    );
    assert_eq!(
        check_startup(switches(true, true, false), &Vec::new()).err(),
        Some(StartupError::NoSubscribeKey)
    );
    let ok = check_startup(switches(false, true, false), &keys).unwrap();
    assert_eq!(ok.len(), 1);
    assert_eq!(ok[0].0, "k1");
    assert!(check_startup(switches(false, true, true), &Vec::new()).unwrap().is_empty());
    assert!(check_startup(switches(true, false, true), &keys).unwrap().is_empty());
}

#[test]
fn server_areas_are_ordered_as_declared() {
    assert!(ServerArea::Default < ServerArea::China);
    assert!(ServerArea::China < ServerArea::ChinaHK);
    assert!(ServerArea::ChinaHK < ServerArea::ChinaTW);
    assert_eq!(ServerArea::Default, ServerArea::Default);
}
