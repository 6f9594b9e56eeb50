//! How an upstream session is dialed: the host, the request line and the
//! headers of the handshake, and the address at which the Edge backend is
//! reached.

use crate::cmd::ServerArea;
use crate::region::AzureApiRegionIdentifier;
use crate::text::{int_text, int_to_text};
use crate::utils::{is_id_text, random_below, random_string};
use vstd::prelude::*;
use vstd::string::StringExecFns;
use vstd::utf8::{encode_utf8, is_ascii_chars_encode_utf8};

verus! {

/// The token with which the Edge backend trusts a client, as ASCII.
pub const TOKEN: [u8; 32] = [
    54, 65, 53, 65, 65, 49, 68, 52, 69, 65, 70, 70, 52, 69, 57, 70, 66, 51, 55, 69, 50, 51, 68,
    54, 56, 52, 57, 49, 68, 54, 70, 52,
];

/// The token as text, as it stands in the addresses of the Edge backend.
pub open spec fn token_text() -> Seq<char> {
    "6A5AA1D4EAFF4E9FB37E23D68491D6F4"@
}

/// The bytes of `TOKEN` are the token text.
pub proof fn lemma_token_is_text()
    ensures
        encode_utf8(token_text()) == TOKEN@,
{
    reveal_strlit("6A5AA1D4EAFF4E9FB37E23D68491D6F4");
    assert(token_text() =~= seq!['6', 'A', '5', 'A', 'A', '1', 'D', '4', 'E', 'A', 'F', 'F', '4', 'E', '9', 'F', 'B', '3', '7', 'E', '2', '3', 'D', '6', '8', '4', '9', '1', 'D', '6', 'F', '4']);
    is_ascii_chars_encode_utf8(token_text());
    assert(encode_utf8(token_text()) =~= TOKEN@);
}

/// The addresses of the Edge backend in mainland China.
pub const MS_TTS_SERVER_CHINA_LIST: [[u8; 4]; 6] = [
    [202, 89, 233, 100],
    [202, 89, 233, 101],
    [202, 89, 233, 102],
    [202, 89, 233, 103],
    [202, 89, 233, 104],
    [182, 61, 148, 24],
];

/// The addresses of the Edge backend in Hong Kong.
pub const MS_TTS_SERVER_CHINA_HK_LIST: [[u8; 4]; 8] = [
    [149, 129, 121, 248],
    [149, 129, 88, 238],
    [103, 68, 61, 91],
    [47, 75, 141, 93],
    [47, 240, 87, 168],
    [47, 57, 114, 186],
    [150, 109, 51, 247],
    [35, 241, 115, 60],
];

/// The addresses of the Edge backend in Taiwan.
pub const MS_TTS_SERVER_CHINA_TW_LIST: [[u8; 4]; 2] = [[34, 81, 240, 201], [34, 80, 106, 199]];

/// The length of a connection identifier.
pub const CONNECTION_ID_LEN: u32 = 32;

/// The addresses kept for an area; none for the default area, which is
/// reached through the public name.
pub open spec fn servers_of(area: ServerArea) -> Seq<[u8; 4]> {
    match area {
        ServerArea::Default => Seq::empty(),
        ServerArea::China => MS_TTS_SERVER_CHINA_LIST@,
        ServerArea::ChinaHK => MS_TTS_SERVER_CHINA_HK_LIST@,
        ServerArea::ChinaTW => MS_TTS_SERVER_CHINA_TW_LIST@,
    }
}

/// The number of addresses kept for an area.
pub fn server_count(area: ServerArea) -> (n: usize)
    ensures
        n == servers_of(area).len(),
{
    match area {
        ServerArea::Default => 0,
        ServerArea::China => 6,
        ServerArea::ChinaHK => 8,
        ServerArea::ChinaTW => 2,
    }
}

/// The address kept for an area at a place of its list, if the list has
/// such a place.
pub fn server_at(area: ServerArea, index: usize) -> (r: Option<[u8; 4]>)
    ensures
        r == if index < servers_of(area).len() {
            Some(servers_of(area)[index as int])
        } else {
            None
        },
{
    if index >= server_count(area) {
        return None;
    }
    match area {
        ServerArea::Default => None,
        ServerArea::China => Some(MS_TTS_SERVER_CHINA_LIST[index]),
        ServerArea::ChinaHK => Some(MS_TTS_SERVER_CHINA_HK_LIST[index]),
        ServerArea::ChinaTW => Some(MS_TTS_SERVER_CHINA_TW_LIST[index]),
    }
}

/// Picks the address at which the Edge backend is dialed: none for the
/// default area, else any one of those kept for the area.
pub fn select_server(area: ServerArea) -> (r: Option<[u8; 4]>)
    ensures
        r is None <==> area == ServerArea::Default,
        r matches Some(address) ==> servers_of(area).contains(address),
{
    let count = server_count(area);
    if count == 0 {
        None
    } else {
        let select = random_below(count);
        let address = server_at(area, select);
        assert(servers_of(area)[select as int] == address->0);
        address
    }
}

/// An address in dotted decimal.
pub open spec fn dotted_text(address: [u8; 4]) -> Seq<char> {
    int_text(address[0] as int) + "."@ + int_text(address[1] as int) + "."@ + int_text(
        address[2] as int,
    ) + "."@ + int_text(address[3] as int)
}

/// Writes an address in dotted decimal.
pub fn dotted(address: [u8; 4]) -> (r: String)
    ensures
        r@ == dotted_text(address),
{
    let mut out = int_to_text(address[0] as i32);
    out.append(".");
    out.append(int_to_text(address[1] as i32).as_str());
    out.append(".");
    out.append(int_to_text(address[2] as i32).as_str());
    out.append(".");
    out.append(int_to_text(address[3] as i32).as_str());
    out
}

/// Everything the transport needs to open one upstream session.
#[derive(Debug)]
pub struct DialPlan {
    /// The name of the host: the authority of the URL and the name shown in TLS.
    pub host: String,
    /// Path and query of the URL.
    pub path_and_query: String,
    /// The headers of the handshake request, in order.
    pub headers: Vec<(String, String)>,
    /// Whether the host name is sent in the TLS greeting.
    pub use_sni: bool,
    /// Whether a certificate that does not check out is accepted.
    pub accept_invalid_certs: bool,
    /// The address to connect to in place of the host name.
    pub address: Option<[u8; 4]>,
}

/// The mathematical value of a `DialPlan`.
pub struct PlanView {
    pub host: Seq<char>,
    pub path_and_query: Seq<char>,
    pub headers: Seq<(Seq<char>, Seq<char>)>,
    pub use_sni: bool,
    pub accept_invalid_certs: bool,
    pub address: Option<[u8; 4]>,
}

/// The values of a list of headers.
pub open spec fn header_views(headers: Seq<(String, String)>) -> Seq<(Seq<char>, Seq<char>)> {
    Seq::new(headers.len(), |i: int| (headers[i].0@, headers[i].1@))
}

impl View for DialPlan {
    type V = PlanView;

    open spec fn view(&self) -> PlanView {
        PlanView {
            host: self.host@,
            path_and_query: self.path_and_query@,
            headers: header_views(self.headers@),
            use_sni: self.use_sni,
            accept_invalid_certs: self.accept_invalid_certs,
            address: self.address,
        }
    }
}

impl DialPlan {
    /// The URL of the session.
    pub open spec fn spec_url(self) -> Seq<char> {
        "wss://"@ + self.host@ + self.path_and_query@
    }

    /// The URL of the session.
    pub fn url(&self) -> (r: String)
        ensures
            r@ == self.spec_url(),
    {
        let mut out = "wss://".to_owned();
        out.append(self.host.as_str());
        out.append(self.path_and_query.as_str());
        out
    }
}

/// The host of the subscription backend in a region.
pub open spec fn subscription_host(region: AzureApiRegionIdentifier) -> Seq<char> {
    region.spec_value() + ".tts.speech.microsoft.com"@
}

/// How the Edge backend is dialed.
pub open spec fn edge_plan(connection_id: Seq<char>, key: Seq<char>, address: Option<[u8; 4]>) -> PlanView {
    PlanView {
        host: "speech.platform.bing.com"@,
        path_and_query: "/consumer/speech/synthesize/readaloud/edge/v1?TrustedClientToken="@
            + token_text() + "&ConnectionId="@ + connection_id,
        headers: seq![
            ("Cache-Control"@, "no-cache"@),
            ("Pragma"@, "no-cache"@),
            ("Accept"@, "*/*"@),
            ("Accept-Encoding"@, "gzip, deflate, br"@),
            ("Accept-Language"@, "zh-CN,zh;q=0.9,en;q=0.8,en-GB;q=0.7,en-US;q=0.6"@),
            ("User-Agent"@, "Mozilla/5.0 (Windows NT 10.0; Win64; x64) AppleWebKit/537.36 (KHTML, like Gecko) Chrome/102.0.5005.63 Safari/537.36 Edg/102.0.1245.39"@),
            ("Origin"@, "chrome-extension://jdiccldimpdaibmpdkjnbmckianbfold"@),
            ("Host"@, "speech.platform.bing.com"@),
            ("Connection"@, "Upgrade"@),
            ("Upgrade"@, "websocket"@),
            ("Sec-WebSocket-Version"@, "13"@),
            ("Sec-WebSocket-Key"@, key),
            ("Sec-webSocket-Extension"@, "permessage-deflate; client_max_window_bits"@),
        ],
        use_sni: false,
        accept_invalid_certs: true,
        address,
    }
}

/// How the preview backend is dialed.
pub open spec fn preview_plan(connection_id: Seq<char>, key: Seq<char>) -> PlanView {
    PlanView {
        host: "eastus.api.speech.microsoft.com"@,
        path_and_query: "/cognitiveservices/websocket/v1?TrafficType=AzureDemo&Authorization=bearer%20undefined&X-ConnectionId="@
            + connection_id,
        headers: seq![
            ("Cache-Control"@, "no-cache"@),
            ("Pragma"@, "no-cache"@),
            ("Accept"@, "*/*"@),
            ("Accept-Encoding"@, "gzip, deflate, br"@),
            ("Accept-Language"@, "zh-CN,zh;q=0.9,en;q=0.8,en-GB;q=0.7,en-US;q=0.6"@),
            ("User-Agent"@, "Mozilla/5.0 (Windows NT 10.0; Win64; x64) AppleWebKit/537.36 (KHTML, like Gecko) Chrome/107.0.0.0 Safari/537.36 Edg/107.0.1379.1"@),
            ("Host"@, "eastus.api.speech.microsoft.com"@),
            ("Connection"@, "Upgrade"@),
            ("Upgrade"@, "websocket"@),
            ("Sec-WebSocket-Version"@, "13"@),
            ("Sec-WebSocket-Key"@, key),
            ("Sec-webSocket-Extension"@, "permessage-deflate; client_max_window_bits"@),
        ],
        use_sni: false,
        accept_invalid_certs: false,
        address: None,
    }
}

/// How the subscription backend is dialed in a region with a bearer token.
pub open spec fn subscription_plan(
    region: AzureApiRegionIdentifier,
    token: Seq<char>,
    connection_id: Seq<char>,
    key: Seq<char>,
) -> PlanView {
    PlanView {
        host: subscription_host(region),
        path_and_query: "/cognitiveservices/websocket/v1?Authorization=bearer%20"@ + token
            + "&X-ConnectionId="@ + connection_id,
        headers: seq![
            ("Accept-Encoding"@, "gzip, deflate, br"@),
            ("Accept-Language"@, "zh-CN,zh;q=0.9,en;q=0.8,en-GB;q=0.7,en-US;q=0.6"@),
            ("Cache-Control"@, "no-cache"@),
            ("Connection"@, "Upgrade"@),
            ("Host"@, subscription_host(region)),
            ("Pragma"@, "no-cache"@),
            ("Sec-webSocket-Extension"@, "permessage-deflate; client_max_window_bits"@),
            ("Sec-WebSocket-Key"@, key),
            ("Sec-WebSocket-Version"@, "13"@),
            ("Upgrade"@, "websocket"@),
            ("User-Agent"@, "Mozilla/5.0 (Windows NT 10.0; Win64; x64) AppleWebKit/537.36 (KHTML, like Gecko) Chrome/107.0.0.0 Safari/537.36 Edg/107.0.1379.1"@),
        ],
        use_sni: true,
        accept_invalid_certs: true,
        address: None,
    }
}

/// Plans the dial of the Edge backend for a connection identifier, a
/// handshake key and the address picked.
pub fn edge_plan_for(connection_id: &str, key: &str, address: Option<[u8; 4]>) -> (r: DialPlan)
    ensures
        r@ == edge_plan(connection_id@, key@, address),
{
    let mut path = "/consumer/speech/synthesize/readaloud/edge/v1?TrustedClientToken=".to_owned();
    path.append("6A5AA1D4EAFF4E9FB37E23D68491D6F4");
    path.append("&ConnectionId=");
    path.append(connection_id);
    let mut headers: Vec<(String, String)> = Vec::new();
    headers.push(("Cache-Control".to_owned(), "no-cache".to_owned()));
    headers.push(("Pragma".to_owned(), "no-cache".to_owned()));
    headers.push(("Accept".to_owned(), "*/*".to_owned()));
    headers.push(("Accept-Encoding".to_owned(), "gzip, deflate, br".to_owned()));
    headers.push(("Accept-Language".to_owned(), "zh-CN,zh;q=0.9,en;q=0.8,en-GB;q=0.7,en-US;q=0.6".to_owned()));
    headers.push(("User-Agent".to_owned(), "Mozilla/5.0 (Windows NT 10.0; Win64; x64) AppleWebKit/537.36 (KHTML, like Gecko) Chrome/102.0.5005.63 Safari/537.36 Edg/102.0.1245.39".to_owned()));
    headers.push(("Origin".to_owned(), "chrome-extension://jdiccldimpdaibmpdkjnbmckianbfold".to_owned()));
    headers.push(("Host".to_owned(), "speech.platform.bing.com".to_owned()));
    headers.push(("Connection".to_owned(), "Upgrade".to_owned()));
    headers.push(("Upgrade".to_owned(), "websocket".to_owned()));
    headers.push(("Sec-WebSocket-Version".to_owned(), "13".to_owned()));
    headers.push(("Sec-WebSocket-Key".to_owned(), key.to_owned()));
    headers.push(("Sec-webSocket-Extension".to_owned(), "permessage-deflate; client_max_window_bits".to_owned()));
    assert(header_views(headers@) =~= edge_plan(connection_id@, key@, address).headers);
    DialPlan {
        host: "speech.platform.bing.com".to_owned(),
        path_and_query: path,
        headers,
        use_sni: false,
        accept_invalid_certs: true,
        address,
    }
}

/// Plans the dial of the preview backend.
pub fn preview_plan_for(connection_id: &str, key: &str) -> (r: DialPlan)
    ensures
        r@ == preview_plan(connection_id@, key@),
{
    let mut path = "/cognitiveservices/websocket/v1?TrafficType=AzureDemo&Authorization=bearer%20undefined&X-ConnectionId=".to_owned();
    path.append(connection_id);
    let mut headers: Vec<(String, String)> = Vec::new();
    headers.push(("Cache-Control".to_owned(), "no-cache".to_owned()));
    headers.push(("Pragma".to_owned(), "no-cache".to_owned()));
    headers.push(("Accept".to_owned(), "*/*".to_owned()));
    headers.push(("Accept-Encoding".to_owned(), "gzip, deflate, br".to_owned()));
    headers.push(("Accept-Language".to_owned(), "zh-CN,zh;q=0.9,en;q=0.8,en-GB;q=0.7,en-US;q=0.6".to_owned()));
    headers.push(("User-Agent".to_owned(), "Mozilla/5.0 (Windows NT 10.0; Win64; x64) AppleWebKit/537.36 (KHTML, like Gecko) Chrome/107.0.0.0 Safari/537.36 Edg/107.0.1379.1".to_owned()));
    headers.push(("Host".to_owned(), "eastus.api.speech.microsoft.com".to_owned()));
    headers.push(("Connection".to_owned(), "Upgrade".to_owned()));
    headers.push(("Upgrade".to_owned(), "websocket".to_owned()));
    headers.push(("Sec-WebSocket-Version".to_owned(), "13".to_owned()));
    headers.push(("Sec-WebSocket-Key".to_owned(), key.to_owned()));
    headers.push(("Sec-webSocket-Extension".to_owned(), "permessage-deflate; client_max_window_bits".to_owned()));
    assert(header_views(headers@) =~= preview_plan(connection_id@, key@).headers);
    DialPlan {
        host: "eastus.api.speech.microsoft.com".to_owned(),
        path_and_query: path,
        headers,
        use_sni: false,
        accept_invalid_certs: false,
        address: None,
    }
}

/// Plans the dial of the subscription backend.
pub fn subscription_plan_for(
    region: AzureApiRegionIdentifier,
    token: &str,
    connection_id: &str,
    key: &str,
) -> (r: DialPlan)
    ensures
        r@ == subscription_plan(region, token@, connection_id@, key@),
{
    let mut host = region.value();
    host.append(".tts.speech.microsoft.com");
    let mut path = "/cognitiveservices/websocket/v1?Authorization=bearer%20".to_owned();
    path.append(token);
    path.append("&X-ConnectionId=");
    path.append(connection_id);
    let mut headers: Vec<(String, String)> = Vec::new();
    headers.push(("Accept-Encoding".to_owned(), "gzip, deflate, br".to_owned()));
    headers.push(("Accept-Language".to_owned(), "zh-CN,zh;q=0.9,en;q=0.8,en-GB;q=0.7,en-US;q=0.6".to_owned()));
    headers.push(("Cache-Control".to_owned(), "no-cache".to_owned()));
    headers.push(("Connection".to_owned(), "Upgrade".to_owned()));
    headers.push(("Host".to_owned(), host.as_str().to_owned()));
    headers.push(("Pragma".to_owned(), "no-cache".to_owned()));
    headers.push(("Sec-webSocket-Extension".to_owned(), "permessage-deflate; client_max_window_bits".to_owned()));
    headers.push(("Sec-WebSocket-Key".to_owned(), key.to_owned()));
    headers.push(("Sec-WebSocket-Version".to_owned(), "13".to_owned()));
    headers.push(("Upgrade".to_owned(), "websocket".to_owned()));
    headers.push(("User-Agent".to_owned(), "Mozilla/5.0 (Windows NT 10.0; Win64; x64) AppleWebKit/537.36 (KHTML, like Gecko) Chrome/107.0.0.0 Safari/537.36 Edg/107.0.1379.1".to_owned()));
    assert(header_views(headers@) =~= subscription_plan(
        region,
        token@,
        connection_id@,
        key@,
    ).headers);
    DialPlan {
        host,
        path_and_query: path,
        headers,
        use_sni: true,
        accept_invalid_certs: true,
        address: None,
    }
}

/// `generate_key` of the `tungstenite` crate: a fresh random value for the
/// header `Sec-WebSocket-Key`. Nothing is promised of it.
#[verifier::external_body]
fn websocket_key() -> (r: String) {
    tokio_tungstenite::tungstenite::handshake::client::generate_key()
}

/// Plans a dial of the Edge backend in an area, with a fresh connection
/// identifier and handshake key.
pub fn plan_edge_dial(area: ServerArea) -> (r: DialPlan)
    ensures
        exists|connection_id: Seq<char>, key: Seq<char>|
            {
                &&& connection_id.len() == CONNECTION_ID_LEN
                &&& is_id_text(connection_id)
                &&& #[trigger] edge_plan(connection_id, key, r.address) == r@
            },
        r.address is None <==> area == ServerArea::Default,
        r.address matches Some(address) ==> servers_of(area).contains(address),
{
    let connection_id = random_string(CONNECTION_ID_LEN);
    let key = websocket_key();
    let address = select_server(area);
    edge_plan_for(connection_id.as_str(), key.as_str(), address)
}

/// Plans a dial of the preview backend, with a fresh connection identifier
/// and handshake key.
pub fn plan_preview_dial() -> (r: DialPlan)
    ensures
        exists|connection_id: Seq<char>, key: Seq<char>|
            {
                &&& connection_id.len() == CONNECTION_ID_LEN
                &&& is_id_text(connection_id)
                &&& #[trigger] preview_plan(connection_id, key) == r@
            },
{
    let connection_id = random_string(CONNECTION_ID_LEN);
    let key = websocket_key();
    preview_plan_for(connection_id.as_str(), key.as_str())
}

/// Plans a dial of the subscription backend in a region with a bearer
/// token, with a fresh connection identifier and handshake key.
pub fn plan_subscription_dial(region: AzureApiRegionIdentifier, token: &str) -> (r: DialPlan)
    ensures
        exists|connection_id: Seq<char>, key: Seq<char>|
            {
                &&& connection_id.len() == CONNECTION_ID_LEN
                &&& is_id_text(connection_id)
                &&& #[trigger] subscription_plan(region, token@, connection_id, key) == r@
            },
{
    let connection_id = random_string(CONNECTION_ID_LEN);
    let key = websocket_key();
    subscription_plan_for(region, token, connection_id.as_str(), key.as_str())
}

} // verus!
