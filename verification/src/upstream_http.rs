//! The requests that are sent over plain HTTP: for the voices of a
//! backend and for the bearer token of a credential.

use crate::dialer::{header_views, token_text};
use crate::region::AzureApiRegionIdentifier;
use crate::subscription::{issue_token_url_text, voices_list_url_text, AzureApiSubscribeToken};
use vstd::prelude::*;
use vstd::string::StringExecFns;

verus! {

/// A request: where it goes and the headers it carries, in order.
#[derive(Debug)]
pub struct RequestPlan {
    pub url: String,
    pub headers: Vec<(String, String)>,
}

/// The mathematical value of a `RequestPlan`.
pub struct RequestView {
    pub url: Seq<char>,
    pub headers: Seq<(Seq<char>, Seq<char>)>,
}

impl View for RequestPlan {
    type V = RequestView;

    open spec fn view(&self) -> RequestView {
        RequestView { url: self.url@, headers: header_views(self.headers@) }
    }
}

/// The request for the voices of the Edge backend.
pub open spec fn edge_voices_request() -> RequestView {
    RequestView {
        url: "https://speech.platform.bing.com/consumer/speech/synthesize/readaloud/voices/list?trustedclienttoken="@
            + token_text(),
        headers: seq![
            ("Host"@, "speech.platform.bing.com"@),
            ("Connection"@, "keep-alive"@),
            ("sec-ch-ua"@, "\"Microsoft Edge\";v=\"107\", \"Chromium\";v=\"107\", \"Not=A?Brand\";v=\"24\""@),
            ("sec-ch-ua-mobile"@, "?0"@),
            ("User-Agent"@, "Mozilla/5.0 (Windows NT 10.0; Win64; x64) AppleWebKit/537.36 (KHTML, like Gecko) Chrome/102.0.5005.63 Safari/537.36 Edg/102.0.1245.39"@),
            ("sec-ch-ua-platform"@, "\"Windows\""@),
            ("Accept"@, "*/*"@),
            ("X-Edge-Shopping-Flag"@, "1"@),
            ("Sec-Fetch-Site"@, "none"@),
            ("Sec-Fetch-Mode"@, "cors"@),
            ("Sec-Fetch-Dest"@, "empty"@),
            ("Accept-Encoding"@, "gzip, deflate, br"@),
            ("Accept-Language"@, "zh-CN,zh;q=0.9,en;q=0.8,en-GB;q=0.7,en-US;q=0.6"@),
        ],
    }
}

/// The request for the voices of the preview backend.
pub open spec fn preview_voices_request() -> RequestView {
    RequestView {
        url: "https://eastus.api.speech.microsoft.com/cognitiveservices/voices/list"@,
        headers: seq![
            ("Host"@, "eastus.api.speech.microsoft.com"@),
            ("Accept"@, "*/*"@),
            ("accept-encoding"@, "gzip, deflate, br"@),
            ("accept-language"@, "zh-CN,zh;q=0.9,en;q=0.8,en-GB;q=0.7,en-US;q=0.6"@),
            ("origin"@, "https://azure.microsoft.com"@),
            ("referer"@, "https://azure.microsoft.com/"@),
            ("sec-ch-ua"@, "\"Microsoft Edge\";v=\"105\", \" Not;A Brand\";v=\"99\", \"Chromium\";v=\"105\""@),
            ("sec-ch-ua-mobile"@, "?0"@),
            ("sec-ch-ua-platform"@, "\"Windows\""@),
            ("sec-fetch-dest"@, "empty"@),
            ("sec-fetch-mode"@, "cors"@),
            ("sec-fetch-site"@, "same-site"@),
            ("user-agent"@, "Mozilla/5.0 (Windows NT 10.0; Win64; x64) AppleWebKit/537.36 (KHTML, like Gecko) Chrome/107.0.0.0 Safari/537.36 Edg/107.0.1379.1"@),
        ],
    }
}

/// The request for the voices of a region, under a bearer token.
pub open spec fn subscription_voices_request(region: AzureApiRegionIdentifier, token: Seq<char>) -> RequestView {
    RequestView {
        url: voices_list_url_text(region),
        headers: seq![
            ("Authorization"@, "Bearer "@ + token),
            ("Host"@, region.spec_value() + ".tts.speech.microsoft.com"@),
            ("Accept"@, "application/json"@),
        ],
    }
}

/// The request, sent by POST with an empty body, that has a bearer token
/// issued for a subscription key.
pub open spec fn token_request(region: AzureApiRegionIdentifier, key: Seq<char>) -> RequestView {
    RequestView {
        url: issue_token_url_text(region),
        headers: seq![
            ("Ocp-Apim-Subscription-Key"@, key),
            ("Host"@, region.spec_value() + ".api.cognitive.microsoft.com"@),
            ("Content-type"@, "application/x-www-form-urlencoded"@),
            ("Content-Length"@, "0"@),
        ],
    }
}

/// Plans the request for the voices of the Edge backend.
pub fn plan_edge_voices() -> (r: RequestPlan)
    ensures
        r@ == edge_voices_request(),
{
    let mut headers: Vec<(String, String)> = Vec::new();
    headers.push(("Host".to_owned(), "speech.platform.bing.com".to_owned()));
    headers.push(("Connection".to_owned(), "keep-alive".to_owned()));
    headers.push(("sec-ch-ua".to_owned(), "\"Microsoft Edge\";v=\"107\", \"Chromium\";v=\"107\", \"Not=A?Brand\";v=\"24\"".to_owned()));
    headers.push(("sec-ch-ua-mobile".to_owned(), "?0".to_owned()));
    headers.push(("User-Agent".to_owned(), "Mozilla/5.0 (Windows NT 10.0; Win64; x64) AppleWebKit/537.36 (KHTML, like Gecko) Chrome/102.0.5005.63 Safari/537.36 Edg/102.0.1245.39".to_owned()));
    headers.push(("sec-ch-ua-platform".to_owned(), "\"Windows\"".to_owned()));
    headers.push(("Accept".to_owned(), "*/*".to_owned()));
    headers.push(("X-Edge-Shopping-Flag".to_owned(), "1".to_owned()));
    headers.push(("Sec-Fetch-Site".to_owned(), "none".to_owned()));
    headers.push(("Sec-Fetch-Mode".to_owned(), "cors".to_owned()));
    headers.push(("Sec-Fetch-Dest".to_owned(), "empty".to_owned()));
    headers.push(("Accept-Encoding".to_owned(), "gzip, deflate, br".to_owned()));
    headers.push(("Accept-Language".to_owned(), "zh-CN,zh;q=0.9,en;q=0.8,en-GB;q=0.7,en-US;q=0.6".to_owned()));
    assert(header_views(headers@) =~= edge_voices_request().headers);
    let mut url = "https://speech.platform.bing.com/consumer/speech/synthesize/readaloud/voices/list?trustedclienttoken=".to_owned();
    url.append("6A5AA1D4EAFF4E9FB37E23D68491D6F4");
    RequestPlan { url, headers }
}

/// Plans the request for the voices of the preview backend.
pub fn plan_preview_voices() -> (r: RequestPlan)
    ensures
        r@ == preview_voices_request(),
{
    let mut headers: Vec<(String, String)> = Vec::new();
    headers.push(("Host".to_owned(), "eastus.api.speech.microsoft.com".to_owned()));
    headers.push(("Accept".to_owned(), "*/*".to_owned()));
    headers.push(("accept-encoding".to_owned(), "gzip, deflate, br".to_owned()));
    headers.push(("accept-language".to_owned(), "zh-CN,zh;q=0.9,en;q=0.8,en-GB;q=0.7,en-US;q=0.6".to_owned()));
    headers.push(("origin".to_owned(), "https://azure.microsoft.com".to_owned()));
    headers.push(("referer".to_owned(), "https://azure.microsoft.com/".to_owned()));
    headers.push(("sec-ch-ua".to_owned(), "\"Microsoft Edge\";v=\"105\", \" Not;A Brand\";v=\"99\", \"Chromium\";v=\"105\"".to_owned()));
    headers.push(("sec-ch-ua-mobile".to_owned(), "?0".to_owned()));
    headers.push(("sec-ch-ua-platform".to_owned(), "\"Windows\"".to_owned()));
    headers.push(("sec-fetch-dest".to_owned(), "empty".to_owned()));
    headers.push(("sec-fetch-mode".to_owned(), "cors".to_owned()));
    headers.push(("sec-fetch-site".to_owned(), "same-site".to_owned()));
    headers.push(("user-agent".to_owned(), "Mozilla/5.0 (Windows NT 10.0; Win64; x64) AppleWebKit/537.36 (KHTML, like Gecko) Chrome/107.0.0.0 Safari/537.36 Edg/107.0.1379.1".to_owned()));
    assert(header_views(headers@) =~= preview_voices_request().headers);
    RequestPlan {
        url: "https://eastus.api.speech.microsoft.com/cognitiveservices/voices/list".to_owned(),
        headers,
    }
}

/// Plans the request for the voices of a credential's region.
pub fn plan_subscription_voices(credential: &AzureApiSubscribeToken, token: &str) -> (r: RequestPlan)
    ensures
        r@ == subscription_voices_request(credential@.region, token@),
{
    let region = credential.get_region_identifier();
    let mut bearer = "Bearer ".to_owned();
    bearer.append(token);
    let mut host = region.value();
    host.append(".tts.speech.microsoft.com");
    let mut headers: Vec<(String, String)> = Vec::new();
    headers.push(("Authorization".to_owned(), bearer));
    headers.push(("Host".to_owned(), host));
    headers.push(("Accept".to_owned(), "application/json".to_owned()));
    assert(header_views(headers@) =~= subscription_voices_request(
        credential@.region,
        token@,
    ).headers);
    RequestPlan { url: credential.voices_list_url(), headers }
}

/// Plans the request that has a bearer token issued for a credential.
pub fn plan_token_request(credential: &AzureApiSubscribeToken) -> (r: RequestPlan)
    ensures
        r@ == token_request(credential@.region, credential@.key),
{
    let region = credential.get_region_identifier();
    let mut host = region.value();
    host.append(".api.cognitive.microsoft.com");
    let mut headers: Vec<(String, String)> = Vec::new();
    headers.push(("Ocp-Apim-Subscription-Key".to_owned(), credential.get_subscription_key()));
    headers.push(("Host".to_owned(), host));
    headers.push(("Content-type".to_owned(), "application/x-www-form-urlencoded".to_owned()));
    headers.push(("Content-Length".to_owned(), "0".to_owned()));
    assert(header_views(headers@) =~= token_request(credential@.region, credential@.key).headers);
    RequestPlan { url: credential.issue_token_url(), headers }
}

} // verus!
