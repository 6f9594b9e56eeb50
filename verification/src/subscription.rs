//! Subscription credentials: how they are written in the configuration, the
//! key under which the pool files them, and the bearer token that each one
//! holds for a while.

use crate::clock::utc_seconds;
use crate::error::{ErrorView, TTSServerError};
use crate::region::{region_named, AzureApiRegionIdentifier};
use crate::text::{hex_digits, lower_hex, opt_text, utf8_text};
use std::collections::hash_map::DefaultHasher;
use std::hash::Hasher;
use vstd::prelude::*;
use vstd::std_specs::hash::DefaultHasherAdditionalSpecFns;
use vstd::string::StringSliceAdditionalSpecFns;
use vstd::utf8::{decode_utf8, encode_utf8, encode_utf8_decode_utf8, valid_utf8};

verus! {

/// A subscription key with the region it belongs to.
#[derive(Debug)]
pub struct AzureSubscribeKey(pub String, pub AzureApiRegionIdentifier);

/// What the hasher is fed for a credential: the key and the region tag, each
/// closed by the byte `0xff`.
pub open spec fn credential_stream(key: Seq<char>, region: Seq<char>) -> Seq<Seq<u8>> {
    seq![encode_utf8(key), seq![255u8], encode_utf8(region), seq![255u8]]
}

/// The key under which the pool files a credential: the hash of the
/// subscription key and the region tag, in lower-case hexadecimal.
pub open spec fn credential_hash(key: Seq<char>, region: AzureApiRegionIdentifier) -> Seq<char> {
    hex_digits(DefaultHasher::spec_finish(credential_stream(key, region.spec_value())) as nat)
}

/// Exactly one comma stands in the entry.
pub open spec fn has_one_comma(entry: Seq<char>) -> bool {
    match entry.index_of_first(',') {
        None => false,
        Some(i) => !entry.subrange(i + 1, entry.len() as int).contains(','),
    }
}

/// The credential that a configuration entry writes down: a key and a
/// region tag with exactly one comma between them.
pub open spec fn credential_of(entry: Seq<char>) -> Option<(Seq<char>, AzureApiRegionIdentifier)> {
    match entry.index_of_first(',') {
        None => None,
        Some(i) => {
            let tail = entry.subrange(i + 1, entry.len() as int);
            if tail.contains(',') {
                None
            } else {
                match region_named(tail) {
                    Some(region) => Some((entry.subrange(0, i), region)),
                    None => None,
                }
            }
        },
    }
}

/// The credentials that a list of configuration entries writes down, in
/// their order; an entry that writes none is passed over.
pub open spec fn credentials_of(entries: Seq<String>) -> Seq<(Seq<char>, AzureApiRegionIdentifier)>
    decreases entries.len(),
{
    if entries.len() == 0 {
        Seq::empty()
    } else {
        let before = credentials_of(entries.drop_last());
        match credential_of(entries.last()@) {
            Some(c) => before.push(c),
            None => before,
        }
    }
}

impl View for AzureSubscribeKey {
    type V = (Seq<char>, AzureApiRegionIdentifier);

    open spec fn view(&self) -> (Seq<char>, AzureApiRegionIdentifier) {
        (self.0@, self.1)
    }
}

/// The values of a list of credentials.
pub open spec fn credential_views(keys: Seq<AzureSubscribeKey>) -> Seq<
    (Seq<char>, AzureApiRegionIdentifier),
> {
    Seq::new(keys.len(), |i: int| keys[i]@)
}

fn hash_text(key: &str, region: &str) -> (r: String)
    ensures
        r@ == hex_digits(
            DefaultHasher::spec_finish(credential_stream(key@, region@)) as nat,
        ),
{
    let end: [u8; 1] = [255u8];
    let mut hasher = DefaultHasher::new();
    hasher.write(key.as_bytes());
    hasher.write(end.as_slice());
    hasher.write(region.as_bytes());
    hasher.write(end.as_slice());
    assert(end@ =~= seq![255u8]);
    assert(hasher@ =~= credential_stream(key@, region@));
    lower_hex(hasher.finish())
}

impl AzureSubscribeKey {
    /// The key under which the pool files this credential.
    pub fn hash_str(&self) -> (r: String)
        ensures
            r@ == credential_hash(self.0@, self.1),
    {
        let region = self.1.value();
        hash_text(self.0.as_str(), region.as_str())
    }

    /// Reads one configuration entry, `key,region`.
    pub fn try_from(value: &str) -> (r: Result<Self, TTSServerError>)
        ensures
            match r {
                Ok(key) => credential_of(value@) == Some(key@),
                Err(e) => {
                    &&& credential_of(value@) is None
                    &&& e matches TTSServerError::ProgramError(detail) && detail@ == if has_one_comma(
                        value@,
                    ) {
                        "解析地域标签错误"@
                    } else {
                        "错误的订阅字符串, 请检查订阅key参数是否符合要求"@
                    }
                },
            },
    {
        let n: usize = value.unicode_len();
        let mut i: usize = 0;
        while i < n && value.get_char(i) != ','
            invariant
                n == value@.len(),
                i <= n,
                forall|k: int| 0 <= k < i ==> value@[k] != ',',
            decreases n - i,
        {
            i += 1;
        }
        proof {
            value@.index_of_first_ensures(',');
            if i < n {
                assert(value@.contains(','));
            }
        }
        if i == n {
            return Err(
                TTSServerError::ProgramError(
                    "错误的订阅字符串, 请检查订阅key参数是否符合要求".to_owned(),
                ),
            );
        }
        assert(value@.index_of_first(',') == Some(i as int));
        let ghost tail = value@.subrange(i + 1, n as int);
        let mut j: usize = i + 1;
        while j < n
            invariant
                n == value@.len(),
                i < j <= n,
                value@.index_of_first(',') == Some(i as int),
                tail == value@.subrange(i + 1, n as int),
                forall|k: int| i < k < j ==> value@[k] != ',',
            decreases n - j,
        {
            if value.get_char(j) == ',' {
                assert(tail[j - i - 1] == ',');
                return Err(
                    TTSServerError::ProgramError(
                        "错误的订阅字符串, 请检查订阅key参数是否符合要求".to_owned(),
                    ),
                );
            }
            j += 1;
        }
        assert(!tail.contains(',')) by {
            if tail.contains(',') {
                let k = choose|k: int| 0 <= k < tail.len() && tail[k] == ',';
                assert(value@[k + i + 1] == ',');
            }
        }
        let key = value.substring_char(0, i).to_owned();
        let region_tag = value.substring_char(i + 1, n);
        match AzureApiRegionIdentifier::from(region_tag) {
            Ok(region) => Ok(AzureSubscribeKey(key, region)),
            Err(e) => Err(e),
        }
    }

    /// Reads the configured credentials. Entries that do not read as
    /// `key,region` with a known region are passed over.
    pub fn from(list: &Vec<String>) -> (r: Vec<Self>)
        ensures
            credential_views(r@) == credentials_of(list@),
    {
        let mut k_list: Vec<AzureSubscribeKey> = Vec::new();
        let mut i: usize = 0;
        assert(list@.take(0) =~= Seq::<String>::empty());
        assert(credential_views(k_list@) =~= credentials_of(list@.take(0)));
        while i < list.len()
            invariant
                i <= list@.len(),
                credential_views(k_list@) == credentials_of(list@.take(i as int)),
            decreases list@.len() - i,
        {
            let ghost before = k_list@;
            let item = AzureSubscribeKey::try_from(list[i].as_str());
            assert(list@.take(i + 1).drop_last() =~= list@.take(i as int));
            assert(list@.take(i + 1).last() == list@[i as int]);
            if let Ok(d) = item {
                k_list.push(d);
                assert(credential_views(k_list@) =~= credential_views(before).push(d@));
            }
            i += 1;
        }
        assert(list@.take(list@.len() as int) =~= list@);
        k_list
    }
}

/// How long a bearer token is used, in seconds: eight minutes.
pub const EXPIRED_TIME_SECONDS: i64 = 480;

/// One credential of the subscription backend with the bearer token it
/// holds at the moment.
#[derive(Debug)]
pub struct AzureApiSubscribeToken {
    region_identifier: AzureApiRegionIdentifier,
    subscription_key: String,
    oauth_token: Option<String>,
    oauth_get_time: i64,
}

/// The mathematical value of an `AzureApiSubscribeToken`.
pub struct TokenView {
    pub region: AzureApiRegionIdentifier,
    pub key: Seq<char>,
    pub token: Option<Seq<char>>,
    pub issued_at: int,
}

impl View for AzureApiSubscribeToken {
    type V = TokenView;

    closed spec fn view(&self) -> TokenView {
        TokenView {
            region: self.region_identifier,
            key: self.subscription_key@,
            token: match self.oauth_token {
                Some(t) => Some(t@),
                None => None,
            },
            issued_at: self.oauth_get_time as int,
        }
    }
}

/// A token issued at `issued_at` is too old at `now`: eight minutes or more have passed.
pub open spec fn token_expired(issued_at: int, now: int) -> bool {
    now - issued_at >= EXPIRED_TIME_SECONDS
}

/// The token that may be used at `now`: the one held, unless it is too old.
pub open spec fn usable_token(state: TokenView, now: int) -> Option<Seq<char>> {
    if token_expired(state.issued_at, now) {
        None
    } else {
        state.token
    }
}

/// The address at which a token is issued for a region.
pub open spec fn issue_token_url_text(region: AzureApiRegionIdentifier) -> Seq<char> {
    "https://"@ + region.spec_value() + ".api.cognitive.microsoft.com/sts/v1.0/issueToken"@
}

/// The address at which the voices of a region are listed.
pub open spec fn voices_list_url_text(region: AzureApiRegionIdentifier) -> Seq<char> {
    "https://"@ + region.spec_value() + ".tts.speech.microsoft.com/cognitiveservices/voices/list"@
}

impl AzureApiSubscribeToken {
    /// A credential that holds no token yet.
    pub fn new(region: AzureApiRegionIdentifier, subscription_key: &str) -> (r: Self)
        ensures
            r@ == (TokenView { region, key: subscription_key@, token: None, issued_at: 0 }),
    {
        AzureApiSubscribeToken {
            region_identifier: region,
            subscription_key: subscription_key.to_owned(),
            oauth_token: None,
            oauth_get_time: 0,
        }
    }

    /// The credential of a configured key, without a token yet.
    pub fn new_from_subscribe_key(data: &AzureSubscribeKey) -> (r: Self)
        ensures
            r@ == (TokenView { region: data.1, key: data.0@, token: None, issued_at: 0 }),
    {
        Self::new(data.1, data.0.as_str())
    }

    /// The key under which the pool files this credential.
    pub fn hash_str(&self) -> (r: String)
        ensures
            r@ == credential_hash(self@.key, self@.region),
    {
        let region = self.region_identifier.value();
        hash_text(self.subscription_key.as_str(), region.as_str())
    }

    /// The subscription key.
    pub fn get_subscription_key(&self) -> (r: String)
        ensures
            r@ == self@.key,
    {
        self.subscription_key.clone()
    }

    /// The region.
    pub fn get_region_identifier(&self) -> (r: AzureApiRegionIdentifier)
        ensures
            r == self@.region,
    {
        self.region_identifier
    }

    /// Whether the token held is too old at `now`, in seconds since the epoch.
    pub fn is_expired(&self, now: i64) -> (r: bool)
        ensures
            r == token_expired(self@.issued_at, now as int),
    {
        now as i128 - self.oauth_get_time as i128 >= EXPIRED_TIME_SECONDS as i128
    }

    /// Whether no token is held.
    pub fn token_is_none(&self) -> (r: bool)
        ensures
            r == (self@.token is None),
    {
        self.oauth_token.is_none()
    }

    /// Takes a token that was issued at `now`.
    pub fn set_new_token(&mut self, token: String, now: i64)
        ensures
            final(self)@ == (TokenView { token: Some(token@), issued_at: now as int, ..old(self)@ }),
    {
        self.oauth_token = Some(token);
        self.oauth_get_time = now;
    }

    /// The token to dial with at `now`: the one held if it is not too old.
    /// Where there is none, a new one has to be issued first.
    pub fn get_oauth_token(&self, now: i64) -> (r: Option<String>)
        ensures
            opt_text(r) == usable_token(self@, now as int),
    {
        if self.is_expired(now) {
            None
        } else {
            match &self.oauth_token {
                Some(token) => Some(token.clone()),
                None => None,
            }
        }
    }

    /// The token to dial with at the time of the call.
    pub fn current_oauth_token(&self) -> (r: Option<String>)
        ensures
            exists|now: int| opt_text(r) == #[trigger] usable_token(self@, now),
    {
        let now = utc_seconds();
        let token = self.get_oauth_token(now);
        assert(opt_text(token) == usable_token(self@, now as int));
        token
    }

    /// Takes a token that was issued just now.
    pub fn renew_token(&mut self, token: String)
        ensures
            final(self)@.token == Some(token@),
            final(self)@.region == old(self)@.region,
            final(self)@.key == old(self)@.key,
            usable_token(final(self)@, final(self)@.issued_at) == Some(token@),
    {
        let now = utc_seconds();
        self.set_new_token(token, now);
    }

    /// The address at which a token is issued for this credential.
    pub fn issue_token_url(&self) -> (r: String)
        ensures
            r@ == issue_token_url_text(self@.region),
    {
        let mut out = "https://".to_owned();
        out.append(self.region_identifier.value().as_str());
        out.append(".api.cognitive.microsoft.com/sts/v1.0/issueToken");
        out
    }

    /// The address at which the voices of this credential's region are listed.
    pub fn voices_list_url(&self) -> (r: String)
        ensures
            r@ == voices_list_url_text(self@.region),
    {
        let mut out = "https://".to_owned();
        out.append(self.region_identifier.value().as_str());
        out.append(".tts.speech.microsoft.com/cognitiveservices/voices/list");
        out
    }
}

/// What the answer of the token service means: status 200 with a body in
/// UTF-8 gives the token; status 401 says the key has no permission; any
/// other status is a failure of the service.
pub open spec fn token_answer(status: u16, body: Seq<u8>) -> Result<Seq<char>, ErrorView> {
    if status == 200 {
        if valid_utf8(body) {
            Ok(decode_utf8(body))
        } else {
            Err(ErrorView::ProgramError("Binary to string error!"@))
        }
    } else if status == 401 {
        Err(ErrorView::ThirdPartyApiCallFailed("Call without permission!"@))
    } else {
        Err(ErrorView::ThirdPartyApiCallFailed("Third-party interface corresponding error"@))
    }
}

/// Reads the answer of the token service.
pub fn read_token_answer(status: u16, body: Vec<u8>) -> (r: Result<String, TTSServerError>)
    ensures
        match r {
            Ok(token) => token_answer(status, body@) == Ok::<Seq<char>, ErrorView>(token@),
            Err(e) => token_answer(status, body@) == Err::<Seq<char>, ErrorView>(e@),
        },
{
    if status == 200 {
        let ghost bytes = body@;
        match utf8_text(body) {
            Some(token) => {
                proof {
                    encode_utf8_decode_utf8(token@);
                }
                Ok(token)
            },
            None => Err(TTSServerError::ProgramError("Binary to string error!".to_owned())),
        }
    } else if status == 401 {
        Err(TTSServerError::ThirdPartyApiCallFailed("Call without permission!".to_owned()))
    } else {
        Err(
            TTSServerError::ThirdPartyApiCallFailed(
                "Third-party interface corresponding error".to_owned(),
            ),
        )
    }
}

/// What the status of a voice list answer means: only 200 brings a list.
pub open spec fn voices_answer(status: u16) -> Result<(), ErrorView> {
    if status == 200 {
        Ok(())
    } else {
        Err(ErrorView::ThirdPartyApiCallFailed("Third-party interface corresponding error"@))
    }
}

/// Reads the status of a voice list answer.
pub fn read_voices_status(status: u16) -> (r: Result<(), TTSServerError>)
    ensures
        match r {
            Ok(_) => voices_answer(status) == Ok::<(), ErrorView>(()),
            Err(e) => voices_answer(status) == Err::<(), ErrorView>(e@),
        },
{
    if status == 200 {
        Ok(())
    } else {
        Err(
            TTSServerError::ThirdPartyApiCallFailed(
                "Third-party interface corresponding error".to_owned(),
            ),
        )
    }
}

} // verus!
