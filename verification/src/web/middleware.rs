//! Who may call the subscription interface, and how an error of a handler
//! is put into the envelope.

use crate::text::{cut, cut_at, lowercased, opt_text, str_eq, to_lowercase, utf8_text};
use crate::utils::bytes_eq;
use crate::web::controller::MsTtsMsgRequestJson;
use crate::web::error::ControllerError;
use crate::web::vo::{BaseResponse, EmptyVO, HttpStatus};
use vstd::prelude::*;
use vstd::string::StringSliceAdditionalSpecFns;
use vstd::utf8::{decode_utf8, encode_utf8_decode_utf8, valid_utf8};

verus! {

/// A request body that may carry the caller's token.
pub trait AuthTokenValue {
    fn get_token(&self) -> Option<&str>;
}

impl AuthTokenValue for MsTtsMsgRequestJson {
    fn get_token(&self) -> (r: Option<&str>)
        ensures
            match r {
                Some(token) => opt_text(self.token) == Some(token@),
                None => self.token is None,
            },
    {
        match &self.token {
            Some(token) => Some(token.as_str()),
            None => None,
        }
    }
}

/// The token that a query string carries: the value of its first `token`
/// entry, read up to a second `=`. Entries are parted by `&`, key and
/// value by `=`; without such an entry, or where it has no value, the
/// token is empty.
pub open spec fn query_token_text(query: Seq<char>) -> Seq<char>
    decreases query.len(),
{
    let end = cut(query, '&');
    let item = query.subrange(0, end);
    let eq = cut(item, '=');
    if item.subrange(0, eq) == "token"@ {
        if eq == item.len() {
            Seq::empty()
        } else {
            let tail = item.subrange(eq + 1, item.len() as int);
            tail.subrange(0, cut(tail, '='))
        }
    } else if 0 <= end < query.len() {
        query_token_text(query.subrange(end + 1, query.len() as int))
    } else {
        Seq::empty()
    }
}

/// Reads the token out of a query string.
pub fn query_token(query: &str) -> (r: String)
    ensures
        r@ == query_token_text(query@),
    decreases query@.len(),
{
    let n: usize = query.unicode_len();
    let end: usize = cut_at(query, '&');
    let item = query.substring_char(0, end);
    let eq: usize = cut_at(item, '=');
    let key = item.substring_char(0, eq);
    if str_eq(key, "token") {
        if eq == end {
            String::new()
        } else {
            let tail = item.substring_char(eq + 1, end);
            let stop: usize = cut_at(tail, '=');
            tail.substring_char(0, stop).to_owned()
        }
    } else if end < n {
        query_token(query.substring_char(end + 1, n))
    } else {
        String::new()
    }
}

/// What is known of a caller before the body is read.
#[derive(Debug, Clone, Copy, PartialEq, Eq, Structural)]
pub enum TokenCheck {
    /// The token of the query or of the header is right: let the call pass.
    Pass,
    /// Neither is right, but the call is a POST: its body may carry the token.
    ReadBody,
    /// Neither is right and there is no body to look into: refuse.
    Refuse,
}

/// The check of the query and the header. A header that is missing counts
/// as an empty token.
pub open spec fn token_check(
    system_token: Seq<char>,
    query: Seq<char>,
    header_token: Option<Seq<char>>,
    method: Seq<char>,
) -> TokenCheck {
    let header = match header_token {
        Some(token) => token,
        None => Seq::empty(),
    };
    if system_token == query_token_text(query) || system_token == header {
        TokenCheck::Pass
    } else if method == "POST"@ {
        TokenCheck::ReadBody
    } else {
        TokenCheck::Refuse
    }
}

/// Checks the token of the query and of the header against the one configured.
pub fn check_token(system_token: &str, query: &str, header_token: Option<&str>, method: &str) -> (r:
    TokenCheck)
    ensures
        r == token_check(
            system_token@,
            query@,
            match header_token {
                Some(token) => Some(token@),
                None => None,
            },
            method@,
        ),
{
    let from_query = query_token(query);
    if str_eq(system_token, from_query.as_str()) {
        return TokenCheck::Pass;
    }
    let header = match header_token {
        Some(token) => token,
        None => "",
    };
    proof {
        reveal_strlit("");
        assert(""@ =~= Seq::<char>::empty());
    }
    if str_eq(system_token, header) {
        TokenCheck::Pass
    } else if str_eq(method, "POST") {
        TokenCheck::ReadBody
    } else {
        TokenCheck::Refuse
    }
}

/// The answer to a caller whose token is wrong.
pub open spec fn wrong_token() -> (int, Seq<char>) {
    (403, "Token 错误，无法进行调用"@)
}

/// The answer to a caller whose body could not be read for a token.
pub open spec fn unreadable_token() -> (int, Seq<char>) {
    (500, "解析请求中的 Token 错误"@)
}

/// The check of the body: `None` stands for a body that could not be read,
/// `Some(None)` for one that carries no token.
pub open spec fn body_token_check(system_token: Seq<char>, body_token: Option<Option<Seq<char>>>) -> Result<
    (),
    (int, Seq<char>),
> {
    match body_token {
        Some(Some(token)) => if token == system_token {
            Ok(())
        } else {
            Err(wrong_token())
        },
        Some(None) => Err(wrong_token()),
        None => Err(unreadable_token()),
    }
}

/// Checks the token that the body of a POST carries.
pub fn check_body_token(system_token: &str, body_token: Option<Option<&str>>) -> (r: Result<
    (),
    ControllerError,
>)
    ensures
        match r {
            Ok(_) => body_token_check(
                system_token@,
                match body_token {
                    Some(Some(token)) => Some(Some(token@)),
                    Some(None) => Some(None),
                    None => None,
                },
            ) is Ok,
            Err(e) => body_token_check(
                system_token@,
                match body_token {
                    Some(Some(token)) => Some(Some(token@)),
                    Some(None) => Some(None),
                    None => None,
                },
            ) == Err::<(), (int, Seq<char>)>((e.code as int, e.msg@)),
        },
{
    match body_token {
        Some(Some(token)) => if str_eq(token, system_token) {
            Ok(())
        } else {
            Err(ControllerError::from_status_code(403, "Token 错误，无法进行调用"))
        },
        Some(None) => Err(ControllerError::from_status_code(403, "Token 错误，无法进行调用")),
        None => Err(ControllerError::from_status_code(500, "解析请求中的 Token 错误")),
    }
}

/// The answer to a caller who is refused before the body is read.
pub fn refuse_token() -> (r: ControllerError)
    ensures
        (r.code as int, r.msg@) == wrong_token(),
{
    ControllerError::from_status_code(403, "Token 错误，无法进行调用")
}

/// Why a body cannot be read as JSON, if it cannot: its declared type,
/// taken in lower case, is not `application/json`, or it is empty.
pub open spec fn body_fault_of(declared: Seq<char>, body: Seq<u8>) -> Option<Seq<char>> {
    if declared != "application/json"@ {
        Some("Content type is not application/json"@)
    } else if body.len() == 0 {
        Some("Empty body received"@)
    } else {
        None
    }
}

/// Why the body of a request cannot be read as JSON, if it cannot. A
/// missing declaration counts as an empty one.
pub open spec fn body_fault(content_type: Option<Seq<char>>, body: Seq<u8>) -> Option<Seq<char>> {
    body_fault_of(
        match content_type {
            Some(text) => lowercased(text),
            None => lowercased(Seq::empty()),
        },
        body,
    )
}

/// Checks a body whose declared type, already in lower case, is given.
pub fn check_declared_body(declared: &str, body: &[u8]) -> (r: Result<(), String>)
    ensures
        match r {
            Ok(_) => body_fault_of(declared@, body@) is None,
            Err(fault) => body_fault_of(declared@, body@) == Some(fault@),
        },
{
    if !str_eq(declared, "application/json") {
        Err("Content type is not application/json".to_owned())
    } else if body.len() == 0 {
        Err("Empty body received".to_owned())
    } else {
        Ok(())
    }
}

/// Checks whether the body of a request can be read as JSON. A missing
/// declaration counts as an empty one.
pub fn check_body(content_type: Option<&str>, body: &[u8]) -> (r: Result<(), String>)
    ensures
        match r {
            Ok(_) => body_fault(
                match content_type {
                    Some(text) => Some(text@),
                    None => None,
                },
                body@,
            ) is None,
            Err(fault) => body_fault(
                match content_type {
                    Some(text) => Some(text@),
                    None => None,
                },
                body@,
            ) == Some(fault@),
        },
{
    proof {
        reveal_strlit("");
        assert(""@ =~= Seq::<char>::empty());
    }
    let declared = match content_type {
        Some(text) => to_lowercase(text),
        None => to_lowercase(""),
    };
    check_declared_body(declared.as_str(), body)
}

/// The status tells of an error of the client or of the server.
pub open spec fn is_error_status(code: u16) -> bool {
    400 <= code < 600
}

/// The words in which an error is reported: the body of the answer if it
/// has one, in place of a body that is not UTF-8 the words `from_utf8
/// error`, and for an empty body the reason phrase of the status.
pub open spec fn error_words(reason: Option<Seq<char>>, body: Seq<u8>) -> Seq<char> {
    let text = if valid_utf8(body) {
        decode_utf8(body)
    } else {
        "from_utf8 error"@
    };
    if text.len() == 0 {
        match reason {
            Some(phrase) => phrase,
            None => Seq::empty(),
        }
    } else {
        text
    }
}

/// Whether the answer of a handler is put into the envelope: it is, if its
/// status tells of an error and its body is plain text or of no declared type.
pub open spec fn is_enveloped(code: u16, content_type: Option<Seq<u8>>) -> bool {
    is_error_status(code) && match content_type {
        Some(declared) => declared == "text/plain; charset=utf-8".spec_bytes(),
        None => true,
    }
}

/// Puts the error of a handler into the envelope, where it belongs there.
/// The envelope keeps the status of the answer.
pub fn error_envelope(status: HttpStatus, content_type: Option<&[u8]>, body: Vec<u8>) -> (r: Option<
    BaseResponse<EmptyVO>,
>)
    ensures
        r is Some <==> is_enveloped(
            status.code,
            match content_type {
                Some(declared) => Some(declared@),
                None => None,
            },
        ),
        r matches Some(envelope) ==> {
            &&& envelope.code == status.code
            &&& envelope.data is None
            &&& opt_text(envelope.msg) == Some(error_words(opt_text(status.reason), body@))
        },
{
    if status.code < 400 || status.code >= 600 {
        return None;
    }
    if let Some(declared) = content_type {
        if !bytes_eq(declared, "text/plain; charset=utf-8".as_bytes()) {
            return None;
        }
    }
    let text = match utf8_text(body) {
        Some(text) => {
            proof {
                encode_utf8_decode_utf8(text@);
            }
            text
        },
        None => "from_utf8 error".to_owned(),
    };
    let words = if text.as_str().unicode_len() == 0 {
        match &status.reason {
            Some(phrase) => phrase.clone(),
            None => String::new(),
        }
    } else {
        text
    };
    Some(BaseResponse::from_error_info(status, words.as_str()))
}

} // verus!
