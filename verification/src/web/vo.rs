//! The body of an answer together with its HTTP status.

use crate::error::TTSServerError;
use crate::text::opt_text;
use vstd::prelude::*;
use vstd::string::StringExecFns;

verus! {

/// An HTTP status with its reason phrase.
#[derive(Debug, Clone)]
pub struct HttpStatus {
    pub code: u16,
    pub reason: Option<String>,
}

/// The body of an answer: the status code, the content, a message.
#[derive(Debug)]
pub struct BaseResponse<T> {
    /// The HTTP status code.
    pub code: u16,
    /// The content of the answer.
    pub data: Option<T>,
    /// A message, or the description of the error.
    pub msg: Option<String>,
}

/// A body without content.
#[derive(Debug, Clone, Copy)]
pub struct EmptyVO {}

impl HttpStatus {
    /// The status `200 OK`.
    pub fn ok() -> (r: Self)
        ensures
            r.code == 200,
            opt_text(r.reason) == Some("OK"@),
    {
        HttpStatus { code: 200, reason: Some("OK".to_owned()) }
    }

    /// The status `500 Internal Server Error`.
    pub fn internal_server_error() -> (r: Self)
        ensures
            r.code == 500,
            opt_text(r.reason) == Some("Internal Server Error"@),
    {
        HttpStatus { code: 500, reason: Some("Internal Server Error".to_owned()) }
    }
}

impl<T> BaseResponse<T> {
    /// The answer that carries content: status 200 with its reason as message.
    pub fn from(arg: T) -> (r: Self)
        ensures
            r.code == 200,
            r.data == Some(arg),
            opt_text(r.msg) == Some("OK"@),
    {
        let status = HttpStatus::ok();
        BaseResponse { code: status.code, msg: status.reason, data: Some(arg) }
    }

    /// The answer to the outcome of an operation: its content under status
    /// 200, or its error under status 500.
    pub fn from_result(arg: Result<T, TTSServerError>) -> (r: Self)
        ensures
            match arg {
                Ok(data) => r.code == 200 && r.data == Some(data) && opt_text(r.msg) == Some(
                    "OK"@,
                ),
                Err(e) => r.code == 500 && r.data is None && opt_text(r.msg) == Some(
                    "错误信息: "@ + e.spec_message(),
                ),
            },
    {
        match arg {
            Ok(data) => Self::from(data),
            Err(e) => {
                let mut msg = "错误信息: ".to_owned();
                msg.append(e.message().as_str());
                BaseResponse { code: 500, msg: Some(msg), data: None }
            },
        }
    }

    /// The answer that reports an error under a status.
    pub fn from_error(code: HttpStatus, arg: &TTSServerError) -> (r: Self)
        ensures
            r.code == code.code,
            r.data is None,
            opt_text(r.msg) == Some("请求失败, "@ + arg.spec_message()),
    {
        let mut msg = "请求失败, ".to_owned();
        msg.append(arg.message().as_str());
        BaseResponse { code: code.code, msg: Some(msg), data: None }
    }

    /// The answer that reports an error under a status, in the given words.
    pub fn from_error_info(code: HttpStatus, info: &str) -> (r: Self)
        ensures
            r.code == code.code,
            r.data is None,
            opt_text(r.msg) == Some(info@),
    {
        BaseResponse { code: code.code, msg: Some(info.to_owned()), data: None }
    }
}

} // verus!
