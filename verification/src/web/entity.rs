//! The envelope in which the interface answers with data or with an error.

use vstd::prelude::*;

verus! {

/// An answer of the interface: a code, the data if there is any, a message.
#[derive(Debug)]
pub struct ApiBaseResponse<T> {
    pub code: i32,
    pub data: Option<T>,
    pub msg: String,
}

impl<T> ApiBaseResponse<T> {
    /// The answer that carries data: code 200 and the message `success`.
    pub fn success(data: Option<T>) -> (r: ApiBaseResponse<T>)
        ensures
            r.code == 200,
            r.data == data,
            r.msg@ == "success"@,
    {
        ApiBaseResponse { code: 200, data, msg: "success".to_owned() }
    }

    /// The answer that reports an error: code 500 and no data.
    pub fn error(msg: &str) -> (r: ApiBaseResponse<T>)
        ensures
            r.code == 500,
            r.data is None,
            r.msg@ == msg@,
    {
        ApiBaseResponse { code: 500, data: None, msg: msg.to_owned() }
    }

    /// The answer that reports an error under a given code.
    pub fn error_by_status_code(code: i32, msg: &str) -> (r: ApiBaseResponse<T>)
        ensures
            r.code == code,
            r.data is None,
            r.msg@ == msg@,
    {
        ApiBaseResponse { code, data: None, msg: msg.to_owned() }
    }
}

} // verus!
