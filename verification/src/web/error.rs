//! The error that a request handler reports.

use crate::text::{int_text, int_to_text};
use vstd::prelude::*;
use vstd::string::StringExecFns;

verus! {

/// A failure of a request handler, with the status code it answers with.
#[derive(Debug)]
pub struct ControllerError {
    pub code: i32,
    pub msg: String,
}

impl ControllerError {
    /// A failure that answers with status 500.
    pub fn new(msg: &str) -> (r: Self)
        ensures
            r.code == 500,
            r.msg@ == msg@,
    {
        ControllerError { code: 500, msg: msg.to_owned() }
    }

    /// A failure that answers with the given status.
    pub fn from_status_code(code: i32, msg: &str) -> (r: Self)
        ensures
            r.code == code,
            r.msg@ == msg@,
    {
        ControllerError { code, msg: msg.to_owned() }
    }

    /// The line that describes the failure.
    pub open spec fn spec_to_string(self) -> Seq<char> {
        "Error Code: "@ + int_text(self.code as int) + ", Controller Error: "@ + self.msg@
    }

    /// The line that describes the failure.
    pub fn to_string(&self) -> (r: String)
        ensures
            r@ == self.spec_to_string(),
    {
        let mut out = "Error Code: ".to_owned();
        out.append(int_to_text(self.code).as_str());
        out.append(", Controller Error: ");
        out.append(self.msg.as_str());
        out
    }
}

} // verus!
