//! The errors of the service.

use vstd::prelude::*;
use vstd::string::StringExecFns;

verus! {

/// What can go wrong in the service.
#[derive(Debug)]
pub enum TTSServerError {
    /// The program met a state it cannot handle.
    ProgramError(String),
    /// A call to an upstream service failed.
    ThirdPartyApiCallFailed(String),
}

/// The mathematical value of a `TTSServerError`.
pub enum ErrorView {
    ProgramError(Seq<char>),
    ThirdPartyApiCallFailed(Seq<char>),
}

impl View for TTSServerError {
    type V = ErrorView;

    open spec fn view(&self) -> ErrorView {
        match self {
            TTSServerError::ProgramError(detail) => ErrorView::ProgramError(detail@),
            TTSServerError::ThirdPartyApiCallFailed(detail) => ErrorView::ThirdPartyApiCallFailed(
                detail@,
            ),
        }
    }
}

impl TTSServerError {
    /// The text of the error: a phrase for its kind, then its detail.
    pub open spec fn spec_message(self) -> Seq<char> {
        match self {
            TTSServerError::ProgramError(detail) => "Program unexpected error! "@ + detail@,
            TTSServerError::ThirdPartyApiCallFailed(detail) => "3rd party api call failed! "@
                + detail@,
        }
    }

    /// The text of the error.
    pub fn message(&self) -> (r: String)
        ensures
            r@ == self.spec_message(),
    {
        match self {
            TTSServerError::ProgramError(detail) => {
                let mut out = "Program unexpected error! ".to_owned();
                out.append(detail.as_str());
                out
            },
            TTSServerError::ThirdPartyApiCallFailed(detail) => {
                let mut out = "3rd party api call failed! ".to_owned();
                out.append(detail.as_str());
                out
            },
        }
    }
}

} // verus!
