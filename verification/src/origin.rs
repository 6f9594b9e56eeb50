//! The upstream backends and the names under which the interface offers them.

use crate::error::TTSServerError;
use crate::text::str_eq;
use vstd::prelude::*;

verus! {

/// An upstream speech backend.
#[derive(Clone, Copy, Debug, PartialEq, Eq, Structural)]
pub enum MsApiOrigin {
    /// The free read-aloud service of the Edge browser.
    EdgeFree,
    /// The free preview of the official demonstration page.
    OfficialPreview,
    /// The official service, paid by subscription key.
    Subscription,
}

/// The backend that an interface name stands for, if it stands for one.
pub open spec fn origin_named(name: Seq<char>) -> Option<MsApiOrigin> {
    if name == "ms-tts-edge"@ {
        Some(MsApiOrigin::EdgeFree)
    } else if name == "ms-tts-preview"@ {
        Some(MsApiOrigin::OfficialPreview)
    } else if name == "ms-tts-subscribe"@ {
        Some(MsApiOrigin::Subscription)
    } else {
        None
    }
}

impl MsApiOrigin {
    /// The interface name of the backend.
    pub open spec fn spec_name(self) -> Seq<char> {
        match self {
            MsApiOrigin::EdgeFree => "ms-tts-edge"@,
            MsApiOrigin::OfficialPreview => "ms-tts-preview"@,
            MsApiOrigin::Subscription => "ms-tts-subscribe"@,
        }
    }

    /// Reads an interface name. A name that stands for no backend is refused.
    pub fn try_from(value: String) -> (r: Result<Self, TTSServerError>)
        ensures
            match r {
                Ok(origin) => origin_named(value@) == Some(origin),
                Err(e) => {
                    &&& origin_named(value@) is None
                    &&& e matches TTSServerError::ProgramError(detail) && detail@
                        == "不存在的接口名称"@
                },
            },
    {
        if str_eq(value.as_str(), "ms-tts-edge") {
            Ok(MsApiOrigin::EdgeFree)
        } else if str_eq(value.as_str(), "ms-tts-preview") {
            Ok(MsApiOrigin::OfficialPreview)
        } else if str_eq(value.as_str(), "ms-tts-subscribe") {
            Ok(MsApiOrigin::Subscription)
        } else {
            Err(TTSServerError::ProgramError("不存在的接口名称".to_owned()))
        }
    }

    /// The interface name of the backend.
    pub fn into(self) -> (r: String)
        ensures
            r@ == self.spec_name(),
    {
        match self {
            MsApiOrigin::EdgeFree => "ms-tts-edge".to_owned(),
            MsApiOrigin::OfficialPreview => "ms-tts-preview".to_owned(),
            MsApiOrigin::Subscription => "ms-tts-subscribe".to_owned(),
        }
    }
}

/// Every backend is read back from its own interface name.
pub proof fn lemma_origin_round_trip(origin: MsApiOrigin)
    ensures
        origin_named(origin.spec_name()) == Some(origin),
{
    reveal_strlit("ms-tts-edge");
    reveal_strlit("ms-tts-preview");
    reveal_strlit("ms-tts-subscribe");
    assert("ms-tts-edge"@.len() != "ms-tts-preview"@.len());
    assert("ms-tts-edge"@.len() != "ms-tts-subscribe"@.len());
    assert("ms-tts-preview"@.len() != "ms-tts-subscribe"@.len());
}

} // verus!
