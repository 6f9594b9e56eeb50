//! The options of the service that bear on the broker, and what is asked
//! of them at startup.

use crate::subscription::{credential_views, credentials_of, AzureSubscribeKey};
use vstd::prelude::*;

verus! {

/// Where the Edge backend is reached: through its public name, or at one
/// of the addresses kept for a region.
#[derive(Debug, Copy, Clone, PartialEq, Eq, Structural, PartialOrd, Ord)]
pub enum ServerArea {
    Default,
    China,
    ChinaHK,
    ChinaTW,
}

/// Why the service cannot start.
#[derive(Debug, Copy, Clone, PartialEq, Eq, Structural)]
pub enum StartupError {
    /// Every backend is switched off.
    NoApiEnabled,
    /// The subscription backend is on and no credential reads as one.
    NoSubscribeKey,
}

/// The switches that turn backends off.
#[derive(Debug, Copy, Clone, PartialEq, Eq, Structural)]
pub struct ApiSwitches {
    pub close_edge_free_api: bool,
    pub close_official_preview_api: bool,
    pub close_official_subscribe_api: bool,
}

/// What startup makes of the options: the credentials of the subscription
/// backend, or the reason not to start.
pub open spec fn startup_of(switches: ApiSwitches, subscribe_key: Seq<String>) -> Result<
    Seq<(Seq<char>, crate::region::AzureApiRegionIdentifier)>,
    StartupError,
> {
    if switches.close_edge_free_api && switches.close_official_preview_api
        && switches.close_official_subscribe_api {
        Err(StartupError::NoApiEnabled)
    } else if switches.close_official_subscribe_api {
        Ok(Seq::empty())
    } else if credentials_of(subscribe_key).len() == 0 {
        Err(StartupError::NoSubscribeKey)
    } else {
        Ok(credentials_of(subscribe_key))
    }
}

/// Checks the options at startup. At least one backend must be on; if the
/// subscription backend is on, at least one configured entry must read as
/// a credential, and those that do are handed back.
pub fn check_startup(switches: ApiSwitches, subscribe_key: &Vec<String>) -> (r: Result<
    Vec<AzureSubscribeKey>,
    StartupError,
>)
    ensures
        match r {
            Ok(keys) => startup_of(switches, subscribe_key@) == Ok::<_, StartupError>(
                credential_views(keys@),
            ),
            Err(e) => startup_of(switches, subscribe_key@) == Err::<
                Seq<(Seq<char>, crate::region::AzureApiRegionIdentifier)>,
                _,
            >(e),
        },
{
    if switches.close_edge_free_api && switches.close_official_preview_api
        && switches.close_official_subscribe_api {
        return Err(StartupError::NoApiEnabled);
    }
    if switches.close_official_subscribe_api {
        let none: Vec<AzureSubscribeKey> = Vec::new();
        assert(credential_views(none@) =~= Seq::empty());
        return Ok(none);
    }
    let keys = AzureSubscribeKey::from(subscribe_key);
    if keys.len() == 0 {
        return Err(StartupError::NoSubscribeKey);
    }
    Ok(keys)
}

} // verus!
