//! The regions of the subscription service and the names of the backends.

use crate::error::TTSServerError;
use crate::text::str_eq;
use vstd::prelude::*;

verus! {

/// A region of the subscription speech service.
#[derive(Clone, Copy, Debug, PartialEq, Eq, Structural)]
pub enum AzureApiRegionIdentifier {
    /// South Africa North
    SouthAfricaNorth,
    /// East Asia
    EastAsia,
    /// Southeast Asia
    SoutheastAsia,
    /// Australia East
    AustraliaEast,
    /// Central India
    CentralIndia,
    /// Jio India West
    JioIndiaWest,
    /// Japan East
    JapanEast,
    /// Japan West
    JapanWest,
    /// Korea Central
    KoreaCentral,
    /// Canada Central
    CanadaCentral,
    /// North Europe
    NorthEurope,
    /// West Europe
    WestEurope,
    /// France Central
    FranceCentral,
    /// Germany West Central
    GermanyWestCentral,
    /// Norway East
    NorwayEast,
    /// Switzerland North
    SwitzerlandNorth,
    /// Switzerland West
    SwitzerlandWest,
    /// UK South
    UkSouth,
    /// UAE North
    UaeNorth,
    /// Brazil South
    BrazilSouth,
    /// Central US
    CentralUs,
    /// East US
    EastUs,
    /// East US 2
    EastUs2,
    /// North Central US
    NorthCentralUs,
    /// South Central US
    SouthCentralUs,
    /// US Gov Arizona
    UsGovArizona,
    /// US Gov Virginia
    UsGovVirginia,
    /// West Central US
    WestCentralUs,
    /// West US
    WestUs,
    /// West US 2
    WestUs2,
    /// West US 3
    WestUs3,
}

/// The region that a tag names, if it names one.
pub open spec fn region_named(tag: Seq<char>) -> Option<AzureApiRegionIdentifier> {
    if tag == "southafricanorth"@ {
        Some(AzureApiRegionIdentifier::SouthAfricaNorth)
    } else if tag == "eastasia"@ {
        Some(AzureApiRegionIdentifier::EastAsia)
    } else if tag == "southeastasia"@ {
        Some(AzureApiRegionIdentifier::SoutheastAsia)
    } else if tag == "australiaeast"@ {
        Some(AzureApiRegionIdentifier::AustraliaEast)
    } else if tag == "centralindia"@ {
        Some(AzureApiRegionIdentifier::CentralIndia)
    } else if tag == "jioindiawest"@ {
        Some(AzureApiRegionIdentifier::JioIndiaWest)
    } else if tag == "japaneast"@ {
        Some(AzureApiRegionIdentifier::JapanEast)
    } else if tag == "japanwest"@ {
        Some(AzureApiRegionIdentifier::JapanWest)
    } else if tag == "koreacentral"@ {
        Some(AzureApiRegionIdentifier::KoreaCentral)
    } else if tag == "canadacentral"@ {
        Some(AzureApiRegionIdentifier::CanadaCentral)
    } else if tag == "northeurope"@ {
        Some(AzureApiRegionIdentifier::NorthEurope)
    } else if tag == "westeurope"@ {
        Some(AzureApiRegionIdentifier::WestEurope)
    } else if tag == "francecentral"@ {
        Some(AzureApiRegionIdentifier::FranceCentral)
    } else if tag == "germanywestcentral"@ {
        Some(AzureApiRegionIdentifier::GermanyWestCentral)
    } else if tag == "norwayeast"@ {
        Some(AzureApiRegionIdentifier::NorwayEast)
    } else if tag == "switzerlandnorth"@ {
        Some(AzureApiRegionIdentifier::SwitzerlandNorth)
    } else if tag == "switzerlandwest"@ {
        Some(AzureApiRegionIdentifier::SwitzerlandWest)
    } else if tag == "uksouth"@ {
        Some(AzureApiRegionIdentifier::UkSouth)
    } else if tag == "uaenorth"@ {
        Some(AzureApiRegionIdentifier::UaeNorth)
    } else if tag == "brazilsouth"@ {
        Some(AzureApiRegionIdentifier::BrazilSouth)
    } else if tag == "centralus"@ {
        Some(AzureApiRegionIdentifier::CentralUs)
    } else if tag == "eastus"@ {
        Some(AzureApiRegionIdentifier::EastUs)
    } else if tag == "eastus2"@ {
        Some(AzureApiRegionIdentifier::EastUs2)
    } else if tag == "northcentralus"@ {
        Some(AzureApiRegionIdentifier::NorthCentralUs)
    } else if tag == "southcentralus"@ {
        Some(AzureApiRegionIdentifier::SouthCentralUs)
    } else if tag == "usgovarizona"@ {
        Some(AzureApiRegionIdentifier::UsGovArizona)
    } else if tag == "usgovvirginia"@ {
        Some(AzureApiRegionIdentifier::UsGovVirginia)
    } else if tag == "westcentralus"@ {
        Some(AzureApiRegionIdentifier::WestCentralUs)
    } else if tag == "westus"@ {
        Some(AzureApiRegionIdentifier::WestUs)
    } else if tag == "westus2"@ {
        Some(AzureApiRegionIdentifier::WestUs2)
    } else if tag == "westus3"@ {
        Some(AzureApiRegionIdentifier::WestUs3)
    } else {
        None
    }
}

impl AzureApiRegionIdentifier {
    /// The tag of the region, as it stands in host names.
    pub open spec fn spec_value(self) -> Seq<char> {
        match self {
            AzureApiRegionIdentifier::SouthAfricaNorth => "southafricanorth"@,
            AzureApiRegionIdentifier::EastAsia => "eastasia"@,
            AzureApiRegionIdentifier::SoutheastAsia => "southeastasia"@,
            AzureApiRegionIdentifier::AustraliaEast => "australiaeast"@,
            AzureApiRegionIdentifier::CentralIndia => "centralindia"@,
            AzureApiRegionIdentifier::JioIndiaWest => "jioindiawest"@,
            AzureApiRegionIdentifier::JapanEast => "japaneast"@,
            AzureApiRegionIdentifier::JapanWest => "japanwest"@,
            AzureApiRegionIdentifier::KoreaCentral => "koreacentral"@,
            AzureApiRegionIdentifier::CanadaCentral => "canadacentral"@,
            AzureApiRegionIdentifier::NorthEurope => "northeurope"@,
            AzureApiRegionIdentifier::WestEurope => "westeurope"@,
            AzureApiRegionIdentifier::FranceCentral => "francecentral"@,
            AzureApiRegionIdentifier::GermanyWestCentral => "germanywestcentral"@,
            AzureApiRegionIdentifier::NorwayEast => "norwayeast"@,
            AzureApiRegionIdentifier::SwitzerlandNorth => "switzerlandnorth"@,
            AzureApiRegionIdentifier::SwitzerlandWest => "switzerlandwest"@,
            AzureApiRegionIdentifier::UkSouth => "uksouth"@,
            AzureApiRegionIdentifier::UaeNorth => "uaenorth"@,
            AzureApiRegionIdentifier::BrazilSouth => "brazilsouth"@,
            AzureApiRegionIdentifier::CentralUs => "centralus"@,
            AzureApiRegionIdentifier::EastUs => "eastus"@,
            AzureApiRegionIdentifier::EastUs2 => "eastus2"@,
            AzureApiRegionIdentifier::NorthCentralUs => "northcentralus"@,
            AzureApiRegionIdentifier::SouthCentralUs => "southcentralus"@,
            AzureApiRegionIdentifier::UsGovArizona => "usgovarizona"@,
            AzureApiRegionIdentifier::UsGovVirginia => "usgovvirginia"@,
            AzureApiRegionIdentifier::WestCentralUs => "westcentralus"@,
            AzureApiRegionIdentifier::WestUs => "westus"@,
            AzureApiRegionIdentifier::WestUs2 => "westus2"@,
            AzureApiRegionIdentifier::WestUs3 => "westus3"@,
        }
    }

    /// The tag of the region, as it stands in host names.
    pub fn value(&self) -> (r: String)
        ensures
            r@ == self.spec_value(),
    {
        match self {
            AzureApiRegionIdentifier::SouthAfricaNorth => "southafricanorth",
            AzureApiRegionIdentifier::EastAsia => "eastasia",
            AzureApiRegionIdentifier::SoutheastAsia => "southeastasia",
            AzureApiRegionIdentifier::AustraliaEast => "australiaeast",
            AzureApiRegionIdentifier::CentralIndia => "centralindia",
            AzureApiRegionIdentifier::JioIndiaWest => "jioindiawest",
            AzureApiRegionIdentifier::JapanEast => "japaneast",
            AzureApiRegionIdentifier::JapanWest => "japanwest",
            AzureApiRegionIdentifier::KoreaCentral => "koreacentral",
            AzureApiRegionIdentifier::CanadaCentral => "canadacentral",
            AzureApiRegionIdentifier::NorthEurope => "northeurope",
            AzureApiRegionIdentifier::WestEurope => "westeurope",
            AzureApiRegionIdentifier::FranceCentral => "francecentral",
            AzureApiRegionIdentifier::GermanyWestCentral => "germanywestcentral",
            AzureApiRegionIdentifier::NorwayEast => "norwayeast",
            AzureApiRegionIdentifier::SwitzerlandNorth => "switzerlandnorth",
            AzureApiRegionIdentifier::SwitzerlandWest => "switzerlandwest",
            AzureApiRegionIdentifier::UkSouth => "uksouth",
            AzureApiRegionIdentifier::UaeNorth => "uaenorth",
            AzureApiRegionIdentifier::BrazilSouth => "brazilsouth",
            AzureApiRegionIdentifier::CentralUs => "centralus",
            AzureApiRegionIdentifier::EastUs => "eastus",
            AzureApiRegionIdentifier::EastUs2 => "eastus2",
            AzureApiRegionIdentifier::NorthCentralUs => "northcentralus",
            AzureApiRegionIdentifier::SouthCentralUs => "southcentralus",
            AzureApiRegionIdentifier::UsGovArizona => "usgovarizona",
            AzureApiRegionIdentifier::UsGovVirginia => "usgovvirginia",
            AzureApiRegionIdentifier::WestCentralUs => "westcentralus",
            AzureApiRegionIdentifier::WestUs => "westus",
            AzureApiRegionIdentifier::WestUs2 => "westus2",
            AzureApiRegionIdentifier::WestUs3 => "westus3",
        }.to_owned()
    }

    /// Reads a region tag. A tag that names no region is refused.
    pub fn from(region_str: &str) -> (r: Result<Self, TTSServerError>)
        ensures
            match r {
                Ok(region) => region_named(region_str@) == Some(region),
                Err(e) => {
                    &&& region_named(region_str@) is None
                    &&& e matches TTSServerError::ProgramError(detail) && detail@
                        == "解析地域标签错误"@
                },
            },
    {
        if str_eq(region_str, "southafricanorth") {
            Ok(AzureApiRegionIdentifier::SouthAfricaNorth)
        } else if str_eq(region_str, "eastasia") {
            Ok(AzureApiRegionIdentifier::EastAsia)
        } else if str_eq(region_str, "southeastasia") {
            Ok(AzureApiRegionIdentifier::SoutheastAsia)
        } else if str_eq(region_str, "australiaeast") {
            Ok(AzureApiRegionIdentifier::AustraliaEast)
        } else if str_eq(region_str, "centralindia") {
            Ok(AzureApiRegionIdentifier::CentralIndia)
        } else if str_eq(region_str, "jioindiawest") {
            Ok(AzureApiRegionIdentifier::JioIndiaWest)
        } else if str_eq(region_str, "japaneast") {
            Ok(AzureApiRegionIdentifier::JapanEast)
        } else if str_eq(region_str, "japanwest") {
            Ok(AzureApiRegionIdentifier::JapanWest)
        } else if str_eq(region_str, "koreacentral") {
            Ok(AzureApiRegionIdentifier::KoreaCentral)
        } else if str_eq(region_str, "canadacentral") {
            Ok(AzureApiRegionIdentifier::CanadaCentral)
        } else if str_eq(region_str, "northeurope") {
            Ok(AzureApiRegionIdentifier::NorthEurope)
        } else if str_eq(region_str, "westeurope") {
            Ok(AzureApiRegionIdentifier::WestEurope)
        } else if str_eq(region_str, "francecentral") {
            Ok(AzureApiRegionIdentifier::FranceCentral)
        } else if str_eq(region_str, "germanywestcentral") {
            Ok(AzureApiRegionIdentifier::GermanyWestCentral)
        } else if str_eq(region_str, "norwayeast") {
            Ok(AzureApiRegionIdentifier::NorwayEast)
        } else if str_eq(region_str, "switzerlandnorth") {
            Ok(AzureApiRegionIdentifier::SwitzerlandNorth)
        } else if str_eq(region_str, "switzerlandwest") {
            Ok(AzureApiRegionIdentifier::SwitzerlandWest)
        } else if str_eq(region_str, "uksouth") {
            Ok(AzureApiRegionIdentifier::UkSouth)
        } else if str_eq(region_str, "uaenorth") {
            Ok(AzureApiRegionIdentifier::UaeNorth)
        } else if str_eq(region_str, "brazilsouth") {
            Ok(AzureApiRegionIdentifier::BrazilSouth)
        } else if str_eq(region_str, "centralus") {
            Ok(AzureApiRegionIdentifier::CentralUs)
        } else if str_eq(region_str, "eastus") {
            Ok(AzureApiRegionIdentifier::EastUs)
        } else if str_eq(region_str, "eastus2") {
            Ok(AzureApiRegionIdentifier::EastUs2)
        } else if str_eq(region_str, "northcentralus") {
            Ok(AzureApiRegionIdentifier::NorthCentralUs)
        } else if str_eq(region_str, "southcentralus") {
            Ok(AzureApiRegionIdentifier::SouthCentralUs)
        } else if str_eq(region_str, "usgovarizona") {
            Ok(AzureApiRegionIdentifier::UsGovArizona)
        } else if str_eq(region_str, "usgovvirginia") {
            Ok(AzureApiRegionIdentifier::UsGovVirginia)
        } else if str_eq(region_str, "westcentralus") {
            Ok(AzureApiRegionIdentifier::WestCentralUs)
        } else if str_eq(region_str, "westus") {
            Ok(AzureApiRegionIdentifier::WestUs)
        } else if str_eq(region_str, "westus2") {
            Ok(AzureApiRegionIdentifier::WestUs2)
        } else if str_eq(region_str, "westus3") {
            Ok(AzureApiRegionIdentifier::WestUs3)
        } else {
            Err(TTSServerError::ProgramError("解析地域标签错误".to_owned()))
        }
    }
}

/// Every region is read back from its own tag: no two regions share one.
pub proof fn lemma_region_round_trip(region: AzureApiRegionIdentifier)
    ensures
        region_named(region.spec_value()) == Some(region),
{
    reveal_strlit("southafricanorth");
    reveal_strlit("eastasia");
    reveal_strlit("southeastasia");
    reveal_strlit("australiaeast");
    reveal_strlit("centralindia");
    reveal_strlit("jioindiawest");
    reveal_strlit("japaneast");
    reveal_strlit("japanwest");
    reveal_strlit("koreacentral");
    reveal_strlit("canadacentral");
    reveal_strlit("northeurope");
    reveal_strlit("westeurope");
    reveal_strlit("francecentral");
    reveal_strlit("germanywestcentral");
    reveal_strlit("norwayeast");
    reveal_strlit("switzerlandnorth");
    reveal_strlit("switzerlandwest");
    reveal_strlit("uksouth");
    reveal_strlit("uaenorth");
    reveal_strlit("brazilsouth");
    reveal_strlit("centralus");
    reveal_strlit("eastus");
    reveal_strlit("eastus2");
    reveal_strlit("northcentralus");
    reveal_strlit("southcentralus");
    reveal_strlit("usgovarizona");
    reveal_strlit("usgovvirginia");
    reveal_strlit("westcentralus");
    reveal_strlit("westus");
    reveal_strlit("westus2");
    reveal_strlit("westus3");
    assert("southafricanorth"@ =~= seq!['s', 'o', 'u', 't', 'h', 'a', 'f', 'r', 'i', 'c', 'a', 'n', 'o', 'r', 't', 'h']);
    assert("eastasia"@ =~= seq!['e', 'a', 's', 't', 'a', 's', 'i', 'a']);
    assert("southeastasia"@ =~= seq!['s', 'o', 'u', 't', 'h', 'e', 'a', 's', 't', 'a', 's', 'i', 'a']);
    assert("australiaeast"@ =~= seq!['a', 'u', 's', 't', 'r', 'a', 'l', 'i', 'a', 'e', 'a', 's', 't']);
    assert("centralindia"@ =~= seq!['c', 'e', 'n', 't', 'r', 'a', 'l', 'i', 'n', 'd', 'i', 'a']);
    assert("jioindiawest"@ =~= seq!['j', 'i', 'o', 'i', 'n', 'd', 'i', 'a', 'w', 'e', 's', 't']);
    assert("japaneast"@ =~= seq!['j', 'a', 'p', 'a', 'n', 'e', 'a', 's', 't']);
    assert("japanwest"@ =~= seq!['j', 'a', 'p', 'a', 'n', 'w', 'e', 's', 't']);
    assert("koreacentral"@ =~= seq!['k', 'o', 'r', 'e', 'a', 'c', 'e', 'n', 't', 'r', 'a', 'l']);
    assert("canadacentral"@ =~= seq!['c', 'a', 'n', 'a', 'd', 'a', 'c', 'e', 'n', 't', 'r', 'a', 'l']);
    assert("northeurope"@ =~= seq!['n', 'o', 'r', 't', 'h', 'e', 'u', 'r', 'o', 'p', 'e']);
    assert("westeurope"@ =~= seq!['w', 'e', 's', 't', 'e', 'u', 'r', 'o', 'p', 'e']);
    assert("francecentral"@ =~= seq!['f', 'r', 'a', 'n', 'c', 'e', 'c', 'e', 'n', 't', 'r', 'a', 'l']);
    assert("germanywestcentral"@ =~= seq!['g', 'e', 'r', 'm', 'a', 'n', 'y', 'w', 'e', 's', 't', 'c', 'e', 'n', 't', 'r', 'a', 'l']);
    assert("norwayeast"@ =~= seq!['n', 'o', 'r', 'w', 'a', 'y', 'e', 'a', 's', 't']);
    assert("switzerlandnorth"@ =~= seq!['s', 'w', 'i', 't', 'z', 'e', 'r', 'l', 'a', 'n', 'd', 'n', 'o', 'r', 't', 'h']);
    assert("switzerlandwest"@ =~= seq!['s', 'w', 'i', 't', 'z', 'e', 'r', 'l', 'a', 'n', 'd', 'w', 'e', 's', 't']);
    assert("uksouth"@ =~= seq!['u', 'k', 's', 'o', 'u', 't', 'h']);
    assert("uaenorth"@ =~= seq!['u', 'a', 'e', 'n', 'o', 'r', 't', 'h']);
    assert("brazilsouth"@ =~= seq!['b', 'r', 'a', 'z', 'i', 'l', 's', 'o', 'u', 't', 'h']);
    assert("centralus"@ =~= seq!['c', 'e', 'n', 't', 'r', 'a', 'l', 'u', 's']);
    assert("eastus"@ =~= seq!['e', 'a', 's', 't', 'u', 's']);
    assert("eastus2"@ =~= seq!['e', 'a', 's', 't', 'u', 's', '2']);
    assert("northcentralus"@ =~= seq!['n', 'o', 'r', 't', 'h', 'c', 'e', 'n', 't', 'r', 'a', 'l', 'u', 's']);
    assert("southcentralus"@ =~= seq!['s', 'o', 'u', 't', 'h', 'c', 'e', 'n', 't', 'r', 'a', 'l', 'u', 's']);
    assert("usgovarizona"@ =~= seq!['u', 's', 'g', 'o', 'v', 'a', 'r', 'i', 'z', 'o', 'n', 'a']);
    assert("usgovvirginia"@ =~= seq!['u', 's', 'g', 'o', 'v', 'v', 'i', 'r', 'g', 'i', 'n', 'i', 'a']);
    assert("westcentralus"@ =~= seq!['w', 'e', 's', 't', 'c', 'e', 'n', 't', 'r', 'a', 'l', 'u', 's']);
    assert("westus"@ =~= seq!['w', 'e', 's', 't', 'u', 's']);
    assert("westus2"@ =~= seq!['w', 'e', 's', 't', 'u', 's', '2']);
    assert("westus3"@ =~= seq!['w', 'e', 's', 't', 'u', 's', '3']);
}

/// A tag that names a region is the tag of that region.
pub proof fn lemma_region_named_is_value(tag: Seq<char>)
    ensures
        region_named(tag) matches Some(region) ==> region.spec_value() == tag,
{
}

} // verus!
