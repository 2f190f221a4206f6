//! Labels under which the dashboard shows regions and sectors.

use vstd::prelude::*;

use crate::model::{Region, Sector};

verus! {

/// The dashboard's label for a region.
pub open spec fn spec_region_label(region: Region) -> Seq<char> {
    match region {
        Region::NorthAmerica => "North America"@,
        Region::SouthAmerica => "South America"@,
        Region::Europe => "Europe"@,
        Region::AsiaPacific => "Asia-Pacific"@,
        Region::MiddleEastAfrica => "Middle East & Africa"@,
    }
}

pub fn region_label(region: Region) -> (r: &'static str)
    ensures
        r@ == spec_region_label(region),
{
    match region {
        Region::NorthAmerica => "North America",
        Region::SouthAmerica => "South America",
        Region::Europe => "Europe",
        Region::AsiaPacific => "Asia-Pacific",
        Region::MiddleEastAfrica => "Middle East & Africa",
    }
}

/// The dashboard's label for a sector.
pub open spec fn spec_sector_label(sector: Sector) -> Seq<char> {
    match sector {
        Sector::Technology => "Technology"@,
        Sector::Financials => "Financials"@,
        Sector::Industrials => "Industrials"@,
        Sector::Healthcare => "Healthcare"@,
        Sector::ConsumerDiscretionary => "Consumer Discretionary"@,
        Sector::ConsumerStaples => "Consumer Staples"@,
        Sector::Energy => "Energy"@,
        Sector::Utilities => "Utilities"@,
        Sector::Materials => "Materials"@,
        Sector::RealEstate => "Real Estate"@,
    }
}

pub fn sector_label(sector: Sector) -> (r: &'static str)
    ensures
        r@ == spec_sector_label(sector),
{
    match sector {
        Sector::Technology => "Technology",
        Sector::Financials => "Financials",
        Sector::Industrials => "Industrials",
        Sector::Healthcare => "Healthcare",
        Sector::ConsumerDiscretionary => "Consumer Discretionary",
        Sector::ConsumerStaples => "Consumer Staples",
        Sector::Energy => "Energy",
        Sector::Utilities => "Utilities",
        Sector::Materials => "Materials",
        Sector::RealEstate => "Real Estate",
    }
}

} // verus!
