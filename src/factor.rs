//! The layout of the factor model behind the correlation matrix: which
//! columns of an equity's feature row carry a loading.

use vstd::prelude::*;

use crate::model::{Equity, Region, Sector};

verus! {

/// Columns of a feature row: the market, one per region, one per sector,
/// and the idiosyncratic style factor.
pub const FACTOR_COLUMNS: usize = 1 + 5 + 10 + 1;

/// The column of the global market beta.
pub const MARKET_COLUMN: usize = 0;

/// The column of the idiosyncratic style factor.
pub const STYLE_COLUMN: usize = 1 + 5 + 10;

/// The columns in which an equity's feature row is not zero.
#[derive(Debug, Clone, Copy, PartialEq, Eq, Structural)]
pub struct LoadedColumns {
    pub market: usize,
    pub region: usize,
    pub sector: usize,
    pub style: usize,
}

/// The column of a region's factor.
pub fn region_column(region: Region) -> (r: usize)
    ensures
        r == 1 + region.spec_index(),
{
    1 + region.index()
}

/// The column of a sector's factor.
pub fn sector_column(sector: Sector) -> (r: usize)
    ensures
        r == 1 + 5 + sector.spec_index(),
{
    1 + 5 + sector.index()
}

/// The loaded columns of an equity's row: four distinct columns, in
/// ascending order, all inside the row.
pub fn loaded_columns(equity: &Equity) -> (r: LoadedColumns)
    ensures
        r.market == MARKET_COLUMN,
        r.region == 1 + equity.region.spec_index(),
        r.sector == 1 + 5 + equity.sector.spec_index(),
        r.style == STYLE_COLUMN,
        r.market < r.region < r.sector < r.style < FACTOR_COLUMNS,
{
    LoadedColumns {
        market: MARKET_COLUMN,
        region: region_column(equity.region),
        sector: sector_column(equity.sector),
        style: STYLE_COLUMN,
    }
}

} // verus!
