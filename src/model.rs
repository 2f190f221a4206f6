//! Regions, sectors, equities and the default symbol universe.

use vstd::prelude::*;

use crate::text::text_equals;

verus! {

/// Geographical region of an issuer.
#[derive(Debug, Clone, Copy, PartialEq, Eq, Hash, Structural)]
pub enum Region {
    NorthAmerica,
    SouthAmerica,
    Europe,
    AsiaPacific,
    MiddleEastAfrica,
}

impl Region {
    /// The stable position of the region among all regions.
    pub open spec fn spec_index(self) -> nat {
        match self {
            Region::NorthAmerica => 0,
            Region::SouthAmerica => 1,
            Region::Europe => 2,
            Region::AsiaPacific => 3,
            Region::MiddleEastAfrica => 4,
        }
    }

    /// The two-letter prefix that starts the symbols of the region.
    pub open spec fn spec_prefix(self) -> Seq<char> {
        match self {
            Region::NorthAmerica => seq!['N', 'A'],
            Region::SouthAmerica => seq!['S', 'A'],
            Region::Europe => seq!['E', 'U'],
            Region::AsiaPacific => seq!['A', 'P'],
            Region::MiddleEastAfrica => seq!['M', 'E'],
        }
    }

    /// Every region, in index order.
    pub fn all() -> (r: [Region; 5])
        ensures
            forall|i: int| 0 <= i < 5 ==> (#[trigger] r@[i]).spec_index() == i,
    {
        [
            Region::NorthAmerica,
            Region::SouthAmerica,
            Region::Europe,
            Region::AsiaPacific,
            Region::MiddleEastAfrica,
        ]
    }

    pub fn prefix(self) -> (r: &'static str)
        ensures
            r@ == self.spec_prefix(),
    {
        proof {
            reveal_strlit("NA");
            reveal_strlit("SA");
            reveal_strlit("EU");
            reveal_strlit("AP");
            reveal_strlit("ME");
        }
        match self {
            Region::NorthAmerica => "NA",
            Region::SouthAmerica => "SA",
            Region::Europe => "EU",
            Region::AsiaPacific => "AP",
            Region::MiddleEastAfrica => "ME",
        }
    }

    pub fn index(self) -> (r: usize)
        ensures
            r == self.spec_index(),
            r < 5,
    {
        match self {
            Region::NorthAmerica => 0,
            Region::SouthAmerica => 1,
            Region::Europe => 2,
            Region::AsiaPacific => 3,
            Region::MiddleEastAfrica => 4,
        }
    }

    /// The human-readable name of the region.
    pub fn display_name(self) -> (r: &'static str)
        ensures
            r@ == self.spec_display_name(),
    {
        match self {
            Region::NorthAmerica => "North America",
            Region::SouthAmerica => "South America",
            Region::Europe => "Europe",
            Region::AsiaPacific => "Asia Pacific",
            Region::MiddleEastAfrica => "Middle East & Africa",
        }
    }

    pub open spec fn spec_display_name(self) -> Seq<char> {
        match self {
            Region::NorthAmerica => "North America"@,
            Region::SouthAmerica => "South America"@,
            Region::Europe => "Europe"@,
            Region::AsiaPacific => "Asia Pacific"@,
            Region::MiddleEastAfrica => "Middle East & Africa"@,
        }
    }

    /// The snake_case name that stands for the region on the wire.
    pub open spec fn spec_wire_name(self) -> Seq<char> {
        match self {
            Region::NorthAmerica => "north_america"@,
            Region::SouthAmerica => "south_america"@,
            Region::Europe => "europe"@,
            Region::AsiaPacific => "asia_pacific"@,
            Region::MiddleEastAfrica => "middle_east_africa"@,
        }
    }

    pub fn wire_name(self) -> (r: &'static str)
        ensures
            r@ == self.spec_wire_name(),
    {
        match self {
            Region::NorthAmerica => "north_america",
            Region::SouthAmerica => "south_america",
            Region::Europe => "europe",
            Region::AsiaPacific => "asia_pacific",
            Region::MiddleEastAfrica => "middle_east_africa",
        }
    }

    /// The region whose wire name is `s`, if any.
    pub fn from_wire_name(s: &str) -> (r: Option<Region>)
        ensures
            r matches Some(region) ==> region.spec_wire_name() == s@,
            r is None ==> forall|region: Region| region.spec_wire_name() != s@,
    {
        let names = Region::all();
        let mut i: usize = 0;
        while i < 5
            invariant
                0 <= i <= 5,
                forall|j: int| 0 <= j < 5 ==> (#[trigger] names@[j]).spec_index() == j,
                forall|j: int| 0 <= j < i ==> (#[trigger] names@[j]).spec_wire_name() != s@,
            decreases 5 - i,
        {
            let region = names[i];
            if text_equals(region.wire_name(), s) {
                return Some(region);
            }
            i = i + 1;
        }
        proof {
            assert forall|region: Region| region.spec_wire_name() != s@ by {
                assert(names@[region.spec_index() as int] == region);
            }
        }
        None
    }
}


/// Activity sector of an issuer.
#[derive(Debug, Clone, Copy, PartialEq, Eq, Hash, Structural)]
pub enum Sector {
    Technology,
    Financials,
    Industrials,
    Healthcare,
    ConsumerDiscretionary,
    ConsumerStaples,
    Energy,
    Utilities,
    Materials,
    RealEstate,
}

impl Sector {
    /// The stable position of the sector among all sectors.
    pub open spec fn spec_index(self) -> nat {
        match self {
            Sector::Technology => 0,
            Sector::Financials => 1,
            Sector::Industrials => 2,
            Sector::Healthcare => 3,
            Sector::ConsumerDiscretionary => 4,
            Sector::ConsumerStaples => 5,
            Sector::Energy => 6,
            Sector::Utilities => 7,
            Sector::Materials => 8,
            Sector::RealEstate => 9,
        }
    }

    /// The prefix that follows the region's in the symbols of the sector.
    pub open spec fn spec_prefix(self) -> Seq<char> {
        match self {
            Sector::Technology => seq!['T', 'E', 'C', 'H'],
            Sector::Financials => seq!['F', 'I', 'N'],
            Sector::Industrials => seq!['I', 'N', 'D'],
            Sector::Healthcare => seq!['H', 'L', 'T'],
            Sector::ConsumerDiscretionary => seq!['C', 'N', 'D'],
            Sector::ConsumerStaples => seq!['C', 'N', 'S'],
            Sector::Energy => seq!['E', 'N', 'G'],
            Sector::Utilities => seq!['U', 'T', 'L'],
            Sector::Materials => seq!['M', 'A', 'T'],
            Sector::RealEstate => seq!['R', 'E', 'A'],
        }
    }

    /// Every sector, in index order.
    pub fn all() -> (r: [Sector; 10])
        ensures
            forall|i: int| 0 <= i < 10 ==> (#[trigger] r@[i]).spec_index() == i,
    {
        [
            Sector::Technology,
            Sector::Financials,
            Sector::Industrials,
            Sector::Healthcare,
            Sector::ConsumerDiscretionary,
            Sector::ConsumerStaples,
            Sector::Energy,
            Sector::Utilities,
            Sector::Materials,
            Sector::RealEstate,
        ]
    }

    pub fn prefix(self) -> (r: &'static str)
        ensures
            r@ == self.spec_prefix(),
    {
        proof {
            reveal_strlit("TECH");
            reveal_strlit("FIN");
            reveal_strlit("IND");
            reveal_strlit("HLT");
            reveal_strlit("CND");
            reveal_strlit("CNS");
            reveal_strlit("ENG");
            reveal_strlit("UTL");
            reveal_strlit("MAT");
            reveal_strlit("REA");
        }
        match self {
            Sector::Technology => "TECH",
            Sector::Financials => "FIN",
            Sector::Industrials => "IND",
            Sector::Healthcare => "HLT",
            Sector::ConsumerDiscretionary => "CND",
            Sector::ConsumerStaples => "CNS",
            Sector::Energy => "ENG",
            Sector::Utilities => "UTL",
            Sector::Materials => "MAT",
            Sector::RealEstate => "REA",
        }
    }

    pub fn index(self) -> (r: usize)
        ensures
            r == self.spec_index(),
            r < 10,
    {
        match self {
            Sector::Technology => 0,
            Sector::Financials => 1,
            Sector::Industrials => 2,
            Sector::Healthcare => 3,
            Sector::ConsumerDiscretionary => 4,
            Sector::ConsumerStaples => 5,
            Sector::Energy => 6,
            Sector::Utilities => 7,
            Sector::Materials => 8,
            Sector::RealEstate => 9,
        }
    }

    /// The human-readable name of the sector.
    pub fn display_name(self) -> (r: &'static str)
        ensures
            r@ == self.spec_display_name(),
    {
        match self {
            Sector::Technology => "Technology",
            Sector::Financials => "Financials",
            Sector::Industrials => "Industrials",
            Sector::Healthcare => "Healthcare",
            Sector::ConsumerDiscretionary => "Consumer Discretionary",
            Sector::ConsumerStaples => "Consumer Staples",
            Sector::Energy => "Energy",
            Sector::Utilities => "Utilities",
            Sector::Materials => "Materials",
            Sector::RealEstate => "Real Estate",
        }
    }

    pub open spec fn spec_display_name(self) -> Seq<char> {
        match self {
            Sector::Technology => "Technology"@,
            Sector::Financials => "Financials"@,
            Sector::Industrials => "Industrials"@,
            Sector::Healthcare => "Healthcare"@,
            Sector::ConsumerDiscretionary => "Consumer Discretionary"@,
            Sector::ConsumerStaples => "Consumer Staples"@,
            Sector::Energy => "Energy"@,
            Sector::Utilities => "Utilities"@,
            Sector::Materials => "Materials"@,
            Sector::RealEstate => "Real Estate"@,
        }
    }

    /// The snake_case name that stands for the sector on the wire.
    pub open spec fn spec_wire_name(self) -> Seq<char> {
        match self {
            Sector::Technology => "technology"@,
            Sector::Financials => "financials"@,
            Sector::Industrials => "industrials"@,
            Sector::Healthcare => "healthcare"@,
            Sector::ConsumerDiscretionary => "consumer_discretionary"@,
            Sector::ConsumerStaples => "consumer_staples"@,
            Sector::Energy => "energy"@,
            Sector::Utilities => "utilities"@,
            Sector::Materials => "materials"@,
            Sector::RealEstate => "real_estate"@,
        }
    }

    pub fn wire_name(self) -> (r: &'static str)
        ensures
            r@ == self.spec_wire_name(),
    {
        match self {
            Sector::Technology => "technology",
            Sector::Financials => "financials",
            Sector::Industrials => "industrials",
            Sector::Healthcare => "healthcare",
            Sector::ConsumerDiscretionary => "consumer_discretionary",
            Sector::ConsumerStaples => "consumer_staples",
            Sector::Energy => "energy",
            Sector::Utilities => "utilities",
            Sector::Materials => "materials",
            Sector::RealEstate => "real_estate",
        }
    }

    /// The sector whose wire name is `s`, if any.
    pub fn from_wire_name(s: &str) -> (r: Option<Sector>)
        ensures
            r matches Some(sector) ==> sector.spec_wire_name() == s@,
            r is None ==> forall|sector: Sector| sector.spec_wire_name() != s@,
    {
        let names = Sector::all();
        let mut i: usize = 0;
        while i < 10
            invariant
                0 <= i <= 10,
                forall|j: int| 0 <= j < 10 ==> (#[trigger] names@[j]).spec_index() == j,
                forall|j: int| 0 <= j < i ==> (#[trigger] names@[j]).spec_wire_name() != s@,
            decreases 10 - i,
        {
            let sector = names[i];
            if text_equals(sector.wire_name(), s) {
                return Some(sector);
            }
            i = i + 1;
        }
        proof {
            assert forall|sector: Sector| sector.spec_wire_name() != s@ by {
                assert(names@[sector.spec_index() as int] == sector);
            }
        }
        None
    }
}


/// Distinct regions have distinct wire names, so a region's wire name
/// decodes back to that region.
pub proof fn lemma_region_wire_names_distinct(a: Region, b: Region)
    ensures
        a.spec_wire_name() == b.spec_wire_name() <==> a == b,
{
    reveal_strlit("north_america");
    reveal_strlit("south_america");
    reveal_strlit("europe");
    reveal_strlit("asia_pacific");
    reveal_strlit("middle_east_africa");
    if a != b {
        assert(a.spec_wire_name().len() != b.spec_wire_name().len()
            || a.spec_wire_name()[0] != b.spec_wire_name()[0]
            || a.spec_wire_name()[1] != b.spec_wire_name()[1]);
    }
}

/// Distinct sectors have distinct wire names, so a sector's wire name
/// decodes back to that sector.
pub proof fn lemma_sector_wire_names_distinct(a: Sector, b: Sector)
    ensures
        a.spec_wire_name() == b.spec_wire_name() <==> a == b,
{
    reveal_strlit("technology");
    reveal_strlit("financials");
    reveal_strlit("industrials");
    reveal_strlit("healthcare");
    reveal_strlit("consumer_discretionary");
    reveal_strlit("consumer_staples");
    reveal_strlit("energy");
    reveal_strlit("utilities");
    reveal_strlit("materials");
    reveal_strlit("real_estate");
    if a != b {
        assert(a.spec_wire_name().len() != b.spec_wire_name().len()
            || a.spec_wire_name()[0] != b.spec_wire_name()[0]
            || a.spec_wire_name()[8] != b.spec_wire_name()[8]);
    }
}

/// A listed instrument: its symbol and its classification.
#[derive(Debug, Clone)]
pub struct Equity {
    pub symbol: String,
    pub region: Region,
    pub sector: Sector,
}

/// How many equities the default universe lists for each region and sector.
pub const REPLICAS_PER_BUCKET: usize = 10;

/// The decimal digit `d` as a character.
pub open spec fn digit_char(d: nat) -> char {
    if d == 0 {
        '0'
    } else if d == 1 {
        '1'
    } else if d == 2 {
        '2'
    } else if d == 3 {
        '3'
    } else if d == 4 {
        '4'
    } else if d == 5 {
        '5'
    } else if d == 6 {
        '6'
    } else if d == 7 {
        '7'
    } else if d == 8 {
        '8'
    } else {
        '9'
    }
}

/// `n` written with three decimal digits, padded with zeros.
pub open spec fn three_digits(n: nat) -> Seq<char> {
    seq![digit_char((n / 100) % 10), digit_char((n / 10) % 10), digit_char(n % 10)]
}

/// The symbol of replica `replica` in a region and sector: the two prefixes
/// followed by the replica number in three digits.
pub open spec fn symbol_of(region: Region, sector: Sector, replica: nat) -> Seq<char> {
    region.spec_prefix() + sector.spec_prefix() + three_digits(replica)
}

/// The region with the given index.
pub open spec fn region_at(i: int) -> Region {
    if i == 0 {
        Region::NorthAmerica
    } else if i == 1 {
        Region::SouthAmerica
    } else if i == 2 {
        Region::Europe
    } else if i == 3 {
        Region::AsiaPacific
    } else {
        Region::MiddleEastAfrica
    }
}

/// The sector with the given index.
pub open spec fn sector_at(i: int) -> Sector {
    if i == 0 {
        Sector::Technology
    } else if i == 1 {
        Sector::Financials
    } else if i == 2 {
        Sector::Industrials
    } else if i == 3 {
        Sector::Healthcare
    } else if i == 4 {
        Sector::ConsumerDiscretionary
    } else if i == 5 {
        Sector::ConsumerStaples
    } else if i == 6 {
        Sector::Energy
    } else if i == 7 {
        Sector::Utilities
    } else if i == 8 {
        Sector::Materials
    } else {
        Sector::RealEstate
    }
}

/// Position `k` of the default universe: regions outermost, sectors in
/// the middle, replicas innermost.
pub open spec fn is_default_equity(e: Equity, k: int) -> bool {
    let region = region_at(k / 100);
    let sector = sector_at((k / 10) % 10);
    &&& e.region == region
    &&& e.sector == sector
    &&& e.symbol@ == symbol_of(region, sector, (k % 10) as nat)
}

/// The decimal digit `d` as a one-character string.
fn digit_text(d: usize) -> (r: &'static str)
    requires
        d < 10,
    ensures
        r@ == seq![digit_char(d as nat)],
{
    proof {
        reveal_strlit("0");
        reveal_strlit("1");
        reveal_strlit("2");
        reveal_strlit("3");
        reveal_strlit("4");
        reveal_strlit("5");
        reveal_strlit("6");
        reveal_strlit("7");
        reveal_strlit("8");
        reveal_strlit("9");
    }
    match d {
        0 => "0",
        1 => "1",
        2 => "2",
        3 => "3",
        4 => "4",
        5 => "5",
        6 => "6",
        7 => "7",
        8 => "8",
        _ => "9",
    }
}

/// The symbol of replica `replica` in a region and sector.
pub fn equity_symbol(region: Region, sector: Sector, replica: usize) -> (r: String)
    requires
        replica < 1000,
    ensures
        r@ == symbol_of(region, sector, replica as nat),
{
    let mut symbol = String::from_str(region.prefix());
    symbol.append(sector.prefix());
    symbol.append(digit_text((replica / 100) % 10));
    symbol.append(digit_text((replica / 10) % 10));
    symbol.append(digit_text(replica % 10));
    proof {
        assert(symbol@ =~= symbol_of(region, sector, replica as nat));
    }
    symbol
}

/// The default universe: every region and sector, with ten replicas each,
/// regions outermost and replicas innermost.
pub fn default_equities() -> (r: Vec<Equity>)
    ensures
        r@.len() == 5 * 10 * REPLICAS_PER_BUCKET,
        forall|k: int| 0 <= k < r@.len() ==> is_default_equity(#[trigger] r@[k], k),
{
    let regions = Region::all();
    let sectors = Sector::all();
    let mut equities: Vec<Equity> = Vec::with_capacity(5 * 10 * REPLICAS_PER_BUCKET);
    let mut ri: usize = 0;
    while ri < 5
        invariant
            0 <= ri <= 5,
            equities@.len() == ri * 100,
            forall|j: int| 0 <= j < 5 ==> (#[trigger] regions@[j]).spec_index() == j,
            forall|j: int| 0 <= j < 10 ==> (#[trigger] sectors@[j]).spec_index() == j,
            forall|k: int| 0 <= k < equities@.len() ==> is_default_equity(#[trigger] equities@[k], k),
        decreases 5 - ri,
    {
        let region = regions[ri];
        proof {
            assert(region == region_at(ri as int));
        }
        let mut si: usize = 0;
        while si < 10
            invariant
                0 <= ri < 5,
                0 <= si <= 10,
                region == region_at(ri as int),
                equities@.len() == ri * 100 + si * 10,
                forall|j: int| 0 <= j < 10 ==> (#[trigger] sectors@[j]).spec_index() == j,
                forall|k: int| 0 <= k < equities@.len() ==> is_default_equity(#[trigger] equities@[k], k),
            decreases 10 - si,
        {
            let sector = sectors[si];
            proof {
                assert(sector == sector_at(si as int));
            }
            let mut replica: usize = 0;
            while replica < REPLICAS_PER_BUCKET
                invariant
                    0 <= ri < 5,
                    0 <= si < 10,
                    0 <= replica <= 10,
                    region == region_at(ri as int),
                    sector == sector_at(si as int),
                    equities@.len() == ri * 100 + si * 10 + replica,
                    forall|k: int| 0 <= k < equities@.len() ==> is_default_equity(#[trigger] equities@[k], k),
                decreases 10 - replica,
            {
                let symbol = equity_symbol(region, sector, replica);
                let ghost k = equities@.len() as int;
                equities.push(Equity { symbol, region, sector });
                proof {
                    assert(k / 100 == ri as int);
                    assert((k / 10) % 10 == si as int);
                    assert(k % 10 == replica as int);
                    assert(is_default_equity(equities@[k], k));
                }
                replica = replica + 1;
            }
            si = si + 1;
        }
        ri = ri + 1;
    }
    equities
}

/// The symbol at position `k` of the default universe.
pub open spec fn default_symbol(k: int) -> Seq<char> {
    symbol_of(region_at(k / 100), sector_at((k / 10) % 10), (k % 10) as nat)
}

proof fn lemma_symbol_parts(region: Region, sector: Sector, replica: nat)
    ensures
        symbol_of(region, sector, replica).subrange(0, 2) == region.spec_prefix(),
        symbol_of(region, sector, replica).subrange(2, symbol_of(region, sector, replica).len() - 3)
            == sector.spec_prefix(),
        symbol_of(region, sector, replica).subrange(
            symbol_of(region, sector, replica).len() - 3,
            symbol_of(region, sector, replica).len() as int,
        ) == three_digits(replica),
{
    let p = region.spec_prefix();
    let q = sector.spec_prefix();
    let d = three_digits(replica);
    let sym = symbol_of(region, sector, replica);
    assert(sym == p + q + d);
    assert(p.len() == 2);
    assert(sym.subrange(0, 2) =~= p);
    assert(sym.subrange(2, sym.len() - 3) =~= q);
    assert(sym.subrange(sym.len() - 3, sym.len() as int) =~= d);
}

/// Different positions of the default universe carry different symbols.
pub proof fn lemma_default_symbols_distinct(k1: int, k2: int)
    requires
        0 <= k1 < 500,
        0 <= k2 < 500,
        k1 != k2,
    ensures
        default_symbol(k1) != default_symbol(k2),
{
    let (r1, s1, n1) = (region_at(k1 / 100), sector_at((k1 / 10) % 10), (k1 % 10) as nat);
    let (r2, s2, n2) = (region_at(k2 / 100), sector_at((k2 / 10) % 10), (k2 % 10) as nat);
    if default_symbol(k1) == default_symbol(k2) {
        lemma_symbol_parts(r1, s1, n1);
        lemma_symbol_parts(r2, s2, n2);
        assert(r1.spec_prefix() == r2.spec_prefix());
        assert(s1.spec_prefix() == s2.spec_prefix());
        assert(three_digits(n1) == three_digits(n2));
        assert(three_digits(n1)[2] == three_digits(n2)[2]);
        assert(n1 == n2);
        assert(r1 == r2);
        assert(s1 == s2);
        assert(k1 / 100 == k2 / 100);
        assert((k1 / 10) % 10 == (k2 / 10) % 10);
    }
}

/// The default universe lists its equities under pairwise distinct symbols.
pub proof fn lemma_default_universe_symbols_distinct(equities: Seq<Equity>)
    requires
        equities.len() == 5 * 10 * REPLICAS_PER_BUCKET,
        forall|k: int| 0 <= k < equities.len() ==> is_default_equity(#[trigger] equities[k], k),
    ensures
        forall|i: int, j: int|
            0 <= i < equities.len() && 0 <= j < equities.len() && i != j ==> equities[i].symbol@
                != equities[j].symbol@,
{
    assert forall|i: int, j: int|
        0 <= i < equities.len() && 0 <= j < equities.len() && i != j implies equities[i].symbol@
            != equities[j].symbol@ by {
        assert(is_default_equity(equities[i], i));
        assert(is_default_equity(equities[j], j));
        lemma_default_symbols_distinct(i, j);
    }
}

} // verus!
