use rust_market_data::factor::{loaded_columns, FACTOR_COLUMNS, STYLE_COLUMN};
use rust_market_data::labels::{region_label, sector_label};
use rust_market_data::model::{default_equities, equity_symbol, Equity, Region, Sector};

#[test]
fn labels_are_stable() {
    assert_eq!(region_label(Region::Europe), "Europe");
    assert_eq!(
        sector_label(Sector::ConsumerDiscretionary),
        "Consumer Discretionary"
    );
}

#[test]
fn asia_pacific_label_differs_from_display_name() {
    assert_eq!(region_label(Region::AsiaPacific), "Asia-Pacific");
    assert_eq!(Region::AsiaPacific.display_name(), "Asia Pacific");
    assert_eq!(Region::MiddleEastAfrica.display_name(), "Middle East & Africa");
    assert_eq!(Sector::RealEstate.display_name(), "Real Estate");
}

#[test]
fn default_universe_has_five_hundred_equities() {
    let equities = default_equities();
    assert_eq!(equities.len(), 500);
}

#[test]
fn default_universe_order_is_region_sector_replica() {
    let equities = default_equities();
    assert_eq!(equities[0].symbol, "NATECH000");
    assert_eq!(equities[0].region, Region::NorthAmerica);
    assert_eq!(equities[0].sector, Sector::Technology);
    assert_eq!(equities[7].symbol, "NATECH007");
    assert_eq!(equities[10].symbol, "NAFIN000");
    assert_eq!(equities[100].symbol, "SATECH000");
    assert_eq!(equities[100].region, Region::SouthAmerica);
    assert_eq!(equities[2 * 100 + 2 * 10 + 2].symbol, "EUIND002");
    assert_eq!(equities[499].symbol, "MEREA009");
    assert_eq!(equities[499].region, Region::MiddleEastAfrica);
    assert_eq!(equities[499].sector, Sector::RealEstate);
}

#[test]
fn default_universe_symbols_are_distinct() {
    let equities = default_equities();
    let mut symbols: Vec<&str> = equities.iter().map(|e| e.symbol.as_str()).collect();
    symbols.sort();
    symbols.dedup();
    assert_eq!(symbols.len(), 500);
}

#[test]
fn symbol_pads_replica_to_three_digits() {
    assert_eq!(equity_symbol(Region::AsiaPacific, Sector::Healthcare, 9), "APHLT009");
    assert_eq!(equity_symbol(Region::Europe, Sector::Utilities, 42), "EUUTL042");
    assert_eq!(equity_symbol(Region::SouthAmerica, Sector::Energy, 999), "SAENG999");
}

#[test]
fn prefixes_and_indices() {
    assert_eq!(Region::NorthAmerica.prefix(), "NA");
    assert_eq!(Region::MiddleEastAfrica.prefix(), "ME");
    assert_eq!(Region::MiddleEastAfrica.index(), 4);
    assert_eq!(Sector::Technology.prefix(), "TECH");
    assert_eq!(Sector::ConsumerStaples.prefix(), "CNS");
    assert_eq!(Sector::RealEstate.index(), 9);
    for (i, r) in Region::all().iter().enumerate() {
        assert_eq!(r.index(), i);
    }
    for (i, s) in Sector::all().iter().enumerate() {
        assert_eq!(s.index(), i);
    }
}

#[test]
fn wire_names_are_snake_case_and_decode_back() {
    assert_eq!(Region::NorthAmerica.wire_name(), "north_america");
    assert_eq!(Sector::ConsumerDiscretionary.wire_name(), "consumer_discretionary");
    for r in Region::all() {
        assert_eq!(Region::from_wire_name(r.wire_name()), Some(r));
    }
    for s in Sector::all() {
        assert_eq!(Sector::from_wire_name(s.wire_name()), Some(s));
    }
    assert_eq!(Region::from_wire_name("NorthAmerica"), None);
    assert_eq!(Sector::from_wire_name(""), None);
}

#[test]
fn factor_columns_of_an_equity() {
    let equity = Equity {
        symbol: "EQ1".to_string(),
        region: Region::Europe,
        sector: Sector::Financials,
    };
    let cols = loaded_columns(&equity);
    assert_eq!(cols.market, 0);
    assert_eq!(cols.region, 3);
    assert_eq!(cols.sector, 7);
    assert_eq!(cols.style, 16);
    assert_eq!(STYLE_COLUMN, 16);
    assert_eq!(FACTOR_COLUMNS, 17);
}
