use rust_market_data::cli::{pick_series, ChartArgs, ChartError, Cli, Command, TailArgs};
use rust_market_data::dashboard::{matches_filters, Theme};
use rust_market_data::model::{Region, Sector};
use rust_market_data::stream::{gateway_url, Reconnect, StreamStatus, TickStreamError};

#[test]
fn matches_filters_respects_selected_sets() {
    let mut regions: Vec<Region> = Vec::new();
    let mut sectors: Vec<Sector> = Vec::new();
    let (region, sector) = (Region::NorthAmerica, Sector::Technology);

    assert!(!matches_filters(&regions, &sectors, region, sector));

    regions.push(Region::NorthAmerica);
    assert!(matches_filters(&regions, &sectors, region, sector));

    sectors.push(Sector::Technology);
    assert!(matches_filters(&regions, &sectors, region, sector));

    sectors.clear();
    sectors.push(Sector::Energy);
    assert!(!matches_filters(&regions, &sectors, region, sector));
}

#[test]
fn themes_round_trip() {
    for t in Theme::all() {
        assert_eq!(Theme::parse(t.as_str()), Some(t));
    }
    assert_eq!(Theme::parse("Dark"), None);
    assert_eq!(Theme::Sepia.label(), "Sepia");
}

#[test]
fn reconnect_backoff_doubles_to_a_cap() {
    let mut r = Reconnect::new();
    assert_eq!(r.status_before_attempt(), StreamStatus::Connecting);
    let delays: Vec<u64> = (0..7).map(|_| r.next_delay()).collect();
    assert_eq!(delays, vec![500, 1000, 2000, 4000, 8000, 10_000, 10_000]);
    assert_eq!(r.attempt, 7);
    assert_eq!(r.status_before_attempt(), StreamStatus::Connecting);

    r.on_open();
    assert_eq!(r.attempt, 0);
    assert_eq!(r.backoff_ms, 500);
    assert!(r.on_delivered(false));
    assert!(!r.on_delivered(true));
    assert_eq!(r.next_delay(), 500);
    assert_eq!(r.status_before_attempt(), StreamStatus::Reconnecting { attempt: 1 });
}

#[test]
fn stream_error_messages() {
    let e = TickStreamError::Open("refused".to_string());
    assert_eq!(e.message(), "websocket open error: refused");
    let e = TickStreamError::Deserialize("bad json".to_string());
    assert_eq!(e.message(), "bad json");
}

#[test]
fn cli_defaults_to_run() {
    assert!(matches!(Cli { command: None }.command(), Command::Run));
    let tail = TailArgs { symbol: Some("NATECH007".into()), limit: Some(2) };
    match (Cli { command: Some(Command::Tail(tail)) }).command() {
        Command::Tail(args) => assert_eq!(args.limit, Some(2)),
        _ => panic!("expected tail"),
    }
}

#[test]
fn tail_filters_and_limits() {
    let args = TailArgs { symbol: Some("NATECH007".into()), limit: Some(2) };
    assert!(args.admits("NATECH007"));
    assert!(!args.admits("NATECH008"));
    assert!(!args.limit_reached(1));
    assert!(args.limit_reached(2));
    let all = TailArgs { symbol: None, limit: None };
    assert!(all.admits("anything"));
    assert!(!all.limit_reached(usize::MAX));
}

#[test]
fn chart_series_choice() {
    let none: Vec<(String, usize)> = Vec::new();
    assert_eq!(pick_series(&None, &none), Err(ChartError::NoTicks));
    let series = vec![("A".to_string(), 3), ("B".to_string(), 9), ("C".to_string(), 9), ("D".to_string(), 1)];
    assert_eq!(pick_series(&None, &series), Ok(1));
    assert_eq!(pick_series(&Some("C".to_string()), &series), Ok(2));
    assert_eq!(pick_series(&Some("D".to_string()), &series), Err(ChartError::TooFewPoints));
    assert_eq!(pick_series(&Some("Z".to_string()), &series), Err(ChartError::SymbolNotSeen));
    let args = ChartArgs { duration_secs: 30, symbol: None, width: 10, height: 30 };
    assert_eq!(args.plot_size(), (40, 30));
    assert!(args.admits("X"));
}

#[test]
fn theme_from_str() {
    assert_eq!("light".parse::<Theme>(), Ok(Theme::Light));
    assert_eq!("blue".parse::<Theme>(), Err(()));
}

#[test]
fn gateway_url_falls_back_to_loopback() {
    assert_eq!(gateway_url(Some("dash.local")), "ws://dash.local:9001/ws");
    assert_eq!(gateway_url(Some("")), "ws://127.0.0.1:9001/ws");
    assert_eq!(gateway_url(None), "ws://127.0.0.1:9001/ws");
}
