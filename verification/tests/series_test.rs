use waveseekers::binary32::Binary32;
use waveseekers::datafeed::bars_from_ticks;
use waveseekers::datafeed::enhanced_series;
use waveseekers::datafeed::get_table_name;
use waveseekers::datafeed::historical::describe;
use waveseekers::datafeed::tick_query;
use waveseekers::datafeed::SeriesError;
use waveseekers::domain::Bar;
use waveseekers::domain::Indicators;
use waveseekers::domain::Interval;
use waveseekers::domain::Resolution;
use waveseekers::domain::Series;
use waveseekers::domain::SymbolType;
use waveseekers::domain::Tick;

fn num(x: f32) -> Binary32 {
    Binary32::from_bits(x.to_bits())
}

fn val(b: Binary32) -> f32 {
    f32::from_bits(b.to_bits())
}

fn values(data: &std::collections::VecDeque<Binary32>) -> Vec<f32> {
    data.iter().map(|b| val(*b)).collect()
}

fn plain(data: &Vec<Binary32>) -> Vec<f32> {
    data.iter().map(|b| val(*b)).collect()
}

fn bar(timestamp: &str, close: f32) -> Bar {
    Bar {
        timestamp: timestamp.to_string(),
        open: num(close - 1.0),
        high: num(close + 2.0),
        low: num(close - 3.0),
        close: num(close),
        volume: num(49.0),
    }
}

fn sample() -> Vec<Bar> {
    vec![
        bar("t0", 102.0),
        bar("t1", 104.0),
        bar("t2", 103.0),
        bar("t3", 105.0),
        bar("t4", 106.0),
    ]
}

fn tick(timestamp: &str, price: f32, volume: u64) -> Tick {
    Tick {
        timestamp: timestamp.to_string(),
        symbol: "ES".to_string(),
        price: num(price),
        volume: num(volume as f32),
    }
}

#[test]
fn series_keeps_what_it_is_given() {
    let series = Series::new("ES".to_string(), Resolution::TICK, Interval::T343, sample());
    assert_eq!(series.symbol, "ES");
    assert_eq!(series.resolution, Resolution::TICK);
    assert_eq!(series.interval, Interval::T343);
    assert_eq!(series.data, sample());
    assert_eq!(series.len(), 5);
    assert!(!series.is_empty());
    let empty = Series::new("ES".to_string(), Resolution::TICK, Interval::T49, Vec::new());
    assert_eq!(empty.len(), 0);
    assert!(empty.is_empty());
}

#[test]
fn enhancing_with_no_requests_gives_an_empty_list() {
    let series = Series::new("ES".to_string(), Resolution::TICK, Interval::T49, sample());
    let enhanced = series.enhance_with(&Vec::new());
    assert_eq!(enhanced.symbol, "ES");
    assert_eq!(enhanced.resolution, Resolution::TICK);
    assert_eq!(enhanced.interval, Interval::T49);
    assert_eq!(enhanced.data, sample());
    assert_eq!(enhanced.indicators.map(|list| list.len()), Some(0));
}

#[test]
fn an_unknown_indicator_comes_back_empty_beside_the_others() {
    let series = Series::new("ES".to_string(), Resolution::TICK, Interval::T49, sample());
    let requests = vec![
        Indicators::SMA(2),
        Indicators::Unknown("bogus".to_string()),
        Indicators::XAverage(3),
        Indicators::TMA(2),
        Indicators::AMA(2, 2, 5),
    ];
    let enhanced = series.enhance_with(&requests);
    let list = enhanced.indicators.unwrap();
    assert_eq!(list.len(), 5);
    assert_eq!(list[0].name, "sma");
    assert_eq!(plain(&list[0].params), vec![2.0]);
    assert_eq!(values(&list[0].data), vec![0.0, 103.0, 103.5, 104.0, 105.5]);
    assert_eq!(list[1].name, "bogus");
    assert!(list[1].params.is_empty());
    assert!(list[1].data.is_empty());
    assert_eq!(list[2].name, "xaverage");
    assert_eq!(plain(&list[2].params), vec![3.0]);
    assert_eq!(values(&list[2].data), vec![102.0, 103.0, 103.0, 104.0, 105.0]);
    assert_eq!(list[3].name, "tma");
    assert_eq!(values(&list[3].data), vec![0.0, 0.0, 103.25, 103.75, 104.75]);
    assert_eq!(list[4].name, "ama");
    assert_eq!(plain(&list[4].params), vec![2.0, 2.0, 5.0]);
    assert_eq!(
        values(&list[4].data),
        vec![102.0, 102.888885, 102.910835, 103.32351, 104.51306]
    );
}

#[test]
fn only_tick_resolution_is_built() {
    let ticks = vec![tick("t0", 1.0, 49), tick("t1", 2.0, 49)];
    for resolution in [Resolution::MINUTE, Resolution::HOUR, Resolution::DAY] {
        let r = enhanced_series(&"ES".to_string(), &resolution, &Interval::T49, &ticks, &None);
        assert_eq!(r.err(), Some(SeriesError::UnsupportedResolution));
    }
    let none: Vec<Tick> = Vec::new();
    let r = enhanced_series(&"ES".to_string(), &Resolution::DAY, &Interval::T49, &none, &None);
    assert_eq!(r.err(), Some(SeriesError::UnsupportedResolution));
}

#[test]
fn no_ticks_are_no_data() {
    let none: Vec<Tick> = Vec::new();
    let r = enhanced_series(&"ES".to_string(), &Resolution::TICK, &Interval::T49, &none, &None);
    assert_eq!(r.err(), Some(SeriesError::NoDataFound));
}

#[test]
fn ticks_become_an_enhanced_series() {
    let ticks = vec![
        tick("t0", 100.0, 0),
        tick("t1", 102.0, 49),
        tick("t2", 104.0, 49),
        tick("t3", 103.0, 49),
        tick("t4", 105.0, 49),
        tick("t5", 106.0, 49),
    ];
    let requests = Some(vec![Indicators::SMA(2), Indicators::Unknown("bogus".to_string())]);
    let series = enhanced_series(
        &"ES".to_string(),
        &Resolution::TICK,
        &Interval::T49,
        &ticks,
        &requests,
    )
    .unwrap();
    assert_eq!(series.symbol, "ES");
    assert_eq!(series.resolution, Resolution::TICK);
    assert_eq!(series.interval, Interval::T49);
    assert_eq!(series.data.len(), 5);
    let closes: Vec<f32> = series.data.iter().map(|b| val(b.close)).collect();
    assert_eq!(closes, vec![102.0, 104.0, 103.0, 105.0, 106.0]);
    let list = series.indicators.unwrap();
    assert_eq!(list.len(), 2);
    assert_eq!(values(&list[0].data), vec![0.0, 103.0, 103.5, 104.0, 105.5]);
    assert_eq!(list[1].name, "bogus");
    assert!(list[1].data.is_empty());

    let series = enhanced_series(&"ES".to_string(), &Resolution::TICK, &Interval::T49, &ticks, &None)
        .unwrap();
    assert_eq!(series.indicators.map(|list| list.len()), Some(0));
}

#[test]
fn one_tick_gives_a_series_without_bars() {
    let ticks = vec![tick("t0", 100.0, 4900)];
    let requests = Some(vec![Indicators::SMA(2)]);
    let series = enhanced_series(
        &"ES".to_string(),
        &Resolution::TICK,
        &Interval::T49,
        &ticks,
        &requests,
    )
    .unwrap();
    assert!(series.data.is_empty());
    let list = series.indicators.unwrap();
    assert_eq!(list.len(), 1);
    assert!(list[0].data.is_empty());
}

#[test]
fn error_texts() {
    assert_eq!(describe(SeriesError::NoDataFound), "No data found");
    assert_eq!(
        describe(SeriesError::UnsupportedResolution),
        "Unsupported resolution type"
    );
}

#[test]
fn table_names_are_lower_case() {
    assert_eq!(get_table_name(&"CME".to_string(), &Resolution::TICK), "cme_tick");
    assert_eq!(get_table_name(&"Nyse".to_string(), &Resolution::MINUTE), "nyse_minute");
    assert_eq!(get_table_name(&"x".to_string(), &Resolution::HOUR), "x_hour");
    assert_eq!(get_table_name(&"".to_string(), &Resolution::DAY), "_day");
}

#[test]
fn tick_queries() {
    assert_eq!(
        tick_query(
            &"esz4".to_string(),
            &"CME".to_string(),
            &"2023-01-01 00:00:00".to_string(),
            &None
        ),
        "SELECT * FROM cme_tick WHERE symbol = 'ESZ4' AND timestamp >= '2023-01-01 00:00:00'"
    );
    assert_eq!(
        tick_query(
            &"esz4".to_string(),
            &"CME".to_string(),
            &"2023-01-01 00:00:00".to_string(),
            &Some("2023-01-02 00:00:00".to_string())
        ),
        "SELECT * FROM cme_tick WHERE symbol = 'ESZ4' AND timestamp >= '2023-01-01 00:00:00' AND timestamp <= '2023-01-02 00:00:00'"
    );
}

#[test]
fn resolution_names() {
    assert_eq!(Resolution::TICK.name(), "TICK");
    assert_eq!(Resolution::MINUTE.name(), "MINUTE");
    assert_eq!(Resolution::HOUR.name(), "HOUR");
    assert_eq!(Resolution::DAY.name(), "DAY");
    assert_eq!(Resolution::TICK.lower_name(), "tick");
    assert_eq!(Resolution::MINUTE.lower_name(), "minute");
    assert_eq!(Resolution::HOUR.lower_name(), "hour");
    assert_eq!(Resolution::DAY.lower_name(), "day");
}

#[test]
fn symbol_type_names() {
    assert_eq!(SymbolType::BOND.name(), "BOND");
    assert_eq!(SymbolType::CRYPTO.name(), "CRYPTO");
    assert_eq!(SymbolType::FUTURES.name(), "FUTURES");
    assert_eq!(SymbolType::WARRANT.name(), "WARRANT");
    for t in [
        SymbolType::BOND,
        SymbolType::CFD,
        SymbolType::COMMODITY,
        SymbolType::CRYPTO,
        SymbolType::DR,
        SymbolType::ECONOMIC,
        SymbolType::EQUITY,
        SymbolType::FOREX,
        SymbolType::FUND,
        SymbolType::FUNDAMENTAL,
        SymbolType::FUTURES,
        SymbolType::INDEX,
        SymbolType::OPTION,
        SymbolType::RIGHT,
        SymbolType::SPOT,
        SymbolType::SPREAD,
        SymbolType::STOCK,
        SymbolType::STRUCTURED,
        SymbolType::SWAP,
        SymbolType::WARRANT,
    ] {
        assert_eq!(t.name(), format!("{:?}", t));
    }
}

#[test]
fn bars_or_no_data() {
    let none: Vec<Tick> = Vec::new();
    assert_eq!(
        bars_from_ticks(&none, &Interval::T49).err(),
        Some(SeriesError::NoDataFound)
    );
    let ticks = vec![tick("t0", 1.0, 10), tick("t1", 2.0, 39)];
    let bars = bars_from_ticks(&ticks, &Interval::T49).ok().unwrap().data;
    assert_eq!(bars.len(), 1);
    assert_eq!(bars[0].timestamp, "t1");
    assert_eq!(val(bars[0].open), 1.0);
    assert_eq!(val(bars[0].close), 2.0);
    assert_eq!(val(bars[0].volume), 49.0);
    let ticks = vec![tick("t0", 1.0, 10)];
    assert!(bars_from_ticks(&ticks, &Interval::T49).ok().unwrap().data.is_empty());
}
