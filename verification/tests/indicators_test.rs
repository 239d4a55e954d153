use waveseekers::binary32::Binary32;
use waveseekers::domain::calculate;
use waveseekers::domain::requests;
use waveseekers::domain::Bar;
use waveseekers::domain::Calculation;
use waveseekers::domain::Indicators;
use waveseekers::indicators::XAverage;
use waveseekers::indicators::AMA;
use waveseekers::indicators::SMA;
use waveseekers::indicators::TMA;

fn num(x: f32) -> Binary32 {
    Binary32::from_bits(x.to_bits())
}

fn val(b: Binary32) -> f32 {
    f32::from_bits(b.to_bits())
}

fn bar(timestamp: &str, open: f32, high: f32, low: f32, close: f32) -> Bar {
    Bar {
        timestamp: timestamp.to_string(),
        open: num(open),
        high: num(high),
        low: num(low),
        close: num(close),
        volume: num(49.0),
    }
}

fn sample() -> Vec<Bar> {
    vec![
        bar("2023-01-01T00:00:00Z", 100.0, 105.0, 95.0, 102.0),
        bar("2023-01-01T00:01:00Z", 102.0, 106.0, 98.0, 104.0),
        bar("2023-01-01T00:02:00Z", 104.0, 107.0, 99.0, 103.0),
        bar("2023-01-01T00:03:00Z", 103.0, 108.0, 100.0, 105.0),
        bar("2023-01-01T00:04:00Z", 103.0, 107.0, 100.0, 106.0),
    ]
}

fn values(data: &std::collections::VecDeque<Binary32>) -> Vec<f32> {
    data.iter().map(|b| val(*b)).collect()
}

#[test]
fn test_calculate_adaptive_moving_average() {
    let ama = AMA {};
    let data = sample();
    let er_period = 2;
    let fast_period = 2;
    let slow_period = 5;
    let result = ama.calculate_adaptive_moving_average(&data, er_period, fast_period, slow_period);

    assert_eq!(result.len(), 5);
    assert_eq!(val(result[0]), 102.0);
    assert_eq!(val(result[1]), 102.888885);
    assert_eq!(val(result[2]), 102.910835);
    assert_eq!(val(result[3]), 103.32351);
    assert_eq!(val(result[4]), 104.51306);
}

#[test]
fn test_calculate_simple_moving_average() {
    let sma = SMA;
    let data = sample();

    let result = sma.calculate_simple_moving_average(&data, 2);
    assert_eq!(result.len(), data.len());
    assert_eq!(val(result[0]), 0.0);
    assert_eq!(val(result[1]), (102.0 + 104.0) / 2.0); // 103.0
    assert_eq!(val(result[2]), (104.0 + 103.0) / 2.0); // 103.5
    assert_eq!(val(result[3]), (103.0 + 105.0) / 2.0); // 104.0
    assert_eq!(val(result[4]), (105.0 + 106.0) / 2.0); // 105.5
}

#[test]
fn test_calculate_tri_average() {
    let tma = TMA;
    let data = sample();

    let result = tma.calculate_tri_average(&data, 2);
    assert_eq!(result.len(), data.len());
    assert_eq!(val(result[0]), 0.0);
    assert_eq!(val(result[1]), 0.0);
    assert_eq!(val(result[2]), 103.25);
    assert_eq!(val(result[3]), 103.75);
    assert_eq!(val(result[4]), 104.75);

    let result = tma.calculate_tri_average(&data, 3);
    assert_eq!(result.len(), data.len());
    assert_eq!(val(result[0]), 0.0);
    assert_eq!(val(result[1]), 0.0);
    assert_eq!(val(result[2]), 0.0);
    assert_eq!(val(result[3]), 0.0);
    assert_eq!(val(result[4]), 103.888889);
}

#[test]
fn test_xaverage() {
    let xavg = XAverage;
    let data = sample();

    let result = xavg.calculate_xaverage(&data, 3);
    assert_eq!(result.len(), data.len());
    assert_eq!(val(result[0]), val(data[0].close));
    assert_eq!(val(result[1]), 103.0);
    assert_eq!(val(result[2]), 103.0);
    assert_eq!(val(result[3]), 104.0);
    assert_eq!(val(result[4]), 105.0);
}

#[test]
fn sma_period_two_whole_sequence() {
    let result = SMA.calculate_simple_moving_average(&sample(), 2);
    assert_eq!(values(&result), vec![0.0, 103.0, 103.5, 104.0, 105.5]);
}

#[test]
fn sma_leading_values_are_positive_zero_bits() {
    let result = SMA.calculate_simple_moving_average(&sample(), 4);
    assert_eq!(result.len(), 5);
    for i in 0..3 {
        assert_eq!(result[i].to_bits(), 0);
    }
    assert_eq!(val(result[3]), (102.0 + 104.0 + 103.0 + 105.0) / 4.0);
    assert_eq!(val(result[4]), (104.0 + 103.0 + 105.0 + 106.0) / 4.0);
}

#[test]
fn sma_period_longer_than_the_data_is_all_zero() {
    let result = SMA.calculate_simple_moving_average(&sample(), 9);
    assert_eq!(values(&result), vec![0.0; 5]);
}

#[test]
fn period_zero_is_all_zero() {
    assert_eq!(values(&SMA.calculate_simple_moving_average(&sample(), 0)), vec![0.0; 5]);
    assert_eq!(values(&TMA.calculate_tri_average(&sample(), 0)), vec![0.0; 5]);
}

#[test]
fn period_one_averages_are_the_closes() {
    let closes = vec![102.0, 104.0, 103.0, 105.0, 106.0];
    assert_eq!(values(&SMA.calculate_simple_moving_average(&sample(), 1)), closes);
    assert_eq!(values(&TMA.calculate_tri_average(&sample(), 1)), closes);
    assert_eq!(values(&XAverage.calculate_xaverage(&sample(), 1)), closes);
}

#[test]
fn tma_whole_sequences() {
    let result = TMA.calculate_tri_average(&sample(), 2);
    assert_eq!(values(&result), vec![0.0, 0.0, 103.25, 103.75, 104.75]);
    let result = TMA.calculate_tri_average(&sample(), 3);
    assert_eq!(values(&result), vec![0.0, 0.0, 0.0, 0.0, 103.888889]);
}

#[test]
fn xaverage_whole_sequence() {
    let result = XAverage.calculate_xaverage(&sample(), 3);
    assert_eq!(values(&result), vec![102.0, 103.0, 103.0, 104.0, 105.0]);
}

#[test]
fn ama_whole_sequence() {
    let result = AMA.calculate_adaptive_moving_average(&sample(), 2, 2, 5);
    assert_eq!(
        values(&result),
        vec![102.0, 102.888885, 102.910835, 103.32351, 104.51306]
    );
}

#[test]
fn ama_follows_the_streaming_formula() {
    let closes: Vec<f32> = vec![10.0, 10.5, 10.25, 11.0, 10.75, 12.0, 12.5];
    let data: Vec<Bar> = closes.iter().map(|c| bar("t", *c, *c, *c, *c)).collect();
    let n = 3usize;
    let fastest = 2.0f32 / (2.0 + 1.0);
    let slowest = 2.0f32 / (30.0 + 1.0);
    let mut expected = vec![closes[0]];
    let mut changes = vec![0.0f32];
    for i in 1..closes.len() {
        changes.push((closes[i] - closes[i - 1]).abs());
        let er = if i + 1 >= n {
            let mut volatility = 0.0f32;
            for k in (i + 1 - n)..=i {
                volatility = volatility + changes[k];
            }
            let back = if i >= n { i - n } else { 0 };
            if volatility != 0.0 {
                (closes[i] - closes[back]).abs() / volatility
            } else {
                0.0
            }
        } else {
            0.0
        };
        let blend = er * (fastest - slowest) + slowest;
        let sc = blend * blend;
        let prev = expected[i - 1];
        expected.push(prev + sc * (closes[i] - prev));
    }
    let result = AMA.calculate_adaptive_moving_average(&data, n, 2, 30);
    assert_eq!(values(&result), expected);
}

#[test]
fn ama_on_flat_prices_stays_flat() {
    let data: Vec<Bar> = (0..6).map(|_| bar("t", 5.0, 5.0, 5.0, 5.0)).collect();
    let result = AMA.calculate_adaptive_moving_average(&data, 2, 2, 30);
    assert_eq!(values(&result), vec![5.0; 6]);
}

#[test]
fn ama_with_no_efficiency_window_uses_the_slowest_factor() {
    let data = sample();
    let result = AMA.calculate_adaptive_moving_average(&data, 0, 2, 5);
    let slowest = 2.0f32 / (5.0 + 1.0);
    let sc = slowest * slowest;
    let mut prev = 102.0f32;
    let mut expected = vec![prev];
    for c in [104.0f32, 103.0, 105.0, 106.0] {
        prev = prev + sc * (c - prev);
        expected.push(prev);
    }
    assert_eq!(values(&result), expected);
}

#[test]
fn indicators_on_no_bars_are_empty() {
    let none: Vec<Bar> = Vec::new();
    assert_eq!(SMA.calculate_simple_moving_average(&none, 2).len(), 0);
    assert_eq!(TMA.calculate_tri_average(&none, 2).len(), 0);
    assert_eq!(XAverage.calculate_xaverage(&none, 2).len(), 0);
    assert_eq!(AMA.calculate_adaptive_moving_average(&none, 2, 2, 5).len(), 0);
}

#[test]
fn first_value_of_ama_and_xaverage_is_the_first_close() {
    let data = sample();
    for period in [0usize, 1, 2, 9, 100] {
        assert_eq!(XAverage.calculate_xaverage(&data, period)[0], data[0].close);
        assert_eq!(
            AMA.calculate_adaptive_moving_average(&data, period, 2, 30)[0],
            data[0].close
        );
    }
}

#[test]
fn recomputing_gives_the_same_bits() {
    let data = sample();
    let again = sample();
    assert_eq!(
        SMA.calculate_simple_moving_average(&data, 3),
        SMA.calculate_simple_moving_average(&again, 3)
    );
    assert_eq!(
        TMA.calculate_tri_average(&data, 2),
        TMA.calculate_tri_average(&again, 2)
    );
    assert_eq!(
        XAverage.calculate_xaverage(&data, 4),
        XAverage.calculate_xaverage(&again, 4)
    );
    assert_eq!(
        AMA.calculate_adaptive_moving_average(&data, 2, 2, 5),
        AMA.calculate_adaptive_moving_average(&again, 2, 2, 5)
    );
}

#[test]
fn calculators_take_defaults_for_missing_parameters() {
    let data: Vec<Bar> = (0..40)
        .map(|i| {
            let c = 100.0 + (i % 7) as f32;
            bar("t", c, c, c, c)
        })
        .collect();
    let none: Vec<Binary32> = Vec::new();
    assert_eq!(
        SMA.calculate(&data, &none),
        SMA.calculate_simple_moving_average(&data, 14)
    );
    assert_eq!(TMA.calculate(&data, &none), TMA.calculate_tri_average(&data, 9));
    assert_eq!(
        XAverage.calculate(&data, &none),
        XAverage.calculate_xaverage(&data, 9)
    );
    assert_eq!(
        AMA.calculate(&data, &none),
        AMA.calculate_adaptive_moving_average(&data, 10, 2, 30)
    );
    let some = vec![num(3.0)];
    assert_eq!(
        AMA.calculate(&data, &some),
        AMA.calculate_adaptive_moving_average(&data, 3, 2, 30)
    );
    assert_eq!(
        SMA.calculate(&data, &some),
        SMA.calculate_simple_moving_average(&data, 3)
    );
}

#[test]
fn dispatch_by_name() {
    let data = sample();
    let two = vec![num(2.0)];
    assert_eq!(
        values(&calculate("sma", &data, &two)),
        vec![0.0, 103.0, 103.5, 104.0, 105.5]
    );
    assert_eq!(
        values(&calculate("tma", &data, &two)),
        vec![0.0, 0.0, 103.25, 103.75, 104.75]
    );
    assert_eq!(
        values(&calculate("xaverage", &data, &vec![num(3.0)])),
        vec![102.0, 103.0, 103.0, 104.0, 105.0]
    );
    assert_eq!(
        values(&calculate("ama", &data, &vec![num(2.0), num(2.0), num(5.0)])),
        vec![102.0, 102.888885, 102.910835, 103.32351, 104.51306]
    );
    assert_eq!(calculate("bogus", &data, &two).len(), 0);
    assert_eq!(calculate("SMA", &data, &two).len(), 0);
    assert_eq!(calculate("", &data, &two).len(), 0);
}

#[test]
fn request_names_and_parameters() {
    assert_eq!(Indicators::AMA(10, 2, 30).name(), "ama");
    assert_eq!(Indicators::SMA(14).name(), "sma");
    assert_eq!(Indicators::TMA(9).name(), "tma");
    assert_eq!(Indicators::XAverage(9).name(), "xaverage");
    assert_eq!(Indicators::Unknown("bogus".to_string()).name(), "bogus");
    assert_eq!(
        Indicators::AMA(10, 2, 30).params(),
        vec![num(10.0), num(2.0), num(30.0)]
    );
    assert_eq!(Indicators::SMA(14).params(), vec![num(14.0)]);
    assert_eq!(Indicators::TMA(9).params(), vec![num(9.0)]);
    assert_eq!(Indicators::XAverage(7).params(), vec![num(7.0)]);
    assert_eq!(Indicators::Unknown("bogus".to_string()).params(), vec![]);
}

#[test]
fn requests_from_names_take_defaults() {
    let none: Vec<Binary32> = Vec::new();
    assert!(matches!(Indicators::from(("ama", &none)), Indicators::AMA(10, 2, 30)));
    assert!(matches!(Indicators::from(("sma", &none)), Indicators::SMA(14)));
    assert!(matches!(Indicators::from(("tma", &none)), Indicators::TMA(9)));
    assert!(matches!(Indicators::from(("xaverage", &none)), Indicators::XAverage(9)));
    let partial = vec![num(5.0), num(3.0)];
    assert!(matches!(Indicators::from(("ama", &partial)), Indicators::AMA(5, 3, 30)));
    assert!(matches!(Indicators::from(("sma", &partial)), Indicators::SMA(5)));
    let fraction = vec![num(7.9), num(-1.0), num(f32::NAN)];
    assert!(matches!(Indicators::from(("ama", &fraction)), Indicators::AMA(7, 0, 0)));
    match Indicators::from(("bogus", &partial)) {
        Indicators::Unknown(name) => assert_eq!(name, "bogus"),
        other => panic!("{:?}", other),
    }
}

#[test]
fn requests_keep_the_order_of_the_names() {
    let entries = vec![
        ("tma".to_string(), vec![num(4.0)]),
        ("bogus".to_string(), vec![num(1.0)]),
        ("ama".to_string(), vec![]),
        ("sma".to_string(), vec![num(2.5)]),
    ];
    let list = requests(&entries);
    assert_eq!(list.len(), 4);
    assert!(matches!(list[0], Indicators::TMA(4)));
    assert!(matches!(&list[1], Indicators::Unknown(name) if name == "bogus"));
    assert!(matches!(list[2], Indicators::AMA(10, 2, 30)));
    assert!(matches!(list[3], Indicators::SMA(2)));
    assert!(requests(&Vec::new()).is_empty());
}
