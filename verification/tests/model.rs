use stockwatch::model::{RawStock, Stock};

// All scaled Quote fields are stored in thousandths of the displayed
// value: 123000 thousandths is a displayed 123.0.
fn raw_with_all_fields(mkt: u64) -> RawStock {
    RawStock {
        code: "00700".to_string(),
        mkt,
        title: "Tencent".to_string(),
        price: Some(123000),
        percent: Some(250),
        change: Some(500),
        vol: Some(0),
        amount: Some(0),
        amplitude: Some(300),
        turnover: Some(150),
        pe: Some(200),
        ratio: Some(110),
        min_5_pct: Some(120),
        high: Some(124000),
        low: Some(122000),
        open: Some(121000),
        yestclose: Some(120000),
        total_value: Some(0),
        cur_value: Some(0),
        speed: Some(80),
        pb: Some(90),
        pct_60d: Some(100),
        pct_ytd: Some(200),
    }
}

#[test]
fn raw_stock_scaling_divisor_1000_for_hk() {
    let raw = raw_with_all_fields(116);
    let stock = Stock::from(raw);
    // price 123000 / 1000 = 123.0
    assert_eq!(stock.price, 123_000);
    // change 500 / 1000 = 0.5
    assert_eq!(stock.change, 500);
    // percent 250 / 100 = 2.5
    assert_eq!(stock.percent, 2_500);
    // amplitude 300 / 100 = 3.0
    assert_eq!(stock.amplitude, 3_000);
}

#[test]
fn raw_stock_scaling_divisor_100_for_shanghai() {
    let raw = raw_with_all_fields(1);
    let stock = Stock::from(raw);
    // price 123000 / 100 = 1230.0
    assert_eq!(stock.price, 1_230_000);
    // change 500 / 100 = 5.0
    assert_eq!(stock.change, 5_000);
    // percent divisor stays 100 regardless of market
    assert_eq!(stock.percent, 2_500);
}

#[test]
fn raw_stock_us_and_uk_use_divisor_1000() {
    for mkt in [105u64, 106, 107, 155] {
        let stock = Stock::from(raw_with_all_fields(mkt));
        assert_eq!(stock.price, 123_000);
    }
    for mkt in [0u64, 104, 108, 116 - 1, 156] {
        let stock = Stock::from(raw_with_all_fields(mkt));
        assert_eq!(stock.price, 1_230_000);
    }
}

#[test]
fn raw_stock_absent_fields_normalize_to_zero() {
    let raw = RawStock {
        code: "600519".to_string(),
        mkt: 1,
        title: "Moutai".to_string(),
        price: None,
        percent: None,
        change: None,
        vol: None,
        amount: None,
        amplitude: None,
        turnover: None,
        pe: None,
        ratio: None,
        min_5_pct: None,
        high: None,
        low: None,
        open: None,
        yestclose: None,
        total_value: None,
        cur_value: None,
        speed: None,
        pb: None,
        pct_60d: None,
        pct_ytd: None,
    };
    let stock = Stock::from(raw);
    assert_eq!(stock.price, 0);
    assert_eq!(stock.percent, 0);
    assert_eq!(stock.vol, 0);
    assert_eq!(stock.pct_ytd, 0);
    assert_eq!(stock.code, "600519".to_string());
    assert_eq!(stock.title, "Moutai".to_string());
}

#[test]
fn raw_stock_volume_passes_through_unscaled() {
    let mut raw = raw_with_all_fields(116);
    raw.vol = Some(777);
    raw.amount = Some(888);
    raw.total_value = Some(999);
    raw.cur_value = Some(111);
    let stock = Stock::from(raw);
    // a pass-through unit is one whole displayed unit
    assert_eq!(stock.vol, 777_000);
    assert_eq!(stock.amount, 888_000);
    assert_eq!(stock.total_value, 999_000);
    assert_eq!(stock.cur_value, 111_000);
}

#[test]
fn placeholder_stock_is_zero_valued_and_keyed_by_code() {
    let s = Stock::new("x105.NVDA");
    assert_eq!(s.code, "x105.NVDA".to_string());
    assert_eq!(s.title, "x105.NVDA".to_string());
    assert_eq!(s.price, 0);
    assert_eq!(s.percent, 0);
}
