//! The canonical quote model and the market-dependent normalization of
//! raw provider records.
//!
//! The provider encodes every numeric field as a fixed-point integer
//! whose scale depends on the instrument's market. To stay exact, the
//! canonical [`Stock`] stores each scaled field in thousandths of a unit
//! (a displayed price of `123.0` is stored as `123000`); the divisor
//! rule below is the only place where raw provider units are turned into
//! canonical thousandths.

use vstd::prelude::*;

verus! {

/// Canonical market snapshot for one instrument.
///
/// `code` is the code the value was created with (for a user entry, the
/// user's own spelling; for a fetched quote, the provider's canonical
/// spelling). Every numeric field holds thousandths of the displayed
/// value, with the market-dependent divisor already applied.
#[derive(Debug)]
pub struct Stock {
    /// Instrument code, never overwritten by provider data.
    pub code: String,
    /// Display title; defaults to the code before the first fetch.
    pub title: String,
    /// Current price.
    pub price: i128,
    /// Percent change.
    pub percent: i128,
    /// Absolute change.
    pub change: i128,
    /// Amplitude.
    pub amplitude: i128,
    /// Opening price.
    pub open: i128,
    /// Previous close.
    pub yestclose: i128,
    /// Day high.
    pub high: i128,
    /// Day low.
    pub low: i128,
    /// Volume, unscaled provider units.
    pub vol: i128,
    /// Turnover value, unscaled provider units.
    pub amount: i128,
    /// Turnover rate.
    pub turnover: i128,
    /// Price/earnings ratio.
    pub pe: i128,
    /// Price/book ratio.
    pub pb: i128,
    /// Volume ratio.
    pub ratio: i128,
    /// Five-minute percent change.
    pub min_5_pct: i128,
    /// Total market value, unscaled provider units.
    pub total_value: i128,
    /// Circulating market value, unscaled provider units.
    pub cur_value: i128,
    /// Price speed.
    pub speed: i128,
    /// Sixty-day percent change.
    pub pct_60d: i128,
    /// Year-to-date percent change.
    pub pct_ytd: i128,
}

/// Wire-format record for one instrument, mirroring the provider's
/// field-coded JSON object. Numeric fields are the provider's raw
/// fixed-point integers; `None` stands for an absent or null field.
#[derive(Debug)]
pub struct RawStock {
    /// Provider code (field `f12`).
    pub code: String,
    /// Market code (field `f13`).
    pub mkt: u64,
    /// Title (field `f14`).
    pub title: String,
    /// Raw price (`f2`).
    pub price: Option<i64>,
    /// Raw percent change (`f3`).
    pub percent: Option<i64>,
    /// Raw absolute change (`f4`).
    pub change: Option<i64>,
    /// Raw volume (`f5`).
    pub vol: Option<i64>,
    /// Raw turnover value (`f6`).
    pub amount: Option<i64>,
    /// Raw amplitude (`f7`).
    pub amplitude: Option<i64>,
    /// Raw turnover rate (`f8`).
    pub turnover: Option<i64>,
    /// Raw price/earnings ratio (`f9`).
    pub pe: Option<i64>,
    /// Raw volume ratio (`f10`).
    pub ratio: Option<i64>,
    /// Raw five-minute percent change (`f11`).
    pub min_5_pct: Option<i64>,
    /// Raw day high (`f15`).
    pub high: Option<i64>,
    /// Raw day low (`f16`).
    pub low: Option<i64>,
    /// Raw opening price (`f17`).
    pub open: Option<i64>,
    /// Raw previous close (`f18`).
    pub yestclose: Option<i64>,
    /// Raw total market value (`f20`).
    pub total_value: Option<i64>,
    /// Raw circulating market value (`f21`).
    pub cur_value: Option<i64>,
    /// Raw price speed (`f22`).
    pub speed: Option<i64>,
    /// Raw price/book ratio (`f23`).
    pub pb: Option<i64>,
    /// Raw sixty-day percent change (`f24`).
    pub pct_60d: Option<i64>,
    /// Raw year-to-date percent change (`f25`).
    pub pct_ytd: Option<i64>,
}

/// The market-dependent price divisor: Hong Kong (`116`), the US
/// segments (`105..=107`) and the UK (`155`) encode price-like fields in
/// thousandths; every other market encodes them in hundredths. Keyed on
/// the raw market code alone, never on the requested prefix.
pub open spec fn spec_price_divisor(mkt: u64) -> int {
    if mkt == 116 || (105 <= mkt && mkt <= 107) || mkt == 155 {
        1000
    } else {
        100
    }
}

/// An absent or null raw field counts as zero.
pub open spec fn spec_raw_or_zero(v: Option<i64>) -> int {
    match v {
        Some(x) => x as int,
        None => 0,
    }
}

/// A raw field scaled by `divisor`, expressed in thousandths of the
/// resulting value: `raw / divisor` equals `spec_scaled(v, divisor)`
/// thousandths exactly, for the divisors 100 and 1000 used here.
pub open spec fn spec_scaled(v: Option<i64>, divisor: int) -> int
    recommends
        divisor == 100 || divisor == 1000,
{
    spec_raw_or_zero(v) * (1000int / divisor)
}

/// The canonical quote that normalizing `raw` must produce: price-like
/// fields use the market divisor, percentage-like fields a fixed divisor
/// of 100, and volume-like fields pass through unscaled (a pass-through
/// raw unit is one whole unit, so one thousand thousandths).
pub open spec fn spec_normalized(raw: RawStock) -> Stock {
    let d = spec_price_divisor(raw.mkt);
    Stock {
        code: raw.code,
        title: raw.title,
        price: spec_scaled(raw.price, d) as i128,
        percent: spec_scaled(raw.percent, 100) as i128,
        change: spec_scaled(raw.change, d) as i128,
        amplitude: spec_scaled(raw.amplitude, 100) as i128,
        open: spec_scaled(raw.open, d) as i128,
        yestclose: spec_scaled(raw.yestclose, d) as i128,
        high: spec_scaled(raw.high, d) as i128,
        low: spec_scaled(raw.low, d) as i128,
        vol: (spec_raw_or_zero(raw.vol) * 1000) as i128,
        amount: (spec_raw_or_zero(raw.amount) * 1000) as i128,
        turnover: spec_scaled(raw.turnover, 100) as i128,
        pe: spec_scaled(raw.pe, 100) as i128,
        pb: spec_scaled(raw.pb, 100) as i128,
        ratio: spec_scaled(raw.ratio, 100) as i128,
        min_5_pct: spec_scaled(raw.min_5_pct, 100) as i128,
        total_value: (spec_raw_or_zero(raw.total_value) * 1000) as i128,
        cur_value: (spec_raw_or_zero(raw.cur_value) * 1000) as i128,
        speed: spec_scaled(raw.speed, 100) as i128,
        pct_60d: spec_scaled(raw.pct_60d, 100) as i128,
        pct_ytd: spec_scaled(raw.pct_ytd, 100) as i128,
    }
}

/// The view-level content of one raw record: what a [`RawStock`] holds,
/// with its text fields as character sequences. Contracts about parsed
/// provider responses are stated over this.
pub struct RawStockModel {
    /// Provider code (field `f12`).
    pub code: Seq<char>,
    /// Market code (field `f13`).
    pub mkt: u64,
    /// Title (field `f14`).
    pub title: Seq<char>,
    /// Raw price (`f2`).
    pub price: Option<i64>,
    /// Raw percent change (`f3`).
    pub percent: Option<i64>,
    /// Raw absolute change (`f4`).
    pub change: Option<i64>,
    /// Raw volume (`f5`).
    pub vol: Option<i64>,
    /// Raw turnover value (`f6`).
    pub amount: Option<i64>,
    /// Raw amplitude (`f7`).
    pub amplitude: Option<i64>,
    /// Raw turnover rate (`f8`).
    pub turnover: Option<i64>,
    /// Raw price/earnings ratio (`f9`).
    pub pe: Option<i64>,
    /// Raw volume ratio (`f10`).
    pub ratio: Option<i64>,
    /// Raw five-minute percent change (`f11`).
    pub min_5_pct: Option<i64>,
    /// Raw day high (`f15`).
    pub high: Option<i64>,
    /// Raw day low (`f16`).
    pub low: Option<i64>,
    /// Raw opening price (`f17`).
    pub open: Option<i64>,
    /// Raw previous close (`f18`).
    pub yestclose: Option<i64>,
    /// Raw total market value (`f20`).
    pub total_value: Option<i64>,
    /// Raw circulating market value (`f21`).
    pub cur_value: Option<i64>,
    /// Raw price speed (`f22`).
    pub speed: Option<i64>,
    /// Raw price/book ratio (`f23`).
    pub pb: Option<i64>,
    /// Raw sixty-day percent change (`f24`).
    pub pct_60d: Option<i64>,
    /// Raw year-to-date percent change (`f25`).
    pub pct_ytd: Option<i64>,
}

/// The view-level content of a raw record value.
pub open spec fn spec_raw_view(raw: RawStock) -> RawStockModel {
    RawStockModel {
        code: raw.code@,
        mkt: raw.mkt,
        title: raw.title@,
        price: raw.price,
        percent: raw.percent,
        change: raw.change,
        vol: raw.vol,
        amount: raw.amount,
        amplitude: raw.amplitude,
        turnover: raw.turnover,
        pe: raw.pe,
        ratio: raw.ratio,
        min_5_pct: raw.min_5_pct,
        high: raw.high,
        low: raw.low,
        open: raw.open,
        yestclose: raw.yestclose,
        total_value: raw.total_value,
        cur_value: raw.cur_value,
        speed: raw.speed,
        pb: raw.pb,
        pct_60d: raw.pct_60d,
        pct_ytd: raw.pct_ytd,
    }
}

/// `s` is exactly the canonical quote for the record content `rm`: the
/// divisor rule of [`spec_normalized`], stated field by field at view
/// level.
pub open spec fn spec_normalized_from(s: Stock, rm: RawStockModel) -> bool {
    let d = spec_price_divisor(rm.mkt);
    &&& s.code@ == rm.code
    &&& s.title@ == rm.title
    &&& s.price == spec_scaled(rm.price, d) as i128
    &&& s.percent == spec_scaled(rm.percent, 100) as i128
    &&& s.change == spec_scaled(rm.change, d) as i128
    &&& s.amplitude == spec_scaled(rm.amplitude, 100) as i128
    &&& s.open == spec_scaled(rm.open, d) as i128
    &&& s.yestclose == spec_scaled(rm.yestclose, d) as i128
    &&& s.high == spec_scaled(rm.high, d) as i128
    &&& s.low == spec_scaled(rm.low, d) as i128
    &&& s.vol == (spec_raw_or_zero(rm.vol) * 1000) as i128
    &&& s.amount == (spec_raw_or_zero(rm.amount) * 1000) as i128
    &&& s.turnover == spec_scaled(rm.turnover, 100) as i128
    &&& s.pe == spec_scaled(rm.pe, 100) as i128
    &&& s.pb == spec_scaled(rm.pb, 100) as i128
    &&& s.ratio == spec_scaled(rm.ratio, 100) as i128
    &&& s.min_5_pct == spec_scaled(rm.min_5_pct, 100) as i128
    &&& s.total_value == (spec_raw_or_zero(rm.total_value) * 1000) as i128
    &&& s.cur_value == (spec_raw_or_zero(rm.cur_value) * 1000) as i128
    &&& s.speed == spec_scaled(rm.speed, 100) as i128
    &&& s.pct_60d == spec_scaled(rm.pct_60d, 100) as i128
    &&& s.pct_ytd == spec_scaled(rm.pct_ytd, 100) as i128
}

/// Normalizing a record yields exactly the canonical quote for its
/// content: [`spec_normalized`] and [`spec_normalized_from`] state the
/// same divisor rule.
pub proof fn lemma_normalized_matches_view(raw: RawStock)
    ensures
        spec_normalized_from(spec_normalized(raw), spec_raw_view(raw)),
{
}

/// A zero-valued placeholder quote keyed (and titled) by `code`.
pub open spec fn spec_placeholder(s: Stock, code: Seq<char>) -> bool {
    &&& s.code@ == code
    &&& s.title@ == code
    &&& s.price == 0 && s.percent == 0 && s.change == 0 && s.amplitude == 0
    &&& s.open == 0 && s.yestclose == 0 && s.high == 0 && s.low == 0
    &&& s.vol == 0 && s.amount == 0 && s.turnover == 0 && s.pe == 0
    &&& s.pb == 0 && s.ratio == 0 && s.min_5_pct == 0 && s.total_value == 0
    &&& s.cur_value == 0 && s.speed == 0 && s.pct_60d == 0 && s.pct_ytd == 0
}

/// `a` carries the same quote payload as `b`: every field but the code
/// agrees.
pub open spec fn spec_same_quote(a: Stock, b: Stock) -> bool {
    &&& a.title@ == b.title@
    &&& a.price == b.price && a.percent == b.percent && a.change == b.change
    &&& a.amplitude == b.amplitude && a.open == b.open && a.yestclose == b.yestclose
    &&& a.high == b.high && a.low == b.low && a.vol == b.vol && a.amount == b.amount
    &&& a.turnover == b.turnover && a.pe == b.pe && a.pb == b.pb && a.ratio == b.ratio
    &&& a.min_5_pct == b.min_5_pct && a.total_value == b.total_value
    &&& a.cur_value == b.cur_value && a.speed == b.speed && a.pct_60d == b.pct_60d
    &&& a.pct_ytd == b.pct_ytd
}

/// One raw field scaled by the market divisor, in thousandths.
fn scaled(v: Option<i64>, thousandth_units: bool) -> (r: i128)
    ensures
        r == spec_scaled(v, if thousandth_units { 1000int } else { 100int }),
{
    let raw: i64 = match v {
        Some(x) => x,
        None => 0,
    };
    if thousandth_units {
        raw as i128
    } else {
        (raw as i128) * 10
    }
}

/// One pass-through raw field, in thousandths.
fn unscaled(v: Option<i64>) -> (r: i128)
    ensures
        r == spec_raw_or_zero(v) * 1000,
{
    let raw: i64 = match v {
        Some(x) => x,
        None => 0,
    };
    (raw as i128) * 1000
}

impl Stock {
    /// The zero-valued placeholder quote a fresh watchlist entry starts
    /// with, keyed and titled by the user's own spelling of the code.
    pub fn new(code: &str) -> (s: Stock)
        ensures
            spec_placeholder(s, code@),
    {
        Stock {
            code: code.to_owned(),
            title: code.to_owned(),
            price: 0,
            percent: 0,
            change: 0,
            amplitude: 0,
            open: 0,
            yestclose: 0,
            high: 0,
            low: 0,
            vol: 0,
            amount: 0,
            turnover: 0,
            pe: 0,
            pb: 0,
            ratio: 0,
            min_5_pct: 0,
            total_value: 0,
            cur_value: 0,
            speed: 0,
            pct_60d: 0,
            pct_ytd: 0,
        }
    }

    /// This quote's payload with `code` as the instrument code; used by
    /// the merge, which never overwrites a user's spelling.
    pub fn with_code(&self, code: &str) -> (s: Stock)
        ensures
            s.code@ == code@,
            spec_same_quote(s, *self),
    {
        Stock {
            code: code.to_owned(),
            title: self.title.clone(),
            price: self.price,
            percent: self.percent,
            change: self.change,
            amplitude: self.amplitude,
            open: self.open,
            yestclose: self.yestclose,
            high: self.high,
            low: self.low,
            vol: self.vol,
            amount: self.amount,
            turnover: self.turnover,
            pe: self.pe,
            pb: self.pb,
            ratio: self.ratio,
            min_5_pct: self.min_5_pct,
            total_value: self.total_value,
            cur_value: self.cur_value,
            speed: self.speed,
            pct_60d: self.pct_60d,
            pct_ytd: self.pct_ytd,
        }
    }
}

impl Clone for Stock {
    /// A field-for-field copy.
    fn clone(&self) -> (s: Stock)
        ensures
            s == *self,
    {
        Stock {
            code: self.code.clone(),
            title: self.title.clone(),
            price: self.price,
            percent: self.percent,
            change: self.change,
            amplitude: self.amplitude,
            open: self.open,
            yestclose: self.yestclose,
            high: self.high,
            low: self.low,
            vol: self.vol,
            amount: self.amount,
            turnover: self.turnover,
            pe: self.pe,
            pb: self.pb,
            ratio: self.ratio,
            min_5_pct: self.min_5_pct,
            total_value: self.total_value,
            cur_value: self.cur_value,
            speed: self.speed,
            pct_60d: self.pct_60d,
            pct_ytd: self.pct_ytd,
        }
    }
}

impl From<RawStock> for Stock {
    /// Normalizes one raw provider record into the canonical quote,
    /// applying the market-dependent divisor rule exactly.
    fn from(raw: RawStock) -> (s: Stock)
        ensures
            s == spec_normalized(raw),
    {
        let thousandth_units = raw.mkt == 116 || (105 <= raw.mkt && raw.mkt <= 107) || raw.mkt
            == 155;
        Stock {
            code: raw.code,
            title: raw.title,
            price: scaled(raw.price, thousandth_units),
            percent: scaled(raw.percent, false),
            change: scaled(raw.change, thousandth_units),
            amplitude: scaled(raw.amplitude, false),
            open: scaled(raw.open, thousandth_units),
            yestclose: scaled(raw.yestclose, thousandth_units),
            high: scaled(raw.high, thousandth_units),
            low: scaled(raw.low, thousandth_units),
            vol: unscaled(raw.vol),
            amount: unscaled(raw.amount),
            turnover: scaled(raw.turnover, false),
            pe: scaled(raw.pe, false),
            pb: scaled(raw.pb, false),
            ratio: scaled(raw.ratio, false),
            min_5_pct: scaled(raw.min_5_pct, false),
            total_value: unscaled(raw.total_value),
            cur_value: unscaled(raw.cur_value),
            speed: scaled(raw.speed, false),
            pct_60d: scaled(raw.pct_60d, false),
            pct_ytd: scaled(raw.pct_ytd, false),
        }
    }
}

impl vstd::std_specs::convert::FromSpecImpl<RawStock> for Stock {
    open spec fn obeys_from_spec() -> bool {
        true
    }

    open spec fn from_spec(raw: RawStock) -> Stock {
        spec_normalized(raw)
    }
}

} // verus!
