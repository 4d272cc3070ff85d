//! Symbol-to-query-identifier resolution and the batch-quote request
//! string.
//!
//! A user-typed ticker is ambiguous: the same text can name instruments
//! on several exchanges. `to_secid` turns one ticker into a comma-joined
//! list of provider query identifiers (`<marketPrefix>.<code>`), either
//! by passing a fully manual identifier through, or by probing several
//! plausible markets at once.

use vstd::prelude::*;
use vstd::string::*;

use crate::chars::{is_digit, spec_is_digit};
use crate::json::{
    json_as_array, json_as_i64, json_as_str, json_as_u64, json_error_message, json_get,
    json_model_of, json_wellformed, parse_json, spec_arr, spec_field, spec_field_i64,
    spec_field_str, spec_field_u64, value_model, JsonModel,
};
use crate::model::{spec_normalized_from, spec_raw_view, RawStock, RawStockModel, Stock};

verus! {

/// Why a batch fetch produced no quotes. The batch either yields a full
/// result list or one error; partial success does not exist.
#[derive(Debug)]
pub enum FetchError {
    /// The provider could not be reached, or answered outside 2xx.
    Transport(String),
    /// The provider answered, but not with the expected JSON shape.
    ResponseFormat(String),
}

impl FetchError {
    /// The user-visible description.
    pub fn message(self) -> (r: String)
        ensures
            self matches FetchError::Transport(m) ==> r == m,
            self matches FetchError::ResponseFormat(m) ==> r == m,
    {
        match self {
            FetchError::Transport(m) => m,
            FetchError::ResponseFormat(m) => m,
        }
    }
}

/// The ticker starts with the manual-mode marker: a leading `x` or `X`.
pub open spec fn spec_is_manual(s: Seq<char>) -> bool {
    s.len() > 0 && (s[0] == 'x' || s[0] == 'X')
}

/// Every character of the ticker is an ASCII digit.
pub open spec fn spec_all_digits(s: Seq<char>) -> bool {
    forall|i: int| 0 <= i < s.len() ==> spec_is_digit(#[trigger] s[i])
}

/// The blind-probe query for an all-digit ticker: Shanghai (`1`),
/// Shenzhen/Beijing (`0`) and Hong Kong (`116`).
pub open spec fn spec_digit_probe(s: Seq<char>) -> Seq<char> {
    seq!['1', '.'] + s + seq![',', '0', '.'] + s + seq![',', '1', '1', '6', '.'] + s
}

/// The blind-probe query for a ticker with letters or punctuation:
/// the three US segments (`105`, `106`, `107`) and UK (`155`).
pub open spec fn spec_symbol_probe(s: Seq<char>) -> Seq<char> {
    seq!['1', '0', '5', '.'] + s + seq![',', '1', '0', '6', '.'] + s + seq![',', '1', '0', '7', '.']
        + s + seq![',', '1', '5', '5', '.'] + s
}

/// What `to_secid` returns: the manual marker consumes exactly one
/// leading character and passes the rest through verbatim; otherwise
/// classification is binary (all-digit or not) and picks one of the two
/// blind-probe forms.
pub open spec fn spec_secid(s: Seq<char>) -> Seq<char> {
    if spec_is_manual(s) {
        s.subrange(1, s.len() as int)
    } else if spec_all_digits(s) {
        spec_digit_probe(s)
    } else {
        spec_symbol_probe(s)
    }
}

/// Resolves one user-typed ticker into the provider query identifiers.
pub fn to_secid(code: &str) -> (r: String)
    ensures
        r@ == spec_secid(code@),
{
    let n = code.unicode_len();
    if n > 0 {
        let c0 = code.get_char(0);
        if c0 == 'x' || c0 == 'X' {
            let rest = code.substring_char(1, n);
            return rest.to_owned();
        }
    }
    let mut all_digits = true;
    let mut i: usize = 0;
    while i < n
        invariant
            n == code@.len(),
            0 <= i <= n,
            all_digits == spec_all_digits(code@.subrange(0, i as int)),
        decreases n - i,
    {
        let d = is_digit(code.get_char(i));
        proof {
            assert(code@.subrange(0, i + 1).drop_last() =~= code@.subrange(0, i as int));
            assert(code@.subrange(0, i + 1).last() == code@[i as int]);
            assert(forall|j: int| 0 <= j < i + 1 ==> #[trigger] code@.subrange(0, i + 1)[j] == code@[j]);
        }
        all_digits = all_digits && d;
        i = i + 1;
    }
    proof {
        assert(code@.subrange(0, n as int) =~= code@);
    }
    let mut r: String;
    if all_digits {
        r = String::from_str("1.");
        r.append(code);
        r.append(",0.");
        r.append(code);
        r.append(",116.");
        r.append(code);
        proof {
            reveal_strlit("1.");
            reveal_strlit(",0.");
            reveal_strlit(",116.");
            assert(r@ =~= spec_digit_probe(code@));
        }
    } else {
        r = String::from_str("105.");
        r.append(code);
        r.append(",106.");
        r.append(code);
        r.append(",107.");
        r.append(code);
        r.append(",155.");
        r.append(code);
        proof {
            reveal_strlit("105.");
            reveal_strlit(",106.");
            reveal_strlit(",107.");
            reveal_strlit(",155.");
            assert(r@ =~= spec_symbol_probe(code@));
        }
    }
    r
}

/// The comma-joined resolved query identifiers of all codes, in order.
pub open spec fn spec_joined_secids(codes: Seq<String>) -> Seq<char>
    decreases codes.len(),
{
    if codes.len() == 0 {
        Seq::empty()
    } else if codes.len() == 1 {
        spec_secid(codes[0]@)
    } else {
        spec_joined_secids(codes.drop_last()) + seq![','] + spec_secid(codes.last()@)
    }
}

/// The full batch-quote request: the provider's endpoint, the
/// comma-joined query identifiers, and the fixed field selector naming
/// every field the normalizer consumes.
pub open spec fn spec_fetch_url(codes: Seq<String>) -> Seq<char> {
    "https://push2.eastmoney.com/api/qt/ulist.np/get?secids="@ + spec_joined_secids(codes)
        + "&fields=f2,f3,f4,f5,f6,f7,f8,f9,f10,f11,f12,f13,f14,f15,f16,f17,f18,f20,f21,f22,f23,f24,f25"@
}

/// The URL for one batched fetch of these codes.
pub fn fetch_url(codes: &Vec<String>) -> (r: String)
    ensures
        r@ == spec_fetch_url(codes@),
{
    let mut r = String::from_str(
        "https://push2.eastmoney.com/api/qt/ulist.np/get?secids=",
    );
    let ghost base = r@;
    proof {
        assert(spec_joined_secids(codes@.subrange(0, 0)) =~= Seq::<char>::empty());
        assert(r@ =~= base + spec_joined_secids(codes@.subrange(0, 0)));
    }
    let mut i: usize = 0;
    while i < codes.len()
        invariant
            0 <= i <= codes@.len(),
            r@ =~= base + spec_joined_secids(codes@.subrange(0, i as int)),
        decreases codes@.len() - i,
    {
        if i > 0 {
            r.append(",");
            proof {
                reveal_strlit(",");
            }
        }
        let secid = to_secid(codes[i].as_str());
        r.append(secid.as_str());
        proof {
            let pre = codes@.subrange(0, i as int);
            let now = codes@.subrange(0, i + 1);
            assert(now.drop_last() =~= pre);
            assert(now.last() == codes@[i as int]);
            if i > 0 {
                assert(spec_joined_secids(now) =~= spec_joined_secids(pre) + seq![',']
                    + spec_secid(codes@[i as int]@));
            } else {
                assert(spec_joined_secids(now) =~= spec_secid(codes@[i as int]@));
            }
        }
        i = i + 1;
    }
    r.append(
        "&fields=f2,f3,f4,f5,f6,f7,f8,f9,f10,f11,f12,f13,f14,f15,f16,f17,f18,f20,f21,f22,f23,f24,f25",
    );
    proof {
        assert(codes@.subrange(0, codes@.len() as int) =~= codes@);
    }
    r
}

/// The content of one well-formed result record: code, market code and
/// title are required (a string, a number with a `u64` reading, and a
/// string); every numeric field is its `i64` reading, `None` where the
/// field is absent, null or not such an integer.
pub open spec fn spec_record(m: JsonModel) -> Option<RawStockModel> {
    match (spec_field_str(m, "f12"@), spec_field_u64(m, "f13"@), spec_field_str(m, "f14"@)) {
        (Some(code), Some(mkt), Some(title)) => Some(
            RawStockModel {
                code,
                mkt,
                title,
                price: spec_field_i64(m, "f2"@),
                percent: spec_field_i64(m, "f3"@),
                change: spec_field_i64(m, "f4"@),
                vol: spec_field_i64(m, "f5"@),
                amount: spec_field_i64(m, "f6"@),
                amplitude: spec_field_i64(m, "f7"@),
                turnover: spec_field_i64(m, "f8"@),
                pe: spec_field_i64(m, "f9"@),
                ratio: spec_field_i64(m, "f10"@),
                min_5_pct: spec_field_i64(m, "f11"@),
                high: spec_field_i64(m, "f15"@),
                low: spec_field_i64(m, "f16"@),
                open: spec_field_i64(m, "f17"@),
                yestclose: spec_field_i64(m, "f18"@),
                total_value: spec_field_i64(m, "f20"@),
                cur_value: spec_field_i64(m, "f21"@),
                speed: spec_field_i64(m, "f22"@),
                pb: spec_field_i64(m, "f23"@),
                pct_60d: spec_field_i64(m, "f24"@),
                pct_ytd: spec_field_i64(m, "f25"@),
            },
        ),
        _ => None,
    }
}

/// The contents of all result records, in document order; `None` as soon
/// as one record is not well-formed (the batch is all-or-nothing).
pub open spec fn spec_records_of(arr: Seq<JsonModel>) -> Option<Seq<RawStockModel>> {
    if forall|i: int| 0 <= i < arr.len() ==> spec_record(#[trigger] arr[i]) is Some {
        Some(Seq::new(arr.len(), |i: int| spec_record(arr[i])->0))
    } else {
        None
    }
}

/// What a parsed response document must yield: the records of its
/// `data.diff` array, or nothing when that array or any record is
/// missing or malformed.
pub open spec fn spec_fetch_records(m: JsonModel) -> Option<Seq<RawStockModel>> {
    match spec_field(m, "data"@) {
        Some(d) => match spec_field(d, "diff"@) {
            Some(f) => match spec_arr(f) {
                Some(arr) => spec_records_of(arr),
                None => None,
            },
            None => None,
        },
        None => None,
    }
}

/// The string under `key`, owned, when it is there.
fn get_str(item: &serde_json::Value, key: &str) -> (r: Option<String>)
    ensures
        match spec_field_str(value_model(*item), key@) {
            Some(t) => r matches Some(s) && s@ == t,
            None => r is None,
        },
{
    match json_get(item, key) {
        Some(v) => match json_as_str(v) {
            Some(s) => Some(s.to_owned()),
            None => None,
        },
        None => None,
    }
}

/// The `i64` reading of the number under `key`, when it is there.
fn get_i64(item: &serde_json::Value, key: &str) -> (r: Option<i64>)
    ensures
        r == spec_field_i64(value_model(*item), key@),
{
    match json_get(item, key) {
        Some(v) => json_as_i64(v),
        None => None,
    }
}

/// The `u64` reading of the number under `key`, when it is there.
fn get_u64(item: &serde_json::Value, key: &str) -> (r: Option<u64>)
    ensures
        r == spec_field_u64(value_model(*item), key@),
{
    match json_get(item, key) {
        Some(v) => json_as_u64(v),
        None => None,
    }
}

/// One raw record from one element of the response's result array. The
/// code, market and title are required; a missing or null numeric field
/// is kept as `None` and normalizes to zero.
fn raw_from_value(item: &serde_json::Value) -> (r: Result<RawStock, FetchError>)
    ensures
        match spec_record(value_model(*item)) {
            Some(rm) => r matches Ok(raw) && spec_raw_view(raw) == rm,
            None => r is Err,
        },
{
    let code = match get_str(item, "f12") {
        Some(c) => c,
        None => {
            return Err(FetchError::ResponseFormat(String::from_str("record without a code")));
        },
    };
    let mkt = match get_u64(item, "f13") {
        Some(m) => m,
        None => {
            return Err(
                FetchError::ResponseFormat(String::from_str("record without a market code")),
            );
        },
    };
    let title = match get_str(item, "f14") {
        Some(t) => t,
        None => {
            return Err(FetchError::ResponseFormat(String::from_str("record without a title")));
        },
    };
    Ok(
        RawStock {
            code,
            mkt,
            title,
            price: get_i64(item, "f2"),
            percent: get_i64(item, "f3"),
            change: get_i64(item, "f4"),
            vol: get_i64(item, "f5"),
            amount: get_i64(item, "f6"),
            amplitude: get_i64(item, "f7"),
            turnover: get_i64(item, "f8"),
            pe: get_i64(item, "f9"),
            ratio: get_i64(item, "f10"),
            min_5_pct: get_i64(item, "f11"),
            high: get_i64(item, "f15"),
            low: get_i64(item, "f16"),
            open: get_i64(item, "f17"),
            yestclose: get_i64(item, "f18"),
            total_value: get_i64(item, "f20"),
            cur_value: get_i64(item, "f21"),
            speed: get_i64(item, "f22"),
            pb: get_i64(item, "f23"),
            pct_60d: get_i64(item, "f24"),
            pct_ytd: get_i64(item, "f25"),
        },
    )
}

/// Turn one response body into canonical quotes. Text the JSON engine
/// rejects is an error; so is a response without the nested result
/// array or with any record missing its code, market or title — the
/// batch is all-or-nothing. On success the quotes are exactly the
/// normalizations of the response's records, complete and in response
/// order.
pub fn parse_fetch_body(body: &str) -> (r: Result<Vec<Stock>, FetchError>)
    ensures
        !json_wellformed(body@) ==> r is Err,
        json_wellformed(body@) ==> match spec_fetch_records(json_model_of(body@)) {
            Some(recs) => r matches Ok(stocks) && (stocks@.len() == recs.len() && forall|i: int|
                0 <= i < recs.len() ==> spec_normalized_from(#[trigger] stocks@[i], recs[i])),
            None => r is Err,
        },
{
    let ghost doc = json_model_of(body@);
    let v = match parse_json(body) {
        Ok(v) => v,
        Err(e) => {
            return Err(FetchError::ResponseFormat(json_error_message(&e)));
        },
    };
    let data = match json_get(&v, "data") {
        Some(d) => d,
        None => {
            return Err(FetchError::ResponseFormat(String::from_str("missing data object")));
        },
    };
    let diff = match json_get(data, "diff") {
        Some(d) => d,
        None => {
            return Err(FetchError::ResponseFormat(String::from_str("missing result array")));
        },
    };
    let arr = match json_as_array(diff) {
        Some(a) => a,
        None => {
            return Err(FetchError::ResponseFormat(String::from_str("result is not an array")));
        },
    };
    let ghost elems = spec_arr(value_model(*diff))->0;
    proof {
        assert(spec_fetch_records(doc) == spec_records_of(elems));
    }
    let mut stocks: Vec<Stock> = Vec::new();
    let mut i: usize = 0;
    while i < arr.len()
        invariant
            0 <= i <= arr@.len(),
            json_wellformed(body@),
            doc == json_model_of(body@),
            spec_fetch_records(doc) == spec_records_of(elems),
            arr@.len() == elems.len(),
            forall|k: int| 0 <= k < elems.len() ==> value_model(#[trigger] arr@[k]) == elems[k],
            stocks@.len() == i,
            forall|k: int|
                0 <= k < i ==> spec_record(#[trigger] elems[k]) is Some,
            forall|k: int|
                0 <= k < i ==> spec_normalized_from(
                    #[trigger] stocks@[k],
                    spec_record(elems[k])->0,
                ),
        decreases arr@.len() - i,
    {
        let raw = match raw_from_value(&arr[i]) {
            Ok(raw) => raw,
            Err(e) => {
                proof {
                    assert(spec_record(elems[i as int]) is None);
                    assert(spec_records_of(elems) is None);
                }
                return Err(e);
            },
        };
        let ghost g_raw = raw;
        let stock = Stock::from(raw);
        proof {
            crate::model::lemma_normalized_matches_view(g_raw);
            assert(spec_normalized_from(stock, spec_record(elems[i as int])->0));
        }
        stocks.push(stock);
        i = i + 1;
    }
    proof {
        assert(spec_records_of(elems) matches Some(recs) && recs.len() == elems.len());
    }
    Ok(stocks)
}

/// For every ticker with a manual marker, resolution consumes exactly
/// one leading character and passes the remainder through verbatim.
pub proof fn lemma_resolve_manual(s: Seq<char>)
    requires
        spec_is_manual(s),
    ensures
        spec_secid(s) == s.subrange(1, s.len() as int),
{
}

/// For every all-digit ticker without a manual marker, resolution probes
/// Shanghai, Shenzhen/Beijing and Hong Kong, in that order.
pub proof fn lemma_resolve_digit_probe(s: Seq<char>)
    requires
        !spec_is_manual(s),
        spec_all_digits(s),
    ensures
        spec_secid(s) == seq!['1', '.'] + s + seq![',', '0', '.'] + s + seq![',', '1', '1', '6', '.']
            + s,
{
}

/// For every ticker that is not all digits and has no manual marker,
/// resolution probes the three US segments and the UK, in that order.
pub proof fn lemma_resolve_symbol_probe(s: Seq<char>)
    requires
        !spec_is_manual(s),
        !spec_all_digits(s),
    ensures
        spec_secid(s) == seq!['1', '0', '5', '.'] + s + seq![',', '1', '0', '6', '.'] + s
            + seq![',', '1', '0', '7', '.'] + s + seq![',', '1', '5', '5', '.'] + s,
{
}

} // verus!
