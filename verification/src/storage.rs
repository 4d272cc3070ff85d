//! The persisted watchlist schema: a JSON object with one key `stocks`,
//! an ordered array of objects each holding a single `code` string,
//! written and read in list order.
//!
//! Encoding is verified character by character against [`spec_encode`].
//! Decoding calls the JSON engine (see [`crate::json`]) and walks the
//! parsed tree in verified code; a malformed file is a reported error,
//! never a panic.

use vstd::prelude::*;
use vstd::string::*;

use crate::json::{
    json_as_array, json_as_str, json_error_message, json_get, json_model_of, json_wellformed,
    parse_json, spec_arr, spec_field, spec_field_str, value_model, JsonModel,
};

verus! {

/// A failure to understand the persisted file.
#[derive(Debug)]
pub enum StorageError {
    /// The file is not the expected JSON shape; the description says
    /// what was wrong.
    Malformed(String),
}

impl StorageError {
    /// The user-visible description.
    pub fn message(self) -> (r: String)
        ensures
            self matches StorageError::Malformed(m) ==> r == m,
    {
        match self {
            StorageError::Malformed(m) => m,
        }
    }
}

/// The JSON escape of one character: the persisted codes are user text,
/// so quotes and backslashes must not break the frame.
pub open spec fn spec_escape_char(c: char) -> Seq<char> {
    if c == '"' {
        seq!['\\', '"']
    } else if c == '\\' {
        seq!['\\', '\\']
    } else {
        seq![c]
    }
}

/// The JSON escape of a code.
pub open spec fn spec_escape(s: Seq<char>) -> Seq<char>
    decreases s.len(),
{
    if s.len() == 0 {
        Seq::empty()
    } else {
        spec_escape_char(s[0]) + spec_escape(s.drop_first())
    }
}

/// Escaping works one appended character at a time.
proof fn lemma_escape_push(s: Seq<char>, c: char)
    ensures
        spec_escape(s.push(c)) =~= spec_escape(s) + spec_escape_char(c),
    decreases s.len(),
{
    if s.len() == 0 {
        assert(s.push(c)[0] == c);
        assert(s.push(c).drop_first() =~= Seq::<char>::empty());
        assert(spec_escape(Seq::<char>::empty()) =~= Seq::<char>::empty());
        assert(spec_escape(s.push(c)) =~= spec_escape_char(c) + Seq::<char>::empty());
    } else {
        assert(s.push(c).drop_first() =~= s.drop_first().push(c));
        lemma_escape_push(s.drop_first(), c);
        assert(s.push(c)[0] == s[0]);
        assert(spec_escape(s.push(c)) =~= spec_escape_char(s[0]) + (spec_escape(s.drop_first())
            + spec_escape_char(c)));
        assert(spec_escape(s) =~= spec_escape_char(s[0]) + spec_escape(s.drop_first()));
    }
}

/// One persisted entry: `{"code":"<escaped code>"}`.
pub open spec fn spec_item(code: Seq<char>) -> Seq<char> {
    seq!['{', '"', 'c', 'o', 'd', 'e', '"', ':', '"'] + spec_escape(code) + seq!['"', '}']
}

/// The comma-joined entries, in list order.
pub open spec fn spec_items(codes: Seq<String>) -> Seq<char>
    decreases codes.len(),
{
    if codes.len() == 0 {
        Seq::empty()
    } else if codes.len() == 1 {
        spec_item(codes[0]@)
    } else {
        spec_items(codes.drop_last()) + seq![','] + spec_item(codes.last()@)
    }
}

/// The whole persisted document: `{"stocks":[<entries>]}`.
pub open spec fn spec_encode(codes: Seq<String>) -> Seq<char> {
    seq!['{', '"', 's', 't', 'o', 'c', 'k', 's', '"', ':', '['] + spec_items(codes) + seq![
        ']',
        '}',
    ]
}

/// The encoding reads nothing of a code but its text: lists whose codes
/// agree letter for letter encode identically.
pub proof fn lemma_items_depend_on_text(a: Seq<String>, b: Seq<String>)
    requires
        a.len() == b.len(),
        forall|i: int| 0 <= i < a.len() ==> (#[trigger] a[i])@ == b[i]@,
    ensures
        spec_items(a) == spec_items(b),
    decreases a.len(),
{
    if a.len() > 1 {
        assert(forall|i: int|
            0 <= i < a.drop_last().len() ==> (#[trigger] a.drop_last()[i])@ == b.drop_last()[i]@);
        lemma_items_depend_on_text(a.drop_last(), b.drop_last());
    }
}

/// Append the JSON escape of `s` to `out`.
fn escape_into(out: &mut String, s: &str)
    ensures
        final(out)@ == old(out)@ + spec_escape(s@),
{
    let n = s.unicode_len();
    let mut i: usize = 0;
    proof {
        assert(s@.subrange(0, 0) =~= Seq::<char>::empty());
        assert(old(out)@ + spec_escape(s@.subrange(0, 0)) =~= old(out)@);
    }
    while i < n
        invariant
            0 <= i <= n,
            n == s@.len(),
            out@ =~= old(out)@ + spec_escape(s@.subrange(0, i as int)),
        decreases n - i,
    {
        let c = s.get_char(i);
        if c == '"' {
            out.append("\\\"");
            proof {
                reveal_strlit("\\\"");
            }
        } else if c == '\\' {
            out.append("\\\\");
            proof {
                reveal_strlit("\\\\");
            }
        } else {
            let piece = s.substring_char(i, i + 1);
            proof {
                assert(piece@ =~= seq![s@[i as int]]);
            }
            out.append(piece);
        }
        proof {
            assert(s@.subrange(0, i + 1) =~= s@.subrange(0, i as int).push(s@[i as int]));
            lemma_escape_push(s@.subrange(0, i as int), s@[i as int]);
        }
        i = i + 1;
    }
    proof {
        assert(s@.subrange(0, n as int) =~= s@);
    }
}

/// Encode the ordered code list as the persisted document.
pub fn encode_stocks(codes: &Vec<String>) -> (r: String)
    ensures
        r@ == spec_encode(codes@),
{
    let mut r = String::from_str("{\"stocks\":[");
    proof {
        reveal_strlit("{\"stocks\":[");
        assert(r@ =~= seq!['{', '"', 's', 't', 'o', 'c', 'k', 's', '"', ':', '[']);
        assert(spec_items(codes@.subrange(0, 0)) =~= Seq::<char>::empty());
    }
    let mut i: usize = 0;
    while i < codes.len()
        invariant
            0 <= i <= codes@.len(),
            r@ =~= seq!['{', '"', 's', 't', 'o', 'c', 'k', 's', '"', ':', '['] + spec_items(
                codes@.subrange(0, i as int),
            ),
        decreases codes@.len() - i,
    {
        if i > 0 {
            r.append(",");
            proof {
                reveal_strlit(",");
            }
        }
        r.append("{\"code\":\"");
        escape_into(&mut r, codes[i].as_str());
        r.append("\"}");
        proof {
            reveal_strlit("{\"code\":\"");
            reveal_strlit("\"}");
            let pre = codes@.subrange(0, i as int);
            let now = codes@.subrange(0, i + 1);
            assert(now.drop_last() =~= pre);
            assert(now.last() == codes@[i as int]);
            if i > 0 {
                assert(spec_items(now) =~= spec_items(pre) + seq![','] + spec_item(
                    codes@[i as int]@,
                ));
            } else {
                assert(spec_items(now) =~= spec_item(codes@[i as int]@));
            }
        }
        i = i + 1;
    }
    r.append("]}");
    proof {
        reveal_strlit("]}");
        assert(codes@.subrange(0, codes@.len() as int) =~= codes@);
        assert(r@ =~= spec_encode(codes@));
    }
    r
}

/// The code of one persisted entry, when the entry is an object whose
/// `code` is a string.
pub open spec fn spec_entry_code(e: JsonModel) -> Option<Seq<char>> {
    spec_field_str(e, "code"@)
}

/// The codes of all persisted entries, in document order; `None` as soon
/// as one entry is not well-formed.
pub open spec fn spec_codes_of(entries: Seq<JsonModel>) -> Option<Seq<Seq<char>>> {
    if forall|i: int| 0 <= i < entries.len() ==> spec_entry_code(#[trigger] entries[i]) is Some {
        Some(Seq::new(entries.len(), |i: int| spec_entry_code(entries[i])->0))
    } else {
        None
    }
}

/// What a parsed watchlist document must yield: the code of each entry
/// of its `stocks` array, or nothing when that array or any entry is
/// missing or malformed.
pub open spec fn spec_watchlist_codes(m: JsonModel) -> Option<Seq<Seq<char>>> {
    match spec_field(m, "stocks"@) {
        Some(s) => match spec_arr(s) {
            Some(entries) => spec_codes_of(entries),
            None => None,
        },
        None => None,
    }
}

/// Decode the persisted document back into the ordered code list. Text
/// the JSON engine rejects is always a reported error; so is any
/// accepted document without the expected shape. On success the codes
/// are exactly the document's entries, complete and in document order.
pub fn decode_stocks(content: &str) -> (r: Result<Vec<String>, StorageError>)
    ensures
        !json_wellformed(content@) ==> r is Err,
        json_wellformed(content@) ==> match spec_watchlist_codes(json_model_of(content@)) {
            Some(cs) => r matches Ok(codes) && (codes@.len() == cs.len() && forall|i: int|
                0 <= i < cs.len() ==> (#[trigger] codes@[i])@ == cs[i]),
            None => r is Err,
        },
{
    let ghost doc = json_model_of(content@);
    let v = match parse_json(content) {
        Ok(v) => v,
        Err(e) => {
            return Err(StorageError::Malformed(json_error_message(&e)));
        },
    };
    let stocks = match json_get(&v, "stocks") {
        Some(s) => s,
        None => {
            return Err(StorageError::Malformed(String::from_str("missing stocks list")));
        },
    };
    let arr = match json_as_array(stocks) {
        Some(a) => a,
        None => {
            return Err(StorageError::Malformed(String::from_str("stocks is not a list")));
        },
    };
    let ghost entries = spec_arr(value_model(*stocks))->0;
    proof {
        assert(spec_watchlist_codes(doc) == spec_codes_of(entries));
    }
    let mut codes: Vec<String> = Vec::new();
    let mut i: usize = 0;
    while i < arr.len()
        invariant
            0 <= i <= arr@.len(),
            json_wellformed(content@),
            doc == json_model_of(content@),
            spec_watchlist_codes(doc) == spec_codes_of(entries),
            arr@.len() == entries.len(),
            forall|k: int| 0 <= k < entries.len() ==> value_model(#[trigger] arr@[k]) == entries[k],
            codes@.len() == i,
            forall|k: int| 0 <= k < i ==> spec_entry_code(#[trigger] entries[k]) is Some,
            forall|k: int|
                0 <= k < i ==> (#[trigger] codes@[k])@ == spec_entry_code(entries[k])->0,
        decreases arr@.len() - i,
    {
        let code = match json_get(&arr[i], "code") {
            Some(c) => c,
            None => {
                proof {
                    assert(spec_entry_code(entries[i as int]) is None);
                    assert(spec_codes_of(entries) is None);
                }
                return Err(StorageError::Malformed(String::from_str("entry without a code")));
            },
        };
        match json_as_str(code) {
            Some(s) => {
                codes.push(s.to_owned());
            },
            None => {
                proof {
                    assert(spec_entry_code(entries[i as int]) is None);
                    assert(spec_codes_of(entries) is None);
                }
                return Err(StorageError::Malformed(String::from_str("code is not text")));
            },
        }
        i = i + 1;
    }
    proof {
        assert(spec_codes_of(entries) matches Some(cs) && cs.len() == entries.len());
    }
    Ok(codes)
}

} // verus!
