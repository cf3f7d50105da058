//! JSON documents as plain values, read through `serde_json`, and the
//! lookups the protocol needs: object members, strings and integers.

use vstd::prelude::*;

verus! {

/// A JSON document. Numbers keep their textual form; objects keep their
/// members in the order the parser yields them, each key once.
#[derive(Debug)]
pub enum Json {
    Null,
    Bool(bool),
    Number(String),
    Text(String),
    Array(Vec<Json>),
    Object(Vec<(String, Json)>),
}

#[verifier::external_type_specification]
#[verifier::external_body]
pub struct ExValue(serde_json::Value);

/// Whether `text` is one well-formed JSON document, as `serde_json` reads it.
pub uninterp spec fn is_json(text: Seq<char>) -> bool;

/// The document that `serde_json` reads from a JSON text.
pub uninterp spec fn json_doc(text: Seq<char>) -> Json;

/// Relies on `serde_json::from_str::<serde_json::Value>`, then converts the
/// value variant by variant: a document exactly when the text is one JSON
/// document, and then the document the text holds.
#[verifier::external_body]
pub fn parse_json(text: &str) -> (r: Option<Json>)
    ensures
        r is Some <==> is_json(text@),
        r matches Some(d) ==> d == json_doc(text@),
{
    serde_json::from_str::<serde_json::Value>(text).ok().map(json_of_value)
}

/// Relies on the variants of `serde_json::Value` and on `Number`'s `Display`
/// for the textual form of numbers; converts each variant to its counterpart.
/// Used by `parse_json` only.
#[verifier::external_body]
fn json_of_value(v: serde_json::Value) -> (r: Json) {
    match v {
        serde_json::Value::Null => Json::Null,
        serde_json::Value::Bool(b) => Json::Bool(b),
        serde_json::Value::Number(n) => Json::Number(n.to_string()),
        serde_json::Value::String(s) => Json::Text(s),
        serde_json::Value::Array(a) => Json::Array(a.into_iter().map(json_of_value).collect()),
        serde_json::Value::Object(m) => Json::Object(
            m.into_iter().map(|(k, x)| (k, json_of_value(x))).collect(),
        ),
    }
}

/// The value of the first member named `key`.
pub open spec fn lookup(fields: Seq<(String, Json)>, key: Seq<char>) -> Option<Json>
    decreases fields.len(),
{
    if fields.len() == 0 {
        None
    } else if fields[0].0@ == key {
        Some(fields[0].1)
    } else {
        lookup(fields.drop_first(), key)
    }
}

/// The string held by member `key`, if it is a string.
pub open spec fn text_member(fields: Seq<(String, Json)>, key: Seq<char>) -> Option<Seq<char>> {
    match lookup(fields, key) {
        Some(Json::Text(s)) => Some(s@),
        _ => None,
    }
}

/// The members of an object document.
pub open spec fn members(doc: Json) -> Option<Seq<(String, Json)>> {
    match doc {
        Json::Object(m) => Some(m@),
        _ => None,
    }
}

/// Finds the first member named `key`.
pub fn find_member<'a>(fields: &'a Vec<(String, Json)>, key: &str) -> (r: Option<&'a Json>)
    ensures
        match r {
            Some(j) => lookup(fields@, key@) == Some(*j),
            None => lookup(fields@, key@) is None,
        },
{
    let mut i: usize = 0;
    let k = key.to_owned();
    proof {
        assert(fields@.subrange(0, fields.len() as int) =~= fields@);
    }
    while i < fields.len()
        invariant
            i <= fields.len(),
            k@ == key@,
            lookup(fields@, key@) == lookup(fields@.subrange(i as int, fields.len() as int), key@),
        decreases fields.len() - i,
    {
        let ghost rest = fields@.subrange(i as int, fields.len() as int);
        proof {
            assert(rest.drop_first() =~= fields@.subrange(i + 1, fields.len() as int));
            assert(rest[0] == fields@[i as int]);
        }
        if fields[i].0 == k {
            return Some(&fields[i].1);
        }
        i = i + 1;
    }
    None
}

/// Finds the string held by member `key`.
pub fn find_text(fields: &Vec<(String, Json)>, key: &str) -> (r: Option<String>)
    ensures
        opt_text(r) == text_member(fields@, key@),
{
    match find_member(fields, key) {
        Some(Json::Text(s)) => Some(s.clone()),
        _ => None,
    }
}

/// The view of an optional string.
pub open spec fn opt_text(o: Option<String>) -> Option<Seq<char>> {
    match o {
        Some(s) => Some(s@),
        None => None,
    }
}

/// A decimal digit.
pub open spec fn is_digit(c: char) -> bool {
    0x30 <= (c as u32) && (c as u32) <= 0x39
}

/// A non-empty run of decimal digits.
pub open spec fn all_digits(s: Seq<char>) -> bool {
    s.len() > 0 && forall|i: int| 0 <= i < s.len() ==> is_digit(#[trigger] s[i])
}

/// The value of a run of decimal digits.
pub open spec fn digits_value(s: Seq<char>) -> int
    decreases s.len(),
{
    if s.len() == 0 {
        0
    } else {
        digits_value(s.drop_last()) * 10 + ((s.last() as u32) - 0x30)
    }
}

/// The integer that a JSON number text denotes, if it is an integer:
/// digits, optionally preceded by `-`.
pub open spec fn integer_value(s: Seq<char>) -> Option<int> {
    if all_digits(s) {
        Some(digits_value(s))
    } else if s.len() > 1 && s[0] == '-' && all_digits(s.drop_first()) {
        Some(-digits_value(s.drop_first()))
    } else {
        None
    }
}

/// The integer of a JSON number text when it fits in `i64`.
pub open spec fn i64_value(s: Seq<char>) -> Option<i64> {
    match integer_value(s) {
        Some(v) => if i64::MIN <= v && v <= i64::MAX { Some(v as i64) } else { None },
        None => None,
    }
}

proof fn lemma_digits_grow(s: Seq<char>, k: int)
    requires
        0 <= k <= s.len(),
        forall|i: int| 0 <= i < s.len() ==> is_digit(#[trigger] s[i]),
    ensures
        digits_value(s) >= digits_value(s.subrange(0, k)),
        digits_value(s.subrange(0, k)) >= 0,
    decreases s.len(),
{
    if s.len() == k {
        assert(s.subrange(0, k) =~= s);
        lemma_digits_nonneg(s);
    } else {
        lemma_digits_grow(s.drop_last(), k);
        assert(s.drop_last().subrange(0, k) =~= s.subrange(0, k));
        lemma_digits_nonneg(s.drop_last());
    }
}

proof fn lemma_digits_nonneg(s: Seq<char>)
    requires
        forall|i: int| 0 <= i < s.len() ==> is_digit(#[trigger] s[i]),
    ensures
        digits_value(s) >= 0,
    decreases s.len(),
{
    if s.len() > 0 {
        lemma_digits_nonneg(s.drop_last());
    }
}

/// Reads a JSON number text as an `i64`; `None` unless it is an integer in range.
pub fn parse_i64(s: &str) -> (r: Option<i64>)
    ensures
        r == i64_value(s@),
{
    let n = s.unicode_len();
    let neg = n > 1 && s.get_char(0) == '-';
    let start: usize = if neg { 1 } else { 0 };
    if start >= n {
        return None;
    }
    let limit: u128 = if neg { 9223372036854775808 } else { 9223372036854775807 };
    let ghost body = s@.subrange(start as int, n as int);
    let mut acc: u128 = 0;
    let mut i: usize = start;
    while i < n
        invariant
            n == s@.len(),
            start <= i <= n,
            start < n,
            start == (if neg { 1usize } else { 0usize }),
            neg == (n > 1 && s@[0] == '-'),
            body == s@.subrange(start as int, n as int),
            acc <= limit,
            limit == (if neg { 9223372036854775808u128 } else { 9223372036854775807u128 }),
            forall|j: int| start <= j < i ==> is_digit(#[trigger] s@[j]),
            acc == digits_value(s@.subrange(start as int, i as int)),
        decreases n - i,
    {
        let c = s.get_char(i);
        let u = c as u32;
        proof {
            assert(s@.subrange(start as int, i + 1).drop_last() =~= s@.subrange(start as int, i as int));
        }
        if u < 0x30 || u > 0x39 {
            proof {
                assert(!is_digit(body[i - start]));
                assert(!all_digits(body));
                if start == 0 {
                    assert(body =~= s@);
                } else {
                    assert(body =~= s@.drop_first());
                    assert(!all_digits(s@));
                }
            }
            return None;
        }
        let next: u128 = acc * 10 + (u - 0x30) as u128;
        if next > limit {
            proof {
                let pre = s@.subrange(start as int, i + 1);
                assert(body.subrange(0, i + 1 - start) =~= pre);
                if all_digits(body) {
                    lemma_digits_grow(body, i + 1 - start);
                }
                if start == 0 {
                    assert(body =~= s@);
                } else {
                    assert(body =~= s@.drop_first());
                    assert(s@[0] == '-');
                    assert(!is_digit(s@[0]));
                    assert(!all_digits(s@));
                }
            }
            return None;
        }
        acc = next;
        i = i + 1;
    }
    proof {
        assert(s@.subrange(start as int, n as int) == body);
        assert(all_digits(body));
        if start == 0 {
            assert(body =~= s@);
        } else {
            assert(body =~= s@.drop_first());
            assert(!is_digit(s@[0]));
            assert(!all_digits(s@));
        }
    }
    if neg {
        if acc == 9223372036854775808 {
            Some(i64::MIN)
        } else {
            Some(-(acc as i64))
        }
    } else {
        Some(acc as i64)
    }
}

} // verus!
