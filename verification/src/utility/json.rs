//! JSON values as plain data, read and written by `serde_json`, and the search
//! for an agent's structured output in what it printed.

use serde_json::Value;
use vstd::prelude::*;

use crate::text::{is_blank, lines, split_lines, str_eq, strings_view, trim, trimmed};

verus! {

/// A JSON value. Numbers are kept as the text `serde_json` writes for them;
/// object entries are in the order `serde_json` holds them.
#[derive(Debug, PartialEq)]
pub enum JsonValue {
    Null,
    Bool(bool),
    Number(String),
    Str(String),
    Array(Vec<JsonValue>),
    Object(Vec<(String, JsonValue)>),
}

/// What `serde_json::from_str` makes of a text: the value, or the parser's
/// error message.
pub uninterp spec fn json_of(text: Seq<char>) -> Result<JsonValue, Seq<char>>;

/// What `Value::to_string` writes for a value.
pub uninterp spec fn json_text_of(v: JsonValue) -> Seq<char>;

/// Parses JSON (`serde_json::from_str` into `Value`), turning
/// the value into a [`JsonValue`] one for one.
#[verifier::external_body]
pub(crate) fn parse_json(text: &str) -> (r: Result<JsonValue, String>)
    ensures
        match json_of(text@) {
            Ok(v) => r == Ok::<JsonValue, String>(v),
            Err(m) => r matches Err(e) && e@ == m,
        },
{
    let v: Value = serde_json::from_str(text).map_err(|e| e.to_string())?;
    let conv = |x: &Value| parse_json(&x.to_string()).unwrap_or(JsonValue::Null);
    Ok(match v {
        Value::Null => JsonValue::Null,
        Value::Bool(b) => JsonValue::Bool(b),
        Value::Number(n) => JsonValue::Number(n.to_string()),
        Value::String(s) => JsonValue::Str(s),
        Value::Array(a) => JsonValue::Array(a.iter().map(conv).collect()),
        Value::Object(m) => JsonValue::Object(m.iter().map(|(k, x)| (k.clone(), conv(x))).collect()),
    })
}

/// Writes a value as JSON (`Value::to_string`), after turning it
/// into a `Value` one for one.
#[verifier::external_body]
pub(crate) fn json_text(v: &JsonValue) -> (r: String)
    ensures
        r@ == json_text_of(*v),
{
    let back = |x: &JsonValue| serde_json::from_str::<Value>(&json_text(x)).unwrap_or(Value::Null);
    let value = match v {
        JsonValue::Null => Value::Null,
        JsonValue::Bool(b) => Value::Bool(*b),
        JsonValue::Number(n) => serde_json::from_str::<Value>(n).unwrap_or(Value::Null),
        JsonValue::Str(s) => Value::String(s.clone()),
        JsonValue::Array(a) => Value::Array(a.iter().map(back).collect()),
        JsonValue::Object(m) => Value::Object(m.iter().map(|(k, x)| (k.clone(), back(x))).collect()),
    };
    value.to_string()
}

/// The value of the last entry named `key`.
pub open spec fn entry(fields: Seq<(String, JsonValue)>, key: Seq<char>) -> Option<JsonValue>
    decreases fields.len(),
{
    if fields.len() == 0 {
        None
    } else if fields.last().0@ == key {
        Some(fields.last().1)
    } else {
        entry(fields.drop_last(), key)
    }
}

/// `v[key]` of an object; `None` for other values.
pub open spec fn field(v: JsonValue, key: Seq<char>) -> Option<JsonValue> {
    match v {
        JsonValue::Object(fields) => entry(fields@, key),
        _ => None,
    }
}

pub open spec fn item_count(v: JsonValue) -> nat {
    match v {
        JsonValue::Array(items) => items@.len(),
        _ => 0,
    }
}

/// What an object itself offers: its non-null `structured_output`, or the
/// object when it has a `title` and no `type`.
pub open spec fn object_output(v: JsonValue) -> Option<Seq<char>> {
    match field(v, "structured_output"@) {
        Some(s) if !(s is Null) => Some(json_text_of(s)),
        _ => if field(v, "type"@) is None && field(v, "title"@) is Some {
            Some(json_text_of(v))
        } else {
            None
        },
    }
}

/// The structured output found in `v`, looking at the first `k` items of an
/// array from the last one back.
pub open spec fn extracted_upto(v: JsonValue, k: nat) -> Option<Seq<char>>
    decreases v, k,
{
    match v {
        JsonValue::Array(items) => if k == 0 || k > items@.len() {
            None
        } else {
            let c = items@[k - 1];
            match extracted_upto(c, item_count(c)) {
                Some(s) => Some(s),
                None => extracted_upto(v, (k - 1) as nat),
            }
        },
        JsonValue::Object(_) => object_output(v),
        _ => None,
    }
}

/// The structured output in a value: for an array, the last item that holds
/// one; for an object, what [`object_output`] gives; nothing otherwise.
pub open spec fn extracted(v: JsonValue) -> Option<Seq<char>> {
    extracted_upto(v, item_count(v))
}

pub(crate) fn get_field<'a>(fields: &'a Vec<(String, JsonValue)>, key: &str) -> (r: Option<&'a JsonValue>)
    ensures
        match entry(fields@, key@) {
            Some(x) => r == Some(&x),
            None => r is None,
        },
{
    let mut i = fields.len();
    assert(fields@.take(i as int) =~= fields@);
    while i > 0
        invariant
            i <= fields.len(),
            entry(fields@, key@) == entry(fields@.take(i as int), key@),
        decreases i,
    {
        assert(fields@.take(i as int).last() == fields@[i - 1]);
        if str_eq(fields[i - 1].0.as_str(), key) {
            return Some(&fields[i - 1].1);
        }
        assert(fields@.take(i as int).drop_last() =~= fields@.take(i - 1));
        i = i - 1;
    }
    assert(fields@.take(0) =~= Seq::<(String, JsonValue)>::empty());
    None
}

/// The structured output in a value; see [`extracted`].
pub fn extract_from_value(v: &JsonValue) -> (r: Option<String>)
    ensures
        match extracted(*v) {
            Some(s) => r matches Some(x) && x@ == s,
            None => r is None,
        },
    decreases *v,
{
    proof {
        reveal_strlit("structured_output");
        reveal_strlit("type");
        reveal_strlit("title");
    }
    match v {
        JsonValue::Array(items) => {
            let mut k = items.len();
            while k > 0
                invariant
                    k <= items@.len(),
                    *v == JsonValue::Array(*items),
                    extracted(*v) == extracted_upto(*v, k as nat),
                decreases k,
            {
                let c = &items[k - 1];
                assert(decreases_to!(*v => *items));
                let found = extract_from_value(c);
                if let Some(s) = found {
                    return Some(s);
                }
                k = k - 1;
            }
            None
        },
        JsonValue::Object(fields) => {
            if let Some(s) = get_field(fields, "structured_output") {
                if !matches!(s, JsonValue::Null) {
                    return Some(json_text(s));
                }
            }
            if get_field(fields, "type").is_none() && get_field(fields, "title").is_some() {
                Some(json_text(v))
            } else {
                None
            }
        },
        _ => None,
    }
}

/// The structured output of one line of agent output, if it is JSON that
/// holds one.
pub open spec fn line_output(l: Seq<char>) -> Option<Seq<char>> {
    let t = trim(l);
    if t.len() == 0 {
        None
    } else {
        match json_of(t) {
            Ok(v) => extracted(v),
            Err(_) => None,
        }
    }
}

/// The last line of `ls` that holds a structured output, and that output.
pub open spec fn last_line_output(ls: Seq<Seq<char>>) -> Option<Seq<char>>
    decreases ls.len(),
{
    if ls.len() == 0 {
        None
    } else {
        match line_output(ls.last()) {
            Some(s) => Some(s),
            None => last_line_output(ls.drop_last()),
        }
    }
}

/// The structured output in an agent's output: the whole (trimmed) output
/// read as JSON when it holds one, else the last line that does.
pub open spec fn structured_output_of(output: Seq<char>) -> Option<Seq<char>> {
    let t = trim(output);
    let whole = match json_of(t) {
        Ok(v) => extracted(v),
        Err(_) => None,
    };
    match whole {
        Some(s) => Some(s),
        None => last_line_output(lines(t)),
    }
}

/// Finds the structured output in an agent's output; see
/// [`structured_output_of`].
pub fn find_structured_output(output: &str) -> (r: Option<String>)
    ensures
        match structured_output_of(output@) {
            Some(s) => r matches Some(x) && x@ == s,
            None => r is None,
        },
{
    let t = trimmed(output);
    if let Ok(v) = parse_json(t.as_str()) {
        if let Some(s) = extract_from_value(&v) {
            return Some(s);
        }
    }
    let ls = split_lines(t.as_str());
    let ghost lv = strings_view(ls@);
    let mut k = ls.len();
    assert(lv.take(k as int) =~= lv);
    while k > 0
        invariant
            k <= ls.len(),
            lv == strings_view(ls@),
            lv == lines(t@),
            t@ == trim(output@),
            last_line_output(lv) == last_line_output(lv.take(k as int)),
            (match json_of(t@) {
                Ok(v) => extracted(v),
                Err(_) => None,
            }) is None,
        decreases k,
    {
        assert(lv.take(k as int).last() == ls@[k - 1]@);
        assert(lv.take(k as int).drop_last() =~= lv.take(k - 1));
        let line = trimmed(ls[k - 1].as_str());
        if !is_blank(ls[k - 1].as_str()) {
            if let Ok(v) = parse_json(line.as_str()) {
                if let Some(s) = extract_from_value(&v) {
                    assert(line_output(lv.take(k as int).last()) == Some(s@));
                    assert(last_line_output(lv.take(k as int)) == Some(s@));
                    assert(structured_output_of(output@) == last_line_output(lv));
                    return Some(s);
                }
            }
        }
        k = k - 1;
    }
    assert(lv.take(0) =~= Seq::<Seq<char>>::empty());
    None
}

} // verus!
