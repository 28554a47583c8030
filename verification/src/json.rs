//! A plain model of JSON documents, the structural equality the repair and
//! policy code relies on, and the bridge from `serde_json`'s parser.

use vstd::prelude::*;
use crate::text::chars_of;

verus! {

/// A JSON number as `serde_json` stores it: a non-negative integer, a
/// negative integer, or a float kept in its shortest decimal rendering.
pub enum JsonNumber {
    PosInt(u64),
    NegInt(i64),
    Float(String),
}

/// A JSON document. Object members keep their order; keys are compared by
/// their characters.
pub enum Json {
    Null,
    Bool(bool),
    Number(JsonNumber),
    Str(String),
    Array(Vec<Json>),
    Object(Vec<(String, Json)>),
}

/// Index of the first member of `fields` at or after `i` whose key is `key`.
pub open spec fn key_index_from(fields: Seq<(String, Json)>, key: Seq<char>, i: int) -> Option<int>
    decreases fields.len() - i,
{
    if i < 0 || i >= fields.len() {
        None
    } else if fields[i].0@ == key {
        Some(i)
    } else {
        key_index_from(fields, key, i + 1)
    }
}

/// Member `key` of an object (the first one carrying that key); `None` for
/// a missing key or a non-object.
pub open spec fn json_get(j: Json, key: Seq<char>) -> Option<Json> {
    match j {
        Json::Object(fields) => match key_index_from(fields@, key, 0) {
            Some(i) => Some(fields@[i].1),
            None => None,
        },
        _ => None,
    }
}

/// The characters of a string value.
pub open spec fn json_str(j: Json) -> Option<Seq<char>> {
    match j {
        Json::Str(s) => Some(s@),
        _ => None,
    }
}

/// Member `key` read as a string.
pub open spec fn get_str(j: Json, key: Seq<char>) -> Option<Seq<char>> {
    match json_get(j, key) {
        Some(v) => json_str(v),
        None => None,
    }
}

/// Member `key` read as a boolean.
pub open spec fn get_bool(j: Json, key: Seq<char>) -> Option<bool> {
    match json_get(j, key) {
        Some(Json::Bool(b)) => Some(b),
        _ => None,
    }
}

/// Member `key` read as an unsigned integer.
pub open spec fn get_u64(j: Json, key: Seq<char>) -> Option<u64> {
    match json_get(j, key) {
        Some(Json::Number(JsonNumber::PosInt(n))) => Some(n),
        _ => None,
    }
}

/// Structural equality of numbers (floats by their rendering).
pub open spec fn number_eqv(a: JsonNumber, b: JsonNumber) -> bool {
    match (a, b) {
        (JsonNumber::PosInt(x), JsonNumber::PosInt(y)) => x == y,
        (JsonNumber::NegInt(x), JsonNumber::NegInt(y)) => x == y,
        (JsonNumber::Float(x), JsonNumber::Float(y)) => x@ == y@,
        _ => false,
    }
}

/// Structural equality of JSON documents: same shape, same scalars, same
/// member keys and values in the same order.
pub open spec fn json_eqv(a: Json, b: Json) -> bool
    decreases a,
{
    match (a, b) {
        (Json::Null, Json::Null) => true,
        (Json::Bool(x), Json::Bool(y)) => x == y,
        (Json::Number(x), Json::Number(y)) => number_eqv(x, y),
        (Json::Str(x), Json::Str(y)) => x@ == y@,
        (Json::Array(xs), Json::Array(ys)) => xs@.len() == ys@.len() && forall|i: int|
            0 <= i < xs@.len() ==> json_eqv(#[trigger] xs@[i], ys@[i]),
        (Json::Object(xs), Json::Object(ys)) => xs@.len() == ys@.len() && forall|i: int|
            0 <= i < xs@.len() ==> (#[trigger] xs@[i]).0@ == ys@[i].0@ && json_eqv(
                xs@[i].1,
                ys@[i].1,
            ),
        _ => false,
    }
}

impl Json {
    /// `Value::is_null`.
    pub fn is_null(&self) -> (r: bool)
        ensures
            r == (self is Null),
    {
        match self {
            Json::Null => true,
            _ => false,
        }
    }

    /// `Value::is_object`.
    pub fn is_object(&self) -> (r: bool)
        ensures
            r == (self is Object),
    {
        match self {
            Json::Object(_) => true,
            _ => false,
        }
    }

    /// `Value::is_string`.
    pub fn is_string(&self) -> (r: bool)
        ensures
            r == (self is Str),
    {
        match self {
            Json::Str(_) => true,
            _ => false,
        }
    }

    /// `Value::is_array`.
    pub fn is_array(&self) -> (r: bool)
        ensures
            r == (self is Array),
    {
        match self {
            Json::Array(_) => true,
            _ => false,
        }
    }

    /// `Value::is_boolean`.
    pub fn is_boolean(&self) -> (r: bool)
        ensures
            r == (self is Bool),
    {
        match self {
            Json::Bool(_) => true,
            _ => false,
        }
    }

    /// `Value::is_number`.
    pub fn is_number(&self) -> (r: bool)
        ensures
            r == (self is Number),
    {
        match self {
            Json::Number(_) => true,
            _ => false,
        }
    }

    /// `Value::is_i64`: an integer that fits `i64`.
    pub fn is_i64(&self) -> (r: bool)
        ensures
            r == match *self {
                Json::Number(JsonNumber::PosInt(n)) => n <= i64::MAX,
                Json::Number(JsonNumber::NegInt(_)) => true,
                _ => false,
            },
    {
        match self {
            Json::Number(JsonNumber::PosInt(n)) => *n <= 0x7fff_ffff_ffff_ffffu64,
            Json::Number(JsonNumber::NegInt(_)) => true,
            _ => false,
        }
    }

    /// `Value::is_u64`: a non-negative integer.
    pub fn is_u64(&self) -> (r: bool)
        ensures
            r == (*self matches Json::Number(JsonNumber::PosInt(_))),
    {
        match self {
            Json::Number(JsonNumber::PosInt(_)) => true,
            _ => false,
        }
    }

    /// `Value::as_str`.
    pub fn as_str(&self) -> (r: Option<&String>)
        ensures
            match r {
                Some(s) => json_str(*self) == Some(s@),
                None => json_str(*self) is None,
            },
    {
        match self {
            Json::Str(s) => Some(s),
            _ => None,
        }
    }

    /// `Value::as_bool`.
    pub fn as_bool(&self) -> (r: Option<bool>)
        ensures
            r == match *self {
                Json::Bool(b) => Some(b),
                _ => None::<bool>,
            },
    {
        match self {
            Json::Bool(b) => Some(*b),
            _ => None,
        }
    }

    /// `Value::as_u64`.
    pub fn as_u64(&self) -> (r: Option<u64>)
        ensures
            r == match *self {
                Json::Number(JsonNumber::PosInt(n)) => Some(n),
                _ => None::<u64>,
            },
    {
        match self {
            Json::Number(JsonNumber::PosInt(n)) => Some(*n),
            _ => None,
        }
    }

    /// `Value::as_array`.
    pub fn as_array(&self) -> (r: Option<&Vec<Json>>)
        ensures
            match r {
                Some(items) => *self == Json::Array(*items),
                None => !(*self is Array),
            },
    {
        match self {
            Json::Array(items) => Some(items),
            _ => None,
        }
    }

    /// `Value::get` with a string key.
    pub fn get(&self, key: &str) -> (r: Option<&Json>)
        ensures
            match r {
                Some(v) => json_get(*self, key@) == Some(*v),
                None => json_get(*self, key@) is None,
            },
    {
        match self {
            Json::Object(fields) => {
                let k = chars_of(key);
                let mut i: usize = 0;
                while i < fields.len()
                    invariant
                        i <= fields@.len(),
                        *self == Json::Object(*fields),
                        k@ == key@,
                        key_index_from(fields@, key@, 0) == key_index_from(fields@, key@, i as int),
                    decreases fields.len() - i,
                {
                    let name = chars_of(fields[i].0.as_str());
                    if eq_chars(name.as_slice(), k.as_slice()) {
                        assert(fields@[i as int].0@ == key@);
                        assert(key_index_from(fields@, key@, i as int) == Some(i as int));
                        return Some(&fields[i].1);
                    }
                    i += 1;
                }
                None
            },
            _ => None,
        }
    }

    /// Member `key` read as a string.
    pub fn get_str(&self, key: &str) -> (r: Option<&String>)
        ensures
            match r {
                Some(s) => get_str(*self, key@) == Some(s@),
                None => get_str(*self, key@) is None,
            },
    {
        match self.get(key) {
            Some(v) => v.as_str(),
            None => None,
        }
    }

    /// Member `key` read as a boolean.
    pub fn get_bool(&self, key: &str) -> (r: Option<bool>)
        ensures
            r == get_bool(*self, key@),
    {
        match self.get(key) {
            Some(v) => v.as_bool(),
            None => None,
        }
    }

    /// Member `key` read as an unsigned integer.
    pub fn get_u64(&self, key: &str) -> (r: Option<u64>)
        ensures
            r == get_u64(*self, key@),
    {
        match self.get(key) {
            Some(v) => v.as_u64(),
            None => None,
        }
    }
}

/// Two character slices are equal.
pub fn eq_chars(a: &[char], b: &[char]) -> (r: bool)
    ensures
        r == (a@ == b@),
{
    if a.len() != b.len() {
        return false;
    }
    let mut i: usize = 0;
    while i < a.len()
        invariant
            a@.len() == b@.len(),
            i <= a@.len(),
            forall|k: int| 0 <= k < i ==> a@[k] == b@[k],
        decreases a.len() - i,
    {
        if a[i] != b[i] {
            return false;
        }
        i += 1;
    }
    assert(a@ =~= b@);
    true
}

/// Two strings hold the same characters.
pub fn eq_str(a: &str, b: &str) -> (r: bool)
    ensures
        r == (a@ == b@),
{
    let x = chars_of(a);
    let y = chars_of(b);
    eq_chars(x.as_slice(), y.as_slice())
}

/// Structural equality of numbers.
pub fn number_eq(a: &JsonNumber, b: &JsonNumber) -> (r: bool)
    ensures
        r == number_eqv(*a, *b),
{
    match (a, b) {
        (JsonNumber::PosInt(x), JsonNumber::PosInt(y)) => *x == *y,
        (JsonNumber::NegInt(x), JsonNumber::NegInt(y)) => *x == *y,
        (JsonNumber::Float(x), JsonNumber::Float(y)) => eq_str(x.as_str(), y.as_str()),
        _ => false,
    }
}

/// Structural equality of JSON documents (`Value`'s `==`).
pub fn json_eq(a: &Json, b: &Json) -> (r: bool)
    ensures
        r == json_eqv(*a, *b),
    decreases a,
{
    match (a, b) {
        (Json::Null, Json::Null) => true,
        (Json::Bool(x), Json::Bool(y)) => *x == *y,
        (Json::Number(x), Json::Number(y)) => number_eq(x, y),
        (Json::Str(x), Json::Str(y)) => eq_str(x.as_str(), y.as_str()),
        (Json::Array(xs), Json::Array(ys)) => {
            if xs.len() != ys.len() {
                return false;
            }
            let mut i: usize = 0;
            while i < xs.len()
                invariant
                    *a == Json::Array(*xs),
                    *b == Json::Array(*ys),
                    xs@.len() == ys@.len(),
                    i <= xs@.len(),
                    forall|k: int| 0 <= k < i ==> json_eqv(#[trigger] xs@[k], ys@[k]),
                decreases xs.len() - i,
            {
                proof {
                    let ghost v = a->Array_0;
                    assert(v == *xs);
                    assert(decreases_to!(v => v@));
                    assert(decreases_to!(v@ => v@[i as int]));
                    assert(decreases_to!(*a => xs@[i as int]));
                }
                if !json_eq(&xs[i], &ys[i]) {
                    assert(!json_eqv(xs@[i as int], ys@[i as int]));
                    return false;
                }
                i += 1;
            }
            true
        },
        (Json::Object(xs), Json::Object(ys)) => {
            if xs.len() != ys.len() {
                return false;
            }
            let mut i: usize = 0;
            while i < xs.len()
                invariant
                    *a == Json::Object(*xs),
                    *b == Json::Object(*ys),
                    xs@.len() == ys@.len(),
                    i <= xs@.len(),
                    forall|k: int|
                        0 <= k < i ==> (#[trigger] xs@[k]).0@ == ys@[k].0@ && json_eqv(
                            xs@[k].1,
                            ys@[k].1,
                        ),
                decreases xs.len() - i,
            {
                if !eq_str(xs[i].0.as_str(), ys[i].0.as_str()) {
                    return false;
                }
                proof {
                    let ghost v = a->Object_0;
                    assert(v == *xs);
                    assert(decreases_to!(v => v@));
                    assert(decreases_to!(v@ => v@[i as int]));
                    assert(decreases_to!(v@[i as int] => v@[i as int].1));
                    assert(decreases_to!(*a => xs@[i as int].1));
                }
                if !json_eq(&xs[i].1, &ys[i].1) {
                    assert(!json_eqv(xs@[i as int].1, ys@[i as int].1));
                    return false;
                }
                i += 1;
            }
            true
        },
        _ => false,
    }
}

/// Deep copy of a document.
pub fn json_clone(a: &Json) -> (r: Json)
    ensures
        json_eqv(r, *a),
    decreases a,
{
    match a {
        Json::Null => Json::Null,
        Json::Bool(b) => Json::Bool(*b),
        Json::Number(JsonNumber::PosInt(n)) => Json::Number(JsonNumber::PosInt(*n)),
        Json::Number(JsonNumber::NegInt(n)) => Json::Number(JsonNumber::NegInt(*n)),
        Json::Number(JsonNumber::Float(s)) => Json::Number(JsonNumber::Float(s.clone())),
        Json::Str(s) => Json::Str(s.clone()),
        Json::Array(xs) => {
            let mut out: Vec<Json> = Vec::new();
            let mut i: usize = 0;
            while i < xs.len()
                invariant
                    *a == Json::Array(*xs),
                    i <= xs@.len(),
                    out@.len() == i,
                    forall|k: int| 0 <= k < i ==> json_eqv(#[trigger] out@[k], xs@[k]),
                decreases xs.len() - i,
            {
                proof {
                    let ghost v = a->Array_0;
                    assert(v == *xs);
                    assert(decreases_to!(v => v@));
                    assert(decreases_to!(v@ => v@[i as int]));
                    assert(decreases_to!(*a => xs@[i as int]));
                }
                let c = json_clone(&xs[i]);
                out.push(c);
                i += 1;
            }
            Json::Array(out)
        },
        Json::Object(xs) => {
            let mut out: Vec<(String, Json)> = Vec::new();
            let mut i: usize = 0;
            while i < xs.len()
                invariant
                    *a == Json::Object(*xs),
                    i <= xs@.len(),
                    out@.len() == i,
                    forall|k: int|
                        0 <= k < i ==> (#[trigger] out@[k]).0@ == xs@[k].0@ && json_eqv(
                            out@[k].1,
                            xs@[k].1,
                        ),
                decreases xs.len() - i,
            {
                proof {
                    let ghost v = a->Object_0;
                    assert(v == *xs);
                    assert(decreases_to!(v => v@));
                    assert(decreases_to!(v@ => v@[i as int]));
                    assert(decreases_to!(v@[i as int] => v@[i as int].1));
                    assert(decreases_to!(*a => xs@[i as int].1));
                }
                let c = json_clone(&xs[i].1);
                out.push((xs[i].0.clone(), c));
                i += 1;
            }
            Json::Object(out)
        },
    }
}

/// `serde_json`'s document type, carried through the bridge below.
#[verifier::external_type_specification]
#[verifier::external_body]
pub struct ExSerdeValue(serde_json::Value);

/// One level of a `serde_json::Value`, with its children still in
/// `serde_json` form.
pub enum RawJson {
    Null,
    Bool(bool),
    PosInt(u64),
    NegInt(i64),
    Float(String),
    Str(String),
    Array(Vec<serde_json::Value>),
    Object(Vec<(String, serde_json::Value)>),
}

/// Nesting bound of `serde_json`'s parser: a parsed document has at most 127
/// nested arrays/objects, so converting with this much fuel never cuts it.
pub const JSON_MAX_DEPTH: u32 = 128;

/// Splits one level off a `serde_json::Value` (the variants of `Value`, and
/// of its private number representation, mapped one for one). Nothing is
/// stated of the result: Verus cannot see inside a `Value`.
#[verifier::external_body]
fn open_value(v: serde_json::Value) -> RawJson {
    match v {
        serde_json::Value::Null => RawJson::Null,
        serde_json::Value::Bool(b) => RawJson::Bool(b),
        serde_json::Value::Number(n) => match (n.as_u64(), n.as_i64()) {
            (Some(u), _) => RawJson::PosInt(u),
            (None, Some(i)) => RawJson::NegInt(i),
            (None, None) => RawJson::Float(n.to_string()),
        },
        serde_json::Value::String(s) => RawJson::Str(s),
        serde_json::Value::Array(a) => RawJson::Array(a),
        serde_json::Value::Object(m) => RawJson::Object(m.into_iter().collect()),
    }
}

/// The document nests arrays and objects at most `d` levels deep (scalars
/// are at depth 0).
pub open spec fn nested_within(j: Json, d: nat) -> bool
    decreases j,
{
    match j {
        Json::Array(xs) => d > 0 && forall|i: int| 0 <= i < xs@.len() ==> nested_within(#[trigger] xs@[i], (d - 1) as nat),
        Json::Object(xs) => d > 0 && forall|i: int| 0 <= i < xs@.len() ==> nested_within(#[trigger] xs@[i].1, (d - 1) as nat),
        _ => true,
    }
}

/// Converts a `serde_json::Value` into the library's document model, level by
/// level; past `fuel` levels a subtree becomes `Null` (never reached with
/// [`JSON_MAX_DEPTH`] on a parsed document).
pub fn json_from_value(v: serde_json::Value, fuel: u32) -> (r: Json)
    ensures
        fuel == 0 ==> r is Null,
        nested_within(r, fuel as nat),
    decreases fuel,
{
    if fuel == 0 {
        return Json::Null;
    }
    match open_value(v) {
        RawJson::Null => Json::Null,
        RawJson::Bool(b) => Json::Bool(b),
        RawJson::PosInt(n) => Json::Number(JsonNumber::PosInt(n)),
        RawJson::NegInt(n) => Json::Number(JsonNumber::NegInt(n)),
        RawJson::Float(s) => Json::Number(JsonNumber::Float(s)),
        RawJson::Str(s) => Json::Str(s),
        RawJson::Array(items) => {
            let mut rest = items;
            let mut reversed: Vec<Json> = Vec::new();
            while rest.len() > 0
                invariant
                    fuel > 0,
                    forall|k: int| 0 <= k < reversed@.len() ==> nested_within(#[trigger] reversed@[k], (fuel - 1) as nat),
                decreases rest.len(),
            {
                let item = rest.pop().unwrap();
                reversed.push(json_from_value(item, fuel - 1));
            }
            let mut out: Vec<Json> = Vec::new();
            while reversed.len() > 0
                invariant
                    fuel > 0,
                    forall|k: int| 0 <= k < reversed@.len() ==> nested_within(#[trigger] reversed@[k], (fuel - 1) as nat),
                    forall|k: int| 0 <= k < out@.len() ==> nested_within(#[trigger] out@[k], (fuel - 1) as nat),
                decreases reversed.len(),
            {
                out.push(reversed.pop().unwrap());
            }
            Json::Array(out)
        },
        RawJson::Object(members) => {
            let mut rest = members;
            let mut reversed: Vec<(String, Json)> = Vec::new();
            while rest.len() > 0
                invariant
                    fuel > 0,
                    forall|k: int| 0 <= k < reversed@.len() ==> nested_within(#[trigger] reversed@[k].1, (fuel - 1) as nat),
                decreases rest.len(),
            {
                let (key, item) = rest.pop().unwrap();
                reversed.push((key, json_from_value(item, fuel - 1)));
            }
            let mut out: Vec<(String, Json)> = Vec::new();
            while reversed.len() > 0
                invariant
                    fuel > 0,
                    forall|k: int| 0 <= k < reversed@.len() ==> nested_within(#[trigger] reversed@[k].1, (fuel - 1) as nat),
                    forall|k: int| 0 <= k < out@.len() ==> nested_within(#[trigger] out@[k].1, (fuel - 1) as nat),
                decreases reversed.len(),
            {
                out.push(reversed.pop().unwrap());
            }
            Json::Object(out)
        },
    }
}

/// What `serde_json::from_str::<Value>` makes of a text, in the library's
/// model: `None` when the text is not one JSON document.
pub uninterp spec fn json_text_value(text: Seq<char>) -> Option<Json>;

/// Parses `text` with `serde_json::from_str::<serde_json::Value>`; the result
/// is a function of the text alone (the parser and the conversion are
/// deterministic, and objects come out in `serde_json`'s key order).
#[verifier::external_body]
pub(crate) fn parse_json(text: &str) -> (r: Option<Json>)
    ensures
        r == json_text_value(text@),
{
    serde_json::from_str::<serde_json::Value>(text).ok().map(|v| json_from_value(v, JSON_MAX_DEPTH))
}

} // verus!
