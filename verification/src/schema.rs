//! Repair of tool-call arguments against the tool's JSON input schema, so a
//! strict provider does not reject the echoed call: a value that violates
//! its property's type or enum is replaced, and a required field that is
//! missing or null is filled, from the property's `default`, else its first
//! enum value, else a placeholder of its type.

use vstd::prelude::*;
use crate::json::{Json, JsonNumber, json_get, get_str, json_eqv, json_eq, json_clone, key_index_from, eq_str};
use crate::types::Action;

verus! {

/// Placeholder for a field of JSON-schema type `ty`: the empty value of the
/// type, `null` for an unknown or missing type.
pub open spec fn placeholder_ok(ty: Option<Seq<char>>, j: Json) -> bool {
    match ty {
        Some(t) => if t == "string"@ {
            j matches Json::Str(s) && s@.len() == 0
        } else if t == "integer"@ || t == "number"@ {
            j == Json::Number(JsonNumber::PosInt(0))
        } else if t == "boolean"@ {
            j == Json::Bool(false)
        } else if t == "array"@ {
            j matches Json::Array(v) && v@.len() == 0
        } else if t == "object"@ {
            j matches Json::Object(v) && v@.len() == 0
        } else {
            j == Json::Null
        },
        None => j == Json::Null,
    }
}

/// A type-appropriate placeholder for a required field without a default.
pub fn placeholder_for_schema_type(ty: Option<&str>) -> (r: Json)
    ensures
        placeholder_ok(
            match ty {
                Some(t) => Some(t@),
                None => None,
            },
            r,
        ),
{
    match ty {
        Some(t) => if eq_str(t, "string") {
            Json::Str(String::new())
        } else if eq_str(t, "integer") || eq_str(t, "number") {
            Json::Number(JsonNumber::PosInt(0))
        } else if eq_str(t, "boolean") {
            Json::Bool(false)
        } else if eq_str(t, "array") {
            Json::Array(Vec::new())
        } else if eq_str(t, "object") {
            Json::Object(Vec::new())
        } else {
            Json::Null
        },
        None => Json::Null,
    }
}

/// The replacement for a property's missing or invalid value: its
/// `default`, else the first value of its non-empty `enum`, else the
/// placeholder of its `type`.
pub open spec fn fallback_ok(prop: Json, j: Json) -> bool {
    match json_get(prop, "default"@) {
        Some(d) => json_eqv(j, d),
        None => match json_get(prop, "enum"@) {
            Some(Json::Array(items)) => if items@.len() > 0 {
                json_eqv(j, items@[0])
            } else {
                placeholder_ok(get_str(prop, "type"@), j)
            },
            _ => placeholder_ok(get_str(prop, "type"@), j),
        },
    }
}

/// Replacement value of a property.
pub fn schema_property_fallback(prop: &Json) -> (r: Json)
    ensures
        fallback_ok(*prop, r),
{
    match prop.get("default") {
        Some(d) => return json_clone(d),
        None => {},
    }
    match prop.get("enum") {
        Some(Json::Array(items)) => {
            if items.len() > 0 {
                return json_clone(&items[0]);
            }
        },
        _ => {},
    }
    match prop.get_str("type") {
        Some(t) => placeholder_for_schema_type(Some(t.as_str())),
        None => placeholder_for_schema_type(None),
    }
}

/// `value` has JSON-schema type `t`; unknown types (formats) accept anything.
pub open spec fn type_matches(t: Seq<char>, v: Json) -> bool {
    if t == "string"@ {
        v is Str
    } else if t == "integer"@ {
        v matches Json::Number(JsonNumber::PosInt(_)) || v matches Json::Number(JsonNumber::NegInt(_))
    } else if t == "number"@ {
        v is Number
    } else if t == "boolean"@ {
        v is Bool
    } else if t == "array"@ {
        v is Array
    } else if t == "object"@ {
        v is Object
    } else if t == "null"@ {
        v is Null
    } else {
        true
    }
}

/// The value is one of the property's `enum` values (when it has one).
pub open spec fn enum_admits(prop: Json, v: Json) -> bool {
    match json_get(prop, "enum"@) {
        Some(Json::Array(items)) => exists|i: int| 0 <= i < items@.len() && json_eqv(#[trigger] items@[i], v),
        _ => true,
    }
}

/// The value has the property's `type`, or one of its `type` list.
pub open spec fn type_admits(prop: Json, v: Json) -> bool {
    match json_get(prop, "type"@) {
        Some(Json::Str(t)) => type_matches(t@, v),
        Some(Json::Array(ts)) => exists|i: int|
            0 <= i < ts@.len() && (#[trigger] ts@[i] matches Json::Str(t) && type_matches(t@, v)),
        _ => true,
    }
}

/// The value conforms to the property's type and enum constraints.
pub open spec fn conforms_spec(prop: Json, v: Json) -> bool {
    enum_admits(prop, v) && type_admits(prop, v)
}

fn type_matches_exec(t: &str, v: &Json) -> (r: bool)
    ensures
        r == type_matches(t@, *v),
{
    if eq_str(t, "string") {
        v.is_string()
    } else if eq_str(t, "integer") {
        v.is_i64() || v.is_u64()
    } else if eq_str(t, "number") {
        v.is_number()
    } else if eq_str(t, "boolean") {
        v.is_boolean()
    } else if eq_str(t, "array") {
        v.is_array()
    } else if eq_str(t, "object") {
        v.is_object()
    } else if eq_str(t, "null") {
        v.is_null()
    } else {
        true
    }
}

/// Whether `value` conforms to the property's type / enum constraints (a
/// strict provider rejects a call whose echoed input does not).
pub fn value_conforms_to_prop(prop: &Json, value: &Json) -> (r: bool)
    ensures
        r == conforms_spec(*prop, *value),
{
    match prop.get("enum") {
        Some(Json::Array(items)) => {
            let mut found = false;
            let mut i: usize = 0;
            while i < items.len()
                invariant
                    i <= items@.len(),
                    found == exists|k: int| 0 <= k < i && json_eqv(#[trigger] items@[k], *value),
                decreases items.len() - i,
            {
                if json_eq(&items[i], value) {
                    found = true;
                }
                i += 1;
            }
            if !found {
                return false;
            }
        },
        _ => {},
    }
    match prop.get("type") {
        Some(Json::Str(t)) => type_matches_exec(t.as_str(), value),
        Some(Json::Array(ts)) => {
            let mut any = false;
            let mut i: usize = 0;
            while i < ts.len()
                invariant
                    i <= ts@.len(),
                    any == exists|k: int|
                        0 <= k < i && (#[trigger] ts@[k] matches Json::Str(t) && type_matches(t@, *value)),
                decreases ts.len() - i,
            {
                match &ts[i] {
                    Json::Str(t) => {
                        if type_matches_exec(t.as_str(), value) {
                            any = true;
                        }
                    },
                    _ => {},
                }
                i += 1;
            }
            any
        },
        _ => true,
    }
}

proof fn lemma_key_index_update(s: Seq<(String, Json)>, j: int, e: (String, Json), k: Seq<char>, i: int)
    requires
        0 <= j < s.len(),
        e.0@ == s[j].0@,
        0 <= i,
    ensures
        key_index_from(s.update(j, e), k, i) == key_index_from(s, k, i),
    decreases s.len() - i,
{
    if i < s.len() {
        lemma_key_index_update(s, j, e, k, i + 1);
    }
}

proof fn lemma_key_index_push(s: Seq<(String, Json)>, e: (String, Json), k: Seq<char>, i: int)
    requires
        0 <= i <= s.len(),
    ensures
        key_index_from(s.push(e), k, i) == match key_index_from(s, k, i) {
            Some(x) => Some(x),
            None => if e.0@ == k {
                Some(s.len() as int)
            } else {
                None
            },
        },
    decreases s.len() - i,
{
    if i < s.len() {
        assert(s.push(e)[i] == s[i]);
        lemma_key_index_push(s, e, k, i + 1);
    } else {
        assert(s.push(e)[i] == e);
        assert(key_index_from(s.push(e), k, i + 1) is None);
    }
}

proof fn lemma_key_index_found(s: Seq<(String, Json)>, k: Seq<char>, i: int)
    requires
        0 <= i,
    ensures
        key_index_from(s, k, i) matches Some(x) ==> i <= x < s.len() && s[x].0@ == k && forall|y: int|
            i <= y < x ==> s[y].0@ != k,
        key_index_from(s, k, i) is None ==> forall|y: int| i <= y < s.len() ==> s[y].0@ != k,
    decreases s.len() - i,
{
    if i < s.len() {
        lemma_key_index_found(s, k, i + 1);
    }
}

/// Set member `key` of an object's fields: replaces the first member with
/// that key, or appends one. Every other key reads as before.
fn object_set(fields: &mut Vec<(String, Json)>, key: &str, value: Json)
    ensures
        json_get(Json::Object(*final(fields)), key@) == Some(value),
        forall|k: Seq<char>| k != key@ ==> #[trigger] json_get(Json::Object(*final(fields)), k) == json_get(
            Json::Object(*old(fields)),
            k,
        ),
{
    let mut i: usize = 0;
    while i < fields.len()
        invariant
            i <= fields@.len(),
            fields@ == old(fields)@,
            key_index_from(fields@, key@, 0) == key_index_from(fields@, key@, i as int),
        decreases fields.len() - i,
    {
        if eq_str(fields[i].0.as_str(), key) {
            let ghost s = fields@;
            let (name, _) = fields.remove(i);
            fields.insert(i, (name, value));
            proof {
                assert(fields@ == s.update(i as int, (name, value)));
                lemma_key_index_update(s, i as int, (name, value), key@, 0);
                assert forall|k: Seq<char>| k != key@ implies #[trigger] json_get(Json::Object(*fields), k)
                    == json_get(Json::Object(*old(fields)), k) by {
                    lemma_key_index_update(s, i as int, (name, value), k, 0);
                    lemma_key_index_found(s, k, 0);
                }
            }
            return;
        }
        i += 1;
    }
    let ghost s = fields@;
    let name = String::from_str(key);
    fields.push((name, value));
    proof {
        lemma_key_index_push(s, (name, value), key@, 0);
        assert forall|k: Seq<char>| k != key@ implies #[trigger] json_get(Json::Object(*fields), k) == json_get(
            Json::Object(*old(fields)),
            k,
        ) by {
            lemma_key_index_push(s, (name, value), k, 0);
            lemma_key_index_found(s, k, 0);
        }
    }
}

/// Field `k` of the object being repaired: the input's, none when the
/// input was not an object (a truncated generation leaves unparseable
/// arguments, which are repaired as an empty object).
pub open spec fn base_get(input: Json, k: Seq<char>) -> Option<Json> {
    if input is Object {
        json_get(input, k)
    } else {
        None
    }
}

/// The schema's declaration of property `k`.
pub open spec fn prop_of(schema: Json, k: Seq<char>) -> Option<Json> {
    match json_get(schema, "properties"@) {
        Some(p) => json_get(p, k),
        None => None,
    }
}

/// Field `k` is present and violates its declared property.
pub open spec fn violates(input: Json, schema: Json, k: Seq<char>) -> bool {
    base_get(input, k) matches Some(v) && prop_of(schema, k) matches Some(p) && !conforms_spec(p, v)
}

/// The schema lists `k` as required.
pub open spec fn required_key(schema: Json, k: Seq<char>) -> bool {
    json_get(schema, "required"@) matches Some(Json::Array(items)) && exists|i: int|
        0 <= i < items@.len() && (#[trigger] items@[i] matches Json::Str(s) && s@ == k)
}

/// Absent, or `null`.
pub open spec fn missing_or_null(v: Option<Json>) -> bool {
    v is None || v == Some(Json::Null)
}

/// Replacement of a required field: its property's fallback, `null` when
/// the schema does not declare it.
pub open spec fn required_fallback_ok(schema: Json, k: Seq<char>, j: Json) -> bool {
    match prop_of(schema, k) {
        Some(p) => fallback_ok(p, j),
        None => j == Json::Null,
    }
}

/// Field `k` after the property pass.
pub open spec fn after_props_ok(input: Json, schema: Json, k: Seq<char>, got: Option<Json>) -> bool {
    if violates(input, schema, k) {
        got matches Some(x) && fallback_ok(prop_of(schema, k)->0, x)
    } else {
        got == base_get(input, k)
    }
}

/// A required field `k` after both passes.
pub open spec fn filled_ok(input: Json, schema: Json, k: Seq<char>, got: Option<Json>) -> bool {
    if violates(input, schema, k) {
        got matches Some(x) && fallback_ok(prop_of(schema, k)->0, x)
    } else if missing_or_null(base_get(input, k)) {
        got matches Some(x) && required_fallback_ok(schema, k, x)
    } else {
        got == base_get(input, k)
    }
}

/// Field `k` of the repaired input.
pub open spec fn repaired_ok(input: Json, schema: Json, k: Seq<char>, got: Option<Json>) -> bool {
    if required_key(schema, k) {
        filled_ok(input, schema, k, got)
    } else {
        after_props_ok(input, schema, k, got)
    }
}

/// Some field was replaced or filled.
pub open spec fn repair_changes(input: Json, schema: Json) -> bool {
    (exists|k: Seq<char>| #[trigger] violates(input, schema, k)) || (exists|k: Seq<char>|
        #[trigger] required_key(schema, k) && missing_or_null(base_get(input, k)))
}

/// The repaired input: an object whose every field reads as `repaired_ok`
/// says.
pub open spec fn repaired_input(input: Json, schema: Json, out: Json) -> bool {
    &&& out is Object
    &&& forall|k: Seq<char>| #[trigger] repaired_ok(input, schema, k, json_get(out, k))
}

/// A replacement `x` for field `k` settles it: when `k` is declared with
/// property `p` and `x` is one of its fallbacks, `x` conforms to `p`, and is
/// not `null` when `k` is required.
pub open spec fn settles(schema: Json, k: Seq<char>, x: Json) -> bool {
    match prop_of(schema, k) {
        Some(p) => fallback_ok(p, x) ==> conforms_spec(p, x) && (required_key(schema, k) ==> x != Json::Null),
        None => true,
    }
}

/// Every fallback of the schema settles its field, and every required field
/// is declared.
pub open spec fn fallbacks_settle(schema: Json) -> bool {
    &&& forall|k: Seq<char>, x: Json| #[trigger] settles(schema, k, x)
    &&& forall|k: Seq<char>| #[trigger] required_key(schema, k) ==> prop_of(schema, k) is Some
}

/// Law: repair reaches its fixed point in one call when the schema's
/// fallbacks settle: in a repaired input every present declared field
/// conforms to its property and every required field is present and not
/// `null`, so repairing it again changes nothing.
pub proof fn repaired_input_conforms(input: Json, schema: Json, out: Json)
    requires
        repaired_input(input, schema, out),
        fallbacks_settle(schema),
    ensures
        !repair_changes(out, schema),
{
    assert forall|k: Seq<char>| !#[trigger] violates(out, schema, k) by {
        assert(repaired_ok(input, schema, k, json_get(out, k)));
        if violates(out, schema, k) {
            assert(settles(schema, k, json_get(out, k)->0));
        }
    }
    assert forall|k: Seq<char>| #[trigger] required_key(schema, k) implies !missing_or_null(base_get(out, k)) by {
        assert(repaired_ok(input, schema, k, json_get(out, k)));
        if json_get(out, k) is Some {
            assert(settles(schema, k, json_get(out, k)->0));
        }
    }
}

/// Key `k` was declared by a property at an index below `n`.
pub open spec fn prop_done(props: Seq<(String, Json)>, k: Seq<char>, n: int) -> bool {
    key_index_from(props, k, 0) matches Some(j) && j < n
}

/// Key `k` was listed as required at an index below `n`.
pub open spec fn required_done(items: Seq<Json>, k: Seq<char>, n: int) -> bool {
    exists|i: int| 0 <= i < n && (#[trigger] items[i] matches Json::Str(s) && s@ == k)
}

fn is_first_key(fields: &Vec<(String, Json)>, i: usize) -> (r: bool)
    requires
        i < fields@.len(),
    ensures
        r == (key_index_from(fields@, fields@[i as int].0@, 0) == Some(i as int)),
{
    let mut j: usize = 0;
    proof {
        lemma_key_index_found(fields@, fields@[i as int].0@, 0);
    }
    while j < i
        invariant
            j <= i < fields@.len(),
            forall|y: int| 0 <= y < j ==> fields@[y].0@ != fields@[i as int].0@,
        decreases i - j,
    {
        if eq_str(fields[j].0.as_str(), fields[i].0.as_str()) {
            proof {
                lemma_key_index_found(fields@, fields@[i as int].0@, 0);
            }
            return false;
        }
        j += 1;
    }
    proof {
        lemma_key_index_found(fields@, fields@[i as int].0@, 0);
    }
    true
}

/// Repair one call's input against its tool's input schema; returns whether
/// any field was replaced or filled. A non-object input becomes an object.
pub fn repair_tool_input(input: &mut Json, schema: &Json) -> (changed: bool)
    ensures
        repaired_input(*old(input), *schema, *final(input)),
        changed == repair_changes(*old(input), *schema),
{
    let ghost orig = *input;
    let mut taken = Json::Null;
    std::mem::swap(&mut taken, input);
    let mut fields: Vec<(String, Json)> = match taken {
        Json::Object(f) => f,
        _ => Vec::new(),
    };
    assert forall|k: Seq<char>| #[trigger] json_get(Json::Object(fields), k) == base_get(orig, k) by {}
    let mut changed = false;
    // First pass: every declared property with a present, violating value.
    let props = schema.get("properties");
    match props {
        Some(Json::Object(pfields)) => {
            proof {
                assert forall|k: Seq<char>| !prop_done(pfields@, k, 0) by {
                    lemma_key_index_found(pfields@, k, 0);
                }
            }
            let mut n: usize = 0;
            while n < pfields.len()
                invariant
                    n <= pfields@.len(),
                    props == Some(&Json::Object(*pfields)),
                    json_get(*schema, "properties"@) == Some(Json::Object(*pfields)),
                    forall|k: Seq<char>| #[trigger] json_get(Json::Object(fields), k) == (if prop_done(pfields@, k, n as int) {
                        json_get(Json::Object(fields), k)
                    } else {
                        base_get(orig, k)
                    }),
                    forall|k: Seq<char>| prop_done(pfields@, k, n as int) ==> #[trigger] after_props_ok(orig, *schema, k, json_get(Json::Object(fields), k)),
                    changed == exists|k: Seq<char>| prop_done(pfields@, k, n as int) && #[trigger] violates(orig, *schema, k),
                decreases pfields.len() - n,
            {
                let ghost before = fields;
                let ghost key = pfields@[n as int].0@;
                if is_first_key(pfields, n) {
                    let name = pfields[n].0.as_str();
                    let prop = &pfields[n].1;
                    proof {
                        assert(prop_of(*schema, key) == Some(*prop));
                        assert(!prop_done(pfields@, key, n as int));
                        assert(json_get(Json::Object(fields), key) == base_get(orig, key));
                    }
                    let present = {
                        let obj = Json::Object(fields);
                        let r = match obj.get(name) {
                            Some(v) => !value_conforms_to_prop(prop, v),
                            None => false,
                        };
                        fields = match obj {
                            Json::Object(f) => f,
                            _ => Vec::new(),
                        };
                        r
                    };
                    assert(fields == before);
                    assert(present == violates(orig, *schema, key));
                    if present {
                        let fb = schema_property_fallback(prop);
                        object_set(&mut fields, name, fb);
                        changed = true;
                    }
                    proof {
                        assert forall|k: Seq<char>| prop_done(pfields@, k, n + 1) <==> (prop_done(pfields@, k, n as int) || k == key) by {
                            lemma_key_index_found(pfields@, k, 0);
                        }
                        assert forall|k: Seq<char>| #[trigger] json_get(Json::Object(fields), k) == (if prop_done(pfields@, k, n + 1) {
                            json_get(Json::Object(fields), k)
                        } else {
                            base_get(orig, k)
                        }) by {
                            if k != key {
                                assert(json_get(Json::Object(fields), k) == json_get(Json::Object(before), k));
                            }
                        }
                        assert forall|k: Seq<char>| prop_done(pfields@, k, n + 1) implies #[trigger] after_props_ok(orig, *schema, k, json_get(Json::Object(fields), k)) by {
                            if k != key {
                                assert(json_get(Json::Object(fields), k) == json_get(Json::Object(before), k));
                            }
                        }
                        if changed {
                            if present {
                                assert(prop_done(pfields@, key, n + 1) && violates(orig, *schema, key));
                            } else {
                                let w = choose|k: Seq<char>| prop_done(pfields@, k, n as int) && #[trigger] violates(orig, *schema, k);
                                assert(prop_done(pfields@, w, n + 1));
                            }
                        }
                        if exists|k: Seq<char>| prop_done(pfields@, k, n + 1) && #[trigger] violates(orig, *schema, k) {
                            let w = choose|k: Seq<char>| prop_done(pfields@, k, n + 1) && #[trigger] violates(orig, *schema, k);
                            if w != key {
                                assert(prop_done(pfields@, w, n as int));
                            }
                        }
                    }
                } else {
                    proof {
                        let j = key_index_from(pfields@, key, 0)->0;
                        lemma_key_index_found(pfields@, key, 0);
                        assert forall|k: Seq<char>| prop_done(pfields@, k, n + 1) <==> prop_done(pfields@, k, n as int) by {
                            lemma_key_index_found(pfields@, k, 0);
                        }
                    }
                }
                n += 1;
            }
            proof {
                assert forall|k: Seq<char>| #[trigger] after_props_ok(orig, *schema, k, json_get(Json::Object(fields), k)) by {
                    lemma_key_index_found(pfields@, k, 0);
                    if !prop_done(pfields@, k, pfields@.len() as int) {
                        assert(prop_of(*schema, k) is None);
                    }
                }
                assert(changed == exists|k: Seq<char>| #[trigger] violates(orig, *schema, k)) by {
                    if exists|k: Seq<char>| #[trigger] violates(orig, *schema, k) {
                        let w = choose|k: Seq<char>| #[trigger] violates(orig, *schema, k);
                        lemma_key_index_found(pfields@, w, 0);
                        assert(prop_done(pfields@, w, pfields@.len() as int));
                    }
                }
            }
        },
        _ => {
            proof {
                assert forall|k: Seq<char>| #[trigger] after_props_ok(orig, *schema, k, json_get(Json::Object(fields), k)) by {
                    assert(prop_of(*schema, k) is None);
                }
                assert(!exists|k: Seq<char>| #[trigger] violates(orig, *schema, k));
            }
        },
    }
    assert(forall|k: Seq<char>| #[trigger] after_props_ok(orig, *schema, k, json_get(Json::Object(fields), k)));
    assert(changed == exists|k: Seq<char>| #[trigger] violates(orig, *schema, k));
    // Second pass: required fields that are missing or null.
    match schema.get("required") {
        Some(Json::Array(items)) => {
            let mut n: usize = 0;
            while n < items.len()
                invariant
                    n <= items@.len(),
                    json_get(*schema, "required"@) == Some(Json::Array(*items)),
                    forall|k: Seq<char>| !required_done(items@, k, n as int) ==> #[trigger] after_props_ok(orig, *schema, k, json_get(Json::Object(fields), k)),
                    forall|k: Seq<char>| required_done(items@, k, n as int) ==> #[trigger] filled_ok(orig, *schema, k, json_get(Json::Object(fields), k)),
                    changed == ((exists|k: Seq<char>| #[trigger] violates(orig, *schema, k)) || (exists|k: Seq<char>|
                        required_done(items@, k, n as int) && #[trigger] missing_or_null(base_get(orig, k)))),
                decreases items.len() - n,
            {
                let ghost before = fields;
                match &items[n] {
                    Json::Str(name) => {
                        let ghost key = name@;
                        proof {
                            if required_done(items@, key, n as int) {
                                assert(filled_ok(orig, *schema, key, json_get(Json::Object(before), key)));
                            } else {
                                assert(after_props_ok(orig, *schema, key, json_get(Json::Object(before), key)));
                            }
                        }
                        let obj = Json::Object(fields);
                        let present = match obj.get(name.as_str()) {
                            Some(v) => !v.is_null(),
                            None => false,
                        };
                        fields = match obj {
                            Json::Object(f) => f,
                            _ => Vec::new(),
                        };
                        assert(fields == before);
                        assert(present == !missing_or_null(json_get(Json::Object(before), key)));
                        if !present {
                            let fb = match schema.get("properties") {
                                Some(p) => match p.get(name.as_str()) {
                                    Some(prop) => schema_property_fallback(prop),
                                    None => Json::Null,
                                },
                                None => Json::Null,
                            };
                            assert(required_fallback_ok(*schema, key, fb));
                            object_set(&mut fields, name.as_str(), fb);
                            changed = true;
                        }
                        proof {
                            assert forall|k: Seq<char>| required_done(items@, k, n + 1) <==> (required_done(items@, k, n as int) || k == key) by {
                                if required_done(items@, k, n + 1) && k != key {
                                    let i = choose|i: int| 0 <= i < n + 1 && (#[trigger] items@[i] matches Json::Str(s) && s@ == k);
                                    assert(i != n);
                                }
                                if k == key {
                                    assert(items@[n as int] matches Json::Str(s) && s@ == k);
                                }
                                if required_done(items@, k, n as int) {
                                    let i = choose|i: int| 0 <= i < n && (#[trigger] items@[i] matches Json::Str(s) && s@ == k);
                                    assert(0 <= i < n + 1);
                                }
                            }
                            assert forall|k: Seq<char>| k != key implies #[trigger] json_get(Json::Object(fields), k) == json_get(Json::Object(before), k) by {}
                            assert(filled_ok(orig, *schema, key, json_get(Json::Object(fields), key)));
                            let ghost v_any = exists|k: Seq<char>| #[trigger] violates(orig, *schema, k);
                            let ghost r_before = exists|k: Seq<char>|
                                required_done(items@, k, n as int) && #[trigger] missing_or_null(base_get(orig, k));
                            let ghost r_after = exists|k: Seq<char>|
                                required_done(items@, k, n + 1) && #[trigger] missing_or_null(base_get(orig, k));
                            if r_before {
                                let w = choose|k: Seq<char>| required_done(items@, k, n as int) && #[trigger] missing_or_null(base_get(orig, k));
                                assert(required_done(items@, w, n + 1));
                            }
                            if r_after {
                                let w = choose|k: Seq<char>| required_done(items@, k, n + 1) && #[trigger] missing_or_null(base_get(orig, k));
                                if w != key {
                                    assert(required_done(items@, w, n as int));
                                }
                            }
                            if !v_any && !r_before {
                                assert(!violates(orig, *schema, key));
                                if required_done(items@, key, n as int) {
                                    assert(!missing_or_null(base_get(orig, key)));
                                }
                                assert(json_get(Json::Object(before), key) == base_get(orig, key));
                                assert(required_done(items@, key, n + 1));
                                assert(!present <==> missing_or_null(base_get(orig, key)));
                            }
                        }
                    },
                    _ => {
                        proof {
                            assert forall|k: Seq<char>| required_done(items@, k, n + 1) <==> required_done(items@, k, n as int) by {
                                if required_done(items@, k, n + 1) {
                                    let i = choose|i: int| 0 <= i < n + 1 && (#[trigger] items@[i] matches Json::Str(s) && s@ == k);
                                    assert(i != n);
                                }
                                if required_done(items@, k, n as int) {
                                    let i = choose|i: int| 0 <= i < n && (#[trigger] items@[i] matches Json::Str(s) && s@ == k);
                                    assert(0 <= i < n + 1);
                                }
                            }
                        }
                    },
                }
                n += 1;
            }
            proof {
                assert forall|k: Seq<char>| #[trigger] repaired_ok(orig, *schema, k, json_get(Json::Object(fields), k)) by {
                    if required_key(*schema, k) {
                        let i = choose|i: int| 0 <= i < items@.len() && (#[trigger] items@[i] matches Json::Str(s) && s@ == k);
                        assert(required_done(items@, k, items@.len() as int));
                    } else {
                        if required_done(items@, k, items@.len() as int) {
                            let i = choose|i: int| 0 <= i < items@.len() && (#[trigger] items@[i] matches Json::Str(s) && s@ == k);
                            assert(required_key(*schema, k));
                        }
                    }
                }
                if exists|k: Seq<char>| #[trigger] required_key(*schema, k) && missing_or_null(base_get(orig, k)) {
                    let w = choose|k: Seq<char>| #[trigger] required_key(*schema, k) && missing_or_null(base_get(orig, k));
                    let i = choose|i: int| 0 <= i < items@.len() && (#[trigger] items@[i] matches Json::Str(s) && s@ == w);
                    assert(required_done(items@, w, items@.len() as int));
                }
                if exists|k: Seq<char>| required_done(items@, k, items@.len() as int) && #[trigger] missing_or_null(base_get(orig, k)) {
                    let w = choose|k: Seq<char>| required_done(items@, k, items@.len() as int) && #[trigger] missing_or_null(base_get(orig, k));
                    let i = choose|i: int| 0 <= i < items@.len() && (#[trigger] items@[i] matches Json::Str(s) && s@ == w);
                    assert(required_key(*schema, w));
                }
            }
        },
        _ => {
            proof {
                assert forall|k: Seq<char>| #[trigger] repaired_ok(orig, *schema, k, json_get(Json::Object(fields), k)) by {
                    assert(!required_key(*schema, k));
                }
                assert(!exists|k: Seq<char>| #[trigger] required_key(*schema, k) && missing_or_null(base_get(orig, k)));
            }
        },
    }
    *input = Json::Object(fields);
    changed
}

/// The repair changes the input of a non-final action with a known tool.
pub open spec fn action_repaired(a: Action, schema: Option<Json>) -> bool {
    !a.is_final && (schema matches Some(s) && repair_changes(a.tool_input, s))
}

/// Number of actions, among the first `n`, whose input the repair changes.
pub open spec fn repaired_count(actions: Seq<Action>, schemas: Seq<Option<Json>>, n: int) -> nat
    decreases n,
{
    if n <= 0 {
        0
    } else {
        repaired_count(actions, schemas, n - 1) + if action_repaired(actions[n - 1], schemas[n - 1]) {
            1nat
        } else {
            0nat
        }
    }
}

/// Repair the arguments of every non-final action whose tool is known
/// (`schemas[i]`: the input schema of action `i`'s tool, `None` when the
/// session has no such tool); returns how many actions were repaired.
pub fn supplement_missing_required_fields(actions: &mut Vec<Action>, schemas: &[Option<Json>]) -> (r: usize)
    requires
        schemas@.len() == old(actions)@.len(),
    ensures
        final(actions)@.len() == old(actions)@.len(),
        r == repaired_count(old(actions)@, schemas@, old(actions)@.len() as int),
        forall|i: int| 0 <= i < old(actions)@.len() ==> {
            let a = old(actions)@[i];
            let b = #[trigger] final(actions)@[i];
            &&& b.tool_name == a.tool_name
            &&& b.is_final == a.is_final
            &&& b.tool_call_id == a.tool_call_id
            &&& if !a.is_final && schemas@[i] is Some {
                repaired_input(a.tool_input, schemas@[i]->0, b.tool_input)
            } else {
                b.tool_input == a.tool_input
            }
        },
{
    let ghost orig = actions@;
    let mut repaired: usize = 0;
    let mut i: usize = 0;
    while i < actions.len()
        invariant
            i <= actions@.len(),
            actions@.len() == orig.len(),
            schemas@.len() == orig.len(),
            repaired == repaired_count(orig, schemas@, i as int),
            repaired <= i,
            forall|j: int| i <= j < orig.len() ==> #[trigger] actions@[j] == orig[j],
            forall|j: int| 0 <= j < i ==> {
                let a = orig[j];
                let b = #[trigger] actions@[j];
                &&& b.tool_name == a.tool_name
                &&& b.is_final == a.is_final
                &&& b.tool_call_id == a.tool_call_id
                &&& if !a.is_final && schemas@[j] is Some {
                    repaired_input(a.tool_input, schemas@[j]->0, b.tool_input)
                } else {
                    b.tool_input == a.tool_input
                }
            },
        decreases actions.len() - i,
    {
        let ghost before = actions@;
        if !actions[i].is_final {
            match &schemas[i] {
                Some(schema) => {
                    let mut a = actions.remove(i);
                    let changed = repair_tool_input(&mut a.tool_input, schema);
                    actions.insert(i, a);
                    if changed {
                        repaired += 1;
                    }
                    proof {
                        assert forall|j: int| 0 <= j < orig.len() && j != i implies #[trigger] actions@[j] == before[j] by {}
                    }
                },
                None => {},
            }
        }
        i += 1;
    }
    repaired
}

/// Law: a property typed `"number"` admits every JSON number, integer or
/// not, and nothing else; every value an `"integer"` property admits is a
/// number too, and the integer type admits no fraction.
pub proof fn number_type_admits_every_number(v: Json)
    ensures
        type_matches("number"@, v) <==> v is Number,
        type_matches("integer"@, v) ==> type_matches("number"@, v),
        v matches Json::Number(JsonNumber::Float(_)) ==> !type_matches("integer"@, v),
        type_matches("string"@, v) <==> v is Str,
        type_matches("boolean"@, v) <==> v is Bool,
{
    reveal_strlit("number");
    reveal_strlit("integer");
    reveal_strlit("string");
    reveal_strlit("boolean");
    reveal_strlit("array");
    reveal_strlit("object");
    reveal_strlit("null");
    assert("number"@[0] != "string"@[0]);
    assert("number"@[0] != "integer"@[0]);
    assert("integer"@[0] != "string"@[0]);
    assert("boolean"@[0] != "string"@[0]);
    assert("boolean"@[0] != "integer"@[0]);
    assert("boolean"@[0] != "number"@[0]);
}

} // verus!
