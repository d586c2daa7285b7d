//! Payload validation against registered JSON schemas.
//!
//! Whether a payload matches a schema is decided by an external JSON-Schema
//! validator, treated here as a plug-in predicate on the two JSON texts:
//! `payload_valid` names its verdict, and every publish-time decision is
//! stated over that name.

use vstd::prelude::*;
use crate::errors::InvalidPropertyDef;

verus! {

/// The external validator's verdict for a payload text against a schema
/// text. The verdict depends on the two texts alone.
pub uninterp spec fn payload_valid(payload: Seq<char>, schema: Seq<char>) -> bool;

/// Relies on valico's json_schema scope: parses both texts, compiles the
/// schema, and validates the payload against it. A text that does not
/// parse as JSON, or a schema that does not compile, counts as invalid.
/// The verdict is a function of the two texts alone.
#[verifier::external_body]
pub fn payload_is_valid(payload: &str, schema: &str) -> (r: bool)
    ensures
        r == payload_valid(payload@, schema@),
{
    let payload_as_obj: serde_json::Value = match serde_json::from_str(payload) {
        Ok(payload_obj) => payload_obj,
        Err(_) => return false,
    };
    let schema_as_obj: serde_json::Value = match serde_json::from_str(schema) {
        Ok(schema_obj) => schema_obj,
        Err(_) => return false,
    };
    let mut scope = valico::json_schema::Scope::new();
    match scope.compile_and_return(schema_as_obj, true) {
        Ok(r_schema) => r_schema.validate(&payload_as_obj).is_valid(),
        Err(_) => false,
    }
}

/// A JSON value, as the structural schema rules read it. A number carries
/// its value when it is integral and within range; the structural rules
/// never read numbers.
pub enum JsonValue {
    Null,
    Bool(bool),
    Number(Option<i64>),
    Text(String),
    Array(Vec<JsonValue>),
    Object(Vec<(String, JsonValue)>),
}

/// The value under the first entry of this key, if any.
pub open spec fn spec_lookup(fields: Seq<(String, JsonValue)>, key: Seq<char>) -> Option<JsonValue>
    decreases fields.len(),
{
    if fields.len() == 0 {
        None
    } else if fields[0].0@ == key {
        Some(fields[0].1)
    } else {
        spec_lookup(fields.subrange(1, fields.len() as int), key)
    }
}

proof fn lemma_lookup_at(fields: Seq<(String, JsonValue)>, key: Seq<char>, i: int)
    requires
        0 <= i < fields.len(),
        fields[i].0@ == key,
        forall|j: int| 0 <= j < i ==> (#[trigger] fields[j]).0@ != key,
    ensures
        spec_lookup(fields, key) == Some(fields[i].1),
    decreases i,
{
    if i > 0 {
        let t = fields.subrange(1, fields.len() as int);
        assert(t[i - 1] == fields[i]);
        assert forall|j: int| 0 <= j < i - 1 implies (#[trigger] t[j]).0@ != key by {
            assert(t[j] == fields[j + 1]);
        }
        lemma_lookup_at(t, key, i - 1);
    }
}

proof fn lemma_lookup_none(fields: Seq<(String, JsonValue)>, key: Seq<char>)
    requires
        forall|j: int| 0 <= j < fields.len() ==> (#[trigger] fields[j]).0@ != key,
    ensures
        spec_lookup(fields, key) is None,
    decreases fields.len(),
{
    if fields.len() > 0 {
        let t = fields.subrange(1, fields.len() as int);
        assert forall|j: int| 0 <= j < t.len() implies (#[trigger] t[j]).0@ != key by {
            assert(t[j] == fields[j + 1]);
        }
        lemma_lookup_none(t, key);
    }
}

/// A character folded to lower case when it is an ASCII capital.
pub open spec fn ascii_lower_char(c: char) -> char {
    if 'A' <= c && c <= 'Z' {
        (((c as int) + 32) as char)
    } else {
        c
    }
}

/// A text with its ASCII capitals folded to lower case.
pub open spec fn ascii_lower(s: Seq<char>) -> Seq<char> {
    s.map_values(|c: char| ascii_lower_char(c))
}

/// Exact equality of two string slices, character by character.
fn str_eq(a: &str, b: &str) -> (r: bool)
    ensures
        r == (a@ == b@),
{
    let a_len = a.unicode_len();
    let b_len = b.unicode_len();
    if a_len != b_len {
        return false;
    }
    let mut i: usize = 0;
    while i < a_len
        invariant
            a@.len() == a_len,
            b@.len() == b_len,
            a_len == b_len,
            0 <= i <= a_len,
            forall|j: int| 0 <= j < i ==> a@[j] == b@[j],
        decreases a_len - i,
    {
        if a.get_char(i) != b.get_char(i) {
            return false;
        }
        i = i + 1;
    }
    proof {
        assert(a@ =~= b@);
    }
    true
}

/// Whether the text, folded to ASCII lower case, equals the target.
fn ascii_lower_matches(s: &str, target: &str) -> (r: bool)
    ensures
        r == (ascii_lower(s@) == target@),
{
    let s_len = s.unicode_len();
    let t_len = target.unicode_len();
    if s_len != t_len {
        proof {
            assert(ascii_lower(s@).len() == s@.len());
        }
        return false;
    }
    let mut i: usize = 0;
    while i < s_len
        invariant
            s@.len() == s_len,
            target@.len() == t_len,
            s_len == t_len,
            0 <= i <= s_len,
            forall|j: int| 0 <= j < i ==> ascii_lower_char(s@[j]) == target@[j],
        decreases s_len - i,
    {
        let c = s.get_char(i);
        let lowered: char = if c >= 'A' && c <= 'Z' {
            (((c as u8) + 32) as char)
        } else {
            c
        };
        if lowered != target.get_char(i) {
            proof {
                assert(ascii_lower(s@)[i as int] == ascii_lower_char(s@[i as int]));
            }
            return false;
        }
        i = i + 1;
    }
    proof {
        assert(ascii_lower(s@) =~= target@);
    }
    true
}

/// The property kinds a schema entry may declare.
#[derive(PartialEq, Eq, Structural, Clone, Copy, Debug)]
pub enum SchemaProperty {
    Text,
    Number,
    Object,
}

/// The kind a property definition's `type` text declares, read ASCII
/// case-insensitively.
pub open spec fn spec_declared_kind(t: Seq<char>) -> Option<SchemaProperty> {
    if ascii_lower(t) == "string"@ {
        Some(SchemaProperty::Text)
    } else if ascii_lower(t) == "number"@ {
        Some(SchemaProperty::Number)
    } else if ascii_lower(t) == "object"@ {
        Some(SchemaProperty::Object)
    } else {
        None
    }
}

/// Reads a property definition's `type` text.
pub fn parse_schema_property(t: &str) -> (r: Option<SchemaProperty>)
    ensures
        r == spec_declared_kind(t@),
{
    if ascii_lower_matches(t, "string") {
        Some(SchemaProperty::Text)
    } else if ascii_lower_matches(t, "number") {
        Some(SchemaProperty::Number)
    } else if ascii_lower_matches(t, "object") {
        Some(SchemaProperty::Object)
    } else {
        None
    }
}

/// An array whose items are all texts.
pub open spec fn spec_is_text_array(v: JsonValue) -> bool {
    match v {
        JsonValue::Array(items) => forall|i: int|
            0 <= i < items@.len() ==> (#[trigger] items@[i]) is Text,
        _ => false,
    }
}

/// A structurally valid property definition: an object that declares a
/// known `type`; one that declares `object` must itself carry valid
/// `properties` and a `required` array of strings.
pub open spec fn spec_valid_property_def(v: JsonValue) -> bool
    decreases v,
{
    match v {
        JsonValue::Object(fields) => {
            &&& (match spec_lookup(fields@, "type"@) {
                Some(JsonValue::Text(t)) => spec_declared_kind(t@) is Some,
                _ => false,
            })
            &&& (match spec_lookup(fields@, "type"@) {
                Some(JsonValue::Text(t)) => spec_declared_kind(t@) == Some(SchemaProperty::Object)
                    ==> spec_object_def_extras(fields@),
                _ => false,
            })
            &&& spec_entries_recurse(fields@)
        },
        _ => false,
    }
}

/// The extra fields an object-typed definition must declare: `properties`
/// as an object, and `required` as an array of strings.
pub open spec fn spec_object_def_extras(fields: Seq<(String, JsonValue)>) -> bool {
    &&& (match spec_lookup(fields, "properties"@) {
        Some(JsonValue::Object(_)) => true,
        _ => false,
    })
    &&& (match spec_lookup(fields, "required"@) {
        Some(required) => spec_is_text_array(required),
        _ => false,
    })
}

/// Walks a definition's fields: every `properties` object's entries must
/// be valid property definitions themselves.
pub open spec fn spec_entries_recurse(fields: Seq<(String, JsonValue)>) -> bool
    decreases fields,
{
    if fields.len() == 0 {
        true
    } else {
        let head_ok = if fields[0].0@ == "properties"@ {
            match fields[0].1 {
                JsonValue::Object(props) => spec_valid_properties(props@),
                _ => true,
            }
        } else {
            true
        };
        head_ok && spec_entries_recurse(fields.subrange(1, fields.len() as int))
    }
}

/// Every named property of a `properties` object is a valid definition.
pub open spec fn spec_valid_properties(props: Seq<(String, JsonValue)>) -> bool
    decreases props,
{
    if props.len() == 0 {
        true
    } else {
        spec_valid_property_def(props[0].1) && spec_valid_properties(
            props.subrange(1, props.len() as int),
        )
    }
}

/// A structurally valid payload schema: an object that declares
/// `type = "object"` and a `properties` object, every property of which is
/// a valid definition.
pub open spec fn spec_valid_payload_schema(v: JsonValue) -> bool {
    match v {
        JsonValue::Object(fields) => {
            &&& (match spec_lookup(fields@, "type"@) {
                Some(JsonValue::Text(t)) => ascii_lower(t@) == "object"@,
                _ => false,
            })
            &&& (match spec_lookup(fields@, "properties"@) {
                Some(JsonValue::Object(_)) => true,
                _ => false,
            })
            &&& spec_entries_recurse(fields@)
        },
        _ => false,
    }
}


/// Deep equality of two JSON values: same shape, with texts compared by
/// their characters.
pub open spec fn json_eq(a: JsonValue, b: JsonValue) -> bool
    decreases a,
{
    match (a, b) {
        (JsonValue::Null, JsonValue::Null) => true,
        (JsonValue::Bool(x), JsonValue::Bool(y)) => x == y,
        (JsonValue::Number(x), JsonValue::Number(y)) => x == y,
        (JsonValue::Text(x), JsonValue::Text(y)) => x@ == y@,
        (JsonValue::Array(x), JsonValue::Array(y)) => json_seq_eq(x@, y@),
        (JsonValue::Object(x), JsonValue::Object(y)) => json_fields_eq(x@, y@),
        _ => false,
    }
}

/// Deep equality of two item sequences.
pub open spec fn json_seq_eq(x: Seq<JsonValue>, y: Seq<JsonValue>) -> bool
    decreases x,
{
    if x.len() != y.len() {
        false
    } else if x.len() == 0 {
        true
    } else {
        json_eq(x[0], y[0]) && json_seq_eq(
            x.subrange(1, x.len() as int),
            y.subrange(1, y.len() as int),
        )
    }
}

/// Deep equality of two field lists: same keys in the same order, with
/// deeply equal values.
pub open spec fn json_fields_eq(
    x: Seq<(String, JsonValue)>,
    y: Seq<(String, JsonValue)>,
) -> bool
    decreases x,
{
    if x.len() != y.len() {
        false
    } else if x.len() == 0 {
        true
    } else {
        x[0].0@ == y[0].0@ && json_eq(x[0].1, y[0].1) && json_fields_eq(
            x.subrange(1, x.len() as int),
            y.subrange(1, y.len() as int),
        )
    }
}

proof fn lemma_json_seq_eq_pointwise(x: Seq<JsonValue>, y: Seq<JsonValue>)
    requires
        x.len() == y.len(),
        forall|k: int| 0 <= k < x.len() ==> json_eq(#[trigger] x[k], y[k]),
    ensures
        json_seq_eq(x, y),
    decreases x.len(),
{
    if x.len() > 0 {
        let xt = x.subrange(1, x.len() as int);
        let yt = y.subrange(1, y.len() as int);
        assert forall|k: int| 0 <= k < xt.len() implies json_eq(#[trigger] xt[k], yt[k]) by {
            assert(xt[k] == x[k + 1]);
            assert(yt[k] == y[k + 1]);
        }
        lemma_json_seq_eq_pointwise(xt, yt);
    }
}

proof fn lemma_json_fields_eq_pointwise(x: Seq<(String, JsonValue)>, y: Seq<(String, JsonValue)>)
    requires
        x.len() == y.len(),
        forall|k: int| 0 <= k < x.len() ==> (#[trigger] x[k]).0@ == y[k].0@ && json_eq(
            x[k].1,
            y[k].1,
        ),
    ensures
        json_fields_eq(x, y),
    decreases x.len(),
{
    if x.len() > 0 {
        let xt = x.subrange(1, x.len() as int);
        let yt = y.subrange(1, y.len() as int);
        assert forall|k: int| 0 <= k < xt.len() implies (#[trigger] xt[k]).0@ == yt[k].0@
            && json_eq(xt[k].1, yt[k].1) by {
            assert(xt[k] == x[k + 1]);
            assert(yt[k] == y[k + 1]);
        }
        lemma_json_fields_eq_pointwise(xt, yt);
    }
}

impl JsonValue {
    /// A copy of the value, node for node.
    #[verifier::loop_isolation(false)]
    pub fn duplicate(&self) -> (r: Self)
        ensures
            json_eq(r, *self),
        decreases *self,
    {
        match self {
            JsonValue::Null => JsonValue::Null,
            JsonValue::Bool(b) => JsonValue::Bool(*b),
            JsonValue::Number(n) => JsonValue::Number(*n),
            JsonValue::Text(s) => JsonValue::Text(s.clone()),
            JsonValue::Array(items) => {
                let mut out: Vec<JsonValue> = Vec::new();
                let mut i: usize = 0;
                while i < items.len()
                    invariant
                        0 <= i <= items@.len(),
                        out@.len() == i,
                        forall|k: int| 0 <= k < i ==> json_eq(#[trigger] out@[k], items@[k]),
                    decreases items@.len() - i,
                {
                    out.push(items[i].duplicate());
                    i = i + 1;
                }
                proof {
                    lemma_json_seq_eq_pointwise(out@, items@);
                }
                JsonValue::Array(out)
            },
            JsonValue::Object(fields) => {
                let mut out: Vec<(String, JsonValue)> = Vec::new();
                let mut i: usize = 0;
                while i < fields.len()
                    invariant
                        0 <= i <= fields@.len(),
                        out@.len() == i,
                        forall|k: int| 0 <= k < i ==> (#[trigger] out@[k]).0@ == fields@[k].0@
                            && json_eq(out@[k].1, fields@[k].1),
                    decreases fields@.len() - i,
                {
                    out.push((fields[i].0.clone(), fields[i].1.duplicate()));
                    i = i + 1;
                }
                proof {
                    lemma_json_fields_eq_pointwise(out@, fields@);
                }
                JsonValue::Object(out)
            },
        }
    }
}

/// Index of the first entry of this key.
fn lookup_field(fields: &Vec<(String, JsonValue)>, key: &str) -> (r: Option<usize>)
    ensures
        match r {
            Some(i) => 0 <= i < fields@.len() && fields@[i as int].0@ == key@ && spec_lookup(
                fields@,
                key@,
            ) == Some(fields@[i as int].1),
            None => spec_lookup(fields@, key@) is None,
        },
{
    let mut i: usize = 0;
    while i < fields.len()
        invariant
            0 <= i <= fields@.len(),
            forall|j: int| 0 <= j < i ==> (#[trigger] fields@[j]).0@ != key@,
        decreases fields@.len() - i,
    {
        if str_eq(fields[i].0.as_str(), key) {
            proof {
                lemma_lookup_at(fields@, key@, i as int);
            }
            return Some(i);
        }
        i = i + 1;
    }
    proof {
        lemma_lookup_none(fields@, key@);
    }
    None
}

/// Whether the value is an array of texts.
#[verifier::loop_isolation(false)]
fn check_text_array(v: &JsonValue) -> (r: bool)
    ensures
        r == spec_is_text_array(*v),
{
    match v {
        JsonValue::Array(items) => {
            let mut i: usize = 0;
            while i < items.len()
                invariant
                    0 <= i <= items@.len(),
                    forall|k: int| 0 <= k < i ==> (#[trigger] items@[k]) is Text,
                decreases items@.len() - i,
            {
                match &items[i] {
                    JsonValue::Text(_) => {},
                    _ => {
                        return false;
                    },
                }
                i = i + 1;
            }
            true
        },
        _ => false,
    }
}

/// Whether the value is a structurally valid property definition.
#[verifier::loop_isolation(false)]
fn check_property_def(v: &JsonValue) -> (r: bool)
    ensures
        r == spec_valid_property_def(*v),
    decreases *v,
{
    match v {
        JsonValue::Object(fields) => {
            let kind = match lookup_field(fields, "type") {
                Some(i) => match &fields[i].1 {
                    JsonValue::Text(t) => match parse_schema_property(t.as_str()) {
                        Some(kind) => kind,
                        None => {
                            return false;
                        },
                    },
                    _ => {
                        return false;
                    },
                },
                None => {
                    return false;
                },
            };
            if kind == SchemaProperty::Object {
                match lookup_field(fields, "properties") {
                    Some(i) => match &fields[i].1 {
                        JsonValue::Object(_) => {},
                        _ => {
                            return false;
                        },
                    },
                    None => {
                        return false;
                    },
                }
                match lookup_field(fields, "required") {
                    Some(i) => {
                        if !check_text_array(&fields[i].1) {
                            return false;
                        }
                    },
                    None => {
                        return false;
                    },
                }
            }
            check_entries(fields)
        },
        _ => false,
    }
}

/// Whether every `properties` object among the fields holds only valid
/// property definitions.
#[verifier::loop_isolation(false)]
fn check_entries(fields: &Vec<(String, JsonValue)>) -> (r: bool)
    ensures
        r == spec_entries_recurse(fields@),
    decreases fields@,
{
    let mut i: usize = 0;
    proof {
        assert(fields@.subrange(0, fields@.len() as int) =~= fields@);
    }
    while i < fields.len()
        invariant
            0 <= i <= fields@.len(),
            spec_entries_recurse(fields@) == spec_entries_recurse(
                fields@.subrange(i as int, fields@.len() as int),
            ),
        decreases fields@.len() - i,
    {
        proof {
            let suffix = fields@.subrange(i as int, fields@.len() as int);
            assert(suffix[0] == fields@[i as int]);
            assert(suffix.subrange(1, suffix.len() as int) =~= fields@.subrange(
                i + 1,
                fields@.len() as int,
            ));
        }
        if str_eq(fields[i].0.as_str(), "properties") {
            match &fields[i].1 {
                JsonValue::Object(props) => {
                    if !check_properties(props) {
                        return false;
                    }
                },
                _ => {},
            }
        }
        i = i + 1;
    }
    proof {
        assert(fields@.subrange(fields@.len() as int, fields@.len() as int) =~= Seq::<(
            String,
            JsonValue,
        )>::empty());
    }
    true
}

/// Whether every named property is a valid definition.
#[verifier::loop_isolation(false)]
fn check_properties(props: &Vec<(String, JsonValue)>) -> (r: bool)
    ensures
        r == spec_valid_properties(props@),
    decreases props@,
{
    let mut i: usize = 0;
    proof {
        assert(props@.subrange(0, props@.len() as int) =~= props@);
    }
    while i < props.len()
        invariant
            0 <= i <= props@.len(),
            spec_valid_properties(props@) == spec_valid_properties(
                props@.subrange(i as int, props@.len() as int),
            ),
        decreases props@.len() - i,
    {
        proof {
            let suffix = props@.subrange(i as int, props@.len() as int);
            assert(suffix[0] == props@[i as int]);
            assert(suffix.subrange(1, suffix.len() as int) =~= props@.subrange(
                i + 1,
                props@.len() as int,
            ));
        }
        if !check_property_def(&props[i].1) {
            return false;
        }
        i = i + 1;
    }
    proof {
        assert(props@.subrange(props@.len() as int, props@.len() as int) =~= Seq::<(
            String,
            JsonValue,
        )>::empty());
    }
    true
}

/// Structural validation of a registered payload schema: the root must
/// declare `type = "object"` and a `properties` object, and every property
/// definition in it must be valid. A valid schema is handed back
/// unchanged.
pub fn is_valid_property_def(value: &JsonValue) -> (r: Result<JsonValue, InvalidPropertyDef>)
    ensures
        r is Ok <==> spec_valid_payload_schema(*value),
        r is Ok ==> json_eq(r.unwrap(), *value),
{
    match value {
        JsonValue::Object(fields) => {
            match lookup_field(fields, "type") {
                Some(i) => match &fields[i].1 {
                    JsonValue::Text(t) => {
                        if !ascii_lower_matches(t.as_str(), "object") {
                            return Err(
                                InvalidPropertyDef::new(
                                    String::from_str(
                                        "The payload_definition needs to be defined as object",
                                    ),
                                ),
                            );
                        }
                    },
                    _ => {
                        return Err(
                            InvalidPropertyDef::new(
                                String::from_str(
                                    "The payload_definition needs to be defined as object",
                                ),
                            ),
                        );
                    },
                },
                None => {
                    return Err(
                        InvalidPropertyDef::new(
                            String::from_str(
                                "The payload_definition needs to be defined as object",
                            ),
                        ),
                    );
                },
            }
            match lookup_field(fields, "properties") {
                Some(i) => match &fields[i].1 {
                    JsonValue::Object(_) => {},
                    _ => {
                        return Err(
                            InvalidPropertyDef::new(
                                String::from_str("Properties should be an object"),
                            ),
                        );
                    },
                },
                None => {
                    return Err(
                        InvalidPropertyDef::new(
                            String::from_str("Properties should be an object"),
                        ),
                    );
                },
            }
            if check_entries(fields) {
                Ok(value.duplicate())
            } else {
                Err(
                    InvalidPropertyDef::new(
                        String::from_str("Definition for property is invalid"),
                    ),
                )
            }
        },
        _ => Err(
            InvalidPropertyDef::new(
                String::from_str("The payload_definition needs to be defined as object"),
            ),
        ),
    }
}

/// Applies the structural schema check to a new event type's payload
/// definition when the `validate_event_def` feature is on; with the flag
/// off the definition is accepted as given.
pub fn set_payload(validate_event_def: bool, payload_def: JsonValue) -> (r: Result<
    JsonValue,
    InvalidPropertyDef,
>)
    ensures
        r is Ok <==> (!validate_event_def || spec_valid_payload_schema(payload_def)),
        r is Ok ==> json_eq(r.unwrap(), payload_def),
{
    if validate_event_def {
        is_valid_property_def(&payload_def)
    } else {
        Ok(payload_def.duplicate())
    }
}

} // verus!
