//! The item codec and key extractor: a model of JSON values, the trusted
//! boundary to the outside parser, and the verified parse and key-lookup
//! functions built on it.

use vstd::prelude::*;

use crate::errors::{DynHdlErr, DynHdlErrV, JsonKind};

verus! {

/// A JSON value as this library models it. The pipeline reads only scalars
/// (strings and numbers, the number kept as its literal text); of compound
/// and non-scalar values it needs only the kind, so those variants carry
/// nothing.
#[derive(Debug, PartialEq)]
pub enum JsonValue {
    Str(String),
    Num(String),
    Bool(bool),
    Null,
    Object,
    Array,
}

/// The mathematical value of a [`JsonValue`]: the same variants over
/// sequences of characters.
pub enum JsonVal {
    Str(Seq<char>),
    Num(Seq<char>),
    Bool(bool),
    Null,
    Object,
    Array,
}

impl View for JsonValue {
    type V = JsonVal;

    open spec fn view(&self) -> JsonVal {
        match self {
            JsonValue::Str(s) => JsonVal::Str(s@),
            JsonValue::Num(n) => JsonVal::Num(n@),
            JsonValue::Bool(b) => JsonVal::Bool(*b),
            JsonValue::Null => JsonVal::Null,
            JsonValue::Object => JsonVal::Object,
            JsonValue::Array => JsonVal::Array,
        }
    }
}

/// The kind of a JSON value, as carried by an unsupported-type failure.
pub open spec fn kind_of(v: JsonVal) -> JsonKind {
    match v {
        JsonVal::Str(..) => JsonKind::Str,
        JsonVal::Num(..) => JsonKind::Num,
        JsonVal::Bool(..) => JsonKind::Bool,
        JsonVal::Null => JsonKind::Null,
        JsonVal::Object => JsonKind::Object,
        JsonVal::Array => JsonKind::Array,
    }
}

/// The kind of a JSON value, computed on the executable representation.
pub fn kind_of_value(v: &JsonValue) -> (r: JsonKind)
    ensures
        r == kind_of(v@),
{
    match v {
        JsonValue::Str(..) => JsonKind::Str,
        JsonValue::Num(..) => JsonKind::Num,
        JsonValue::Bool(..) => JsonKind::Bool,
        JsonValue::Null => JsonKind::Null,
        JsonValue::Object => JsonKind::Object,
        JsonValue::Array => JsonKind::Array,
    }
}

/// A parsed item: a mapping from field name to JSON value, created once per
/// invocation from the raw input text and immutable afterwards.
#[derive(Debug, PartialEq)]
pub struct Item {
    pub fields: Vec<(String, JsonValue)>,
}

impl View for Item {
    type V = Seq<(Seq<char>, JsonVal)>;

    open spec fn view(&self) -> Seq<(Seq<char>, JsonVal)> {
        self.fields@.map_values(|p: (String, JsonValue)| (p.0@, p.1@))
    }
}

/// The value of the first field named `name`, if any.
pub open spec fn lookup(fields: Seq<(Seq<char>, JsonVal)>, name: Seq<char>) -> Option<JsonVal>
    decreases fields.len(),
{
    if fields.len() == 0 {
        None
    } else if fields[0].0 == name {
        Some(fields[0].1)
    } else {
        lookup(fields.drop_first(), name)
    }
}

/// A JSON value as the outside parser represents it, declared so that such
/// values can pass through verified code. Verified code never looks inside
/// one; `json_view_of` names what it holds.
#[verifier::external_type_specification]
#[verifier::external_body]
pub struct ExJsonValue(serde_json::Value);

/// What a `serde_json::Value` holds, read as this library's JSON model.
pub uninterp spec fn json_view_of(v: serde_json::Value) -> JsonVal;

/// What `serde_json::from_str` yields on a given text when asked for a
/// string-keyed object: the object's field/value sequence, or nothing where
/// the text is not a syntactically valid JSON object.
pub uninterp spec fn parse_of(s: Seq<char>) -> Option<Seq<(Seq<char>, JsonVal)>>;

/// Relies on `serde_json::from_str` for `serde_json::Map<String, Value>`:
/// it succeeds exactly on texts whose top-level value is a valid JSON
/// object, and its result is a function of the text alone. The map's
/// entries are handed back one for one.
#[verifier::external_body]
fn parse_to_pairs(raw: &String) -> (r: Result<Vec<(String, serde_json::Value)>, String>)
    ensures
        r is Ok <==> parse_of(raw@) is Some,
        r matches Ok(pairs) ==> {
            let fields = parse_of(raw@)->Some_0;
            &&& pairs@.len() == fields.len()
            &&& forall|i: int|
                #![trigger pairs@[i]]
                0 <= i < fields.len() ==> pairs@[i].0@ == fields[i].0 && json_view_of(
                    pairs@[i].1,
                ) == fields[i].1
        },
{
    match serde_json::from_str::<serde_json::Map<String, serde_json::Value>>(raw.as_str()) {
        Ok(m) => Ok(m.into_iter().collect()),
        Err(e) => Err(e.to_string()),
    }
}

/// Relies on the variants of `serde_json::Value`: each arm moves the parsed
/// content into this library's value model. With the parser's
/// arbitrary-precision number representation, a number's literal text is
/// kept exactly as written in the input.
#[verifier::external_body]
fn classify(v: &serde_json::Value) -> (r: JsonValue)
    ensures
        r@ == json_view_of(*v),
{
    match v {
        serde_json::Value::Null => JsonValue::Null,
        serde_json::Value::Bool(b) => JsonValue::Bool(*b),
        serde_json::Value::Number(n) => JsonValue::Num(n.to_string()),
        serde_json::Value::String(s) => JsonValue::Str(s.clone()),
        serde_json::Value::Array(..) => JsonValue::Array,
        serde_json::Value::Object(..) => JsonValue::Object,
    }
}

/// Parses the raw item text into an [`Item`]. Succeeds exactly where the
/// text is a valid JSON object, and then returns the whole parse; on any
/// syntax failure it returns a parsing failure carrying the raw text and
/// the parser's message, and no partial item.
pub fn parse(raw: &String) -> (r: Result<Item, DynHdlErr>)
    ensures
        r is Ok <==> parse_of(raw@) is Some,
        r matches Ok(item) ==> item@ == parse_of(raw@)->Some_0,
        r matches Err(e) ==> (e@ matches DynHdlErrV::Parsing { item, .. } && item == raw@),
{
    match parse_to_pairs(raw) {
        Err(msg) => Err(DynHdlErr::Parsing { item: raw.clone(), err_msg: msg }),
        Ok(pairs) => {
            let ghost fields = parse_of(raw@)->Some_0;
            let mut out: Vec<(String, JsonValue)> = Vec::new();
            let mut i: usize = 0;
            while i < pairs.len()
                invariant
                    pairs@.len() == fields.len(),
                    forall|k: int|
                        #![trigger pairs@[k]]
                        0 <= k < fields.len() ==> pairs@[k].0@ == fields[k].0 && json_view_of(
                            pairs@[k].1,
                        ) == fields[k].1,
                    i <= pairs@.len(),
                    out@.len() == i,
                    forall|k: int|
                        #![trigger out@[k]]
                        0 <= k < i ==> out@[k].0@ == fields[k].0 && out@[k].1@ == fields[k].1,
                decreases pairs@.len() - i,
            {
                let p = &pairs[i];
                let key = p.0.clone();
                let val = classify(&p.1);
                out.push((key, val));
                i += 1;
            }
            let item = Item { fields: out };
            proof {
                assert forall|k: int| 0 <= k < fields.len() implies item@[k] == fields[k] by {
                    assert(item@[k] == (out@[k].0@, out@[k].1@));
                }
                assert(item@ =~= fields);
            }
            Ok(item)
        },
    }
}

/// Lookup of the first `i` fields finds nothing, so the lookup outcome is
/// decided by the rest of the sequence.
proof fn lemma_lookup_skip(fields: Seq<(Seq<char>, JsonVal)>, name: Seq<char>, i: int)
    requires
        0 <= i <= fields.len(),
        forall|j: int| 0 <= j < i ==> #[trigger] fields[j].0 != name,
    ensures
        lookup(fields, name) == lookup(fields.skip(i), name),
    decreases i,
{
    if i == 0 {
        assert(fields.skip(0) =~= fields);
    } else {
        lemma_lookup_skip(fields.drop_first(), name, i - 1);
        assert(fields.drop_first().skip(i - 1) =~= fields.skip(i));
    }
}

/// Looks the partition-key field up in the item. Succeeds exactly where the
/// field is present and not JSON null, and then returns that field's value;
/// where the field is absent or null it returns a key-not-found failure
/// carrying the key name and the raw item text.
pub fn extract<'a>(item: &'a Item, pk_name: &String, raw: &String) -> (r: Result<
    &'a JsonValue,
    DynHdlErr,
>)
    ensures
        r is Ok <==> (lookup(item@, pk_name@) matches Some(v) && v != JsonVal::Null),
        r matches Ok(v) ==> lookup(item@, pk_name@) == Some(v@),
        r matches Err(e) ==> e@ == (DynHdlErrV::PKNotFound { pk_name: pk_name@, item: raw@ }),
{
    let n = item.fields.len();
    let mut i: usize = 0;
    while i < n
        invariant
            n == item@.len(),
            i <= n,
            forall|j: int| 0 <= j < i ==> #[trigger] item@[j].0 != pk_name@,
        decreases n - i,
    {
        let p = &item.fields[i];
        if p.0 == *pk_name {
            proof {
                lemma_lookup_skip(item@, pk_name@, i as int);
                assert(item@.skip(i as int)[0] == item@[i as int]);
            }
            match &p.1 {
                JsonValue::Null => {
                    return Err(
                        DynHdlErr::PKNotFound { pk_name: pk_name.clone(), item: raw.clone() },
                    );
                },
                _ => {
                    return Ok(&p.1);
                },
            }
        }
        i += 1;
    }
    proof {
        lemma_lookup_skip(item@, pk_name@, n as int);
        assert(item@.skip(n as int) =~= Seq::empty());
    }
    Err(DynHdlErr::PKNotFound { pk_name: pk_name.clone(), item: raw.clone() })
}

} // verus!
