//! The attribute mapper: scalar JSON values become storage-backend
//! attributes, strings verbatim and numbers as their literal text; every
//! other kind is an explicit failure, never a coercion.

use vstd::prelude::*;

use crate::errors::{DynHdlErr, DynHdlErrV};
use crate::json::{kind_of, kind_of_value, Item, JsonVal, JsonValue};

verus! {

/// A storage-backend attribute value: exactly one tag is set, and a
/// number's encoding is the original literal text, never a lossy float.
#[derive(Debug, PartialEq)]
pub enum AttributeValue {
    StringValue(String),
    NumberValue(String),
}

/// The mathematical value of an [`AttributeValue`].
pub enum AttrVal {
    StringValue(Seq<char>),
    NumberValue(Seq<char>),
}

impl View for AttributeValue {
    type V = AttrVal;

    open spec fn view(&self) -> AttrVal {
        match self {
            AttributeValue::StringValue(s) => AttrVal::StringValue(s@),
            AttributeValue::NumberValue(n) => AttrVal::NumberValue(n@),
        }
    }
}

/// The attribute a JSON value maps to: strings and numbers round-trip their
/// text exactly; every other kind has no attribute.
pub open spec fn attr_of(v: JsonVal) -> Option<AttrVal> {
    match v {
        JsonVal::Str(s) => Some(AttrVal::StringValue(s)),
        JsonVal::Num(n) => Some(AttrVal::NumberValue(n)),
        _ => None,
    }
}

/// Whether a JSON value is a scalar the mapper can encode.
pub open spec fn is_scalar(v: JsonVal) -> bool {
    attr_of(v) is Some
}

/// The text an attribute carries: the string verbatim, or the number's
/// literal.
pub open spec fn attr_text(a: AttrVal) -> Seq<char> {
    match a {
        AttrVal::StringValue(s) => s,
        AttrVal::NumberValue(n) => n,
    }
}

/// Maps one JSON value to its backend attribute. Succeeds exactly on
/// scalars, round-tripping the literal text; on any other kind it returns
/// an unsupported-type failure carrying `field` and the kind observed.
pub fn to_attribute(field: &String, v: &JsonValue) -> (r: Result<AttributeValue, DynHdlErr>)
    ensures
        r is Ok <==> is_scalar(v@),
        r matches Ok(a) ==> attr_of(v@) == Some(a@),
        r matches Err(e) ==> e@ == (DynHdlErrV::UnsupportedType {
            field: field@,
            kind: kind_of(v@),
        }),
{
    match v {
        JsonValue::Str(s) => Ok(AttributeValue::StringValue(s.clone())),
        JsonValue::Num(n) => Ok(AttributeValue::NumberValue(n.clone())),
        _ => Err(
            DynHdlErr::UnsupportedType { field: field.clone(), kind: kind_of_value(v) },
        ),
    }
}

/// The text of the attribute a scalar key maps to, on the executable
/// representation.
pub fn attr_text_of(a: &AttributeValue) -> (r: &String)
    ensures
        r@ == attr_text(a@),
{
    match a {
        AttributeValue::StringValue(s) => s,
        AttributeValue::NumberValue(n) => n,
    }
}

/// Maps every field of an item to its backend attribute, all or nothing.
/// Succeeds exactly where every field is a scalar, and then returns the
/// whole item mapped field for field in order; on the first non-scalar
/// field it returns that field's unsupported-type failure, and no partial
/// mapping.
pub fn map_item(item: &Item) -> (r: Result<Vec<(String, AttributeValue)>, DynHdlErr>)
    ensures
        r is Ok <==> (forall|i: int| 0 <= i < item@.len() ==> is_scalar(#[trigger] item@[i].1)),
        r matches Ok(m) ==> {
            &&& m@.len() == item@.len()
            &&& forall|i: int|
                #![trigger m@[i]]
                0 <= i < item@.len() ==> m@[i].0@ == item@[i].0 && attr_of(item@[i].1) == Some(
                    m@[i].1@,
                )
        },
        r matches Err(e) ==> exists|i: int|
            {
                &&& 0 <= i < item@.len()
                &&& !is_scalar(#[trigger] item@[i].1)
                &&& forall|j: int| 0 <= j < i ==> is_scalar(#[trigger] item@[j].1)
                &&& e@ == (DynHdlErrV::UnsupportedType {
                    field: item@[i].0,
                    kind: kind_of(item@[i].1),
                })
            },
{
    let n = item.fields.len();
    let mut out: Vec<(String, AttributeValue)> = Vec::new();
    let mut i: usize = 0;
    while i < n
        invariant
            n == item@.len(),
            i <= n,
            out@.len() == i,
            forall|j: int| 0 <= j < i ==> is_scalar(#[trigger] item@[j].1),
            forall|j: int|
                #![trigger out@[j]]
                0 <= j < i ==> out@[j].0@ == item@[j].0 && attr_of(item@[j].1) == Some(
                    out@[j].1@,
                ),
        decreases n - i,
    {
        let p = &item.fields[i];
        match to_attribute(&p.0, &p.1) {
            Ok(a) => {
                out.push((p.0.clone(), a));
            },
            Err(e) => {
                proof {
                    assert(item@[i as int] == (item.fields@[i as int].0@, item.fields@[
                        i as int
                    ].1@));
                    assert(!is_scalar(item@[i as int].1));
                }
                return Err(e);
            },
        }
        i += 1;
    }
    Ok(out)
}

} // verus!
