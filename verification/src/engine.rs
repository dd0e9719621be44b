//! The fetch-or-create engine: preparing a query from the raw inputs, and
//! deciding from the query's cardinality whether to insert the item, report
//! the existing record, or fail on a uniqueness violation.

use vstd::prelude::*;

use crate::attr::{attr_of, attr_text, attr_text_of, is_scalar, map_item, to_attribute, AttributeValue};
use crate::errors::{DynHdlErr, DynHdlErrV};
use crate::json::{extract, kind_of, lookup, parse, parse_of, Item, JsonVal};

verus! {

/// Everything the backend query needs, assembled from the raw inputs: the
/// parsed item and the attribute its partition key maps to.
#[derive(Debug, PartialEq)]
pub struct Prepared {
    pub item: Item,
    pub key_attr: AttributeValue,
}

/// The result of the partition-key-equality query, as the backend reported
/// it: a cardinality, and the single matching item where the cardinality is
/// one. Only the cardinality drives the branch.
#[derive(Debug, PartialEq)]
pub struct QueryOutcome {
    pub count: u64,
    pub item: Option<Item>,
}

impl QueryOutcome {
    /// A backend that reports exactly one match hands the matched item over.
    pub open spec fn wf(self) -> bool {
        self.count == 1 ==> self.item is Some
    }
}

/// What the engine decided: insert the fully mapped item, or report the one
/// existing record unchanged.
#[derive(Debug, PartialEq)]
pub enum Decision {
    Insert(Vec<(String, AttributeValue)>),
    Found(Item),
}

/// Runs the pipeline up to the query: parses the raw item text, extracts
/// the partition-key field, and maps it to its backend attribute. Each step
/// fails exactly as its own contract says, and the first failure is
/// terminal: an unparsable text is a parsing failure, an absent or null key
/// a key-not-found failure, a non-scalar key an unsupported-type failure;
/// otherwise the parsed item and the key's attribute are returned.
pub fn prepare(raw_item: &String, pk_name: &String) -> (r: Result<Prepared, DynHdlErr>)
    ensures
        ({
            let p = parse_of(raw_item@);
            &&& p is None ==> (r matches Err(e) && (e@ matches DynHdlErrV::Parsing { item, .. }
                && item == raw_item@))
            &&& p matches Some(fields) ==> ({
                let l = lookup(fields, pk_name@);
                &&& (l is None || l == Some(JsonVal::Null)) ==> (r matches Err(e) && e@
                    == (DynHdlErrV::PKNotFound { pk_name: pk_name@, item: raw_item@ }))
                &&& l matches Some(v) ==> ({
                    &&& v != JsonVal::Null && !is_scalar(v) ==> (r matches Err(e) && e@
                        == (DynHdlErrV::UnsupportedType { field: pk_name@, kind: kind_of(v) }))
                    &&& v != JsonVal::Null && is_scalar(v) ==> (r matches Ok(prep) && prep.item@
                        == fields && Some(prep.key_attr@) == attr_of(v))
                })
            })
        }),
{
    let item = match parse(raw_item) {
        Ok(it) => it,
        Err(e) => {
            return Err(e);
        },
    };
    let key = match extract(&item, pk_name, raw_item) {
        Ok(v) => v,
        Err(e) => {
            return Err(e);
        },
    };
    let key_attr = match to_attribute(pk_name, key) {
        Ok(a) => a,
        Err(e) => {
            return Err(e);
        },
    };
    Ok(Prepared { item, key_attr })
}

/// Branches on the cardinality the backend reported. Zero matches: map the
/// whole item, all or nothing, and decide to insert it; a non-scalar field
/// aborts with its unsupported-type failure before anything is written. One
/// match: report the matched item unchanged. More than one: a
/// too-many-records failure carrying the key name, the key's text and the
/// table; nothing is written.
pub fn decide(
    item: &Item,
    pk_name: &String,
    key_attr: &AttributeValue,
    table: &String,
    outcome: QueryOutcome,
) -> (r: Result<Decision, DynHdlErr>)
    requires
        outcome.wf(),
    ensures
        outcome.count == 0 ==> ({
            &&& (r is Ok <==> (forall|i: int|
                0 <= i < item@.len() ==> is_scalar(#[trigger] item@[i].1)))
            &&& r matches Ok(d) ==> (d matches Decision::Insert(m) && {
                &&& m@.len() == item@.len()
                &&& forall|i: int|
                    #![trigger m@[i]]
                    0 <= i < item@.len() ==> m@[i].0@ == item@[i].0 && attr_of(item@[i].1)
                        == Some(m@[i].1@)
            })
            &&& r matches Err(e) ==> exists|i: int|
                {
                    &&& 0 <= i < item@.len()
                    &&& !is_scalar(#[trigger] item@[i].1)
                    &&& forall|j: int| 0 <= j < i ==> is_scalar(#[trigger] item@[j].1)
                    &&& e@ == (DynHdlErrV::UnsupportedType {
                        field: item@[i].0,
                        kind: kind_of(item@[i].1),
                    })
                }
        }),
        outcome.count == 1 ==> (r matches Ok(d) && (d matches Decision::Found(it) && it
            == outcome.item->0)),
        outcome.count > 1 ==> (r matches Err(e) && e@ == (DynHdlErrV::TooManyRecords {
            pk_name: pk_name@,
            pk: attr_text(key_attr@),
            table: table@,
        })),
{
    if outcome.count == 0 {
        match map_item(item) {
            Ok(m) => Ok(Decision::Insert(m)),
            Err(e) => Err(e),
        }
    } else if outcome.count == 1 {
        let it = outcome.item.unwrap();
        Ok(Decision::Found(it))
    } else {
        Err(
            DynHdlErr::TooManyRecords {
                pk_name: pk_name.clone(),
                pk: attr_text_of(key_attr).clone(),
                table: table.clone(),
            },
        )
    }
}

} // verus!
