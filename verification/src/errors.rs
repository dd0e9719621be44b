//! The error taxonomy of the fetch-or-create pipeline, and the translation
//! of each failure kind to a process exit status.

use vstd::prelude::*;

verus! {

/// The JSON kind observed where a scalar was needed; carried by
/// [`DynHdlErr::UnsupportedType`] so a caller can report what was found.
#[derive(Debug, Clone, Copy, PartialEq, Eq, Structural)]
pub enum JsonKind {
    Str,
    Num,
    Bool,
    Null,
    Object,
    Array,
}

/// A terminal failure of one invocation of the pipeline. Every failure is
/// produced once, returned to the caller, and translated to an exit status;
/// none is retried or silently swallowed.
#[derive(Debug, PartialEq)]
pub enum DynHdlErr {
    /// The raw item text is not a JSON object: carries the raw text and the
    /// underlying parser's message.
    Parsing { item: String, err_msg: String },
    /// The partition-key field is absent from the item, or is JSON null:
    /// carries the key field name and the raw item text.
    PKNotFound { pk_name: String, item: String },
    /// A field's value is not a scalar the attribute mapper can encode:
    /// carries the field name and the kind observed.
    UnsupportedType { field: String, kind: JsonKind },
    /// The backend query failed: carries the key field name, the key value,
    /// the table, and the underlying error text.
    GetItem { pk_name: String, pk: String, table: String, err_msg: String },
    /// The query matched more than one record for the key: carries the key
    /// field name, the key value, and the table.
    TooManyRecords { pk_name: String, pk: String, table: String },
    /// The backend insert failed: carries the table and the underlying
    /// error text.
    PutItem { table: String, err_msg: String },
}

/// The mathematical value of a [`DynHdlErr`]: the same variants over
/// sequences of characters.
pub enum DynHdlErrV {
    Parsing { item: Seq<char>, err_msg: Seq<char> },
    PKNotFound { pk_name: Seq<char>, item: Seq<char> },
    UnsupportedType { field: Seq<char>, kind: JsonKind },
    GetItem { pk_name: Seq<char>, pk: Seq<char>, table: Seq<char>, err_msg: Seq<char> },
    TooManyRecords { pk_name: Seq<char>, pk: Seq<char>, table: Seq<char> },
    PutItem { table: Seq<char>, err_msg: Seq<char> },
}

impl View for DynHdlErr {
    type V = DynHdlErrV;

    open spec fn view(&self) -> DynHdlErrV {
        match self {
            DynHdlErr::Parsing { item, err_msg } => DynHdlErrV::Parsing {
                item: item@,
                err_msg: err_msg@,
            },
            DynHdlErr::PKNotFound { pk_name, item } => DynHdlErrV::PKNotFound {
                pk_name: pk_name@,
                item: item@,
            },
            DynHdlErr::UnsupportedType { field, kind } => DynHdlErrV::UnsupportedType {
                field: field@,
                kind: *kind,
            },
            DynHdlErr::GetItem { pk_name, pk, table, err_msg } => DynHdlErrV::GetItem {
                pk_name: pk_name@,
                pk: pk@,
                table: table@,
                err_msg: err_msg@,
            },
            DynHdlErr::TooManyRecords { pk_name, pk, table } => DynHdlErrV::TooManyRecords {
                pk_name: pk_name@,
                pk: pk@,
                table: table@,
            },
            DynHdlErr::PutItem { table, err_msg } => DynHdlErrV::PutItem {
                table: table@,
                err_msg: err_msg@,
            },
        }
    }
}

/// Exit status for a successful invocation.
pub const EXIT_OK: i32 = 0;

/// Exit status for a usage or invariant violation (more than one record
/// matched the key).
pub const EXIT_USAGE: i32 = 64;

/// Exit status for a data-format failure (unparsable item, missing or null
/// key, unsupported field kind).
pub const EXIT_DATA: i32 = 65;

/// Exit status for an I/O failure against the backend.
pub const EXIT_IO: i32 = 74;

/// Which exit status a failure kind is translated to: data-format failures,
/// I/O failures and the uniqueness violation each get their own category.
pub open spec fn exit_code_spec(e: DynHdlErrV) -> int {
    match e {
        DynHdlErrV::Parsing { .. } => EXIT_DATA as int,
        DynHdlErrV::PKNotFound { .. } => EXIT_DATA as int,
        DynHdlErrV::UnsupportedType { .. } => EXIT_DATA as int,
        DynHdlErrV::GetItem { .. } => EXIT_IO as int,
        DynHdlErrV::TooManyRecords { .. } => EXIT_USAGE as int,
        DynHdlErrV::PutItem { .. } => EXIT_IO as int,
    }
}

/// Translates a failure to its process exit status.
pub fn exit_code_of(e: &DynHdlErr) -> (r: i32)
    ensures
        r == exit_code_spec(e@),
{
    match e {
        DynHdlErr::Parsing { .. } => EXIT_DATA,
        DynHdlErr::PKNotFound { .. } => EXIT_DATA,
        DynHdlErr::UnsupportedType { .. } => EXIT_DATA,
        DynHdlErr::GetItem { .. } => EXIT_IO,
        DynHdlErr::TooManyRecords { .. } => EXIT_USAGE,
        DynHdlErr::PutItem { .. } => EXIT_IO,
    }
}

/// The exit status a process reports when the operation succeeded.
pub fn success_exit_code() -> (r: i32)
    ensures
        r == EXIT_OK,
{
    EXIT_OK
}

} // verus!
