//! The `google.rpc.Status` message: an error with a code, a message and
//! details.

use vstd::prelude::*;

verus! {

/// `prost_types::Any`, a serialized message of any type, carried as is.
#[verifier::external_type_specification]
#[verifier::external_body]
pub struct ExAny(prost_types::Any);

/// `Clone::clone` on `prost_types::Any`, whose derived impl copies both fields:
/// the clone is the same value.
pub assume_specification[ <prost_types::Any as Clone>::clone ](a: &prost_types::Any) -> (r:
    prost_types::Any)
    ensures
        r == *a,
;

/// The canonical code of an unavailable service.
pub const CODE_UNAVAILABLE: i32 = 14;

/// The status of a failed call: its canonical code, a message for developers
/// and details in serialized form.
#[derive(Clone, Debug, PartialEq)]
pub struct Status {
    /// The status code, one of the canonical codes.
    pub code: i32,
    /// A developer-facing error message, in English.
    pub message: String,
    /// Messages that carry the details of the error.
    pub details: Vec<prost_types::Any>,
}

} // verus!
