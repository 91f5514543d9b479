//! Nested message and enum types in `Operation`.

use crate::rpc::Status;
use vstd::prelude::*;

verus! {

/// The outcome of a finished operation.
#[derive(Clone, Debug, PartialEq)]
pub enum Result {
    /// The error of a failed operation.
    Error(Status),
    /// The response of a successful operation.
    Response(prost_types::Any),
}

} // verus!
