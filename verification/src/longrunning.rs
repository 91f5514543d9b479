//! The messages of the `google.longrunning` package, and the names under
//! which they are known.

pub mod operation;

use vstd::prelude::*;

verus! {

/// `prost_types::Duration`, a signed span of time, carried as is.
#[verifier::external_type_specification]
#[verifier::external_body]
pub struct ExDuration(prost_types::Duration);

/// The package of every message here.
pub const PACKAGE: &'static str = "google.longrunning";

/// The domain that the type URLs of these messages start with.
pub const TYPE_URL_PREFIX: &'static str = "type.googleapis.com/";

/// The fully qualified name of a message of this package with the given
/// short name: the package, a dot, the name.
pub open spec fn full_name_of(name: Seq<char>) -> Seq<char> {
    PACKAGE@ + "."@ + name
}

/// The type URL of a message with the given fully qualified name.
pub open spec fn type_url_of(full_name: Seq<char>) -> Seq<char> {
    TYPE_URL_PREFIX@ + full_name
}

fn qualified_name(name: &str) -> (r: String)
    ensures
        r@ == full_name_of(name@),
{
    let mut s = PACKAGE.to_owned();
    s.append(".");
    s.append(name);
    s
}

fn type_url_for(full_name: &str) -> (r: String)
    ensures
        r@ == type_url_of(full_name@),
{
    let mut s = TYPE_URL_PREFIX.to_owned();
    s.append(full_name);
    s
}

/// A long-running operation, the result of a call to a network API.
#[derive(Clone, Debug, PartialEq)]
pub struct Operation {
    /// The server-assigned name, unique within the service that returns it.
    pub name: String,
    /// Service-specific metadata about the operation, such as its progress.
    pub metadata: Option<prost_types::Any>,
    /// Whether the operation has finished, with a result or an error.
    pub done: bool,
    /// The error or the response, once the operation is done.
    pub result: Option<operation::Result>,
}

impl Operation {
    /// The short name of the message.
    pub const NAME: &'static str = "Operation";

    /// The fully qualified name of the message.
    pub fn full_name() -> (r: String)
        ensures
            r@ == "google.longrunning.Operation"@,
            r@ == full_name_of(Self::NAME@),
    {
        let r = qualified_name(Self::NAME);
        proof {
            reveal_strlit("google.longrunning");
            reveal_strlit(".");
            reveal_strlit("Operation");
            reveal_strlit("google.longrunning.Operation");
            assert(r@ =~= "google.longrunning.Operation"@);
        }
        r
    }

    /// The type URL of the message: the domain, then the full name.
    pub fn type_url() -> (r: String)
        ensures
            r@ == "type.googleapis.com/google.longrunning.Operation"@,
            r@ == type_url_of(full_name_of(Self::NAME@)),
    {
        let r = type_url_for(Self::full_name().as_str());
        proof {
            reveal_strlit("type.googleapis.com/");
            reveal_strlit("google.longrunning.Operation");
            reveal_strlit("type.googleapis.com/google.longrunning.Operation");
            assert(r@ =~= "type.googleapis.com/google.longrunning.Operation"@);
        }
        r
    }
}

/// The request message for getting the latest state of an operation.
#[derive(Clone, Debug, PartialEq)]
pub struct GetOperationRequest {
    /// The name of the operation resource.
    pub name: String,
}

impl GetOperationRequest {
    /// The short name of the message.
    pub const NAME: &'static str = "GetOperationRequest";

    /// The fully qualified name of the message.
    pub fn full_name() -> (r: String)
        ensures
            r@ == "google.longrunning.GetOperationRequest"@,
            r@ == full_name_of(Self::NAME@),
    {
        let r = qualified_name(Self::NAME);
        proof {
            reveal_strlit("google.longrunning");
            reveal_strlit(".");
            reveal_strlit("GetOperationRequest");
            reveal_strlit("google.longrunning.GetOperationRequest");
            assert(r@ =~= "google.longrunning.GetOperationRequest"@);
        }
        r
    }

    /// The type URL of the message: the domain, then the full name.
    pub fn type_url() -> (r: String)
        ensures
            r@ == "type.googleapis.com/google.longrunning.GetOperationRequest"@,
            r@ == type_url_of(full_name_of(Self::NAME@)),
    {
        let r = type_url_for(Self::full_name().as_str());
        proof {
            reveal_strlit("type.googleapis.com/");
            reveal_strlit("google.longrunning.GetOperationRequest");
            reveal_strlit("type.googleapis.com/google.longrunning.GetOperationRequest");
            assert(r@ =~= "type.googleapis.com/google.longrunning.GetOperationRequest"@);
        }
        r
    }
}

/// The request message for listing the operations that match a filter.
#[derive(Clone, Debug, PartialEq)]
pub struct ListOperationsRequest {
    /// The name of the operation's parent resource.
    pub name: String,
    /// The standard list filter.
    pub filter: String,
    /// The standard list page size.
    pub page_size: i32,
    /// The standard list page token.
    pub page_token: String,
}

impl ListOperationsRequest {
    /// The short name of the message.
    pub const NAME: &'static str = "ListOperationsRequest";

    /// The fully qualified name of the message.
    pub fn full_name() -> (r: String)
        ensures
            r@ == "google.longrunning.ListOperationsRequest"@,
            r@ == full_name_of(Self::NAME@),
    {
        let r = qualified_name(Self::NAME);
        proof {
            reveal_strlit("google.longrunning");
            reveal_strlit(".");
            reveal_strlit("ListOperationsRequest");
            reveal_strlit("google.longrunning.ListOperationsRequest");
            assert(r@ =~= "google.longrunning.ListOperationsRequest"@);
        }
        r
    }

    /// The type URL of the message: the domain, then the full name.
    pub fn type_url() -> (r: String)
        ensures
            r@ == "type.googleapis.com/google.longrunning.ListOperationsRequest"@,
            r@ == type_url_of(full_name_of(Self::NAME@)),
    {
        let r = type_url_for(Self::full_name().as_str());
        proof {
            reveal_strlit("type.googleapis.com/");
            reveal_strlit("google.longrunning.ListOperationsRequest");
            reveal_strlit("type.googleapis.com/google.longrunning.ListOperationsRequest");
            assert(r@ =~= "type.googleapis.com/google.longrunning.ListOperationsRequest"@);
        }
        r
    }
}

/// The response message for listing operations.
#[derive(Clone, Debug, PartialEq)]
pub struct ListOperationsResponse {
    /// The operations that match the filter in the request.
    pub operations: Vec<Operation>,
    /// The standard list next-page token.
    pub next_page_token: String,
}

impl ListOperationsResponse {
    /// The short name of the message.
    pub const NAME: &'static str = "ListOperationsResponse";

    /// The fully qualified name of the message.
    pub fn full_name() -> (r: String)
        ensures
            r@ == "google.longrunning.ListOperationsResponse"@,
            r@ == full_name_of(Self::NAME@),
    {
        let r = qualified_name(Self::NAME);
        proof {
            reveal_strlit("google.longrunning");
            reveal_strlit(".");
            reveal_strlit("ListOperationsResponse");
            reveal_strlit("google.longrunning.ListOperationsResponse");
            assert(r@ =~= "google.longrunning.ListOperationsResponse"@);
        }
        r
    }

    /// The type URL of the message: the domain, then the full name.
    pub fn type_url() -> (r: String)
        ensures
            r@ == "type.googleapis.com/google.longrunning.ListOperationsResponse"@,
            r@ == type_url_of(full_name_of(Self::NAME@)),
    {
        let r = type_url_for(Self::full_name().as_str());
        proof {
            reveal_strlit("type.googleapis.com/");
            reveal_strlit("google.longrunning.ListOperationsResponse");
            reveal_strlit("type.googleapis.com/google.longrunning.ListOperationsResponse");
            assert(r@ =~= "type.googleapis.com/google.longrunning.ListOperationsResponse"@);
        }
        r
    }
}

/// The request message for cancelling an operation.
#[derive(Clone, Debug, PartialEq)]
pub struct CancelOperationRequest {
    /// The name of the operation resource to be cancelled.
    pub name: String,
}

impl CancelOperationRequest {
    /// The short name of the message.
    pub const NAME: &'static str = "CancelOperationRequest";

    /// The fully qualified name of the message.
    pub fn full_name() -> (r: String)
        ensures
            r@ == "google.longrunning.CancelOperationRequest"@,
            r@ == full_name_of(Self::NAME@),
    {
        let r = qualified_name(Self::NAME);
        proof {
            reveal_strlit("google.longrunning");
            reveal_strlit(".");
            reveal_strlit("CancelOperationRequest");
            reveal_strlit("google.longrunning.CancelOperationRequest");
            assert(r@ =~= "google.longrunning.CancelOperationRequest"@);
        }
        r
    }

    /// The type URL of the message: the domain, then the full name.
    pub fn type_url() -> (r: String)
        ensures
            r@ == "type.googleapis.com/google.longrunning.CancelOperationRequest"@,
            r@ == type_url_of(full_name_of(Self::NAME@)),
    {
        let r = type_url_for(Self::full_name().as_str());
        proof {
            reveal_strlit("type.googleapis.com/");
            reveal_strlit("google.longrunning.CancelOperationRequest");
            reveal_strlit("type.googleapis.com/google.longrunning.CancelOperationRequest");
            assert(r@ =~= "type.googleapis.com/google.longrunning.CancelOperationRequest"@);
        }
        r
    }
}

/// The request message for deleting an operation.
#[derive(Clone, Debug, PartialEq)]
pub struct DeleteOperationRequest {
    /// The name of the operation resource to be deleted.
    pub name: String,
}

impl DeleteOperationRequest {
    /// The short name of the message.
    pub const NAME: &'static str = "DeleteOperationRequest";

    /// The fully qualified name of the message.
    pub fn full_name() -> (r: String)
        ensures
            r@ == "google.longrunning.DeleteOperationRequest"@,
            r@ == full_name_of(Self::NAME@),
    {
        let r = qualified_name(Self::NAME);
        proof {
            reveal_strlit("google.longrunning");
            reveal_strlit(".");
            reveal_strlit("DeleteOperationRequest");
            reveal_strlit("google.longrunning.DeleteOperationRequest");
            assert(r@ =~= "google.longrunning.DeleteOperationRequest"@);
        }
        r
    }

    /// The type URL of the message: the domain, then the full name.
    pub fn type_url() -> (r: String)
        ensures
            r@ == "type.googleapis.com/google.longrunning.DeleteOperationRequest"@,
            r@ == type_url_of(full_name_of(Self::NAME@)),
    {
        let r = type_url_for(Self::full_name().as_str());
        proof {
            reveal_strlit("type.googleapis.com/");
            reveal_strlit("google.longrunning.DeleteOperationRequest");
            reveal_strlit("type.googleapis.com/google.longrunning.DeleteOperationRequest");
            assert(r@ =~= "type.googleapis.com/google.longrunning.DeleteOperationRequest"@);
        }
        r
    }
}

/// The request message for waiting until an operation is done.
#[derive(Clone, Debug, PartialEq)]
pub struct WaitOperationRequest {
    /// The name of the operation resource to wait on.
    pub name: String,
    /// The longest time to wait before timing out.
    pub timeout: Option<prost_types::Duration>,
}

impl WaitOperationRequest {
    /// The short name of the message.
    pub const NAME: &'static str = "WaitOperationRequest";

    /// The fully qualified name of the message.
    pub fn full_name() -> (r: String)
        ensures
            r@ == "google.longrunning.WaitOperationRequest"@,
            r@ == full_name_of(Self::NAME@),
    {
        let r = qualified_name(Self::NAME);
        proof {
            reveal_strlit("google.longrunning");
            reveal_strlit(".");
            reveal_strlit("WaitOperationRequest");
            reveal_strlit("google.longrunning.WaitOperationRequest");
            assert(r@ =~= "google.longrunning.WaitOperationRequest"@);
        }
        r
    }

    /// The type URL of the message: the domain, then the full name.
    pub fn type_url() -> (r: String)
        ensures
            r@ == "type.googleapis.com/google.longrunning.WaitOperationRequest"@,
            r@ == type_url_of(full_name_of(Self::NAME@)),
    {
        let r = type_url_for(Self::full_name().as_str());
        proof {
            reveal_strlit("type.googleapis.com/");
            reveal_strlit("google.longrunning.WaitOperationRequest");
            reveal_strlit("type.googleapis.com/google.longrunning.WaitOperationRequest");
            assert(r@ =~= "type.googleapis.com/google.longrunning.WaitOperationRequest"@);
        }
        r
    }
}

/// The types of a long-running operation's response and metadata.
#[derive(Clone, Debug, PartialEq)]
pub struct OperationInfo {
    /// The message name of the primary return type.
    pub response_type: String,
    /// The message name of the metadata type.
    pub metadata_type: String,
}

impl OperationInfo {
    /// The short name of the message.
    pub const NAME: &'static str = "OperationInfo";

    /// The fully qualified name of the message.
    pub fn full_name() -> (r: String)
        ensures
            r@ == "google.longrunning.OperationInfo"@,
            r@ == full_name_of(Self::NAME@),
    {
        let r = qualified_name(Self::NAME);
        proof {
            reveal_strlit("google.longrunning");
            reveal_strlit(".");
            reveal_strlit("OperationInfo");
            reveal_strlit("google.longrunning.OperationInfo");
            assert(r@ =~= "google.longrunning.OperationInfo"@);
        }
        r
    }

    /// The type URL of the message: the domain, then the full name.
    pub fn type_url() -> (r: String)
        ensures
            r@ == "type.googleapis.com/google.longrunning.OperationInfo"@,
            r@ == type_url_of(full_name_of(Self::NAME@)),
    {
        let r = type_url_for(Self::full_name().as_str());
        proof {
            reveal_strlit("type.googleapis.com/");
            reveal_strlit("google.longrunning.OperationInfo");
            reveal_strlit("type.googleapis.com/google.longrunning.OperationInfo");
            assert(r@ =~= "type.googleapis.com/google.longrunning.OperationInfo"@);
        }
        r
    }
}

} // verus!
