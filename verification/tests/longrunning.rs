use gcloud_core::longrunning::operation;
use gcloud_core::longrunning::{
    CancelOperationRequest, DeleteOperationRequest, GetOperationRequest, ListOperationsRequest,
    ListOperationsResponse, Operation, OperationInfo, WaitOperationRequest,
};
use gcloud_core::rpc::Status;

#[test]
fn operation_names() {
    assert_eq!(Operation::full_name(), "google.longrunning.Operation");
    assert_eq!(
        Operation::type_url(),
        "type.googleapis.com/google.longrunning.Operation"
    );
    assert_eq!(Operation::NAME, "Operation");
}

#[test]
fn request_names() {
    assert_eq!(
        GetOperationRequest::full_name(),
        "google.longrunning.GetOperationRequest"
    );
    assert_eq!(
        GetOperationRequest::type_url(),
        "type.googleapis.com/google.longrunning.GetOperationRequest"
    );
    assert_eq!(
        ListOperationsRequest::full_name(),
        "google.longrunning.ListOperationsRequest"
    );
    assert_eq!(
        ListOperationsRequest::type_url(),
        "type.googleapis.com/google.longrunning.ListOperationsRequest"
    );
    assert_eq!(
        CancelOperationRequest::full_name(),
        "google.longrunning.CancelOperationRequest"
    );
    assert_eq!(
        CancelOperationRequest::type_url(),
        "type.googleapis.com/google.longrunning.CancelOperationRequest"
    );
    assert_eq!(
        DeleteOperationRequest::full_name(),
        "google.longrunning.DeleteOperationRequest"
    );
    assert_eq!(
        DeleteOperationRequest::type_url(),
        "type.googleapis.com/google.longrunning.DeleteOperationRequest"
    );
    assert_eq!(
        WaitOperationRequest::full_name(),
        "google.longrunning.WaitOperationRequest"
    );
    assert_eq!(
        WaitOperationRequest::type_url(),
        "type.googleapis.com/google.longrunning.WaitOperationRequest"
    );
}

#[test]
fn response_and_info_names() {
    assert_eq!(
        ListOperationsResponse::full_name(),
        "google.longrunning.ListOperationsResponse"
    );
    assert_eq!(
        ListOperationsResponse::type_url(),
        "type.googleapis.com/google.longrunning.ListOperationsResponse"
    );
    assert_eq!(OperationInfo::full_name(), "google.longrunning.OperationInfo");
    assert_eq!(
        OperationInfo::type_url(),
        "type.googleapis.com/google.longrunning.OperationInfo"
    );
}

#[test]
fn type_url_ends_with_full_name() {
    let url = WaitOperationRequest::type_url();
    let full = WaitOperationRequest::full_name();
    assert_eq!(url.rsplit('/').next().unwrap(), full);
}

#[test]
fn operation_values() {
    let op = Operation {
        name: "operations/123".to_string(),
        metadata: None,
        done: true,
        result: Some(operation::Result::Error(Status {
            code: 5,
            message: "not found".to_string(),
            details: Vec::new(),
        })),
    };
    let copy = op.clone();
    assert_eq!(op, copy);
    let response = ListOperationsResponse {
        operations: vec![op],
        next_page_token: String::new(),
    };
    assert_eq!(response.operations.len(), 1);
    let wait = WaitOperationRequest {
        name: "operations/123".to_string(),
        timeout: Some(prost_types::Duration {
            seconds: 5,
            nanos: 0,
        }),
    };
    assert_eq!(wait.timeout.unwrap().seconds, 5);
}
