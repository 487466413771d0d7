use member_entitlements::client::Client;
use member_entitlements::operation::{BodyKind, Operation};
use member_entitlements::response::{conversion_result, decode_response, ApiError, Payload};

#[test]
fn list_group_entitlements_empty_list() {
    let c = Client::builder().build();
    let b = c.group_entitlements_client().list("contoso".to_string());
    let r = b.response(200, br#"{"groupEntitlements":[]}"#);
    match r {
        Ok(Payload::Json(v)) => {
            let list = v.get("groupEntitlements").unwrap().as_array().unwrap();
            assert!(list.is_empty());
        }
        other => panic!("unexpected {:?}", other),
    }
}

#[test]
fn success_body_is_returned_as_decoded() {
    let body = br#"{"id":"g1","group":{"displayName":"devs"},"members":[1,2]}"#;
    let expected: serde_json::Value = serde_json::from_slice(body).unwrap();
    let r = decode_response(Operation::GetGroupEntitlement, 200, body);
    match r {
        Ok(Payload::Json(v)) => assert_eq!(v, expected),
        other => panic!("unexpected {:?}", other),
    }
}

#[test]
fn undeclared_status_is_an_http_error() {
    let r = decode_response(Operation::GetGroupEntitlement, 404, br#"{"id":"g1"}"#);
    assert!(matches!(r, Err(ApiError::HttpStatus { status: 404 })));
    let r = decode_response(Operation::GetGroupEntitlement, 500, b"not json");
    assert!(matches!(r, Err(ApiError::HttpStatus { status: 500 })));
}

#[test]
fn created_is_success_only_for_group_add() {
    let r = decode_response(Operation::AddGroupEntitlement, 201, br#"{"operationId":"x"}"#);
    assert!(matches!(r, Ok(Payload::Json(_))));
    let r = decode_response(Operation::AddGroupEntitlement, 200, br#"{"operationId":"x"}"#);
    assert!(matches!(r, Err(ApiError::HttpStatus { status: 200 })));
    let r = decode_response(Operation::AddUserEntitlement, 201, br#"{}"#);
    assert!(matches!(r, Err(ApiError::HttpStatus { status: 201 })));
}

#[test]
fn malformed_body_is_a_conversion_error() {
    let r = decode_response(Operation::ListGroupEntitlements, 200, b"{not json");
    match r {
        Err(ApiError::DataConversion { body, .. }) => assert_eq!(body, "{not json"),
        other => panic!("unexpected {:?}", other),
    }
}

#[test]
fn conversion_error_keeps_invalid_utf8_as_replacement() {
    let r = decode_response(Operation::GetUserEntitlement, 200, &[0x7b, 0xff, 0x7d]);
    match r {
        Err(ApiError::DataConversion { body, .. }) => assert_eq!(body, "{\u{FFFD}}"),
        other => panic!("unexpected {:?}", other),
    }
}

#[test]
fn empty_success_body_is_a_conversion_error_when_a_value_is_declared() {
    let r = decode_response(Operation::GetUserEntitlementSummary, 200, b"");
    assert!(matches!(r, Err(ApiError::DataConversion { .. })));
}

#[test]
fn unit_operations_skip_the_body() {
    for op in [
        Operation::AddGroupMember,
        Operation::RemoveGroupMember,
        Operation::DeleteUserEntitlement,
    ] {
        assert!(!op.returns_value());
        assert!(matches!(decode_response(op, 200, b"garbage"), Ok(Payload::Empty)));
        assert!(matches!(
            decode_response(op, 404, b""),
            Err(ApiError::HttpStatus { status: 404 })
        ));
    }
    let c = Client::builder().build();
    let b = c.members_client().add("o".to_string(), "g".to_string(), "m".to_string());
    assert!(matches!(b.response(200, b""), Ok(Payload::Empty)));
}

#[test]
fn conversion_result_passes_the_parse_outcome_through() {
    let ok: Result<serde_json::Value, serde_json::Error> = serde_json::from_slice(b"[1]");
    let expected: serde_json::Value = serde_json::from_slice(b"[1]").unwrap();
    match conversion_result(ok, b"[1]") {
        Ok(Payload::Json(v)) => assert_eq!(v, expected),
        other => panic!("unexpected {:?}", other),
    }
    let bad: Result<serde_json::Value, serde_json::Error> = serde_json::from_slice(b"[1");
    match conversion_result(bad, b"[1") {
        Err(ApiError::DataConversion { body, .. }) => assert_eq!(body, "[1"),
        other => panic!("unexpected {:?}", other),
    }
}

#[test]
fn operation_table() {
    assert_eq!(Operation::AddGroupEntitlement.success_status(), 201);
    assert_eq!(Operation::ListGroupEntitlements.success_status(), 200);
    assert_eq!(Operation::UpdateGroupEntitlement.body_kind(), BodyKind::JsonPatch);
    assert_eq!(Operation::AddUserEntitlement.body_kind(), BodyKind::Json);
    assert_eq!(Operation::GetGroupMembers.body_kind(), BodyKind::Empty);
    assert!(Operation::SearchUserEntitlements.returns_value());
}
