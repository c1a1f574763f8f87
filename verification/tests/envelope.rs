//! Decoding the flat success-or-error envelope.

use weedfs::envelope::decode_assign;
use weedfs::error::ErrorKind;
use weedfs::error::WeedFSError;
use weedfs::envelope::decode_lookup;
use weedfs::envelope::decode_write;
use weedfs::types::responses::Response;
use weedfs::types::responses::ResponseError;
use weedfs::types::responses::WriteResponse;

#[test]
fn assign_success_body_decodes_to_ticket() {
    let body = br#"{"fid":"3,01", "count":1, "publicUrl":"x","url":"y"}"#;
    let t = decode_assign(body).unwrap();
    assert_eq!(t.fid, "3,01");
    assert_eq!(t.count, 1);
    assert_eq!(t.public_url, "x");
    assert_eq!(t.url, "y");
}

#[test]
fn error_body_decodes_to_cluster_error() {
    match decode_assign(br#"{"error":"no free volumes"}"#) {
        Err(ResponseError::WeedError(m)) => assert_eq!(m, "no free volumes"),
        _ => panic!("expected the cluster-reported error"),
    }
}

#[test]
fn empty_object_is_unexpected_response() {
    assert!(matches!(
        decode_assign(br#"{}"#),
        Err(ResponseError::UnexpectedResponse)
    ));
}

#[test]
fn non_json_body_is_unexpected_response() {
    assert!(matches!(
        decode_assign(b"not json at all"),
        Err(ResponseError::UnexpectedResponse)
    ));
}

#[test]
fn assign_body_missing_a_field_is_unexpected() {
    let body = br#"{"fid":"3,01", "count":1, "publicUrl":"x"}"#;
    assert!(matches!(
        decode_assign(body),
        Err(ResponseError::UnexpectedResponse)
    ));
}

#[test]
fn lookup_body_decodes_locations() {
    let body = br#"{"locations":[{"publicUrl":"a","url":"b"},{"publicUrl":"c","url":"d"}]}"#;
    let r = decode_lookup(body).unwrap();
    assert_eq!(r.locations.len(), 2);
    assert_eq!(r.locations[0].public_url, "a");
    assert_eq!(r.locations[0].url, "b");
    assert_eq!(r.locations[1].public_url, "c");
    assert_eq!(r.locations[1].url, "d");
}

#[test]
fn lookup_with_empty_locations_is_success() {
    let r = decode_lookup(br#"{"locations":[]}"#).unwrap();
    assert_eq!(r.locations.len(), 0);
}

#[test]
fn lookup_error_body_is_cluster_error() {
    match decode_lookup(br#"{"error":"volumeId 786754564231340654 not found"}"#) {
        Err(ResponseError::WeedError(m)) => {
            assert_eq!(m, "volumeId 786754564231340654 not found")
        }
        _ => panic!("expected the cluster-reported error"),
    }
}

#[test]
fn lookup_with_malformed_entry_is_unexpected() {
    let body = br#"{"locations":[{"publicUrl":"a"}]}"#;
    assert!(matches!(
        decode_lookup(body),
        Err(ResponseError::UnexpectedResponse)
    ));
}

#[test]
fn write_body_decodes_size() {
    assert_eq!(decode_write(br#"{"size":1024}"#).unwrap().size, 1024);
}

#[test]
fn error_field_wins_over_payload() {
    match decode_write(br#"{"size":5,"error":"disk full"}"#) {
        Err(ResponseError::WeedError(m)) => assert_eq!(m, "disk full"),
        _ => panic!("expected the cluster-reported error"),
    }
}

#[test]
fn to_result_prefers_the_error_field() {
    let env = Response::<WriteResponse> {
        response: Some(WriteResponse { size: 7 }),
        error: Some("boom".to_string()),
    };
    assert!(matches!(env.to_result(), Err(ResponseError::WeedError(_))));
}

#[test]
fn to_result_with_neither_shape_is_unexpected() {
    let env = Response::<WriteResponse> { response: None, error: None };
    assert!(matches!(
        env.to_result(),
        Err(ResponseError::UnexpectedResponse)
    ));
}

#[test]
fn response_errors_map_onto_the_taxonomy() {
    let cluster = WeedFSError::from_response_error(ResponseError::WeedError(
        "no free volumes".to_string(),
    ));
    assert_eq!(cluster.kind(), ErrorKind::ClusterReportedError);
    assert_eq!(cluster.message(), "no free volumes");

    let malformed = WeedFSError::from_response_error(ResponseError::UnexpectedResponse);
    assert_eq!(malformed.kind(), ErrorKind::MalformedResponse);
}

#[test]
fn to_result_returns_the_payload() {
    let env = Response::<WriteResponse> {
        response: Some(WriteResponse { size: 7 }),
        error: None,
    };
    assert_eq!(env.to_result().unwrap().size, 7);
}
