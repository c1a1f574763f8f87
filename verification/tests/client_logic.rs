//! The protocol client's network-free decisions: query building, status
//! classification, upload validation, and read accumulation.

use weedfs::error::ErrorKind;
use weedfs::get_volume_id;
use weedfs::envelope::decode_assign;
use weedfs::envelope::decode_lookup;
use weedfs::envelope::decode_write;
use weedfs::protocol::append_chunk;
use weedfs::protocol::assign_query_path;
use weedfs::protocol::classify_volume_status;
use weedfs::protocol::lookup_query_path;
use weedfs::protocol::validate_upload_source;
use weedfs::types::requests::AssignRequestBuilder;
use weedfs::types::Replication;
use weedfs::utils::get_read_url;
use weedfs::utils::get_write_url;
use weedfs::utils::sanitize_filename;

#[test]
fn builder_defaults_to_one_plain_file_id() {
    let req = AssignRequestBuilder::new().build();
    assert_eq!(req.version, 1);
    assert!(req.replication_strategy.is_none());
    assert!(req.collection.is_none());
}

#[test]
fn builder_sets_every_field() {
    let req = AssignRequestBuilder::new()
        .version(3)
        .replication(Replication::TwiceOnDifferentDC)
        .collection("docs".to_string())
        .build();
    assert_eq!(req.version, 3);
    assert!(matches!(
        req.replication_strategy,
        Some(Replication::TwiceOnDifferentDC)
    ));
    assert_eq!(req.collection.as_deref(), Some("docs"));
}

#[test]
fn replication_codes_are_the_wire_codes() {
    assert_eq!(Replication::NoReplication.code(), "000");
    assert_eq!(Replication::OnceOnSameRack.code(), "001");
    assert_eq!(Replication::OnceOnDifferentRack.code(), "010");
    assert_eq!(Replication::OnceOnDifferentDC.code(), "100");
    assert_eq!(Replication::TwiceOnDifferentDC.code(), "200");
    assert_eq!(
        Replication::OnceOnDifferentRackAndOnceOnDifferentDC.code(),
        "110"
    );
}

#[test]
fn assign_query_carries_only_the_count_by_default() {
    let req = AssignRequestBuilder::new().build();
    assert_eq!(assign_query_path(&req), "/dir/assign?count=1");
}

#[test]
fn assign_query_carries_replication_and_collection() {
    let req = AssignRequestBuilder::new()
        .replication(Replication::OnceOnDifferentRack)
        .collection("docs".to_string())
        .build();
    assert_eq!(
        assign_query_path(&req),
        "/dir/assign?count=1&replication=010&collection=docs"
    );
}

#[test]
fn assign_query_renders_the_count() {
    let req = AssignRequestBuilder::new().version(42).build();
    assert_eq!(assign_query_path(&req), "/dir/assign?count=42");
}

#[test]
fn lookup_query_renders_the_volume_id() {
    assert_eq!(lookup_query_path(7400), "/dir/lookup?volumeId=7400");
    assert_eq!(lookup_query_path(0), "/dir/lookup?volumeId=0");
}

#[test]
fn lookup_query_is_the_same_on_every_call() {
    assert_eq!(lookup_query_path(7400), lookup_query_path(7400));
}

#[test]
fn status_404_is_not_found() {
    let e = classify_volume_status(404).unwrap_err();
    assert_eq!(e.kind(), ErrorKind::NotFound);
}

#[test]
fn status_2xx_succeeds() {
    assert!(classify_volume_status(200).is_ok());
    assert!(classify_volume_status(206).is_ok());
}

#[test]
fn other_statuses_are_transport_failures() {
    for status in [301u16, 400, 500, 503] {
        let e = classify_volume_status(status).unwrap_err();
        assert_eq!(e.kind(), ErrorKind::TransportFailure);
    }
}

#[test]
fn zero_length_source_is_rejected_before_any_network_call() {
    let e = validate_upload_source(true, 0).unwrap_err();
    assert_eq!(e.kind(), ErrorKind::InvalidInput);
}

#[test]
fn non_regular_file_source_is_rejected() {
    let e = validate_upload_source(false, 10).unwrap_err();
    assert_eq!(e.kind(), ErrorKind::InvalidInput);
}

#[test]
fn non_empty_regular_source_is_accepted() {
    assert!(validate_upload_source(true, 10).is_ok());
}

#[test]
fn append_chunk_accumulates_in_order() {
    let buf = append_chunk(Vec::new(), b"hello ");
    let buf = append_chunk(buf, b"");
    let buf = append_chunk(buf, b"world");
    assert_eq!(buf, b"hello world");
}

#[test]
fn ticket_to_download_pipeline_round_trips() {
    // The network-free spine of the write/lookup/read workflow, on the
    // bodies a healthy cluster answers with.
    let ticket = decode_assign(
        br#"{"count":1,"fid":"3,01637037d6","publicUrl":"localhost:8080","url":"127.0.0.1:8080"}"#,
    )
    .unwrap();
    assert!(!ticket.fid.is_empty());

    let upload_url = get_write_url(&ticket).unwrap();
    assert_eq!(upload_url.as_str(), "http://localhost:8080/3,01637037d6");
    assert_eq!(sanitize_filename("report.pdf".to_string()), "report.pdf");

    let payload: Vec<u8> = (0..1024u32).map(|i| (i % 251) as u8).collect();
    assert!(validate_upload_source(true, payload.len() as u64).is_ok());
    let stored = decode_write(br#"{"size":1024}"#).unwrap();
    assert_eq!(stored.size as usize, payload.len());

    let volume = get_volume_id(&ticket.fid).unwrap();
    assert_eq!(volume, 3);
    assert_eq!(lookup_query_path(volume), "/dir/lookup?volumeId=3");
    let lookup = decode_lookup(
        br#"{"locations":[{"publicUrl":"localhost:8080","url":"127.0.0.1:8080"}]}"#,
    )
    .unwrap();
    assert!(!lookup.locations.is_empty());

    let download_url = get_read_url(&ticket.fid, &lookup.locations[0]).unwrap();
    assert_eq!(download_url.as_str(), upload_url.as_str());
    assert!(classify_volume_status(200).is_ok());

    // Drain the body in chunks, as the streaming read hands it back.
    let mut drained = Vec::new();
    for chunk in payload.chunks(100) {
        drained = append_chunk(drained, chunk);
    }
    assert_eq!(drained, payload);
}
