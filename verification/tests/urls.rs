//! The URL resolver and filename sanitization.

use weedfs::error::ErrorKind;
use weedfs::types::responses::AssignResponse;
use weedfs::types::Location;
use weedfs::utils::get_read_url;
use weedfs::utils::get_write_url;
use weedfs::utils::sanitize_filename;

fn ticket(public_url: &str) -> AssignResponse {
    AssignResponse {
        count: 1,
        fid: "3,01".to_string(),
        public_url: public_url.to_string(),
        url: "127.0.0.1:8080".to_string(),
    }
}

#[test]
fn write_url_prepends_scheme_when_missing() {
    let u = get_write_url(&ticket("localhost:8080")).unwrap();
    assert_eq!(u.as_str(), "http://localhost:8080/3,01");
}

#[test]
fn write_url_keeps_existing_scheme() {
    let u = get_write_url(&ticket("http://node1:8080")).unwrap();
    assert_eq!(u.as_str(), "http://node1:8080/3,01");
}

#[test]
fn write_url_keeps_https_scheme() {
    let u = get_write_url(&ticket("https://node1:8443")).unwrap();
    assert_eq!(u.as_str(), "https://node1:8443/3,01");
}

#[test]
fn write_url_keeps_any_existing_scheme() {
    let u = get_write_url(&ticket("ftp://node1")).unwrap();
    assert_eq!(u.as_str(), "ftp://node1/3,01");
}

#[test]
fn base_starting_with_http_but_without_scheme_gets_the_prefix() {
    let u = get_write_url(&ticket("httpnode.local")).unwrap();
    assert_eq!(u.as_str(), "http://httpnode.local/3,01");
}

#[test]
fn write_url_rejects_unparsable_base() {
    let e = get_write_url(&ticket("bad host")).unwrap_err();
    assert_eq!(e.kind(), ErrorKind::InvalidInput);
}

#[test]
fn read_url_matches_write_assembly() {
    let location = Location {
        public_url: "node2:8080".to_string(),
        url: "10.0.0.2:8080".to_string(),
    };
    let u = get_read_url("7400,beef", &location).unwrap();
    assert_eq!(u.as_str(), "http://node2:8080/7400,beef");
}

#[test]
fn read_url_is_deterministic() {
    let location = Location {
        public_url: "node2:8080".to_string(),
        url: "10.0.0.2:8080".to_string(),
    };
    let a = get_read_url("7400,beef", &location).unwrap();
    let b = get_read_url("7400,beef", &location).unwrap();
    assert_eq!(a.as_str(), b.as_str());
}

#[test]
fn empty_filename_becomes_file() {
    assert_eq!(sanitize_filename(String::new()), "file");
}

#[test]
fn short_filename_is_unchanged() {
    assert_eq!(sanitize_filename("report.pdf".to_string()), "report.pdf");
}

#[test]
fn long_filename_is_cut_to_255_bytes() {
    let long = "a".repeat(300);
    let cut = sanitize_filename(long);
    assert_eq!(cut.len(), 255);
    assert_eq!(cut, "a".repeat(255));
}

#[test]
fn filename_of_exactly_255_bytes_is_unchanged() {
    let name = "b".repeat(255);
    assert_eq!(sanitize_filename(name.clone()), name);
}

#[test]
fn long_filename_is_cut_at_a_char_boundary() {
    // 254 single-byte characters followed by a 3-byte one: byte 255
    // falls inside the last character, so the cut backs up to 254.
    let mut name = "a".repeat(254);
    name.push('€');
    assert_eq!(name.len(), 257);
    assert_eq!(sanitize_filename(name), "a".repeat(254));
}

#[test]
fn sanitization_is_idempotent() {
    for name in ["", "report.pdf", &"a".repeat(300)] {
        let once = sanitize_filename(name.to_string());
        let twice = sanitize_filename(once.clone());
        assert_eq!(twice, once);
    }
}
