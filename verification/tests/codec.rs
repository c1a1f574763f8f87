//! The file-id codec: the volume-id prefix of `<volumeId>,<fileKey>`.

use weedfs::error::ErrorKind;
use weedfs::utils::get_volume_id;

#[test]
fn parses_simple_file_id() {
    assert_eq!(get_volume_id("3,01637037d6").unwrap(), 3);
}

#[test]
fn parses_longer_volume_id() {
    assert_eq!(get_volume_id("7400,786754564231340654").unwrap(), 7400);
}

#[test]
fn splits_on_first_separator_only() {
    assert_eq!(get_volume_id("12,34,56").unwrap(), 12);
}

#[test]
fn parses_max_volume_id() {
    assert_eq!(
        get_volume_id("18446744073709551615,x").unwrap(),
        u64::MAX
    );
}

#[test]
fn rejects_missing_separator() {
    let e = get_volume_id("1234567").unwrap_err();
    assert_eq!(e.kind(), ErrorKind::MalformedFileId);
}

#[test]
fn rejects_empty_prefix() {
    let e = get_volume_id(",abc").unwrap_err();
    assert_eq!(e.kind(), ErrorKind::MalformedFileId);
}

#[test]
fn rejects_empty_string() {
    let e = get_volume_id("").unwrap_err();
    assert_eq!(e.kind(), ErrorKind::MalformedFileId);
}

#[test]
fn rejects_non_numeric_prefix() {
    let e = get_volume_id("vol,1").unwrap_err();
    assert_eq!(e.kind(), ErrorKind::MalformedFileId);
}

#[test]
fn rejects_signed_prefix() {
    let e = get_volume_id("+3,1").unwrap_err();
    assert_eq!(e.kind(), ErrorKind::MalformedFileId);
}

#[test]
fn rejects_overflowing_prefix() {
    let e = get_volume_id("18446744073709551616,x").unwrap_err();
    assert_eq!(e.kind(), ErrorKind::MalformedFileId);
}
