use llmup::digest::{Blob, MalformedDigest};
use std::str::FromStr;

const TEST_HEX: &str = "9f86d081884c7d659a2feaa0c55ad015a3bf4f1b2b0b822cd15d6c15b0f00a08";

#[test]
fn text_and_path_forms_round_trip() {
    let text = format!("sha256:{}", TEST_HEX);
    let b = Blob::from_text(&text).unwrap();
    assert_eq!(b.to_text(), text);
    assert_eq!(b.as_path_name(), format!("sha256-{}", TEST_HEX));
    assert_eq!(Blob::from_path_name(&b.as_path_name()).unwrap(), b);
    assert_eq!(Blob::from_str(&text).unwrap(), b);
}

#[test]
fn digest_bytes_are_decoded() {
    let b = Blob::from_text(&format!("sha256:{}", TEST_HEX)).unwrap();
    let Blob::Sha256(bytes) = b;
    assert_eq!(bytes[0], 0x9f);
    assert_eq!(bytes[1], 0x86);
    assert_eq!(bytes[31], 0x08);
}

#[test]
fn upper_case_hex_is_accepted() {
    let lower = Blob::from_text(&format!("sha256:{}", TEST_HEX)).unwrap();
    let upper = Blob::from_text(&format!("sha256:{}", TEST_HEX.to_uppercase())).unwrap();
    assert_eq!(lower, upper);
    assert_eq!(upper.to_text(), format!("sha256:{}", TEST_HEX));
}

#[test]
fn malformed_digests_are_refused() {
    assert_eq!(Blob::from_text("sha256"), Err(MalformedDigest::NoSeparator));
    assert_eq!(Blob::from_path_name(&format!("sha256:{}", TEST_HEX)), Err(MalformedDigest::NoSeparator));
    assert_eq!(Blob::from_text("sha256:xyz0"), Err(MalformedDigest::NotHexadecimal));
    assert_eq!(Blob::from_text("sha256:abc"), Err(MalformedDigest::NotHexadecimal));
    assert_eq!(Blob::from_text(&format!("md5:{}", TEST_HEX)), Err(MalformedDigest::UnknownAlgorithm));
    assert_eq!(Blob::from_text("sha256:abcd"), Err(MalformedDigest::WrongLength));
    assert_eq!(Blob::from_text(&format!("sha256:{}00", TEST_HEX)), Err(MalformedDigest::WrongLength));
}

#[test]
fn digests_compare_by_bytes() {
    let a = Blob::Sha256([1; 32]);
    let b = Blob::Sha256([1; 32]);
    let mut other = [1; 32];
    other[31] = 2;
    assert!(a == b);
    assert!(a != Blob::Sha256(other));
}
