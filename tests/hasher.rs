use llmup::digest::Blob;
use llmup::download::{ResponsePlan, Resume};
use llmup::hasher::BlobContext;

const TEST_TEXT: &str = "sha256:9f86d081884c7d659a2feaa0c55ad015a3bf4f1b2b0b822cd15d6c15b0f00a08";
const EMPTY_TEXT: &str = "sha256:e3b0c44298fc1c149afbf4c8996fb92427ae41e4649b934ca495991b7852b855";
const HELLO_TEXT: &str = "sha256:b94d27b9934d3e08a52e52d7da7dabfac484efe37a5380ee9088f7ace2efcde9";

#[test]
fn hasher_gives_sha256() {
    let mut h = BlobContext::new_sha256();
    h.update(b"test");
    assert_eq!(h.finalize(), Blob::from_text(TEST_TEXT).unwrap());
    assert_eq!(BlobContext::new_sha256().finalize(), Blob::from_text(EMPTY_TEXT).unwrap());
}

#[test]
fn chunking_does_not_change_the_digest() {
    let whole = b"hello world";
    let expected = Blob::from_text(HELLO_TEXT).unwrap();
    for cut in 0..=whole.len() {
        let mut h = BlobContext::new_from_blob_type(&expected);
        h.update(&whole[..cut]);
        h.update(&whole[cut..]);
        assert_eq!(h.absorbed_len(), whole.len() as u64);
        assert!(h.matches(&expected));
    }
    let mut h = BlobContext::new_sha256();
    for b in whole.iter() {
        h.update(&[*b]);
    }
    assert_eq!(h.finalize(), expected);
}

#[test]
fn matches_rejects_other_content() {
    let expected = Blob::from_text(TEST_TEXT).unwrap();
    let mut h = BlobContext::new_sha256();
    h.update(b"tesT");
    assert!(!h.matches(&expected));
}

#[test]
fn resume_continues_the_same_hash() {
    let full = b"hello world";
    let expected = Blob::from_text(HELLO_TEXT).unwrap();
    let mut r = Resume::new(&expected);
    r.seed(b"hel");
    r.seed(b"lo ");
    assert_eq!(r.downloaded(), 6);
    assert_eq!(r.range_header(), Some("bytes=6-".to_string()));
    assert!(matches!(r.plan(206), ResponsePlan::Append));
    assert_eq!(r.expected_total(Some(5)), Some(11));
    r.on_chunk(b"wor");
    r.on_chunk(b"ld");
    assert_eq!(r.downloaded(), full.len() as u64);
    assert_eq!(r.finish(), expected);
}

#[test]
fn fresh_download_sends_no_range() {
    let expected = Blob::from_text(TEST_TEXT).unwrap();
    let r = Resume::new(&expected);
    assert_eq!(r.range_header(), None);
    assert!(matches!(r.plan(200), ResponsePlan::Append));
    assert!(matches!(r.plan(206), ResponsePlan::Refuse(206)));
    assert!(matches!(r.plan(404), ResponsePlan::Refuse(404)));
    assert_eq!(r.expected_total(None), None);
    assert_eq!(r.expected_total(Some(4)), Some(4));
}

#[test]
fn full_answer_to_a_range_request_restarts() {
    let expected = Blob::from_text(TEST_TEXT).unwrap();
    let mut r = Resume::new(&expected);
    r.seed(b"garbage");
    assert!(matches!(r.plan(200), ResponsePlan::Restart));
    assert_eq!(r.expected_total(Some(u64::MAX)), None);
    r.restart(&expected);
    assert_eq!(r.downloaded(), 0);
    r.on_chunk(b"test");
    assert_eq!(r.finish(), expected);
}
