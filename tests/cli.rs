use llmup::cli::{blob_problem, filter_accepts, listing_name, parse_name, NameError};
use llmup::digest::Blob;
use llmup::run::Role;
use std::str::FromStr;

#[test]
fn model_names() {
    let (m, v) = parse_name("llama3:8b").unwrap();
    assert_eq!(m.as_str(), "llama3");
    assert_eq!(v.as_str(), "8b");
    let (m, v) = parse_name("a:b:c").unwrap();
    assert_eq!(m.as_str(), "a");
    assert_eq!(v.as_str(), "b:c");
    assert_eq!(listing_name(&m, &v), "a:b:c");
    assert_eq!(parse_name("llama3").err(), Some(NameError::MissingTag));
    assert_eq!(parse_name(":8b").err(), Some(NameError::InvalidModel));
    assert_eq!(parse_name("llama3:").err(), Some(NameError::InvalidVariant));
}

#[test]
fn listing_filter() {
    assert!(filter_accepts("llama3:8b", &None));
    assert!(filter_accepts("llama3:8b", &Some("llama".to_string())));
    assert!(!filter_accepts("llama3:8b", &Some("qwen".to_string())));
    assert!(!filter_accepts("ll", &Some("llama".to_string())));
}

#[test]
fn blob_problems() {
    let b = Blob::Sha256([0xab; 32]);
    assert_eq!(blob_problem(&b, false, None), Some(format!("missing sha256:{}", "ab".repeat(32))));
    assert_eq!(blob_problem(&b, true, Some(false)), Some(format!("invalid blob sha256:{}", "ab".repeat(32))));
    assert_eq!(blob_problem(&b, true, Some(true)), None);
    assert_eq!(blob_problem(&b, true, None), None);
}

#[test]
fn roles() {
    assert_eq!(Role::from_str("user"), Ok(Role::User));
    assert_eq!(Role::from_str("system"), Ok(Role::System));
    assert_eq!(Role::from_str("assistant"), Ok(Role::Assistant));
    assert_eq!(Role::from_str("tool"), Err(()));
}
