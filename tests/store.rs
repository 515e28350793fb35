use llmup::digest::Blob;
use llmup::store::{Model, OllamaStore, Registry, Variant};
use std::str::FromStr;

const TEST_TEXT: &str = "sha256:9f86d081884c7d659a2feaa0c55ad015a3bf4f1b2b0b822cd15d6c15b0f00a08";

#[test]
fn store_layout() {
    let store = OllamaStore::new("/home/u/.ollama".to_string());
    assert_eq!(store.blobs_path(), "/home/u/.ollama/models/blobs");
    assert_eq!(store.manifests_path(), "/home/u/.ollama/models/manifests");
    let b = Blob::from_text(TEST_TEXT).unwrap();
    assert_eq!(
        store.blob_path(&b),
        "/home/u/.ollama/models/blobs/sha256-9f86d081884c7d659a2feaa0c55ad015a3bf4f1b2b0b822cd15d6c15b0f00a08"
    );
    assert_eq!(store.blob_path_tmp(&b), format!("{}.tmp", store.blob_path(&b)));
    let reg = Registry::from_str("registry.ollama.ai").unwrap();
    let model = Model::from_str("llama3").unwrap();
    let variant = Variant::from_str("8b").unwrap();
    assert_eq!(
        store.manifest_registry_model_variant_path(&reg, &model, &variant),
        "/home/u/.ollama/models/manifests/registry.ollama.ai/library/llama3/8b"
    );
}

#[test]
fn root_with_trailing_separator() {
    let store = OllamaStore::new("/data/".to_string());
    assert_eq!(store.blobs_path(), "/data/models/blobs");
    let store = OllamaStore::new(String::new());
    assert_eq!(store.manifests_path(), "models/manifests");
}

#[test]
fn identifiers_must_not_be_empty() {
    assert!(Model::from_str("").is_err());
    assert!(Variant::from_str("").is_err());
    assert!(Registry::from_str("").is_err());
    assert_eq!(Model::from_str("qwen").unwrap().as_str(), "qwen");
    assert_eq!(Variant::from_str("0.5b").unwrap().as_str(), "0.5b");
    assert!(Model::from_str("a").unwrap() == Model::from_str("a").unwrap());
    assert!(Model::from_str("a").unwrap() != Model::from_str("b").unwrap());
}
