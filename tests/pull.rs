use llmup::digest::Blob;
use llmup::download::Resume;
use llmup::manifest::{Manifest, ManifestConfig, ManifestLayer, MEDIA_TYPE_IMAGE_MODEL};
use llmup::pull::{manifest_response, DownloadError, DownloadResult, Pull, PullAction, PullEvent};
use llmup::store::{Model, OllamaStore, Registry, Variant};

const TEST_TEXT: &str = "sha256:9f86d081884c7d659a2feaa0c55ad015a3bf4f1b2b0b822cd15d6c15b0f00a08";
const EMPTY_TEXT: &str = "sha256:e3b0c44298fc1c149afbf4c8996fb92427ae41e4649b934ca495991b7852b855";

fn blob(text: &str) -> Blob {
    Blob::from_text(text).unwrap()
}

fn layer(digest: Blob, size: u64) -> ManifestLayer {
    ManifestLayer { media_type: MEDIA_TYPE_IMAGE_MODEL.to_string(), digest, size, from: None }
}

fn manifest(layers: Vec<ManifestLayer>) -> Manifest {
    Manifest {
        schema_version: 2,
        media_type: "application/vnd.docker.distribution.manifest.v2+json".to_string(),
        config: ManifestConfig {
            media_type: "application/vnd.docker.container.image.v1+json".to_string(),
            digest: blob(TEST_TEXT),
            size: 4,
        },
        layers,
    }
}

fn start(m: &Manifest) -> Pull {
    let store = OllamaStore::new("/cache".to_string());
    let registry = Registry::parse("registry.ollama.ai").unwrap();
    let model = Model::parse("tiny").unwrap();
    let variant = Variant::parse("latest").unwrap();
    Pull::new(&store, m, &registry, &model, &variant)
}

fn hash_of(expected: &Blob, content: &[u8]) -> Blob {
    let mut r = Resume::new(expected);
    let mid = content.len() / 2;
    r.on_chunk(&content[..mid]);
    r.on_chunk(&content[mid..]);
    r.finish()
}

/// Drives the download of the current artifact, with the given content.
fn download(p: &mut Pull, content: &[u8]) {
    match p.next_action() {
        PullAction::CheckBlob(_) => p.advance(PullEvent::Present(false)),
        _ => panic!("expected a presence check"),
    }
    match p.next_action() {
        PullAction::Fetch { blob, name, temp } => {
            assert_eq!(name, blob.as_path_name());
            assert_eq!(temp, format!("/cache/models/blobs/{}.tmp", blob.as_path_name()));
            let got = hash_of(&blob, content);
            p.advance(PullEvent::Fetched(got));
        }
        _ => panic!("expected a download"),
    }
}

#[test]
fn end_to_end_pull_of_two_absent_blobs() {
    let m = manifest(vec![layer(blob(EMPTY_TEXT), 0)]);
    let mut p = start(&m);
    download(&mut p, b"test");
    match p.next_action() {
        PullAction::Commit { blob: b, temp, dest } => {
            assert_eq!(b, blob(TEST_TEXT));
            assert_eq!(dest, format!("/cache/models/blobs/{}", b.as_path_name()));
            assert_eq!(temp, format!("{}.tmp", dest));
            p.advance(PullEvent::Committed);
        }
        _ => panic!("expected a commit"),
    }
    download(&mut p, b"");
    assert!(matches!(p.next_action(), PullAction::Commit { .. }));
    p.advance(PullEvent::Committed);
    match p.next_action() {
        PullAction::SaveManifest { path } => {
            assert_eq!(path, "/cache/models/manifests/registry.ollama.ai/library/tiny/latest");
            p.advance(PullEvent::ManifestSaved);
        }
        _ => panic!("expected the manifest to be saved"),
    }
    assert!(matches!(p.next_action(), PullAction::Finished));
    let results = p.results();
    assert_eq!(results.len(), 2);
    assert_eq!(results[0].0, "manifest");
    assert!(matches!(results[0].1, DownloadResult::Success(b) if b == blob(TEST_TEXT)));
    assert_eq!(results[1].0, MEDIA_TYPE_IMAGE_MODEL);
    assert!(matches!(results[1].1, DownloadResult::Success(b) if b == blob(EMPTY_TEXT)));
}

#[test]
fn present_blob_is_skipped_without_download() {
    let m = manifest(vec![layer(blob(EMPTY_TEXT), 0)]);
    let mut p = start(&m);
    assert!(matches!(p.next_action(), PullAction::CheckBlob(b) if b == blob(TEST_TEXT)));
    p.advance(PullEvent::Present(true));
    assert!(matches!(p.next_action(), PullAction::CheckBlob(b) if b == blob(EMPTY_TEXT)));
    p.advance(PullEvent::Present(true));
    assert!(matches!(p.next_action(), PullAction::SaveManifest { .. }));
    let results = p.results();
    assert!(matches!(results[0].1, DownloadResult::Skipped(b) if b == blob(TEST_TEXT)));
    assert!(matches!(results[1].1, DownloadResult::Skipped(b) if b == blob(EMPTY_TEXT)));
}

#[test]
fn mismatched_download_is_discarded_and_fails() {
    let m = manifest(vec![]);
    let mut p = start(&m);
    download(&mut p, b"tess");
    match p.next_action() {
        PullAction::Discard { temp } => {
            assert_eq!(temp, format!("/cache/models/blobs/{}.tmp", blob(TEST_TEXT).as_path_name()));
        }
        _ => panic!("expected the download to be discarded"),
    }
    p.advance(PullEvent::Committed);
    assert!(matches!(p.next_action(), PullAction::Discard { .. }));
    p.advance(PullEvent::Discarded);
    let expected_got = hash_of(&blob(TEST_TEXT), b"tess");
    match p.next_action() {
        PullAction::Fail(DownloadError::InvalidBlobDownloaded(expected, got)) => {
            assert_eq!(expected, blob(TEST_TEXT));
            assert_eq!(got, expected_got);
        }
        _ => panic!("expected the pull to fail"),
    }
    p.advance(PullEvent::ManifestSaved);
    assert!(matches!(p.next_action(), PullAction::Fail(DownloadError::InvalidBlobDownloaded(_, _))));
}

#[test]
fn failure_on_the_last_layer_saves_no_manifest() {
    let m = manifest(vec![layer(blob(EMPTY_TEXT), 0), layer(blob(EMPTY_TEXT), 0)]);
    let mut p = start(&m);
    p.advance(PullEvent::Present(true));
    p.advance(PullEvent::Present(true));
    p.advance(PullEvent::Present(false));
    assert!(matches!(p.next_action(), PullAction::Fetch { .. }));
    p.advance(PullEvent::FetchFailed);
    assert!(matches!(p.next_action(), PullAction::Fail(DownloadError::Http)));
    for e in [PullEvent::Present(true), PullEvent::Committed, PullEvent::ManifestSaved] {
        p.advance(e);
        assert!(matches!(p.next_action(), PullAction::Fail(DownloadError::Http)));
    }
    assert_eq!(p.results().len(), 2);
}

#[test]
fn commit_and_save_failures_are_reported() {
    let m = manifest(vec![]);
    let mut p = start(&m);
    download(&mut p, b"test");
    p.advance(PullEvent::CommitFailed);
    assert!(matches!(p.next_action(), PullAction::Fail(DownloadError::BlobCommitFailed(b)) if b == blob(TEST_TEXT)));

    let mut q = start(&m);
    q.advance(PullEvent::Present(true));
    q.advance(PullEvent::ManifestSaveFailed);
    assert!(matches!(q.next_action(), PullAction::Fail(DownloadError::ManifestAddingFailed)));
}

#[test]
fn manifest_answer_must_be_ok() {
    assert!(manifest_response(200).is_ok());
    assert!(matches!(manifest_response(404), Err(DownloadError::ManifestError(404))));
}
