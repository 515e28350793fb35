use llmup::digest::Blob;
use llmup::manifest::{
    blobs_from_names, Manifest, ManifestConfig, ManifestLayer, MissingLayer, MEDIA_TYPE_IMAGE_LICENSE,
    MEDIA_TYPE_IMAGE_MODEL, MEDIA_TYPE_IMAGE_PARAMS, MEDIA_TYPE_IMAGE_TEMPLATE,
};

fn b(n: u8) -> Blob {
    Blob::Sha256([n; 32])
}

fn layer(ty: &str, digest: Blob, size: u64) -> ManifestLayer {
    ManifestLayer { media_type: ty.to_string(), digest, size, from: None }
}

fn manifest(layers: Vec<ManifestLayer>) -> Manifest {
    Manifest {
        schema_version: 2,
        media_type: "m".to_string(),
        config: ManifestConfig { media_type: "c".to_string(), digest: b(0), size: 10 },
        layers,
    }
}

#[test]
fn size_adds_config_and_layers() {
    let m = manifest(vec![layer(MEDIA_TYPE_IMAGE_MODEL, b(1), 100), layer(MEDIA_TYPE_IMAGE_PARAMS, b(2), 5)]);
    assert_eq!(m.size(), Some(115));
    assert_eq!(manifest(vec![]).size(), Some(10));
    let big = manifest(vec![layer(MEDIA_TYPE_IMAGE_MODEL, b(1), u64::MAX - 10)]);
    assert_eq!(big.size(), Some(u64::MAX));
    let over = manifest(vec![layer(MEDIA_TYPE_IMAGE_MODEL, b(1), u64::MAX - 9)]);
    assert_eq!(over.size(), None);
}

#[test]
fn all_digests_lists_config_first() {
    let m = manifest(vec![layer(MEDIA_TYPE_IMAGE_MODEL, b(1), 1), layer(MEDIA_TYPE_IMAGE_PARAMS, b(2), 1)]);
    assert_eq!(m.all_digests(), vec![b(0), b(1), b(2)]);
}

#[test]
fn find_media_type_takes_the_first() {
    let m = manifest(vec![
        layer(MEDIA_TYPE_IMAGE_LICENSE, b(1), 1),
        layer(MEDIA_TYPE_IMAGE_MODEL, b(2), 1),
        layer(MEDIA_TYPE_IMAGE_MODEL, b(3), 1),
    ]);
    assert_eq!(m.find_media_type(MEDIA_TYPE_IMAGE_MODEL).unwrap().digest, b(2));
    assert!(m.find_media_type(MEDIA_TYPE_IMAGE_TEMPLATE).is_none());
}

#[test]
fn run_layers_needs_model_and_params() {
    let full = manifest(vec![
        layer(MEDIA_TYPE_IMAGE_MODEL, b(1), 1),
        layer(MEDIA_TYPE_IMAGE_TEMPLATE, b(2), 1),
        layer(MEDIA_TYPE_IMAGE_PARAMS, b(3), 1),
    ]);
    let l = full.run_layers().unwrap();
    assert_eq!(l.model, b(1));
    assert_eq!(l.template, Some(b(2)));
    assert_eq!(l.params, b(3));

    let no_template = manifest(vec![layer(MEDIA_TYPE_IMAGE_MODEL, b(1), 1), layer(MEDIA_TYPE_IMAGE_PARAMS, b(3), 1)]);
    assert_eq!(no_template.run_layers().unwrap().template, None);

    let no_model = manifest(vec![layer(MEDIA_TYPE_IMAGE_PARAMS, b(3), 1)]);
    assert_eq!(no_model.run_layers().unwrap_err(), MissingLayer::Model);
    let no_params = manifest(vec![layer(MEDIA_TYPE_IMAGE_MODEL, b(1), 1)]);
    assert_eq!(no_params.run_layers().unwrap_err(), MissingLayer::Params);
}

#[test]
fn listing_keeps_blob_names_only() {
    let good = b(7).as_path_name();
    let names = vec![
        good.clone(),
        format!("{}.tmp", good),
        "notes.txt".to_string(),
        b(7).to_text(),
        b(9).as_path_name(),
    ];
    assert_eq!(blobs_from_names(&names), vec![b(7), b(9)]);
}
