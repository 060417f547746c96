//! Layout initialization and the end-to-end conversion of a chart.

use helm2oci::layout::convert;
use helm2oci::layout::plan_layout_init;
use helm2oci::layout::Layout;
use helm2oci::layout::LayoutError;
use helm2oci::layout::LayoutFile;

fn digest_string(data: &[u8]) -> String {
    let digest = openssl::sha::sha256(data);
    let mut out = String::from("sha256:");
    for b in digest.iter() {
        out.push_str(&format!("{:02x}", b));
    }
    out
}

fn file<'a>(files: &'a [LayoutFile], path: &str) -> &'a LayoutFile {
    files
        .iter()
        .find(|f| f.path == path.as_bytes().to_vec())
        .unwrap_or_else(|| panic!("no file {}", path))
}

#[test]
fn plan_init_fresh_directory() {
    let plan = plan_layout_init(false, false).unwrap();
    assert!(plan.create_root);
    assert_eq!(plan.blob_dir, b"blobs/sha256".to_vec());
    assert_eq!(plan.files.len(), 2);
    assert_eq!(plan.files[0].path, b"oci-layout".to_vec());
    assert_eq!(plan.files[0].data, b"{\"imageLayoutVersion\":\"1.0.0\"}".to_vec());
    assert_eq!(plan.files[1].path, b"index.json".to_vec());
    assert_eq!(plan.files[1].data, b"{\"schemaVersion\":2,\"manifests\":[]}".to_vec());
}

#[test]
fn plan_init_existing_empty_directory() {
    let plan = plan_layout_init(true, true).unwrap();
    assert!(!plan.create_root);
    assert_eq!(plan.files.len(), 2);
}

#[test]
fn plan_init_nonempty_directory_fails() {
    match plan_layout_init(true, false) {
        Ok(_) => panic!("a non-empty directory must be refused"),
        Err(e) => assert_eq!(e, LayoutError::DirectoryNotEmpty),
    }
}

#[test]
fn convert_demo_chart_end_to_end() {
    let config = b"{\"name\":\"demo\",\"version\":\"1.0.0\"}";
    let archive = b"\x1f\x8b pretend gzip payload of demo-1.0.0.tgz";
    let layout = convert(config, archive, b"1.0.0".to_vec());
    let files = layout.files();

    // Marker first, index last, three blobs between.
    assert_eq!(files.len(), 5);
    assert_eq!(files[0].path, b"oci-layout".to_vec());
    assert_eq!(files[4].path, b"index.json".to_vec());

    // The config blob holds exactly the config JSON, the layer blob holds
    // the archive byte-for-byte, each under its own digest.
    let config_path = format!("blobs/sha256/{}", &digest_string(config)[7..]);
    let layer_path = format!("blobs/sha256/{}", &digest_string(archive)[7..]);
    assert_eq!(file(&files, &config_path).data, config.to_vec());
    assert_eq!(file(&files, &layer_path).data, archive.to_vec());

    // The index holds exactly one manifest entry, tagged 1.0.0, whose
    // digest is the digest of the manifest blob.
    let index: serde_json::Value = serde_json::from_slice(&file(&files, "index.json").data).unwrap();
    assert_eq!(index["schemaVersion"], serde_json::Value::from(2));
    let manifests = index["manifests"].as_array().unwrap();
    assert_eq!(manifests.len(), 1);
    let entry = &manifests[0];
    assert_eq!(
        entry["annotations"]["org.opencontainers.image.ref.name"]
            .as_str()
            .unwrap(),
        "1.0.0"
    );
    let manifest_digest = entry["digest"].as_str().unwrap();
    let manifest_path = format!("blobs/sha256/{}", &manifest_digest[7..]);
    let manifest_bytes = file(&files, &manifest_path).data.clone();
    assert_eq!(manifest_digest, digest_string(&manifest_bytes));
    assert_eq!(entry["size"].as_u64().unwrap(), manifest_bytes.len() as u64);

    // The manifest references exactly the config and the layer.
    let manifest: serde_json::Value = serde_json::from_slice(&manifest_bytes).unwrap();
    assert_eq!(manifest["schemaVersion"], serde_json::Value::from(2));
    assert_eq!(
        manifest["mediaType"].as_str().unwrap(),
        "application/vnd.oci.image.manifest.v1+json"
    );
    assert_eq!(manifest["config"]["digest"].as_str().unwrap(), digest_string(config));
    assert_eq!(
        manifest["config"]["mediaType"].as_str().unwrap(),
        "application/vnd.cncf.helm.config.v1+json"
    );
    assert_eq!(manifest["config"]["size"].as_u64().unwrap(), config.len() as u64);
    let layers = manifest["layers"].as_array().unwrap();
    assert_eq!(layers.len(), 1);
    assert_eq!(layers[0]["digest"].as_str().unwrap(), digest_string(archive));
    assert_eq!(
        layers[0]["mediaType"].as_str().unwrap(),
        "application/vnd.cncf.helm.chart.content.v1.tar+gzip"
    );
    assert_eq!(layers[0]["size"].as_u64().unwrap(), archive.len() as u64);
}

#[test]
fn publish_index_round_trip() {
    let layout = convert(b"{\"name\":\"x\"}", b"layerbytes", b"2.4.6".to_vec());
    let files = layout.files();
    let index_bytes = &files.last().unwrap().data;
    let index: serde_json::Value = serde_json::from_slice(index_bytes).unwrap();
    let entry = &index["manifests"].as_array().unwrap()[0];
    let digest = entry["digest"].as_str().unwrap();
    let blob_path = format!("blobs/sha256/{}", &digest[7..]);
    let manifest_bytes = &file(&files, &blob_path).data;
    assert_eq!(digest, digest_string(manifest_bytes));
}

#[test]
fn publish_replaces_entry_with_same_tag() {
    let mut layout = Layout::new();
    layout.publish(b"{\"a\":1}", b"layer one", b"1.0.0".to_vec());
    layout.publish(b"{\"a\":2}", b"layer two", b"1.0.0".to_vec());
    assert_eq!(layout.index.len(), 1);
    let d = &layout.index[0];
    assert_eq!(d.annotations.len(), 1);
    assert_eq!(d.annotations[0].1, b"1.0.0".to_vec());
}

#[test]
fn publish_keeps_entries_with_other_tags() {
    let mut layout = Layout::new();
    layout.publish(b"{\"a\":1}", b"layer one", b"1.0.0".to_vec());
    layout.publish(b"{\"a\":2}", b"layer two", b"2.0.0".to_vec());
    assert_eq!(layout.index.len(), 2);
    assert_eq!(layout.index[0].annotations[0].1, b"1.0.0".to_vec());
    assert_eq!(layout.index[1].annotations[0].1, b"2.0.0".to_vec());
}
