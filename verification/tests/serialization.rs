//! Exact JSON output of descriptors, manifests and the index.

use helm2oci::descriptor::push_descriptor_json;
use helm2oci::descriptor::Descriptor;
use helm2oci::manifest::index_json;
use helm2oci::manifest::Manifest;

fn descriptor_json(d: &Descriptor) -> Vec<u8> {
    let mut out = Vec::new();
    push_descriptor_json(&mut out, d);
    out
}

fn sample_descriptor() -> Descriptor {
    Descriptor {
        media_type: b"application/vnd.cncf.helm.config.v1+json".to_vec(),
        digest: b"sha256:0000aa".to_vec(),
        size: 42,
        annotations: Vec::new(),
    }
}

#[test]
fn descriptor_json_exact() {
    let d = sample_descriptor();
    assert_eq!(
        descriptor_json(&d),
        b"{\"mediaType\":\"application/vnd.cncf.helm.config.v1+json\",\"digest\":\"sha256:0000aa\",\"size\":42}".to_vec()
    );
}

#[test]
fn descriptor_json_with_annotation() {
    let mut d = sample_descriptor();
    d.annotations.push((b"org.opencontainers.image.ref.name".to_vec(), b"1.0.0".to_vec()));
    assert_eq!(
        descriptor_json(&d),
        b"{\"mediaType\":\"application/vnd.cncf.helm.config.v1+json\",\"digest\":\"sha256:0000aa\",\"size\":42,\"annotations\":{\"org.opencontainers.image.ref.name\":\"1.0.0\"}}".to_vec()
    );
}

#[test]
fn descriptor_json_escapes_strings() {
    let mut d = sample_descriptor();
    d.annotations.push((b"note".to_vec(), b"a\"b\\c\nd".to_vec()));
    let out = descriptor_json(&d);
    let text = String::from_utf8(out.clone()).unwrap();
    assert!(text.contains("\"note\":\"a\\\"b\\\\c\\u000ad\""));
    // A standard JSON parser reads the escaped value back unchanged.
    let parsed: serde_json::Value = serde_json::from_slice(&out).unwrap();
    assert_eq!(parsed["annotations"]["note"].as_str().unwrap(), "a\"b\\c\nd");
}

#[test]
fn descriptor_json_large_size() {
    let mut d = sample_descriptor();
    d.size = 1234567890;
    let text = String::from_utf8(descriptor_json(&d)).unwrap();
    assert!(text.contains("\"size\":1234567890"));
}

#[test]
fn descriptor_json_largest_size() {
    let mut d = sample_descriptor();
    d.size = u64::MAX;
    let text = String::from_utf8(descriptor_json(&d)).unwrap();
    assert!(text.contains("\"size\":18446744073709551615"));
    let parsed: serde_json::Value = serde_json::from_slice(text.as_bytes()).unwrap();
    assert_eq!(parsed["size"].as_u64().unwrap(), u64::MAX);
}

#[test]
fn manifest_json_exact() {
    let config = Descriptor {
        media_type: b"application/vnd.cncf.helm.config.v1+json".to_vec(),
        digest: b"sha256:aa".to_vec(),
        size: 1,
        annotations: Vec::new(),
    };
    let layer = Descriptor {
        media_type: b"application/vnd.cncf.helm.chart.content.v1.tar+gzip".to_vec(),
        digest: b"sha256:bb".to_vec(),
        size: 2,
        annotations: Vec::new(),
    };
    let m = Manifest { config, layers: vec![layer] };
    assert_eq!(
        m.to_json(),
        b"{\"schemaVersion\":2,\"mediaType\":\"application/vnd.oci.image.manifest.v1+json\",\"config\":{\"mediaType\":\"application/vnd.cncf.helm.config.v1+json\",\"digest\":\"sha256:aa\",\"size\":1},\"layers\":[{\"mediaType\":\"application/vnd.cncf.helm.chart.content.v1.tar+gzip\",\"digest\":\"sha256:bb\",\"size\":2}]}".to_vec()
    );
}

#[test]
fn index_json_empty() {
    let manifests: Vec<Descriptor> = Vec::new();
    assert_eq!(index_json(&manifests), b"{\"schemaVersion\":2,\"manifests\":[]}".to_vec());
}

#[test]
fn index_json_two_entries() {
    let a = Descriptor {
        media_type: b"m".to_vec(),
        digest: b"sha256:aa".to_vec(),
        size: 1,
        annotations: Vec::new(),
    };
    let b = Descriptor {
        media_type: b"m".to_vec(),
        digest: b"sha256:bb".to_vec(),
        size: 2,
        annotations: Vec::new(),
    };
    let out = index_json(&vec![a, b]);
    assert_eq!(
        out,
        b"{\"schemaVersion\":2,\"manifests\":[{\"mediaType\":\"m\",\"digest\":\"sha256:aa\",\"size\":1},{\"mediaType\":\"m\",\"digest\":\"sha256:bb\",\"size\":2}]}".to_vec()
    );
    // Well-formed for a standard parser.
    let parsed: serde_json::Value = serde_json::from_slice(&out).unwrap();
    assert_eq!(parsed["manifests"].as_array().unwrap().len(), 2);
}
