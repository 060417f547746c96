//! Locating the chart metadata entry and validating its fields.

use helm2oci::chart::chart_archive_file_name;
use helm2oci::chart::chart_metadata_path;
use helm2oci::chart::find_chart_metadata;
use helm2oci::chart::require_chart_fields;
use helm2oci::chart::ArchiveEntry;
use helm2oci::chart::ChartError;

fn path(p: &str) -> Vec<u8> {
    p.as_bytes().to_vec()
}

#[test]
fn metadata_path_two_segments() {
    assert!(chart_metadata_path(&path("demo/Chart.yaml")));
    assert!(chart_metadata_path(&path("mychart/Chart.yaml")));
}

#[test]
fn metadata_path_rejects_other_shapes() {
    assert!(!chart_metadata_path(&path("Chart.yaml")));
    assert!(!chart_metadata_path(&path("a/b/Chart.yaml")));
    assert!(!chart_metadata_path(&path("demo/values.yaml")));
    assert!(!chart_metadata_path(&path("/Chart.yaml")));
    assert!(!chart_metadata_path(&path("demo/Chart.yam")));
    assert!(!chart_metadata_path(&path("demo/Chart.yamlx")));
    assert!(!chart_metadata_path(&path("demo/")));
    assert!(!chart_metadata_path(&path("")));
}

#[test]
fn finds_first_metadata_entry() {
    let entries = vec![
        ArchiveEntry { path: path("demo/values.yaml"), data: b"replicas: 1".to_vec() },
        ArchiveEntry { path: path("demo/Chart.yaml"), data: b"name: demo".to_vec() },
        ArchiveEntry { path: path("demo/templates/x.yaml"), data: Vec::new() },
    ];
    assert_eq!(find_chart_metadata(&entries), Some(1));
}

#[test]
fn missing_metadata_entry_is_none() {
    let entries = vec![
        ArchiveEntry { path: path("demo/values.yaml"), data: Vec::new() },
        ArchiveEntry { path: path("demo/templates/Chart.yaml"), data: Vec::new() },
    ];
    assert_eq!(find_chart_metadata(&entries), None);
}

#[test]
fn fields_present() {
    let r = require_chart_fields(Some(b"demo".to_vec()), Some(b"1.0.0".to_vec()));
    let (name, version) = r.unwrap();
    assert_eq!(name, b"demo".to_vec());
    assert_eq!(version, b"1.0.0".to_vec());
}

#[test]
fn missing_name_is_named() {
    let r = require_chart_fields(None, Some(b"1.0.0".to_vec()));
    assert_eq!(r.unwrap_err(), ChartError::MissingName);
}

#[test]
fn missing_version_is_named() {
    let r = require_chart_fields(Some(b"demo".to_vec()), None);
    assert_eq!(r.unwrap_err(), ChartError::MissingVersion);
}

#[test]
fn archive_file_name_shape() {
    let name = chart_archive_file_name(&b"mychart".to_vec(), &b"0.1.0".to_vec());
    assert_eq!(name, b"mychart-0.1.0.tgz".to_vec());
}
