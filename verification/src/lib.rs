//! Content-addressable OCI image layout writer for packaged Helm charts.
//!
//! The library models an OCI image layout in memory: blobs are stored under
//! their own SHA-256 digest, a manifest ties a config blob to a single
//! content layer, and a top-level index catalogues the manifests.  Every
//! byte the library emits (descriptor, manifest, index, layout marker) is
//! specified exactly, and the content-addressing invariants are proved.
//! Reading archives and touching the filesystem is left to callers.

pub mod chart;
pub mod cli;
pub mod cli_positional;
pub mod descriptor;
pub mod digest;
pub mod hex;
pub mod json;
pub mod layout;
pub mod manifest;
