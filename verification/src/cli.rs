//! The converter's command-line surface: plain values only, so the
//! conversion logic can be driven without any argument-parsing machinery.

use vstd::prelude::*;

verus! {

/// Arguments of the flag-style converter interface: the chart's name and
/// tag (from which the archive file name is derived), and optional
/// overrides for the output directory and the directory holding the
/// packaged chart.
pub struct Cli {
    pub helm_chart_name: String,
    pub tag: String,
    pub output_dir: Option<String>,
    pub path_to_helm: Option<String>,
}

} // verus!
