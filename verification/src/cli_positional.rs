//! The positional command-line surface: the archive path is given
//! directly, and the output directory defaults to the chart's name.

use vstd::prelude::*;

verus! {

/// Arguments of the positional converter interface: an optional output
/// directory and the path to the packaged chart archive.
pub struct Cli {
    pub output: Option<String>,
    pub chart: String,
}

} // verus!
