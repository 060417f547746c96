//! Locating and validating chart metadata: the archive entry holding the
//! chart's metadata file, and the fields the conversion needs from it.

use vstd::prelude::*;
use vstd::string::StringSliceAdditionalSpecFns;

use crate::hex::copy_bytes;
use crate::hex::push_all;
use crate::json::push_lit;

verus! {

/// The file name of the chart metadata entry.
pub open spec fn chart_yaml_name() -> Seq<u8> {
    "Chart.yaml".spec_bytes()
}

/// Whether `i` is the position of the only path separator in `p`.
pub open spec fn sole_separator_at(p: Seq<u8>, i: int) -> bool {
    p[i] == 0x2f && (forall|j: int| 0 <= j < p.len() && j != i ==> p[j] != 0x2f)
}

/// Whether a path names the chart metadata file exactly two segments
/// deep: a non-empty leading segment (the chart's own directory, not
/// known in advance), one separator, and the metadata file name.
pub open spec fn is_chart_metadata_path(p: Seq<u8>) -> bool {
    exists|i: int|
        0 < i < p.len() && sole_separator_at(p, i) && p.subrange(i + 1, p.len() as int)
            == chart_yaml_name()
}

/// Whether the suffix of `p` starting at `from` is exactly `pat`.
fn suffix_eq(p: &Vec<u8>, from: usize, pat: &[u8]) -> (r: bool)
    requires
        from <= p.len(),
    ensures
        r == (p@.subrange(from as int, p@.len() as int) == pat@),
{
    if p.len() - from != pat.len() {
        proof {
            assert(p@.subrange(from as int, p@.len() as int).len() != pat@.len());
        }
        return false;
    }
    let mut j: usize = 0;
    while j < pat.len()
        invariant
            from + pat.len() == p.len(),
            j <= pat.len(),
            forall|k: int| 0 <= k < j ==> p@[from + k] == pat@[k],
        decreases pat.len() - j,
    {
        if p[from + j] != pat[j] {
            proof {
                assert(p@.subrange(from as int, p@.len() as int)[j as int] != pat@[j as int]);
            }
            return false;
        }
        j = j + 1;
    }
    proof {
        assert(p@.subrange(from as int, p@.len() as int) =~= pat@);
    }
    true
}

/// Whether `p` is a chart metadata path: exactly two path segments, the
/// second being the metadata file name.
pub fn chart_metadata_path(p: &Vec<u8>) -> (r: bool)
    ensures
        r == is_chart_metadata_path(p@),
{
    let mut first: usize = 0;
    let mut seen: bool = false;
    let mut i: usize = 0;
    while i < p.len()
        invariant
            i <= p.len(),
            !seen ==> forall|j: int| 0 <= j < i ==> p@[j] != 0x2f,
            seen ==> first < i && p@[first as int] == 0x2f,
            seen ==> forall|j: int| 0 <= j < i && j != first ==> p@[j] != 0x2f,
        decreases p.len() - i,
    {
        if p[i] == 0x2f {
            if seen {
                proof {
                    assert(forall|k: int|
                        0 < k < p@.len() && sole_separator_at(p@, k) ==> false) by {
                        assert forall|k: int|
                            0 < k < p@.len() && sole_separator_at(p@, k) implies false by {
                            if k != first as int {
                                assert(p@[first as int] != 0x2f);
                            } else {
                                assert(p@[i as int] != 0x2f);
                            }
                        }
                    }
                }
                return false;
            }
            first = i;
            seen = true;
        }
        i = i + 1;
    }
    if !seen {
        proof {
            assert forall|k: int| 0 < k < p@.len() && sole_separator_at(p@, k) implies false by {
                assert(p@[k] != 0x2f);
            }
        }
        return false;
    }
    if first == 0 {
        proof {
            assert forall|k: int| 0 < k < p@.len() && sole_separator_at(p@, k) implies false by {
                assert(p@[0] != 0x2f);
            }
        }
        return false;
    }
    let tail_matches = suffix_eq(p, first + 1, "Chart.yaml".as_bytes());
    proof {
        if tail_matches {
            assert(sole_separator_at(p@, first as int));
            assert(is_chart_metadata_path(p@));
        } else {
            if is_chart_metadata_path(p@) {
                let k = choose|k: int|
                    0 < k < p@.len() && sole_separator_at(p@, k) && p@.subrange(
                        k + 1,
                        p@.len() as int,
                    ) == chart_yaml_name();
                if k != first as int {
                    assert(p@[first as int] != 0x2f);
                }
                assert(false);
            }
        }
    }
    tail_matches
}

/// One entry of the unpacked archive: its path within the archive, and
/// its raw contents.
pub struct ArchiveEntry {
    pub path: Vec<u8>,
    pub data: Vec<u8>,
}

/// Finds the first archive entry holding the chart metadata file two
/// segments deep; entries elsewhere are ignored, not errors.
pub fn find_chart_metadata(entries: &Vec<ArchiveEntry>) -> (r: Option<usize>)
    ensures
        (match r {
            Some(i) => i < entries@.len() && is_chart_metadata_path(entries@[i as int].path@)
                && forall|j: int| 0 <= j < i ==> !is_chart_metadata_path(entries@[j].path@),
            None => forall|j: int|
                0 <= j < entries@.len() ==> !is_chart_metadata_path(entries@[j].path@),
        }),
{
    let mut i: usize = 0;
    while i < entries.len()
        invariant
            i <= entries.len(),
            forall|j: int| 0 <= j < i ==> !is_chart_metadata_path(entries@[j].path@),
        decreases entries.len() - i,
    {
        if chart_metadata_path(&entries[i].path) {
            return Some(i);
        }
        i = i + 1;
    }
    None
}

/// A required metadata field is absent.
#[derive(Clone, Copy, Debug, PartialEq, Eq, Structural)]
pub enum ChartError {
    MissingName,
    MissingVersion,
}

/// Demands the two metadata fields the conversion consumes.  The name is
/// checked first; the error names exactly the missing field.
pub fn require_chart_fields(name: Option<Vec<u8>>, version: Option<Vec<u8>>) -> (r: Result<
    (Vec<u8>, Vec<u8>),
    ChartError,
>)
    ensures
        r is Ok <==> name is Some && version is Some,
        name is None ==> r == Err::<(Vec<u8>, Vec<u8>), ChartError>(ChartError::MissingName),
        name is Some && version is None ==> r == Err::<(Vec<u8>, Vec<u8>), ChartError>(
            ChartError::MissingVersion,
        ),
        (match (r, name, version) {
            (Ok(nv), Some(n), Some(v)) => nv.0 == n && nv.1 == v,
            _ => true,
        }),
{
    match (name, version) {
        (None, _) => Err(ChartError::MissingName),
        (Some(_), None) => Err(ChartError::MissingVersion),
        (Some(n), Some(v)) => Ok((n, v)),
    }
}

/// The file name of a packaged chart: `<name>-<tag>.tgz`.
pub open spec fn archive_file_name(name: Seq<u8>, tag: Seq<u8>) -> Seq<u8> {
    name + "-".spec_bytes() + tag + ".tgz".spec_bytes()
}

/// Builds the packaged chart's file name from its name and tag.
pub fn chart_archive_file_name(name: &Vec<u8>, tag: &Vec<u8>) -> (r: Vec<u8>)
    ensures
        r@ == archive_file_name(name@, tag@),
{
    let mut out = copy_bytes(name);
    push_lit(&mut out, "-");
    push_all(&mut out, tag.as_slice());
    push_lit(&mut out, ".tgz");
    proof {
        assert(out@ =~= archive_file_name(name@, tag@));
    }
    out
}

} // verus!
