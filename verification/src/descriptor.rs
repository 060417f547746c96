//! Descriptors: the metadata records that identify a blob by digest, media
//! type and size, with optional annotations, and their exact JSON form.

use vstd::prelude::*;
use vstd::string::StringSliceAdditionalSpecFns;
use vstd::string::StrSliceExecFns;

use crate::json::dec_bytes;
use crate::json::json_string;
use crate::json::push_dec;
use crate::json::push_json_string;
use crate::json::push_lit;

verus! {

/// Media type of the chart configuration blob.
pub open spec fn config_media_type() -> Seq<u8> {
    "application/vnd.cncf.helm.config.v1+json".spec_bytes()
}

/// Media type of the packaged chart content layer.
pub open spec fn layer_media_type() -> Seq<u8> {
    "application/vnd.cncf.helm.chart.content.v1.tar+gzip".spec_bytes()
}

/// Media type of an image manifest.
pub open spec fn manifest_media_type() -> Seq<u8> {
    "application/vnd.oci.image.manifest.v1+json".spec_bytes()
}

/// The annotation key carrying the human-readable reference tag.
pub open spec fn ref_name_key() -> Seq<u8> {
    "org.opencontainers.image.ref.name".spec_bytes()
}

pub fn config_media_type_bytes() -> (r: Vec<u8>)
    ensures
        r@ == config_media_type(),
{
    "application/vnd.cncf.helm.config.v1+json".as_bytes_vec()
}

pub fn layer_media_type_bytes() -> (r: Vec<u8>)
    ensures
        r@ == layer_media_type(),
{
    "application/vnd.cncf.helm.chart.content.v1.tar+gzip".as_bytes_vec()
}

pub fn manifest_media_type_bytes() -> (r: Vec<u8>)
    ensures
        r@ == manifest_media_type(),
{
    "application/vnd.oci.image.manifest.v1+json".as_bytes_vec()
}

pub fn ref_name_key_bytes() -> (r: Vec<u8>)
    ensures
        r@ == ref_name_key(),
{
    "org.opencontainers.image.ref.name".as_bytes_vec()
}

/// The mathematical content of a descriptor.
pub ghost struct DescriptorModel {
    pub media_type: Seq<u8>,
    pub digest: Seq<u8>,
    pub size: nat,
    pub annotations: Seq<(Seq<u8>, Seq<u8>)>,
}

/// Identifies a blob: its media type, its digest string
/// (`sha256:<lowercase hex>`), its exact byte length, and optional
/// annotations.  Digest and size are always derived from the blob's actual
/// bytes by the store, never supplied independently.
pub struct Descriptor {
    pub media_type: Vec<u8>,
    pub digest: Vec<u8>,
    pub size: u64,
    pub annotations: Vec<(Vec<u8>, Vec<u8>)>,
}

impl View for Descriptor {
    type V = DescriptorModel;

    open spec fn view(&self) -> DescriptorModel {
        DescriptorModel {
            media_type: self.media_type@,
            digest: self.digest@,
            size: self.size as nat,
            annotations: self.annotations@.map(|i: int, kv: (Vec<u8>, Vec<u8>)| (kv.0@, kv.1@)),
        }
    }
}

/// One `"key":"value"` annotation pair.
pub open spec fn annotation_pair(kv: (Seq<u8>, Seq<u8>)) -> Seq<u8> {
    json_string(kv.0) + ":".spec_bytes() + json_string(kv.1)
}

/// Comma-separated annotation pairs, in order.
pub open spec fn annotation_list(a: Seq<(Seq<u8>, Seq<u8>)>) -> Seq<u8>
    decreases a.len(),
{
    if a.len() == 0 {
        Seq::empty()
    } else if a.len() == 1 {
        annotation_pair(a[0])
    } else {
        annotation_list(a.drop_last()) + ",".spec_bytes() + annotation_pair(a.last())
    }
}

/// The `,"annotations":{...}` suffix, absent when there are no annotations.
pub open spec fn annotation_suffix(a: Seq<(Seq<u8>, Seq<u8>)>) -> Seq<u8> {
    if a.len() == 0 {
        Seq::empty()
    } else {
        ",\"annotations\":{".spec_bytes() + annotation_list(a) + "}".spec_bytes()
    }
}

/// The exact JSON rendering of a descriptor:
/// `{"mediaType":M,"digest":D,"size":N}` with the annotation object
/// appended before the closing brace when present.
pub open spec fn json_of_descriptor(d: DescriptorModel) -> Seq<u8> {
    "{\"mediaType\":".spec_bytes() + json_string(d.media_type) + ",\"digest\":".spec_bytes()
        + json_string(d.digest) + ",\"size\":".spec_bytes() + dec_bytes(d.size) + annotation_suffix(
        d.annotations,
    ) + "}".spec_bytes()
}

/// Appends the JSON rendering of `d` to `out`.
pub fn push_descriptor_json(out: &mut Vec<u8>, d: &Descriptor)
    ensures
        final(out)@ == old(out)@ + json_of_descriptor(d@),
{
    let ghost orig = out@;
    push_lit(out, "{\"mediaType\":");
    push_json_string(out, &d.media_type);
    push_lit(out, ",\"digest\":");
    push_json_string(out, &d.digest);
    push_lit(out, ",\"size\":");
    push_dec(out, d.size);
    let ghost before_annotations = out@;
    if d.annotations.len() > 0 {
        push_lit(out, ",\"annotations\":{");
        let ghost pairs = d@.annotations;
        let ghost base = out@;
        let mut i: usize = 0;
        while i < d.annotations.len()
            invariant
                i <= d.annotations.len(),
                pairs == d@.annotations,
                pairs.len() == d.annotations.len(),
                out@ == base + annotation_list(pairs.take(i as int)),
            decreases d.annotations.len() - i,
        {
            if i > 0 {
                push_lit(out, ",");
            }
            push_json_string(out, &d.annotations[i].0);
            push_lit(out, ":");
            push_json_string(out, &d.annotations[i].1);
            proof {
                let cur = pairs.take(i + 1 as int);
                assert(cur.drop_last() =~= pairs.take(i as int));
                assert(cur.last() == pairs[i as int]);
                assert(pairs[i as int] == (d.annotations@[i as int].0@, d.annotations@[i as int].1@));
                if i == 0 {
                    assert(out@ =~= base + annotation_list(cur));
                } else {
                    assert(out@ =~= base + annotation_list(cur));
                }
            }
            i = i + 1;
        }
        push_lit(out, "}");
        proof {
            assert(pairs.take(pairs.len() as int) =~= pairs);
            assert(out@ =~= before_annotations + annotation_suffix(d@.annotations));
        }
    } else {
        proof {
            assert(out@ =~= before_annotations + annotation_suffix(d@.annotations));
        }
    }
    push_lit(out, "}");
    proof {
        assert(out@ =~= orig + json_of_descriptor(d@));
    }
}

} // verus!
