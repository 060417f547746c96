//! The image manifest tying a config blob to its content layers, the
//! top-level index cataloguing manifests, and their exact JSON forms.

use vstd::prelude::*;
use vstd::string::StringSliceAdditionalSpecFns;

use crate::descriptor::json_of_descriptor;
use crate::descriptor::push_descriptor_json;
use crate::descriptor::Descriptor;
use crate::descriptor::DescriptorModel;
use crate::json::push_lit;

verus! {

/// The views of a sequence of descriptors.
pub open spec fn descriptors_model(s: Seq<Descriptor>) -> Seq<DescriptorModel> {
    s.map(|i: int, d: Descriptor| d@)
}

/// Comma-separated JSON renderings of descriptors, in order.
pub open spec fn descriptor_list(s: Seq<DescriptorModel>) -> Seq<u8>
    decreases s.len(),
{
    if s.len() == 0 {
        Seq::empty()
    } else if s.len() == 1 {
        json_of_descriptor(s[0])
    } else {
        descriptor_list(s.drop_last()) + ",".spec_bytes() + json_of_descriptor(s.last())
    }
}

/// Appends the comma-separated JSON renderings of `ds` to `out`.
pub fn push_descriptor_list(out: &mut Vec<u8>, ds: &Vec<Descriptor>)
    ensures
        final(out)@ == old(out)@ + descriptor_list(descriptors_model(ds@)),
{
    let ghost models = descriptors_model(ds@);
    let ghost base = out@;
    proof {
        assert(out@ =~= base + descriptor_list(models.take(0)));
    }
    let mut i: usize = 0;
    while i < ds.len()
        invariant
            i <= ds.len(),
            models == descriptors_model(ds@),
            models.len() == ds.len(),
            out@ == base + descriptor_list(models.take(i as int)),
        decreases ds.len() - i,
    {
        if i > 0 {
            push_lit(out, ",");
        }
        push_descriptor_json(out, &ds[i]);
        proof {
            let cur = models.take(i + 1 as int);
            assert(cur.drop_last() =~= models.take(i as int));
            assert(cur.last() == models[i as int]);
            assert(models[i as int] == ds@[i as int]@);
            assert(out@ =~= base + descriptor_list(cur));
        }
        i = i + 1;
    }
    proof {
        assert(models.take(models.len() as int) =~= models);
    }
}

/// The mathematical content of a manifest: one config descriptor and the
/// ordered content layers.
pub ghost struct ManifestModel {
    pub config: DescriptorModel,
    pub layers: Seq<DescriptorModel>,
}

/// An image manifest: schema version 2, the manifest media type, exactly
/// one config descriptor, and an ordered list of layer descriptors.
pub struct Manifest {
    pub config: Descriptor,
    pub layers: Vec<Descriptor>,
}

impl View for Manifest {
    type V = ManifestModel;

    open spec fn view(&self) -> ManifestModel {
        ManifestModel { config: self.config@, layers: descriptors_model(self.layers@) }
    }
}

/// The exact JSON rendering of a manifest.
pub open spec fn json_of_manifest(m: ManifestModel) -> Seq<u8> {
    "{\"schemaVersion\":2,\"mediaType\":\"application/vnd.oci.image.manifest.v1+json\",\"config\":".spec_bytes()
        + json_of_descriptor(m.config) + ",\"layers\":[".spec_bytes() + descriptor_list(m.layers)
        + "]}".spec_bytes()
}

/// The exact JSON rendering of the top-level index holding `manifests`.
pub open spec fn json_of_index(manifests: Seq<DescriptorModel>) -> Seq<u8> {
    "{\"schemaVersion\":2,\"manifests\":[".spec_bytes() + descriptor_list(manifests)
        + "]}".spec_bytes()
}

impl Manifest {
    /// Serializes the manifest to its exact JSON bytes.
    pub fn to_json(&self) -> (r: Vec<u8>)
        ensures
            r@ == json_of_manifest(self@),
    {
        let mut out: Vec<u8> = Vec::new();
        push_lit(
            &mut out,
            "{\"schemaVersion\":2,\"mediaType\":\"application/vnd.oci.image.manifest.v1+json\",\"config\":",
        );
        push_descriptor_json(&mut out, &self.config);
        push_lit(&mut out, ",\"layers\":[");
        push_descriptor_list(&mut out, &self.layers);
        push_lit(&mut out, "]}");
        proof {
            assert(out@ =~= json_of_manifest(self@));
        }
        out
    }
}

/// Serializes the top-level index holding `manifests` to its exact JSON
/// bytes.
pub fn index_json(manifests: &Vec<Descriptor>) -> (r: Vec<u8>)
    ensures
        r@ == json_of_index(descriptors_model(manifests@)),
{
    let mut out: Vec<u8> = Vec::new();
    push_lit(&mut out, "{\"schemaVersion\":2,\"manifests\":[");
    push_descriptor_list(&mut out, manifests);
    push_lit(&mut out, "]}");
    proof {
        assert(out@ =~= json_of_index(descriptors_model(manifests@)));
    }
    out
}

} // verus!
