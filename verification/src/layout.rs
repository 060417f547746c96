//! The in-memory image layout: a content-addressed blob store and the
//! top-level index, together with the exact files a layout directory holds.
//!
//! The layout owns no file handles; it computes what must stand on disk.
//! Callers create the directory skeleton, stream the listed files out, and
//! never see a valid-looking layout whose index precedes its blobs: the
//! index file is always the last entry of the listing.

use vstd::prelude::*;
use vstd::string::StringSliceAdditionalSpecFns;
use vstd::string::StrSliceExecFns;

use crate::descriptor::config_media_type;
use crate::descriptor::config_media_type_bytes;
use crate::descriptor::layer_media_type;
use crate::descriptor::layer_media_type_bytes;
use crate::descriptor::manifest_media_type;
use crate::descriptor::manifest_media_type_bytes;
use crate::descriptor::ref_name_key;
use crate::descriptor::ref_name_key_bytes;
use crate::descriptor::Descriptor;
use crate::descriptor::DescriptorModel;
use crate::digest::digest_string;
use crate::digest::sha256_of;
use crate::digest::Sha256Writer;
use crate::hex::bytes_eq;
use crate::hex::copy_bytes;
use crate::hex::hex_bytes;
use crate::hex::push_all;
use crate::json::push_lit;
use crate::manifest::descriptors_model;
use crate::manifest::index_json;
use crate::manifest::json_of_index;
use crate::manifest::json_of_manifest;
use crate::manifest::Manifest;
use crate::manifest::ManifestModel;

verus! {

/// The storage key of a blob: the lowercase hex of its own digest.
pub open spec fn blob_key(data: Seq<u8>) -> Seq<u8> {
    hex_bytes(sha256_of(data))
}

/// Whether the store holds a blob filed under `key`.
pub open spec fn store_has(blobs: Seq<(Seq<u8>, Seq<u8>)>, key: Seq<u8>) -> bool {
    exists|i: int| 0 <= i < blobs.len() && blobs[i].0 == key
}

/// Whether the store holds exactly `data` filed under `key`.
pub open spec fn store_contains(blobs: Seq<(Seq<u8>, Seq<u8>)>, key: Seq<u8>, data: Seq<u8>) -> bool {
    exists|i: int| 0 <= i < blobs.len() && blobs[i].0 == key && blobs[i].1 == data
}

/// Writing a blob: a no-op when its key is already filed (write-once
/// content addressing), otherwise the new pair is appended.
pub open spec fn store_write(blobs: Seq<(Seq<u8>, Seq<u8>)>, data: Seq<u8>) -> Seq<
    (Seq<u8>, Seq<u8>),
> {
    if store_has(blobs, blob_key(data)) {
        blobs
    } else {
        blobs.push((blob_key(data), data))
    }
}

/// The descriptor the store returns for a blob: digest and size derived
/// from the bytes themselves, no annotations.
pub open spec fn descriptor_for(data: Seq<u8>, media_type: Seq<u8>) -> DescriptorModel {
    DescriptorModel {
        media_type: media_type,
        digest: digest_string(data),
        size: data.len(),
        annotations: Seq::empty(),
    }
}

/// One stored blob: the hex key it is filed under, and its bytes.
pub struct BlobEntry {
    pub digest: Vec<u8>,
    pub data: Vec<u8>,
}

impl View for BlobEntry {
    type V = (Seq<u8>, Seq<u8>);

    open spec fn view(&self) -> (Seq<u8>, Seq<u8>) {
        (self.digest@, self.data@)
    }
}

/// One file of the on-disk layout: its path relative to the layout root,
/// and its exact contents.
pub struct LayoutFile {
    pub path: Vec<u8>,
    pub data: Vec<u8>,
}

impl View for LayoutFile {
    type V = (Seq<u8>, Seq<u8>);

    open spec fn view(&self) -> (Seq<u8>, Seq<u8>) {
        (self.path@, self.data@)
    }
}

/// The mathematical content of a layout: the stored blobs in insertion
/// order, and the index entries in order.
pub ghost struct LayoutModel {
    pub blobs: Seq<(Seq<u8>, Seq<u8>)>,
    pub index: Seq<DescriptorModel>,
}

/// An image layout held in memory: blobs filed under their own digest,
/// and the descriptors of the index.
pub struct Layout {
    pub blobs: Vec<BlobEntry>,
    pub index: Vec<Descriptor>,
}

impl View for Layout {
    type V = LayoutModel;

    open spec fn view(&self) -> LayoutModel {
        LayoutModel {
            blobs: self.blobs@.map(|i: int, b: BlobEntry| b@),
            index: descriptors_model(self.index@),
        }
    }
}

/// The relative path of the blob filed under `key`.
pub open spec fn blob_path(key: Seq<u8>) -> Seq<u8> {
    "blobs/sha256/".spec_bytes() + key
}

/// The relative path of the blob storage directory.
pub open spec fn blob_dir_path() -> Seq<u8> {
    "blobs/sha256".spec_bytes()
}

/// The exact contents of the layout-version marker file.
pub open spec fn oci_layout_bytes() -> Seq<u8> {
    "{\"imageLayoutVersion\":\"1.0.0\"}".spec_bytes()
}

/// The relative path of the layout-version marker file.
pub open spec fn oci_layout_path() -> Seq<u8> {
    "oci-layout".spec_bytes()
}

/// The relative path of the top-level index file.
pub open spec fn index_path() -> Seq<u8> {
    "index.json".spec_bytes()
}

/// The path and contents of the file holding one stored blob.
pub open spec fn blob_file(b: (Seq<u8>, Seq<u8>)) -> (Seq<u8>, Seq<u8>) {
    (blob_path(b.0), b.1)
}

/// Every file of the layout, with its exact contents: the version marker,
/// one file per blob under the blob directory, and the index last, so a
/// write in listing order never leaves an index referencing a missing
/// manifest.
pub open spec fn files_model(m: LayoutModel) -> Seq<(Seq<u8>, Seq<u8>)> {
    seq![(oci_layout_path(), oci_layout_bytes())] + m.blobs.map(
        |i: int, b: (Seq<u8>, Seq<u8>)| blob_file(b),
    ) + seq![(index_path(), json_of_index(m.index))]
}

/// The path/contents pairs of a file listing.
pub open spec fn files_view(s: Seq<LayoutFile>) -> Seq<(Seq<u8>, Seq<u8>)> {
    s.map(|i: int, f: LayoutFile| f@)
}

impl Layout {
    /// A fresh, empty layout: no blobs, no index entries.
    pub fn new() -> (l: Layout)
        ensures
            l@.blobs == Seq::<(Seq<u8>, Seq<u8>)>::empty(),
            l@.index == Seq::<DescriptorModel>::empty(),
    {
        let l = Layout { blobs: Vec::new(), index: Vec::new() };
        proof {
            assert(l@.blobs =~= Seq::<(Seq<u8>, Seq<u8>)>::empty());
            assert(l@.index =~= Seq::<DescriptorModel>::empty());
        }
        l
    }

    /// Streams `data` through the digesting writer, files the result under
    /// its own digest (a no-op if that blob already exists), and returns
    /// the descriptor derived from the bytes actually stored.
    pub fn write_blob(&mut self, data: &[u8], media_type: Vec<u8>) -> (d: Descriptor)
        ensures
            d@ == descriptor_for(data@, media_type@),
            final(self)@.blobs == store_write(old(self)@.blobs, data@),
            final(self)@.index == old(self)@.index,
    {
        let mut w = Sha256Writer::new();
        let _ = w.write(data);
        proof {
            assert(w.written() =~= data@);
        }
        let (hex, stored) = w.finish();

        let mut digest: Vec<u8> = Vec::new();
        push_lit(&mut digest, "sha256:");
        push_all(&mut digest, hex.as_slice());
        proof {
            assert(digest@ =~= digest_string(data@));
        }

        let mut found: bool = false;
        let mut i: usize = 0;
        while i < self.blobs.len()
            invariant
                i <= self.blobs.len(),
                found ==> store_has(self@.blobs, hex@),
                !found ==> forall|j: int| 0 <= j < i ==> self@.blobs[j].0 != hex@,
            decreases self.blobs.len() - i,
        {
            if bytes_eq(&self.blobs[i].digest, &hex) {
                found = true;
                proof {
                    assert(self@.blobs[i as int].0 == hex@);
                }
            }
            i = i + 1;
        }
        if !found {
            let ghost before = self@.blobs;
            self.blobs.push(BlobEntry { digest: hex, data: stored });
            proof {
                assert(!store_has(before, blob_key(data@)));
                assert(self@.blobs =~= store_write(before, data@));
            }
        }

        let d = Descriptor {
            media_type: media_type,
            digest: digest,
            size: data.len() as u64,
            annotations: Vec::new(),
        };
        proof {
            assert(d@.annotations =~= Seq::<(Seq<u8>, Seq<u8>)>::empty());
        }
        d
    }

    /// Publishes one chart: writes the config and content blobs, builds
    /// the manifest referencing exactly those two, stores its JSON as a
    /// blob of its own, and replaces any index entry carrying `tag` with
    /// the new manifest entry, appended last.
    pub fn publish(&mut self, config: &[u8], layer: &[u8], tag: Vec<u8>)
        ensures
            final(self)@.blobs == store_write(
                store_write(store_write(old(self)@.blobs, config@), layer@),
                manifest_bytes_of(config@, layer@),
            ),
            final(self)@.index == drop_tagged(old(self)@.index, tag@).push(
                published_descriptor(config@, layer@, tag@),
            ),
    {
        let config_desc = self.write_blob(config, config_media_type_bytes());
        let layer_desc = self.write_blob(layer, layer_media_type_bytes());

        let mut layers: Vec<Descriptor> = Vec::new();
        layers.push(layer_desc);
        let m = Manifest { config: config_desc, layers: layers };
        proof {
            assert(m@.layers =~= seq![descriptor_for(layer@, layer_media_type())]);
        }
        let manifest_json = m.to_json();
        let mut manifest_desc = self.write_blob(
            manifest_json.as_slice(),
            manifest_media_type_bytes(),
        );
        let tag_lookup = copy_bytes(&tag);
        manifest_desc.annotations.push((ref_name_key_bytes(), tag));
        proof {
            assert(manifest_desc@.annotations =~= seq![(ref_name_key(), tag@)]);
            assert(manifest_desc@ == published_descriptor(config@, layer@, tag@));
        }

        let ghost orig_index = self@.index;
        let ghost blobs_now = self@.blobs;
        let mut kept: Vec<Descriptor> = Vec::new();
        while self.index.len() > 0
            invariant
                tag_lookup@ == tag@,
                self@.blobs == blobs_now,
                descriptors_model(kept@) + drop_tagged(self@.index, tag@) =~= drop_tagged(
                    orig_index,
                    tag@,
                ),
            decreases self.index.len(),
        {
            let ghost pre = self@.index;
            let entry = self.index.remove(0);
            proof {
                assert(descriptors_model(self.index@) =~= pre.drop_first());
                assert(entry@ == pre[0]);
            }
            if !descriptor_has_tag(&entry, &tag_lookup) {
                let ghost kept_pre = descriptors_model(kept@);
                kept.push(entry);
                proof {
                    assert(descriptors_model(kept@) =~= kept_pre.push(entry@));
                    assert(descriptors_model(kept@) + drop_tagged(self@.index, tag@) =~= kept_pre
                        + (seq![pre[0]] + drop_tagged(pre.drop_first(), tag@)));
                }
            }
        }
        proof {
            assert(drop_tagged(Seq::<DescriptorModel>::empty(), tag@) =~= Seq::<
                DescriptorModel,
            >::empty());
            assert(descriptors_model(kept@) =~= drop_tagged(orig_index, tag@));
        }
        let ghost kept_model = descriptors_model(kept@);
        kept.push(manifest_desc);
        self.index = kept;
        proof {
            assert(self@.index =~= kept_model.push(published_descriptor(config@, layer@, tag@)));
        }
    }

    /// Every file of the layout, paths relative to the root: the version
    /// marker first, one file per blob, and the index last.
    pub fn files(&self) -> (out: Vec<LayoutFile>)
        ensures
            files_view(out@) == files_model(self@),
    {
        let mut out: Vec<LayoutFile> = Vec::new();
        out.push(
            LayoutFile {
                path: "oci-layout".as_bytes_vec(),
                data: "{\"imageLayoutVersion\":\"1.0.0\"}".as_bytes_vec(),
            },
        );
        let ghost header = seq![(oci_layout_path(), oci_layout_bytes())];
        let ghost blob_files = self@.blobs.map(|k: int, b: (Seq<u8>, Seq<u8>)| blob_file(b));
        proof {
            assert(files_view(out@) =~= header + blob_files.take(0));
        }
        let mut i: usize = 0;
        while i < self.blobs.len()
            invariant
                i <= self.blobs.len(),
                blob_files == self@.blobs.map(|k: int, b: (Seq<u8>, Seq<u8>)| blob_file(b)),
                blob_files.len() == self.blobs.len(),
                files_view(out@) == header + blob_files.take(i as int),
            decreases self.blobs.len() - i,
        {
            let mut path: Vec<u8> = Vec::new();
            push_lit(&mut path, "blobs/sha256/");
            push_all(&mut path, self.blobs[i].digest.as_slice());
            let data = copy_bytes(&self.blobs[i].data);
            let ghost pre = out@;
            out.push(LayoutFile { path: path, data: data });
            proof {
                let b = self@.blobs[i as int];
                assert(path@ =~= blob_path(b.0));
                assert(data@ == b.1);
                assert(blob_files[i as int] == blob_file(b));
                assert(out@ =~= pre.push(out@.last()));
                assert(files_view(out@) =~= files_view(pre).push(out@.last()@));
                assert(out@.last()@ == blob_files[i as int]);
                assert(files_view(out@) =~= header + blob_files.take(i + 1 as int));
            }
            i = i + 1;
        }
        let index_data = index_json(&self.index);
        let ghost pre = out@;
        out.push(LayoutFile { path: "index.json".as_bytes_vec(), data: index_data });
        proof {
            assert(blob_files.take(blob_files.len() as int) =~= blob_files);
            assert(files_view(out@) =~= files_view(pre).push(out@.last()@));
            assert(files_view(out@) =~= files_model(self@));
        }
        out
    }
}

/// A layout-state failure: the destination directory cannot be used.
#[derive(Clone, Copy, Debug, PartialEq, Eq, Structural)]
pub enum LayoutError {
    /// The layout root exists and is not empty; a foreign directory is
    /// never reused.
    DirectoryNotEmpty,
}

/// What a fresh layout root must hold: whether the root directory is
/// still to be created, the blob subdirectory, and the initial files
/// (the version marker and an index with an empty manifest list).
pub struct InitPlan {
    pub create_root: bool,
    pub blob_dir: Vec<u8>,
    pub files: Vec<LayoutFile>,
}

/// The model of a layout that holds nothing yet.
pub open spec fn empty_layout() -> LayoutModel {
    LayoutModel { blobs: Seq::empty(), index: Seq::empty() }
}

/// Decides how to initialize a layout root from what is observed of it.
/// A missing root is created and initialized; an existing empty root is
/// initialized in place; an existing non-empty root is refused outright,
/// leaving nothing to write.
pub fn plan_layout_init(root_exists: bool, root_empty: bool) -> (r: Result<InitPlan, LayoutError>)
    ensures
        r is Err <==> root_exists && !root_empty,
        (match r {
            Ok(plan) => plan.create_root == !root_exists && plan.blob_dir@ == blob_dir_path()
                && files_view(plan.files@) == files_model(empty_layout()),
            Err(e) => e == LayoutError::DirectoryNotEmpty,
        }),
{
    if root_exists && !root_empty {
        return Err(LayoutError::DirectoryNotEmpty);
    }
    let l = Layout::new();
    let files = l.files();
    proof {
        assert(l@ == empty_layout());
    }
    Ok(InitPlan { create_root: !root_exists, blob_dir: "blobs/sha256".as_bytes_vec(), files: files })
}

/// Converts one packaged chart held in memory: starts from an empty
/// layout and publishes the config blob, the content layer and the
/// manifest under `tag`.
pub fn convert(config: &[u8], layer: &[u8], tag: Vec<u8>) -> (l: Layout)
    ensures
        l@.blobs == store_write(
            store_write(store_write(Seq::empty(), config@), layer@),
            manifest_bytes_of(config@, layer@),
        ),
        l@.index == seq![published_descriptor(config@, layer@, tag@)],
{
    let mut l = Layout::new();
    l.publish(config, layer, tag);
    proof {
        assert(drop_tagged(Seq::<DescriptorModel>::empty(), tag@) =~= Seq::<
            DescriptorModel,
        >::empty());
        assert(l@.index =~= seq![published_descriptor(config@, layer@, tag@)]);
    }
    l
}

/// Content addressing is write-once and idempotent: once a blob is filed
/// under its digest, writing the same bytes again changes nothing, so
/// both writes leave the same file content in the store, and both return
/// the same digest, `descriptor_for` being a function of the bytes.
pub proof fn lemma_store_write_idempotent(blobs: Seq<(Seq<u8>, Seq<u8>)>, data: Seq<u8>)
    ensures
        store_write(store_write(blobs, data), data) == store_write(blobs, data),
{
    let key = blob_key(data);
    if !store_has(blobs, key) {
        let written = blobs.push((key, data));
        assert(written[blobs.len() as int].0 == key);
        assert(store_has(written, key));
    }
}

/// A blob write never erases what the store already holds: every pair
/// filed before is still filed afterwards, under the same key with the
/// same content.
pub proof fn lemma_store_write_preserves(
    blobs: Seq<(Seq<u8>, Seq<u8>)>,
    data: Seq<u8>,
    key: Seq<u8>,
    content: Seq<u8>,
)
    requires
        store_contains(blobs, key, content),
    ensures
        store_contains(store_write(blobs, data), key, content),
{
    if !store_has(blobs, blob_key(data)) {
        let i = choose|i: int|
            0 <= i < blobs.len() && blobs[i].0 == key && blobs[i].1 == content;
        assert(store_write(blobs, data)[i].0 == key);
    }
}

/// Round trip from the index to the manifest blob: after a publish, the
/// last index entry's digest is exactly the digest string of the
/// manifest's own serialized bytes, and the store files those bytes
/// under that digest's hex, so recomputing the digest of the stored
/// manifest blob reproduces the index entry's digest.
pub proof fn lemma_publish_round_trip(
    blobs: Seq<(Seq<u8>, Seq<u8>)>,
    index: Seq<DescriptorModel>,
    config: Seq<u8>,
    layer: Seq<u8>,
    tag: Seq<u8>,
)
    ensures
        ({
            let new_blobs = store_write(
                store_write(store_write(blobs, config), layer),
                manifest_bytes_of(config, layer),
            );
            let new_index = drop_tagged(index, tag).push(published_descriptor(config, layer, tag));
            let manifest = manifest_bytes_of(config, layer);
            new_index.last().digest == digest_string(manifest) && store_has(
                new_blobs,
                blob_key(manifest),
            )
        }),
{
    let manifest = manifest_bytes_of(config, layer);
    let mid = store_write(store_write(blobs, config), layer);
    if !store_has(mid, blob_key(manifest)) {
        let written = mid.push((blob_key(manifest), manifest));
        assert(written[mid.len() as int].0 == blob_key(manifest));
    }
}

/// Whether a descriptor carries the reference-name annotation with
/// exactly this tag.
pub open spec fn has_ref_tag(d: DescriptorModel, tag: Seq<u8>) -> bool {
    exists|i: int|
        0 <= i < d.annotations.len() && d.annotations[i].0 == ref_name_key()
            && d.annotations[i].1 == tag
}

/// The index entries that do not carry `tag`, in order: publishing under a
/// tag replaces any earlier entry of the same tag.
pub open spec fn drop_tagged(index: Seq<DescriptorModel>, tag: Seq<u8>) -> Seq<DescriptorModel>
    decreases index.len(),
{
    if index.len() == 0 {
        Seq::empty()
    } else if has_ref_tag(index[0], tag) {
        drop_tagged(index.drop_first(), tag)
    } else {
        seq![index[0]] + drop_tagged(index.drop_first(), tag)
    }
}

/// Whether `d` carries the reference-name annotation with value `tag`.
fn descriptor_has_tag(d: &Descriptor, tag: &Vec<u8>) -> (r: bool)
    ensures
        r == has_ref_tag(d@, tag@),
{
    let key = ref_name_key_bytes();
    let mut i: usize = 0;
    while i < d.annotations.len()
        invariant
            i <= d.annotations.len(),
            key@ == ref_name_key(),
            forall|j: int|
                0 <= j < i ==> !(d@.annotations[j].0 == ref_name_key() && d@.annotations[j].1
                    == tag@),
        decreases d.annotations.len() - i,
    {
        if bytes_eq(&d.annotations[i].0, &key) && bytes_eq(&d.annotations[i].1, tag) {
            proof {
                assert(d@.annotations[i as int].0 == ref_name_key() && d@.annotations[i as int].1
                    == tag@);
            }
            return true;
        }
        i = i + 1;
    }
    false
}

/// The manifest a publish builds: the config descriptor and the single
/// content layer descriptor, each derived from its blob's bytes.
pub open spec fn manifest_model_of(config: Seq<u8>, layer: Seq<u8>) -> ManifestModel {
    ManifestModel {
        config: descriptor_for(config, config_media_type()),
        layers: seq![descriptor_for(layer, layer_media_type())],
    }
}

/// The exact bytes of the manifest blob a publish stores.
pub open spec fn manifest_bytes_of(config: Seq<u8>, layer: Seq<u8>) -> Seq<u8> {
    json_of_manifest(manifest_model_of(config, layer))
}

/// The index entry a publish appends: the manifest blob's own descriptor,
/// annotated with the reference tag.
pub open spec fn published_descriptor(config: Seq<u8>, layer: Seq<u8>, tag: Seq<u8>) -> DescriptorModel {
    DescriptorModel {
        media_type: manifest_media_type(),
        digest: digest_string(manifest_bytes_of(config, layer)),
        size: manifest_bytes_of(config, layer).len(),
        annotations: seq![(ref_name_key(), tag)],
    }
}

} // verus!

