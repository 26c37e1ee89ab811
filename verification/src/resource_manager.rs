//! The resource manager interface the renderer consumes: the set of
//! currently loaded textures as decoded pixel buffers, each either still
//! CPU-side (`gpu_tex` unset) or already claimed by the renderer
//! (`gpu_tex` holds the backend texture id).
use vstd::prelude::*;

use crate::backend::TextureRecord;
use crate::gpu_texture::GpuTextureKind;
use crate::gpu_texture::PixelKind;
use crate::gpu_texture::spec_texture_data_valid;

verus! {

/// Decoded pixel layout of a loaded texture resource.
#[derive(Clone, Copy, PartialEq, Eq, Structural, Debug)]
pub enum TextureResourceKind {
    Grayscale,
    RGB,
    RGBA,
}

impl TextureResourceKind {
    /// The backend pixel format this resource uploads as.
    pub open spec fn spec_pixel_kind(self) -> PixelKind {
        match self {
            TextureResourceKind::Grayscale => PixelKind::R8,
            TextureResourceKind::RGB => PixelKind::RGB8,
            TextureResourceKind::RGBA => PixelKind::RGBA8,
        }
    }

    pub fn pixel_kind(self) -> (p: PixelKind)
        ensures
            p == self.spec_pixel_kind(),
    {
        match self {
            TextureResourceKind::Grayscale => PixelKind::R8,
            TextureResourceKind::RGB => PixelKind::RGB8,
            TextureResourceKind::RGBA => PixelKind::RGBA8,
        }
    }
}

/// One loaded texture: decoded bytes plus, once the renderer has claimed
/// it, the GPU-side texture id.
#[derive(Clone, PartialEq, Eq, Debug)]
pub struct TextureResource {
    pub width: u32,
    pub height: u32,
    pub kind: TextureResourceKind,
    pub bytes: Vec<u8>,
    pub gpu_tex: Option<u64>,
}

/// The set of currently loaded textures.
#[derive(Clone, Debug)]
pub struct ResourceManager {
    pub textures: Vec<TextureResource>,
}

impl ResourceManager {
    pub fn new() -> (rm: ResourceManager)
        ensures
            rm.textures@.len() == 0,
    {
        ResourceManager { textures: Vec::new() }
    }
}

/// The resource's dimensions and byte buffer form a texture the backend
/// accepts.
pub open spec fn spec_texture_resource_valid(t: TextureResource) -> bool {
    spec_texture_data_valid(
        GpuTextureKind::Rectangle { width: t.width, height: t.height },
        t.kind.spec_pixel_kind(),
        t.bytes@.len() as int,
    )
}

/// How many resources are not yet GPU-resident: exactly the uploads one
/// `upload_resources` call performs.
pub open spec fn spec_uploads_needed(ts: Seq<TextureResource>) -> int
    decreases ts.len(),
{
    if ts.len() == 0 {
        0
    } else {
        spec_uploads_needed(ts.drop_last()) + (if ts.last().gpu_tex is None {
            1int
        } else {
            0int
        })
    }
}

/// The backend record an uploaded resource is allocated as: mipmapped,
/// maximum anisotropy.
pub open spec fn spec_resource_record(t: TextureResource, id: u64) -> TextureRecord {
    TextureRecord {
        id,
        kind: GpuTextureKind::Rectangle { width: t.width, height: t.height },
        pixel_kind: t.kind.spec_pixel_kind(),
        mipmaps: true,
        max_anisotropy: true,
    }
}

/// The resource list after one `upload_resources` call starting from the
/// given id counter: not-yet-resident resources are claimed with fresh
/// consecutive ids, already-resident ones are untouched.
pub open spec fn spec_upload_result(ts: Seq<TextureResource>, next_id: u64) -> Seq<TextureResource>
    decreases ts.len(),
{
    if ts.len() == 0 {
        Seq::empty()
    } else {
        let prefix = spec_upload_result(ts.drop_last(), next_id);
        let last = ts.last();
        if last.gpu_tex is None {
            prefix.push(
                TextureResource {
                    gpu_tex: Some(
                        (next_id + spec_uploads_needed(ts.drop_last())) as u64,
                    ),
                    ..last
                },
            )
        } else {
            prefix.push(last)
        }
    }
}

/// The backend records one `upload_resources` call appends, in order.
pub open spec fn spec_uploaded_records(
    ts: Seq<TextureResource>,
    next_id: u64,
) -> Seq<TextureRecord>
    decreases ts.len(),
{
    if ts.len() == 0 {
        Seq::empty()
    } else {
        let prefix = spec_uploaded_records(ts.drop_last(), next_id);
        let last = ts.last();
        if last.gpu_tex is None {
            prefix.push(
                spec_resource_record(last, (next_id + spec_uploads_needed(ts.drop_last())) as u64),
            )
        } else {
            prefix
        }
    }
}

/// The upload count is between zero and the number of resources.
pub proof fn lemma_uploads_needed_bounds(ts: Seq<TextureResource>)
    ensures
        0 <= spec_uploads_needed(ts) <= ts.len(),
    decreases ts.len(),
{
    if ts.len() > 0 {
        lemma_uploads_needed_bounds(ts.drop_last());
    }
}

/// A resource list with nothing left to upload passes through an upload
/// unchanged, and the upload allocates nothing.
pub proof fn lemma_upload_of_resident_is_noop(ts: Seq<TextureResource>, next_id: u64)
    requires
        spec_uploads_needed(ts) == 0,
    ensures
        spec_upload_result(ts, next_id) == ts,
        spec_uploaded_records(ts, next_id) == Seq::<TextureRecord>::empty(),
    decreases ts.len(),
{
    if ts.len() > 0 {
        lemma_uploads_needed_bounds(ts.drop_last());
        lemma_upload_of_resident_is_noop(ts.drop_last(), next_id);
        assert(ts.drop_last().push(ts.last()) =~= ts);
    }
}

/// After one upload every resource is resident.
pub proof fn lemma_upload_result_resident(ts: Seq<TextureResource>, next_id: u64)
    ensures
        spec_upload_result(ts, next_id).len() == ts.len(),
        spec_uploads_needed(spec_upload_result(ts, next_id)) == 0,
    decreases ts.len(),
{
    if ts.len() > 0 {
        lemma_upload_result_resident(ts.drop_last(), next_id);
        let result = spec_upload_result(ts, next_id);
        assert(result.drop_last() =~= spec_upload_result(ts.drop_last(), next_id));
        assert(result.last().gpu_tex is Some);
    }
}

/// Uploading is idempotent: a second call with no new textures added
/// changes nothing and performs zero additional uploads.
pub proof fn lemma_upload_idempotent(ts: Seq<TextureResource>, first_id: u64, second_id: u64)
    ensures
        spec_upload_result(spec_upload_result(ts, first_id), second_id) == spec_upload_result(
            ts,
            first_id,
        ),
        spec_uploaded_records(spec_upload_result(ts, first_id), second_id)
            == Seq::<TextureRecord>::empty(),
{
    lemma_upload_result_resident(ts, first_id);
    lemma_upload_of_resident_is_noop(spec_upload_result(ts, first_id), second_id);
}

} // verus!
