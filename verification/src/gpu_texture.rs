//! GPU texture resources: pixel formats, texture kinds, and a wrapper that
//! owns one backend-side texture object. Creation validates the format/size
//! combination; uploads require the same dimensions the texture was created
//! with; anisotropic filtering is opt-in per texture.
use vstd::prelude::*;

use crate::backend::Backend;
use crate::backend::spec_created_texture;
use crate::backend::spec_released_texture;
use crate::backend::spec_set_max_anisotropy;
use crate::backend::spec_texture_alive;
use crate::error::RendererError;

verus! {

/// Pixel storage format of a texture.
#[derive(Clone, Copy, PartialEq, Eq, Structural, Debug)]
pub enum PixelKind {
    R8,
    RGB8,
    RGBA8,
    /// 24-bit depth, padded to four bytes per texel.
    D24,
}

impl PixelKind {
    pub open spec fn spec_bytes_per_pixel(self) -> int {
        match self {
            PixelKind::R8 => 1,
            PixelKind::RGB8 => 3,
            PixelKind::RGBA8 => 4,
            PixelKind::D24 => 4,
        }
    }

    pub fn bytes_per_pixel(self) -> (n: u32)
        ensures
            n as int == self.spec_bytes_per_pixel(),
            n <= 4,
    {
        match self {
            PixelKind::R8 => 1,
            PixelKind::RGB8 => 3,
            PixelKind::RGBA8 => 4,
            PixelKind::D24 => 4,
        }
    }
}

/// Shape of a texture object.
#[derive(Clone, Copy, PartialEq, Eq, Structural, Debug)]
pub enum GpuTextureKind {
    Line { length: u32 },
    Rectangle { width: u32, height: u32 },
    Cube { width: u32, height: u32 },
}

impl GpuTextureKind {
    /// Number of texels a full upload must provide.
    pub open spec fn spec_texel_count(self) -> int {
        match self {
            GpuTextureKind::Line { length } => length as int,
            GpuTextureKind::Rectangle { width, height } => (width as int) * (height as int),
            GpuTextureKind::Cube { width, height } => 6 * ((width as int) * (height as int)),
        }
    }

    /// Number of texels, computed without overflow.
    pub fn texel_count(self) -> (n: u128)
        ensures
            n as int == self.spec_texel_count(),
            n <= 6 * 0xffff_ffff * 0xffff_ffff,
    {
        match self {
            GpuTextureKind::Line { length } => length as u128,
            GpuTextureKind::Rectangle { width, height } => {
                let w = width as u128;
                let h = height as u128;
                proof {
                    assert(w * h <= 0xffff_ffff * 0xffff_ffff) by (nonlinear_arith)
                        requires
                            w <= 0xffff_ffff,
                            h <= 0xffff_ffff,
                    ;
                }
                w * h
            },
            GpuTextureKind::Cube { width, height } => {
                let w = width as u128;
                let h = height as u128;
                proof {
                    assert(w * h <= 0xffff_ffff * 0xffff_ffff) by (nonlinear_arith)
                        requires
                            w <= 0xffff_ffff,
                            h <= 0xffff_ffff,
                    ;
                }
                6 * (w * h)
            },
        }
    }

    /// The backend rejects degenerate (zero-sized) textures.
    pub open spec fn spec_is_positive(self) -> bool {
        match self {
            GpuTextureKind::Line { length } => length > 0,
            GpuTextureKind::Rectangle { width, height } => width > 0 && height > 0,
            GpuTextureKind::Cube { width, height } => width > 0 && height > 0,
        }
    }

    /// Width and height as reported for an allocated texture.
    pub open spec fn spec_dimensions(self) -> (u32, u32) {
        match self {
            GpuTextureKind::Line { length } => (length, 1u32),
            GpuTextureKind::Rectangle { width, height } => (width, height),
            GpuTextureKind::Cube { width, height } => (width, height),
        }
    }
}

/// Exact byte length of a full upload for the given shape and format.
pub open spec fn spec_texture_bytes(kind: GpuTextureKind, pixel_kind: PixelKind) -> int {
    kind.spec_texel_count() * pixel_kind.spec_bytes_per_pixel()
}

/// A format/size combination the backend accepts, together with a data
/// buffer of exactly the right length.
pub open spec fn spec_texture_data_valid(
    kind: GpuTextureKind,
    pixel_kind: PixelKind,
    n_bytes: int,
) -> bool {
    kind.spec_is_positive() && n_bytes == spec_texture_bytes(kind, pixel_kind)
}

/// Exact byte length of a full upload, computed without overflow.
pub fn texture_bytes(kind: GpuTextureKind, pixel_kind: PixelKind) -> (n: u128)
    ensures
        n as int == spec_texture_bytes(kind, pixel_kind),
{
    let texels = kind.texel_count();
    let bpp = pixel_kind.bytes_per_pixel() as u128;
    proof {
        assert(texels * bpp <= 24 * 0xffff_ffff * 0xffff_ffff) by (nonlinear_arith)
            requires
                texels <= 6 * 0xffff_ffff * 0xffff_ffff,
                bpp <= 4,
        ;
    }
    texels * bpp
}

/// Owner of one backend texture object; `data` remembers, at the
/// specification level, the texel bytes the texture was created from.
#[derive(Clone, Copy)]
pub struct GpuTexture {
    pub id: u64,
    pub kind: GpuTextureKind,
    pub pixel_kind: PixelKind,
    pub data: Ghost<Seq<u8>>,
}

impl GpuTexture {
    /// Allocates a texture and uploads `bytes` into it. Fails with
    /// `ResourceCreation` exactly when the backend rejects the format/size
    /// combination. Binds the new texture in backend-global state: callers
    /// must not assume prior bindings survive.
    pub fn new(
        backend: &mut Backend,
        kind: GpuTextureKind,
        pixel_kind: PixelKind,
        bytes: &Vec<u8>,
        generate_mipmaps: bool,
    ) -> (r: Result<GpuTexture, RendererError>)
        requires
            old(backend).inv(),
            old(backend)@.next_id < u64::MAX,
        ensures
            final(backend).inv(),
            (r is Ok) <==> spec_texture_data_valid(kind, pixel_kind, bytes@.len() as int),
            r matches Ok(t) ==> {
                &&& t.id == old(backend)@.next_id
                &&& t.kind == kind
                &&& t.pixel_kind == pixel_kind
                &&& t.data@ == bytes@
                &&& spec_created_texture(
                    old(backend)@,
                    final(backend)@,
                    t.id,
                    kind,
                    pixel_kind,
                    generate_mipmaps,
                )
            },
            r is Err ==> {
                &&& final(backend)@ == old(backend)@
                &&& r == Err::<GpuTexture, RendererError>(RendererError::ResourceCreation {
                    kind,
                    pixel_kind,
                    actual_bytes: bytes@.len() as usize,
                })
            },
    {
        match backend.create_texture(kind, pixel_kind, bytes, generate_mipmaps) {
            Ok(id) => Ok(GpuTexture { id, kind, pixel_kind, data: Ghost(bytes@) }),
            Err(e) => Err(e),
        }
    }

    /// Replaces the texture's contents in place; the data must match the
    /// dimensions the texture was created with, otherwise this is an error
    /// and nothing changes. Rebinds the texture in backend-global state.
    pub fn upload(&self, backend: &mut Backend, bytes: &Vec<u8>) -> (r: Result<(), RendererError>)
        requires
            old(backend).inv(),
            spec_texture_alive(old(backend)@.textures, self.id),
        ensures
            final(backend).inv(),
            (r is Ok) <==> spec_texture_data_valid(self.kind, self.pixel_kind, bytes@.len() as int),
            r is Ok ==> final(backend)@ == old(backend)@.with_bound_texture(Some(self.id)),
            r is Err ==> {
                &&& final(backend)@ == old(backend)@
                &&& r == Err::<(), RendererError>(RendererError::ResourceCreation {
                    kind: self.kind,
                    pixel_kind: self.pixel_kind,
                    actual_bytes: bytes@.len() as usize,
                })
            },
    {
        let expected = texture_bytes(self.kind, self.pixel_kind);
        let positive = match self.kind {
            GpuTextureKind::Line { length } => length > 0,
            GpuTextureKind::Rectangle { width, height } => width > 0 && height > 0,
            GpuTextureKind::Cube { width, height } => width > 0 && height > 0,
        };
        if positive && (bytes.len() as u128) == expected {
            backend.bind_texture(self.id);
            Ok(())
        } else {
            Err(RendererError::ResourceCreation {
                kind: self.kind,
                pixel_kind: self.pixel_kind,
                actual_bytes: bytes.len(),
            })
        }
    }

    /// Raises the texture's anisotropic filtering to the backend maximum.
    /// Rebinds the texture in backend-global state.
    pub fn set_max_anisotropy(&self, backend: &mut Backend)
        requires
            old(backend).inv(),
            spec_texture_alive(old(backend)@.textures, self.id),
        ensures
            final(backend).inv(),
            spec_set_max_anisotropy(old(backend)@, final(backend)@, self.id),
    {
        backend.set_max_anisotropy(self.id);
    }

    /// Releases the backend texture object.
    pub fn release(&self, backend: &mut Backend)
        requires
            old(backend).inv(),
            spec_texture_alive(old(backend)@.textures, self.id),
        ensures
            final(backend).inv(),
            spec_released_texture(old(backend)@, final(backend)@, self.id),
    {
        backend.release_texture(self.id);
    }
}

} // verus!
