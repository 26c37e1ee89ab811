//! The renderer's error taxonomy. Errors that prevent producing any frame
//! (shader compilation, resource creation, frame-target recreation) are
//! returned to the caller; partial-frame conditions (a failing UI draw
//! command) abort only the remaining work of that pass.
use vstd::prelude::*;

use crate::gpu_texture::GpuTextureKind;
use crate::gpu_texture::PixelKind;

verus! {

/// The shader stage whose source the backend rejected.
#[derive(Clone, Copy, PartialEq, Eq, Structural, Debug)]
pub enum ShaderStage {
    Vertex,
    Fragment,
}

/// Everything the renderer can report to its caller.
#[derive(Debug)]
pub enum RendererError {
    /// The backend rejected a shader stage; `diagnostic` carries the
    /// backend's diagnostic text.
    ShaderCompilation { stage: ShaderStage, diagnostic: String },
    /// The backend rejected a texture's format/size combination.
    ResourceCreation { kind: GpuTextureKind, pixel_kind: PixelKind, actual_bytes: usize },
    /// A frame target of the requested size cannot be created.
    FrameResource { width: u32, height: u32 },
    /// A UI draw command referenced an invalid font or texture resource;
    /// the remaining commands of that UI pass were abandoned.
    UiRender { command_index: usize },
}

impl RendererError {
    /// A short description of the error, for hosts that log it.
    pub fn describe(&self) -> (s: &'static str)
        ensures
            s@ == self.spec_describe(),
    {
        match self {
            RendererError::ShaderCompilation { .. } => "shader compilation failed",
            RendererError::ResourceCreation { .. } => "texture format/size combination rejected",
            RendererError::FrameResource { .. } => "frame target creation failed",
            RendererError::UiRender { .. } => "ui draw command referenced an invalid resource",
        }
    }

    pub open spec fn spec_describe(&self) -> Seq<char> {
        match self {
            RendererError::ShaderCompilation { .. } => "shader compilation failed"@,
            RendererError::ResourceCreation { .. } => "texture format/size combination rejected"@,
            RendererError::FrameResource { .. } => "frame target creation failed"@,
            RendererError::UiRender { .. } => "ui draw command referenced an invalid resource"@,
        }
    }
}

} // verus!
