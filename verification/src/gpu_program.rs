//! Shader program abstraction: compile/link once, then bind and configure
//! typed uniforms. The setters require their program to be the bound one —
//! configuring an unbound program is undefined in the backend, so the
//! contracts rule it out and the orchestrator always binds first.
use vstd::prelude::*;

use crate::backend::Backend;
use crate::backend::spec_created_program;
use crate::backend::spec_program_alive;
use crate::error::RendererError;
use crate::math::Color;
use crate::math::FrameMatrix;

verus! {

/// A compiled and linked program; immutable after creation.
#[derive(Clone, Copy, PartialEq, Eq, Structural, Debug)]
pub struct GpuProgram {
    pub id: u64,
}

impl GpuProgram {
    /// Compiles and links the two stages; fails with the backend's
    /// diagnostic exactly when a stage's source is empty.
    pub fn compile(
        backend: &mut Backend,
        vertex_source: &str,
        fragment_source: &str,
    ) -> (r: Result<GpuProgram, RendererError>)
        requires
            old(backend).inv(),
            old(backend)@.next_id < u64::MAX,
        ensures
            final(backend).inv(),
            (r is Ok) <==> vertex_source@.len() > 0 && fragment_source@.len() > 0,
            r matches Ok(p) ==> spec_created_program(old(backend)@, final(backend)@, p.id),
            r is Err ==> final(backend)@ == old(backend)@,
    {
        match backend.compile_program(vertex_source, fragment_source) {
            Ok(id) => Ok(GpuProgram { id }),
            Err(e) => Err(e),
        }
    }

    /// Makes this program the active one.
    pub fn bind(&self, backend: &mut Backend)
        requires
            old(backend).inv(),
            spec_program_alive(old(backend)@.programs, self.id),
        ensures
            final(backend).inv(),
            final(backend)@ == old(backend)@.with_bound_program(Some(self.id)),
    {
        backend.bind_program(self.id);
    }

    /// Writes the world-view-projection matrix; only valid while bound.
    pub fn set_matrix(&self, backend: &mut Backend, matrix: FrameMatrix)
        requires
            old(backend).inv(),
            old(backend)@.bound_program == Some(self.id),
        ensures
            final(backend).inv(),
            final(backend)@ == old(backend)@.with_uniform_wvp(Some(matrix)),
    {
        backend.set_uniform_matrix(matrix);
    }

    /// Writes a sampler-unit uniform; only valid while bound.
    pub fn set_int(&self, backend: &mut Backend, unit: u32)
        requires
            old(backend).inv(),
            old(backend)@.bound_program == Some(self.id),
        ensures
            final(backend).inv(),
            final(backend)@ == old(backend)@.with_uniform_texture_unit(Some(unit)),
    {
        backend.set_uniform_texture_unit(unit);
    }

    /// Writes a color uniform; only valid while bound.
    pub fn set_color(&self, backend: &mut Backend, color: Color)
        requires
            old(backend).inv(),
            old(backend)@.bound_program == Some(self.id),
        ensures
            final(backend).inv(),
            final(backend)@ == old(backend)@.with_uniform_color(Some(color)),
    {
        backend.set_uniform_color(color);
    }
}

fn flat_vertex_source() -> (s: &'static str)
    ensures
        s@.len() > 0,
{
    proof {
        reveal_strlit("attribute vec3 vertexPosition; uniform mat4 worldViewProjection; void main() { gl_Position = worldViewProjection * vec4(vertexPosition, 1.0); }");
    }
    "attribute vec3 vertexPosition; uniform mat4 worldViewProjection; void main() { gl_Position = worldViewProjection * vec4(vertexPosition, 1.0); }"
}

fn flat_fragment_source() -> (s: &'static str)
    ensures
        s@.len() > 0,
{
    proof {
        reveal_strlit("uniform sampler2D diffuseTexture; varying vec2 texCoord; void main() { gl_FragColor = texture2D(diffuseTexture, texCoord); }");
    }
    "uniform sampler2D diffuseTexture; varying vec2 texCoord; void main() { gl_FragColor = texture2D(diffuseTexture, texCoord); }"
}

/// The flat shader: samples one diffuse texture under one transform; used
/// for the final full-frame blit.
pub struct FlatShader {
    pub program: GpuProgram,
}

impl FlatShader {
    /// Compiles the flat shader; its sources are fixed and non-empty, so
    /// given id headroom this succeeds.
    pub fn new(backend: &mut Backend) -> (r: Result<FlatShader, RendererError>)
        requires
            old(backend).inv(),
            old(backend)@.next_id < u64::MAX,
        ensures
            final(backend).inv(),
            r is Ok,
            r matches Ok(f) ==> spec_created_program(old(backend)@, final(backend)@, f.program.id),
    {
        let program = GpuProgram::compile(backend, flat_vertex_source(), flat_fragment_source())?;
        Ok(FlatShader { program })
    }

    pub fn bind(&self, backend: &mut Backend)
        requires
            old(backend).inv(),
            spec_program_alive(old(backend)@.programs, self.program.id),
        ensures
            final(backend).inv(),
            final(backend)@ == old(backend)@.with_bound_program(Some(self.program.id)),
    {
        self.program.bind(backend);
    }

    pub fn set_wvp_matrix(&self, backend: &mut Backend, matrix: FrameMatrix)
        requires
            old(backend).inv(),
            old(backend)@.bound_program == Some(self.program.id),
        ensures
            final(backend).inv(),
            final(backend)@ == old(backend)@.with_uniform_wvp(Some(matrix)),
    {
        self.program.set_matrix(backend, matrix);
    }

    pub fn set_diffuse_texture(&self, backend: &mut Backend, unit: u32)
        requires
            old(backend).inv(),
            old(backend)@.bound_program == Some(self.program.id),
        ensures
            final(backend).inv(),
            final(backend)@ == old(backend)@.with_uniform_texture_unit(Some(unit)),
    {
        self.program.set_int(backend, unit);
    }
}

} // verus!
