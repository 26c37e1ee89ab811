//! The deferred lighting pass: consumes the geometry buffer and the scene's
//! light list, seeds the frame target with the ambient color and
//! accumulates the contribution of every light within range of the camera.
//! Lights out of range are skipped — no contribution, not an error.
use vstd::prelude::*;

use crate::backend::Backend;
use crate::backend::BackendView;
use crate::backend::spec_created_program;
use crate::backend::spec_program_alive;
use crate::backend::spec_texture_alive;
use crate::error::RendererError;
use crate::gbuffer::GBuffer;
use crate::gpu_program::GpuProgram;
use crate::gpu_texture::GpuTexture;
use crate::math::Color;
use crate::math::Vector3;
use crate::scene::Camera;
use crate::scene::Light;
use crate::scene::Node;
use crate::scene::Scene;

verus! {

/// One accumulated light contribution.
#[derive(Clone, Copy, PartialEq, Eq, Structural, Debug)]
pub struct LightDraw {
    pub node_index: usize,
}

/// Squared distance between two lattice points.
pub open spec fn spec_dist2(a: Vector3, b: Vector3) -> int {
    (a.x - b.x) * (a.x - b.x) + (a.y - b.y) * (a.y - b.y) + (a.z - b.z) * (a.z - b.z)
}

/// A light contributes exactly when the camera is within its radius.
pub open spec fn spec_light_in_range(camera: Camera, light: Light) -> bool {
    spec_dist2(camera.position, light.position) <= (light.radius as int) * (light.radius as int)
}

/// The camera-range test, computed without overflow.
pub fn light_in_range(camera: &Camera, light: &Light) -> (b: bool)
    ensures
        b == spec_light_in_range(*camera, *light),
{
    let dx = (camera.position.x as i128) - (light.position.x as i128);
    let dy = (camera.position.y as i128) - (light.position.y as i128);
    let dz = (camera.position.z as i128) - (light.position.z as i128);
    proof {
        assert(dx * dx <= 0x1_0000_0000 * 0x1_0000_0000 && dx * dx >= 0) by (nonlinear_arith)
            requires
                -0x1_0000_0000 <= dx <= 0x1_0000_0000,
        ;
        assert(dy * dy <= 0x1_0000_0000 * 0x1_0000_0000 && dy * dy >= 0) by (nonlinear_arith)
            requires
                -0x1_0000_0000 <= dy <= 0x1_0000_0000,
        ;
        assert(dz * dz <= 0x1_0000_0000 * 0x1_0000_0000 && dz * dz >= 0) by (nonlinear_arith)
            requires
                -0x1_0000_0000 <= dz <= 0x1_0000_0000,
        ;
    }
    let d2 = dx * dx + dy * dy + dz * dz;
    let r = light.radius as i128;
    proof {
        assert(r * r <= 0xffff_ffff * 0xffff_ffff && r * r >= 0) by (nonlinear_arith)
            requires
                0 <= r <= 0xffff_ffff,
        ;
    }
    d2 <= r * r
}

/// Exactly the lights this pass accumulates for these nodes: every light in
/// range of the camera, in graph order.
pub open spec fn spec_light_draws(nodes: Seq<Node>, camera: Camera) -> Seq<LightDraw>
    decreases nodes.len(),
{
    if nodes.len() == 0 {
        Seq::empty()
    } else {
        let prefix = spec_light_draws(nodes.drop_last(), camera);
        match nodes.last() {
            Node::Light(l) => {
                if spec_light_in_range(camera, l) {
                    prefix.push(LightDraw { node_index: (nodes.len() - 1) as usize })
                } else {
                    prefix
                }
            },
            _ => prefix,
        }
    }
}

/// The deferred lighting pass.
pub struct DeferredLightRenderer {
    pub program: GpuProgram,
    pub light_draws: Vec<LightDraw>,
}

impl DeferredLightRenderer {
    pub open spec fn wf(self, v: BackendView) -> bool {
        spec_program_alive(v.programs, self.program.id)
    }

    /// Compiles the lighting shader; fixed non-empty sources, so with id
    /// headroom this succeeds.
    pub fn new(backend: &mut Backend) -> (r: Result<DeferredLightRenderer, RendererError>)
        requires
            old(backend).inv(),
            old(backend)@.next_id < u64::MAX,
        ensures
            final(backend).inv(),
            r is Ok,
            r matches Ok(d) ==> {
                &&& spec_created_program(old(backend)@, final(backend)@, d.program.id)
                &&& d.wf(final(backend)@)
                &&& d.light_draws@.len() == 0
            },
    {
        let program = GpuProgram::compile(
            backend,
            deferred_light_vertex_source(),
            deferred_light_fragment_source(),
        )?;
        proof {
            crate::backend::lemma_push_preserves_programs(old(backend)@.programs, program.id);
        }
        Ok(DeferredLightRenderer { program, light_draws: Vec::new() })
    }

    /// Seeds the frame target with the ambient color, then accumulates
    /// every in-range light of the scene. Leaves the frame target's
    /// framebuffer, this pass's program and the fallback texture bound.
    pub fn render(
        &mut self,
        backend: &mut Backend,
        scene: &Scene,
        camera: &Camera,
        gbuffer: &GBuffer,
        white_dummy: &GpuTexture,
        ambient_color: Color,
    )
        requires
            old(backend).inv(),
            old(self).wf(old(backend)@),
            gbuffer.wf(old(backend)@),
            spec_texture_alive(old(backend)@.textures, white_dummy.id),
        ensures
            final(backend).inv(),
            final(self).wf(final(backend)@),
            final(self).program == old(self).program,
            final(self).light_draws@ == spec_light_draws(scene.nodes@, *camera),
            final(backend)@ == old(backend)@.with_bound_framebuffer(
                gbuffer.frame_texture,
            ).with_viewport((gbuffer.width, gbuffer.height)).with_bound_program(
                Some(old(self).program.id),
            ).with_uniform_color(Some(ambient_color)).with_bound_texture(Some(white_dummy.id)),
    {
        backend.bind_framebuffer(gbuffer.frame_texture);
        backend.set_viewport(gbuffer.width, gbuffer.height);
        self.program.bind(backend);
        self.program.set_color(backend, ambient_color);
        backend.bind_texture(white_dummy.id);
        self.light_draws.clear();
        let n = scene.nodes.len();
        let mut i: usize = 0;
        proof {
            assert(self.light_draws@ =~= Seq::<LightDraw>::empty());
            assert(scene.nodes@.take(0int) =~= Seq::<Node>::empty());
        }
        while i < n
            invariant
                n == scene.nodes@.len(),
                i <= n,
                self.light_draws@ == spec_light_draws(scene.nodes@.take(i as int), *camera),
                self.program == old(self).program,
            decreases n - i,
        {
            proof {
                assert(scene.nodes@.take(i as int + 1).drop_last() =~= scene.nodes@.take(i as int));
                assert(scene.nodes@.take(i as int + 1).last() == scene.nodes@[i as int]);
            }
            match &scene.nodes[i] {
                Node::Light(l) => {
                    if light_in_range(camera, l) {
                        self.light_draws.push(LightDraw { node_index: i });
                    }
                },
                _ => {},
            }
            i = i + 1;
        }
        proof {
            assert(scene.nodes@.take(n as int) =~= scene.nodes@);
        }
    }
}

fn deferred_light_vertex_source() -> (s: &'static str)
    ensures
        s@.len() > 0,
{
    proof {
        reveal_strlit("attribute vec3 vertexPosition; uniform mat4 worldViewProjection; void main() { gl_Position = worldViewProjection * vec4(vertexPosition, 1.0); }");
    }
    "attribute vec3 vertexPosition; uniform mat4 worldViewProjection; void main() { gl_Position = worldViewProjection * vec4(vertexPosition, 1.0); }"
}

fn deferred_light_fragment_source() -> (s: &'static str)
    ensures
        s@.len() > 0,
{
    proof {
        reveal_strlit("uniform sampler2D depthTexture; uniform sampler2D colorTexture; uniform sampler2D normalTexture; uniform vec4 ambientColor; void main() { gl_FragColor = ambientColor; }");
    }
    "uniform sampler2D depthTexture; uniform sampler2D colorTexture; uniform sampler2D normalTexture; uniform vec4 ambientColor; void main() { gl_FragColor = ambientColor; }"
}

} // verus!
