//! The particle pass: rasterizes every particle system across every scene
//! as camera-facing sprites, depth-testing softly against the geometry
//! buffer's depth so particles do not clip hard through geometry. The
//! soft-boundary sharpness factor tunes the blend falloff: larger factor,
//! sharper cutoff; factor 0 is the softest blend; at the configured maximum
//! the edge is indistinguishable from a hard depth test. Systems with zero
//! live particles are rasterization no-ops.
use vstd::prelude::*;

use crate::backend::Backend;
use crate::backend::BackendView;
use crate::backend::lemma_has_record_alive;
use crate::backend::spec_created_program;
use crate::backend::spec_program_alive;
use crate::error::RendererError;
use crate::gbuffer::GBuffer;
use crate::gbuffer::spec_or_dummy;
use crate::gbuffer::spec_target_record;
use crate::gpu_program::GpuProgram;
use crate::gpu_texture::GpuTexture;
use crate::gpu_texture::PixelKind;
use crate::scene::Node;
use crate::scene::Scene;
use crate::scene::SceneContainer;

verus! {

/// The largest configurable soft-boundary sharpness factor.
pub const SOFT_BOUNDARY_SHARPNESS_MAX: u32 = 1024;

/// Width of the depth-blend falloff band for a sharpness factor: the
/// softest possible blend at factor 0, a hard edge at the maximum factor.
pub open spec fn spec_soft_boundary_falloff(factor: u32) -> u32 {
    if factor >= SOFT_BOUNDARY_SHARPNESS_MAX {
        0u32
    } else {
        (SOFT_BOUNDARY_SHARPNESS_MAX - factor) as u32
    }
}

pub fn soft_boundary_falloff(factor: u32) -> (falloff: u32)
    ensures
        falloff == spec_soft_boundary_falloff(factor),
{
    if factor >= SOFT_BOUNDARY_SHARPNESS_MAX {
        0
    } else {
        SOFT_BOUNDARY_SHARPNESS_MAX - factor
    }
}

/// One rasterized particle system.
#[derive(Clone, Copy, PartialEq, Eq, Structural, Debug)]
pub struct ParticleDraw {
    pub scene_index: usize,
    pub node_index: usize,
    pub particles: usize,
    pub texture: u64,
    pub falloff: u32,
}

/// The draws the pass performs inside one scene: every particle system with
/// live particles, in graph order.
pub open spec fn spec_particle_draws_in_scene(
    nodes: Seq<Node>,
    scene_index: usize,
    white: u64,
) -> Seq<ParticleDraw>
    decreases nodes.len(),
{
    if nodes.len() == 0 {
        Seq::empty()
    } else {
        let prefix = spec_particle_draws_in_scene(nodes.drop_last(), scene_index, white);
        match nodes.last() {
            Node::ParticleSystem(p) => {
                if p.live_particles > 0 {
                    prefix.push(
                        ParticleDraw {
                            scene_index,
                            node_index: (nodes.len() - 1) as usize,
                            particles: p.live_particles,
                            texture: spec_or_dummy(p.texture, white),
                            falloff: spec_soft_boundary_falloff(p.soft_boundary_sharpness_factor),
                        },
                    )
                } else {
                    prefix
                }
            },
            _ => prefix,
        }
    }
}

/// All draws of the pass, across every scene in order.
pub open spec fn spec_particle_draws(scenes: Seq<Scene>, white: u64) -> Seq<ParticleDraw>
    decreases scenes.len(),
{
    if scenes.len() == 0 {
        Seq::empty()
    } else {
        spec_particle_draws(scenes.drop_last(), white) + spec_particle_draws_in_scene(
            scenes.last().nodes@,
            (scenes.len() - 1) as usize,
            white,
        )
    }
}

/// The particle pass.
pub struct ParticleSystemRenderer {
    pub program: GpuProgram,
    pub draws: Vec<ParticleDraw>,
}

impl ParticleSystemRenderer {
    pub open spec fn wf(self, v: BackendView) -> bool {
        spec_program_alive(v.programs, self.program.id)
    }

    /// Compiles the particle shader; fixed non-empty sources, so with id
    /// headroom this succeeds.
    pub fn new(backend: &mut Backend) -> (r: Result<ParticleSystemRenderer, RendererError>)
        requires
            old(backend).inv(),
            old(backend)@.next_id < u64::MAX,
        ensures
            final(backend).inv(),
            r is Ok,
            r matches Ok(p) ==> {
                &&& spec_created_program(old(backend)@, final(backend)@, p.program.id)
                &&& p.wf(final(backend)@)
                &&& p.draws@.len() == 0
            },
    {
        let program = GpuProgram::compile(
            backend,
            particle_vertex_source(),
            particle_fragment_source(),
        )?;
        proof {
            crate::backend::lemma_push_preserves_programs(old(backend)@.programs, program.id);
        }
        Ok(ParticleSystemRenderer { program, draws: Vec::new() })
    }

    /// Rasterizes every live particle system of every scene into the frame
    /// target, soft-blended against the geometry buffer's depth. Leaves the
    /// frame target's framebuffer, the pass's program and the depth texture
    /// bound.
    pub fn render(
        &mut self,
        backend: &mut Backend,
        scenes: &SceneContainer,
        white_dummy: &GpuTexture,
        gbuffer: &GBuffer,
    )
        requires
            old(backend).inv(),
            old(self).wf(old(backend)@),
            gbuffer.wf(old(backend)@),
        ensures
            final(backend).inv(),
            final(self).wf(final(backend)@),
            final(self).program == old(self).program,
            final(self).draws@ == spec_particle_draws(scenes.scenes@, white_dummy.id),
            final(backend)@ == old(backend)@.with_bound_framebuffer(
                gbuffer.frame_texture,
            ).with_bound_program(Some(old(self).program.id)).with_bound_texture(
                Some(gbuffer.depth_texture),
            ),
    {
        backend.bind_framebuffer(gbuffer.frame_texture);
        self.program.bind(backend);
        proof {
            lemma_has_record_alive(
                backend@.textures,
                spec_target_record(gbuffer.depth_texture, gbuffer.width, gbuffer.height, PixelKind::D24),
            );
        }
        backend.bind_texture(gbuffer.depth_texture);
        self.draws.clear();
        let n_scenes = scenes.scenes.len();
        let mut s: usize = 0;
        proof {
            assert(self.draws@ =~= Seq::<ParticleDraw>::empty());
            assert(scenes.scenes@.take(0int) =~= Seq::<Scene>::empty());
        }
        while s < n_scenes
            invariant
                n_scenes == scenes.scenes@.len(),
                s <= n_scenes,
                self.draws@ == spec_particle_draws(scenes.scenes@.take(s as int), white_dummy.id),
                self.program == old(self).program,
            decreases n_scenes - s,
        {
            let scene = &scenes.scenes[s];
            let n = scene.nodes.len();
            let mut i: usize = 0;
            proof {
                assert(scene.nodes@.take(0int) =~= Seq::<Node>::empty());
                assert(self.draws@ =~= self.draws@ + spec_particle_draws_in_scene(
                    scene.nodes@.take(0int),
                    s,
                    white_dummy.id,
                ));
            }
            while i < n
                invariant
                    n_scenes == scenes.scenes@.len(),
                    s < n_scenes,
                    n == scenes.scenes@[s as int].nodes@.len(),
                    *scene == scenes.scenes@[s as int],
                    i <= n,
                    self.draws@ == spec_particle_draws(scenes.scenes@.take(s as int), white_dummy.id)
                        + spec_particle_draws_in_scene(
                        scenes.scenes@[s as int].nodes@.take(i as int),
                        s,
                        white_dummy.id,
                    ),
                    self.program == old(self).program,
                decreases n - i,
            {
                proof {
                    assert(scene.nodes@.take(i as int + 1).drop_last() =~= scene.nodes@.take(
                        i as int,
                    ));
                    assert(scene.nodes@.take(i as int + 1).last() == scene.nodes@[i as int]);
                }
                match &scene.nodes[i] {
                    Node::ParticleSystem(p) => {
                        if p.live_particles > 0 {
                            let texture = match p.texture {
                                Some(id) => id,
                                None => white_dummy.id,
                            };
                            let draw = ParticleDraw {
                                scene_index: s,
                                node_index: i,
                                particles: p.live_particles,
                                texture,
                                falloff: soft_boundary_falloff(p.soft_boundary_sharpness_factor),
                            };
                            proof {
                                assert((spec_particle_draws(
                                    scenes.scenes@.take(s as int),
                                    white_dummy.id,
                                ) + spec_particle_draws_in_scene(
                                    scene.nodes@.take(i as int),
                                    s,
                                    white_dummy.id,
                                )).push(draw) =~= spec_particle_draws(
                                    scenes.scenes@.take(s as int),
                                    white_dummy.id,
                                ) + spec_particle_draws_in_scene(
                                    scene.nodes@.take(i as int),
                                    s,
                                    white_dummy.id,
                                ).push(draw));
                            }
                            self.draws.push(draw);
                        }
                    },
                    _ => {},
                }
                i = i + 1;
            }
            proof {
                assert(scene.nodes@.take(n as int) =~= scene.nodes@);
                assert(scenes.scenes@.take(s as int + 1).drop_last() =~= scenes.scenes@.take(
                    s as int,
                ));
                assert(scenes.scenes@.take(s as int + 1).last() == scenes.scenes@[s as int]);
            }
            s = s + 1;
        }
        proof {
            assert(scenes.scenes@.take(n_scenes as int) =~= scenes.scenes@);
        }
    }
}

fn particle_vertex_source() -> (s: &'static str)
    ensures
        s@.len() > 0,
{
    proof {
        reveal_strlit("attribute vec3 vertexPosition; attribute vec2 vertexSize; uniform mat4 worldViewProjection; void main() { gl_Position = worldViewProjection * vec4(vertexPosition, 1.0); }");
    }
    "attribute vec3 vertexPosition; attribute vec2 vertexSize; uniform mat4 worldViewProjection; void main() { gl_Position = worldViewProjection * vec4(vertexPosition, 1.0); }"
}

fn particle_fragment_source() -> (s: &'static str)
    ensures
        s@.len() > 0,
{
    proof {
        reveal_strlit("uniform sampler2D diffuseTexture; uniform sampler2D depthTexture; uniform float softBoundaryFalloff; varying vec2 texCoord; void main() { gl_FragColor = texture2D(diffuseTexture, texCoord); }");
    }
    "uniform sampler2D diffuseTexture; uniform sampler2D depthTexture; uniform float softBoundaryFalloff; varying vec2 texCoord; void main() { gl_FragColor = texture2D(diffuseTexture, texCoord); }"
}

} // verus!
