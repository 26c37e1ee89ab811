//! The sprite pass: rasterizes unlit billboard sprites per scene. It runs
//! after the particle pass so that sprites are not soft-occluded by
//! particle depth blending.
use vstd::prelude::*;

use crate::backend::Backend;
use crate::backend::BackendView;
use crate::backend::spec_created_program;
use crate::backend::spec_program_alive;
use crate::error::RendererError;
use crate::gbuffer::spec_or_dummy;
use crate::gpu_program::GpuProgram;
use crate::gpu_texture::GpuTexture;
use crate::scene::Node;
use crate::scene::Scene;
use crate::scene::SceneContainer;

verus! {

/// One rasterized sprite.
#[derive(Clone, Copy, PartialEq, Eq, Structural, Debug)]
pub struct SpriteDraw {
    pub scene_index: usize,
    pub node_index: usize,
    pub texture: u64,
}

/// The sprites drawn inside one scene, in graph order.
pub open spec fn spec_sprite_draws_in_scene(
    nodes: Seq<Node>,
    scene_index: usize,
    white: u64,
) -> Seq<SpriteDraw>
    decreases nodes.len(),
{
    if nodes.len() == 0 {
        Seq::empty()
    } else {
        let prefix = spec_sprite_draws_in_scene(nodes.drop_last(), scene_index, white);
        match nodes.last() {
            Node::Sprite(sp) => prefix.push(
                SpriteDraw {
                    scene_index,
                    node_index: (nodes.len() - 1) as usize,
                    texture: spec_or_dummy(sp.texture, white),
                },
            ),
            _ => prefix,
        }
    }
}

/// All sprites drawn, across every scene in order.
pub open spec fn spec_sprite_draws(scenes: Seq<Scene>, white: u64) -> Seq<SpriteDraw>
    decreases scenes.len(),
{
    if scenes.len() == 0 {
        Seq::empty()
    } else {
        spec_sprite_draws(scenes.drop_last(), white) + spec_sprite_draws_in_scene(
            scenes.last().nodes@,
            (scenes.len() - 1) as usize,
            white,
        )
    }
}

/// The sprite pass.
pub struct SpriteRenderer {
    pub program: GpuProgram,
    pub draws: Vec<SpriteDraw>,
}

impl SpriteRenderer {
    pub open spec fn wf(self, v: BackendView) -> bool {
        spec_program_alive(v.programs, self.program.id)
    }

    /// Compiles the sprite shader; fixed non-empty sources, so with id
    /// headroom this succeeds.
    pub fn new(backend: &mut Backend) -> (r: Result<SpriteRenderer, RendererError>)
        requires
            old(backend).inv(),
            old(backend)@.next_id < u64::MAX,
        ensures
            final(backend).inv(),
            r is Ok,
            r matches Ok(sr) ==> {
                &&& spec_created_program(old(backend)@, final(backend)@, sr.program.id)
                &&& sr.wf(final(backend)@)
                &&& sr.draws@.len() == 0
            },
    {
        let program = GpuProgram::compile(backend, sprite_vertex_source(), sprite_fragment_source())?;
        proof {
            crate::backend::lemma_push_preserves_programs(old(backend)@.programs, program.id);
        }
        Ok(SpriteRenderer { program, draws: Vec::new() })
    }

    /// Rasterizes every sprite of every scene into the currently bound
    /// frame target, substituting the dummy texture where a sprite has
    /// none. Leaves the pass's program bound.
    pub fn render(&mut self, backend: &mut Backend, scenes: &SceneContainer, white_dummy: &GpuTexture)
        requires
            old(backend).inv(),
            old(self).wf(old(backend)@),
        ensures
            final(backend).inv(),
            final(self).wf(final(backend)@),
            final(self).program == old(self).program,
            final(self).draws@ == spec_sprite_draws(scenes.scenes@, white_dummy.id),
            final(backend)@ == old(backend)@.with_bound_program(Some(old(self).program.id)),
    {
        self.program.bind(backend);
        self.draws.clear();
        let n_scenes = scenes.scenes.len();
        let mut s: usize = 0;
        proof {
            assert(self.draws@ =~= Seq::<SpriteDraw>::empty());
            assert(scenes.scenes@.take(0int) =~= Seq::<Scene>::empty());
        }
        while s < n_scenes
            invariant
                n_scenes == scenes.scenes@.len(),
                s <= n_scenes,
                self.draws@ == spec_sprite_draws(scenes.scenes@.take(s as int), white_dummy.id),
                self.program == old(self).program,
            decreases n_scenes - s,
        {
            let scene = &scenes.scenes[s];
            let n = scene.nodes.len();
            let mut i: usize = 0;
            proof {
                assert(scene.nodes@.take(0int) =~= Seq::<Node>::empty());
                assert(self.draws@ =~= self.draws@ + spec_sprite_draws_in_scene(
                    scene.nodes@.take(0int),
                    s,
                    white_dummy.id,
                ));
            }
            while i < n
                invariant
                    n_scenes == scenes.scenes@.len(),
                    s < n_scenes,
                    n == scenes.scenes@[s as int].nodes@.len(),
                    *scene == scenes.scenes@[s as int],
                    i <= n,
                    self.draws@ == spec_sprite_draws(scenes.scenes@.take(s as int), white_dummy.id)
                        + spec_sprite_draws_in_scene(
                        scenes.scenes@[s as int].nodes@.take(i as int),
                        s,
                        white_dummy.id,
                    ),
                    self.program == old(self).program,
                decreases n - i,
            {
                proof {
                    assert(scene.nodes@.take(i as int + 1).drop_last() =~= scene.nodes@.take(
                        i as int,
                    ));
                    assert(scene.nodes@.take(i as int + 1).last() == scene.nodes@[i as int]);
                }
                match &scene.nodes[i] {
                    Node::Sprite(sp) => {
                        let texture = match sp.texture {
                            Some(id) => id,
                            None => white_dummy.id,
                        };
                        let draw = SpriteDraw { scene_index: s, node_index: i, texture };
                        proof {
                            assert((spec_sprite_draws(scenes.scenes@.take(s as int), white_dummy.id)
                                + spec_sprite_draws_in_scene(
                                scene.nodes@.take(i as int),
                                s,
                                white_dummy.id,
                            )).push(draw) =~= spec_sprite_draws(
                                scenes.scenes@.take(s as int),
                                white_dummy.id,
                            ) + spec_sprite_draws_in_scene(
                                scene.nodes@.take(i as int),
                                s,
                                white_dummy.id,
                            ).push(draw));
                        }
                        self.draws.push(draw);
                    },
                    _ => {},
                }
                i = i + 1;
            }
            proof {
                assert(scene.nodes@.take(n as int) =~= scene.nodes@);
                assert(scenes.scenes@.take(s as int + 1).drop_last() =~= scenes.scenes@.take(
                    s as int,
                ));
                assert(scenes.scenes@.take(s as int + 1).last() == scenes.scenes@[s as int]);
            }
            s = s + 1;
        }
        proof {
            assert(scenes.scenes@.take(n_scenes as int) =~= scenes.scenes@);
        }
    }
}

fn sprite_vertex_source() -> (s: &'static str)
    ensures
        s@.len() > 0,
{
    proof {
        reveal_strlit("attribute vec3 vertexPosition; uniform mat4 worldViewProjection; uniform vec3 cameraSideVector; void main() { gl_Position = worldViewProjection * vec4(vertexPosition, 1.0); }");
    }
    "attribute vec3 vertexPosition; uniform mat4 worldViewProjection; uniform vec3 cameraSideVector; void main() { gl_Position = worldViewProjection * vec4(vertexPosition, 1.0); }"
}

fn sprite_fragment_source() -> (s: &'static str)
    ensures
        s@.len() > 0,
{
    proof {
        reveal_strlit("uniform sampler2D diffuseTexture; varying vec2 texCoord; void main() { gl_FragColor = texture2D(diffuseTexture, texCoord); }");
    }
    "uniform sampler2D diffuseTexture; varying vec2 texCoord; void main() { gl_FragColor = texture2D(diffuseTexture, texCoord); }"
}

} // verus!
