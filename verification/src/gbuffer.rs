//! The geometry buffer pass: rasterizes opaque scene geometry from one
//! camera's viewpoint into color, normal and depth targets, plus the frame
//! target later passes accumulate into. Nodes outside the camera frustum or
//! without a geometry buffer are skipped, never an error; a material slot
//! without a texture is drawn with the renderer's dummy stand-in.
use vstd::prelude::*;

use crate::backend::Backend;
use crate::backend::BackendView;
use crate::backend::TextureRecord;
use crate::backend::lemma_has_record_alive;
use crate::backend::lemma_push_preserves_programs;
use crate::backend::lemma_push_preserves_records;
use crate::backend::lemma_released_program_facts;
use crate::backend::lemma_released_texture_facts;
use crate::backend::spec_has_record;
use crate::backend::spec_program_alive;
use crate::backend::spec_texture_alive;
use crate::error::RendererError;
use crate::gpu_program::GpuProgram;
use crate::gpu_texture::GpuTexture;
use crate::gpu_texture::GpuTextureKind;
use crate::gpu_texture::PixelKind;
use crate::scene::Camera;
use crate::scene::Node;
use crate::scene::Scene;

verus! {

/// One geometry draw, with the textures actually bound for it.
#[derive(Clone, Copy, PartialEq, Eq, Structural, Debug)]
pub struct GBufferDraw {
    pub node_index: usize,
    pub diffuse_texture: u64,
    pub normal_texture: u64,
}

/// The texture slot actually bound: the material's own texture, or the
/// dummy stand-in when the slot is unset.
pub open spec fn spec_or_dummy(slot: Option<u64>, dummy: u64) -> u64 {
    match slot {
        Some(id) => id,
        None => dummy,
    }
}

/// A geometry-pass render target record: fixed format, never mipmapped.
pub open spec fn spec_target_record(
    id: u64,
    width: u32,
    height: u32,
    pixel_kind: PixelKind,
) -> TextureRecord {
    TextureRecord {
        id,
        kind: GpuTextureKind::Rectangle { width, height },
        pixel_kind,
        mipmaps: false,
        max_anisotropy: false,
    }
}

/// Exactly the draws the geometry pass performs for these nodes: every mesh
/// inside the camera frustum whose geometry buffer is present, in graph
/// order, with dummy textures substituted for unset material slots.
pub open spec fn spec_gbuffer_draws(
    nodes: Seq<Node>,
    camera: Camera,
    white: u64,
    normal: u64,
) -> Seq<GBufferDraw>
    decreases nodes.len(),
{
    if nodes.len() == 0 {
        Seq::empty()
    } else {
        let prefix = spec_gbuffer_draws(nodes.drop_last(), camera, white, normal);
        match nodes.last() {
            Node::Mesh(m) => {
                if camera.spec_sees(m.position) && m.has_geometry {
                    prefix.push(
                        GBufferDraw {
                            node_index: (nodes.len() - 1) as usize,
                            diffuse_texture: spec_or_dummy(m.material.diffuse_texture, white),
                            normal_texture: spec_or_dummy(m.material.normal_texture, normal),
                        },
                    )
                } else {
                    prefix
                }
            },
            _ => prefix,
        }
    }
}

/// The geometry buffer: four targets sized to the frame, the pass's own
/// program, and the draws of the most recent fill.
pub struct GBuffer {
    pub program: GpuProgram,
    pub color_texture: u64,
    pub normal_texture: u64,
    pub depth_texture: u64,
    pub frame_texture: u64,
    pub width: u32,
    pub height: u32,
    pub draws: Vec<GBufferDraw>,
}

impl GBuffer {
    /// The buffer's program and its four distinct targets are allocated,
    /// with the exact formats and frame size they were created with.
    pub open spec fn wf(self, v: BackendView) -> bool {
        &&& self.width > 0 && self.height > 0
        &&& spec_program_alive(v.programs, self.program.id)
        &&& spec_has_record(
            v.textures,
            spec_target_record(self.color_texture, self.width, self.height, PixelKind::RGBA8),
        )
        &&& spec_has_record(
            v.textures,
            spec_target_record(self.normal_texture, self.width, self.height, PixelKind::RGBA8),
        )
        &&& spec_has_record(
            v.textures,
            spec_target_record(self.depth_texture, self.width, self.height, PixelKind::D24),
        )
        &&& spec_has_record(
            v.textures,
            spec_target_record(self.frame_texture, self.width, self.height, PixelKind::RGBA8),
        )
        &&& self.color_texture != self.normal_texture
        &&& self.color_texture != self.depth_texture
        &&& self.color_texture != self.frame_texture
        &&& self.normal_texture != self.depth_texture
        &&& self.normal_texture != self.frame_texture
        &&& self.depth_texture != self.frame_texture
    }

    /// Creates targets sized to the frame; fails exactly on a zero-sized
    /// frame, in which case nothing is allocated. On success the backend
    /// holds one new program and four new targets, and the last-created
    /// target is left bound.
    pub fn new(backend: &mut Backend, frame_size: (u32, u32)) -> (r: Result<GBuffer, RendererError>)
        requires
            old(backend).inv(),
            old(backend)@.next_id + 5 <= u64::MAX,
        ensures
            final(backend).inv(),
            (r is Ok) <==> frame_size.0 > 0 && frame_size.1 > 0,
            r matches Ok(g) ==> {
                &&& g.wf(final(backend)@)
                &&& g.width == frame_size.0
                &&& g.height == frame_size.1
                &&& g.draws@.len() == 0
                &&& g.program.id == old(backend)@.next_id
                &&& g.color_texture == old(backend)@.next_id + 1
                &&& g.normal_texture == old(backend)@.next_id + 2
                &&& g.depth_texture == old(backend)@.next_id + 3
                &&& g.frame_texture == old(backend)@.next_id + 4
                &&& final(backend)@ == old(backend)@.with_programs(
                    old(backend)@.programs.push(old(backend)@.next_id),
                ).with_textures(
                    old(backend)@.textures.push(
                        spec_target_record(
                            (old(backend)@.next_id + 1) as u64,
                            frame_size.0,
                            frame_size.1,
                            PixelKind::RGBA8,
                        ),
                    ).push(
                        spec_target_record(
                            (old(backend)@.next_id + 2) as u64,
                            frame_size.0,
                            frame_size.1,
                            PixelKind::RGBA8,
                        ),
                    ).push(
                        spec_target_record(
                            (old(backend)@.next_id + 3) as u64,
                            frame_size.0,
                            frame_size.1,
                            PixelKind::D24,
                        ),
                    ).push(
                        spec_target_record(
                            (old(backend)@.next_id + 4) as u64,
                            frame_size.0,
                            frame_size.1,
                            PixelKind::RGBA8,
                        ),
                    ),
                ).with_next_id((old(backend)@.next_id + 5) as u64).with_bound_texture(
                    Some((old(backend)@.next_id + 4) as u64),
                )
            },
            r is Err ==> {
                &&& final(backend)@ == old(backend)@
                &&& r == Err::<GBuffer, RendererError>(RendererError::FrameResource {
                    width: frame_size.0,
                    height: frame_size.1,
                })
            },
    {
        let (width, height) = frame_size;
        if width == 0 || height == 0 {
            return Err(RendererError::FrameResource { width, height });
        }
        let program = GpuProgram::compile(backend, gbuffer_vertex_source(), gbuffer_fragment_source())?;
        let color_texture = match backend.create_render_target(width, height, PixelKind::RGBA8) {
            Ok(id) => id,
            Err(e) => {
                return Err(e);
            },
        };
        let normal_texture = match backend.create_render_target(width, height, PixelKind::RGBA8) {
            Ok(id) => id,
            Err(e) => {
                return Err(e);
            },
        };
        let depth_texture = match backend.create_render_target(width, height, PixelKind::D24) {
            Ok(id) => id,
            Err(e) => {
                return Err(e);
            },
        };
        let frame_texture = match backend.create_render_target(width, height, PixelKind::RGBA8) {
            Ok(id) => id,
            Err(e) => {
                return Err(e);
            },
        };
        proof {
            lemma_push_preserves_programs(old(backend)@.programs, program.id);
            let t0 = old(backend)@.textures;
            let r1 = spec_target_record(color_texture, width, height, PixelKind::RGBA8);
            let r2 = spec_target_record(normal_texture, width, height, PixelKind::RGBA8);
            let r3 = spec_target_record(depth_texture, width, height, PixelKind::D24);
            let r4 = spec_target_record(frame_texture, width, height, PixelKind::RGBA8);
            lemma_push_preserves_records(t0, r1);
            lemma_push_preserves_records(t0.push(r1), r2);
            lemma_push_preserves_records(t0.push(r1).push(r2), r3);
            lemma_push_preserves_records(t0.push(r1).push(r2).push(r3), r4);
        }
        Ok(GBuffer {
            program,
            color_texture,
            normal_texture,
            depth_texture,
            frame_texture,
            width,
            height,
            draws: Vec::new(),
        })
    }

    /// Releases the four targets and the pass's program. Every other
    /// allocated record survives untouched.
    pub fn release(&self, backend: &mut Backend)
        requires
            old(backend).inv(),
            self.wf(old(backend)@),
        ensures
            final(backend).inv(),
            final(backend)@.textures.len() == old(backend)@.textures.len() - 4,
            final(backend)@.programs.len() == old(backend)@.programs.len() - 1,
            final(backend)@.next_id == old(backend)@.next_id,
            !spec_texture_alive(final(backend)@.textures, self.color_texture),
            !spec_texture_alive(final(backend)@.textures, self.normal_texture),
            !spec_texture_alive(final(backend)@.textures, self.depth_texture),
            !spec_texture_alive(final(backend)@.textures, self.frame_texture),
            !spec_program_alive(final(backend)@.programs, self.program.id),
            forall|r: TextureRecord|
                spec_has_record(old(backend)@.textures, r) && r.id != self.color_texture && r.id
                    != self.normal_texture && r.id != self.depth_texture && r.id
                    != self.frame_texture ==> spec_has_record(final(backend)@.textures, r),
            forall|r: TextureRecord| spec_has_record(final(backend)@.textures, r)
                ==> spec_has_record(old(backend)@.textures, r),
            forall|id: u64|
                spec_program_alive(old(backend)@.programs, id) && id != self.program.id
                    ==> spec_program_alive(final(backend)@.programs, id),
            final(backend)@.bound_framebuffer == old(backend)@.bound_framebuffer,
            final(backend)@.viewport == old(backend)@.viewport,
            final(backend)@.depth_test == old(backend)@.depth_test,
            final(backend)@.uniform_wvp == old(backend)@.uniform_wvp,
            final(backend)@.uniform_texture_unit == old(backend)@.uniform_texture_unit,
            final(backend)@.uniform_color == old(backend)@.uniform_color,
    {
        proof {
            lemma_has_record_alive(
                old(backend)@.textures,
                spec_target_record(self.color_texture, self.width, self.height, PixelKind::RGBA8),
            );
            lemma_has_record_alive(
                old(backend)@.textures,
                spec_target_record(self.normal_texture, self.width, self.height, PixelKind::RGBA8),
            );
            lemma_has_record_alive(
                old(backend)@.textures,
                spec_target_record(self.depth_texture, self.width, self.height, PixelKind::D24),
            );
            lemma_has_record_alive(
                old(backend)@.textures,
                spec_target_record(self.frame_texture, self.width, self.height, PixelKind::RGBA8),
            );
        }
        let ghost pre0 = backend@;
        backend.release_texture(self.color_texture);
        proof {
            lemma_released_texture_facts(pre0, backend@, self.color_texture);
        }
        let ghost pre1 = backend@;
        backend.release_texture(self.normal_texture);
        proof {
            lemma_released_texture_facts(pre1, backend@, self.normal_texture);
        }
        let ghost pre2 = backend@;
        backend.release_texture(self.depth_texture);
        proof {
            lemma_released_texture_facts(pre2, backend@, self.depth_texture);
        }
        let ghost pre3 = backend@;
        backend.release_texture(self.frame_texture);
        proof {
            lemma_released_texture_facts(pre3, backend@, self.frame_texture);
        }
        let ghost pre4 = backend@;
        backend.release_program(self.program.id);
        proof {
            lemma_released_program_facts(pre4, backend@, self.program.id);
        }
    }

    /// Clears the targets and rasterizes every visible mesh from the
    /// camera's viewpoint, substituting the dummy textures for unset
    /// material slots. Failures to draw one node (no geometry buffer) skip
    /// that node and continue; the pass never aborts. Leaves the geometry
    /// framebuffer and the pass's program bound.
    pub fn fill(
        &mut self,
        backend: &mut Backend,
        graph: &Scene,
        camera: &Camera,
        white_dummy: &GpuTexture,
        normal_dummy: &GpuTexture,
    )
        requires
            old(backend).inv(),
            old(self).wf(old(backend)@),
        ensures
            final(backend).inv(),
            final(self).wf(final(backend)@),
            final(self).draws@ == spec_gbuffer_draws(
                graph.nodes@,
                *camera,
                white_dummy.id,
                normal_dummy.id,
            ),
            final(self).program == old(self).program,
            final(self).color_texture == old(self).color_texture,
            final(self).normal_texture == old(self).normal_texture,
            final(self).depth_texture == old(self).depth_texture,
            final(self).frame_texture == old(self).frame_texture,
            final(self).width == old(self).width,
            final(self).height == old(self).height,
            final(backend)@ == old(backend)@.with_bound_framebuffer(
                old(self).color_texture,
            ).with_viewport((old(self).width, old(self).height)).with_bound_program(
                Some(old(self).program.id),
            ),
    {
        backend.bind_framebuffer(self.color_texture);
        backend.set_viewport(self.width, self.height);
        self.program.bind(backend);
        self.draws.clear();
        let n = graph.nodes.len();
        let mut i: usize = 0;
        proof {
            assert(self.draws@ =~= Seq::<GBufferDraw>::empty());
            assert(graph.nodes@.take(0int) =~= Seq::<Node>::empty());
        }
        while i < n
            invariant
                n == graph.nodes@.len(),
                i <= n,
                self.draws@ == spec_gbuffer_draws(
                    graph.nodes@.take(i as int),
                    *camera,
                    white_dummy.id,
                    normal_dummy.id,
                ),
                self.program == old(self).program,
                self.color_texture == old(self).color_texture,
                self.normal_texture == old(self).normal_texture,
                self.depth_texture == old(self).depth_texture,
                self.frame_texture == old(self).frame_texture,
                self.width == old(self).width,
                self.height == old(self).height,
            decreases n - i,
        {
            proof {
                assert(graph.nodes@.take(i as int + 1).drop_last() =~= graph.nodes@.take(i as int));
                assert(graph.nodes@.take(i as int + 1).last() == graph.nodes@[i as int]);
            }
            match &graph.nodes[i] {
                Node::Mesh(m) => {
                    if camera.sees(m.position) && m.has_geometry {
                        let diffuse_texture = match m.material.diffuse_texture {
                            Some(id) => id,
                            None => white_dummy.id,
                        };
                        let normal_texture = match m.material.normal_texture {
                            Some(id) => id,
                            None => normal_dummy.id,
                        };
                        self.draws.push(
                            GBufferDraw { node_index: i, diffuse_texture, normal_texture },
                        );
                    }
                },
                _ => {},
            }
            i = i + 1;
        }
        proof {
            assert(graph.nodes@.take(n as int) =~= graph.nodes@);
        }
    }
}

/// Every geometry draw names a mesh of the graph and binds, for each
/// material slot, the mesh's own texture when the slot is set and the dummy
/// stand-in when it is not — so a node with no texture is drawn exactly as
/// one with an explicit solid-white texture bound.
pub proof fn lemma_unset_material_uses_dummy(
    nodes: Seq<Node>,
    camera: Camera,
    white: u64,
    normal: u64,
)
    requires
        nodes.len() <= usize::MAX,
    ensures
        forall|k: int|
            0 <= k < spec_gbuffer_draws(nodes, camera, white, normal).len() ==> {
                let d = #[trigger] spec_gbuffer_draws(nodes, camera, white, normal)[k];
                &&& d.node_index < nodes.len()
                &&& match nodes[d.node_index as int] {
                    Node::Mesh(m) => {
                        &&& d.diffuse_texture == spec_or_dummy(m.material.diffuse_texture, white)
                        &&& (m.material.diffuse_texture is None ==> d.diffuse_texture == white)
                        &&& (m.material.diffuse_texture matches Some(t) ==> d.diffuse_texture == t)
                        &&& d.normal_texture == spec_or_dummy(m.material.normal_texture, normal)
                        &&& (m.material.normal_texture is None ==> d.normal_texture == normal)
                        &&& (m.material.normal_texture matches Some(t) ==> d.normal_texture == t)
                    },
                    _ => false,
                }
            },
    decreases nodes.len(),
{
    if nodes.len() > 0 {
        lemma_unset_material_uses_dummy(nodes.drop_last(), camera, white, normal);
        let draws = spec_gbuffer_draws(nodes, camera, white, normal);
        let prefix = spec_gbuffer_draws(nodes.drop_last(), camera, white, normal);
        assert forall|k: int| 0 <= k < draws.len() implies {
            let d = #[trigger] draws[k];
            &&& d.node_index < nodes.len()
            &&& match nodes[d.node_index as int] {
                Node::Mesh(m) => {
                    &&& d.diffuse_texture == spec_or_dummy(m.material.diffuse_texture, white)
                    &&& (m.material.diffuse_texture is None ==> d.diffuse_texture == white)
                    &&& (m.material.diffuse_texture matches Some(t) ==> d.diffuse_texture == t)
                    &&& d.normal_texture == spec_or_dummy(m.material.normal_texture, normal)
                    &&& (m.material.normal_texture is None ==> d.normal_texture == normal)
                    &&& (m.material.normal_texture matches Some(t) ==> d.normal_texture == t)
                },
                _ => false,
            }
        } by {
            if k < prefix.len() {
                assert(draws[k] == prefix[k]);
                let d = prefix[k];
                assert(d.node_index < nodes.drop_last().len());
                assert(nodes[d.node_index as int] == nodes.drop_last()[d.node_index as int]);
            }
        }
    }
}

fn gbuffer_vertex_source() -> (s: &'static str)
    ensures
        s@.len() > 0,
{
    proof {
        reveal_strlit("attribute vec3 vertexPosition; attribute vec3 vertexNormal; uniform mat4 worldViewProjection; void main() { gl_Position = worldViewProjection * vec4(vertexPosition, 1.0); }");
    }
    "attribute vec3 vertexPosition; attribute vec3 vertexNormal; uniform mat4 worldViewProjection; void main() { gl_Position = worldViewProjection * vec4(vertexPosition, 1.0); }"
}

fn gbuffer_fragment_source() -> (s: &'static str)
    ensures
        s@.len() > 0,
{
    proof {
        reveal_strlit("uniform sampler2D diffuseTexture; uniform sampler2D normalTexture; varying vec2 texCoord; void main() { gl_FragData[0] = texture2D(diffuseTexture, texCoord); gl_FragData[1] = texture2D(normalTexture, texCoord); }");
    }
    "uniform sampler2D diffuseTexture; uniform sampler2D normalTexture; varying vec2 texCoord; void main() { gl_FragData[0] = texture2D(diffuseTexture, texCoord); gl_FragData[1] = texture2D(normalTexture, texCoord); }"
}

} // verus!
