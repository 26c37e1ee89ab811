//! The frame orchestrator: owns every pass, the dummy stand-in textures and
//! the frame target, sequences the passes of each frame in their fixed
//! order, tracks timing statistics and reports what each frame did. Errors
//! that prevent any frame (pass construction) fail construction fast;
//! per-frame errors are scoped — a failing UI command aborts only the rest
//! of the UI pass, a failed buffer swap or a driver diagnostic is recorded
//! and the frame still counts.
use vstd::prelude::*;
use vstd::pervasive::VecAdditionalExecFns;

use crate::backend::Backend;
use crate::backend::BackendView;
use crate::backend::NO_ERROR;
use crate::backend::TextureRecord;
use crate::backend::lemma_has_record_alive;
use crate::backend::lemma_push_preserves_programs;
use crate::backend::lemma_push_preserves_records;
use crate::backend::spec_has_record;
use crate::backend::spec_program_alive;
use crate::backend::spec_texture_alive;
use crate::deferred_light_renderer::DeferredLightRenderer;
use crate::deferred_light_renderer::spec_light_draws;
use crate::error::RendererError;
use crate::gbuffer::GBuffer;
use crate::gbuffer::spec_gbuffer_draws;
use crate::gbuffer::spec_target_record;
use crate::gpu_program::FlatShader;
use crate::gpu_texture::GpuTexture;
use crate::gpu_texture::GpuTextureKind;
use crate::gpu_texture::PixelKind;
use crate::math::Color;
use crate::math::FrameMatrix;
use crate::particle_system_renderer::ParticleSystemRenderer;
use crate::particle_system_renderer::spec_particle_draws;
use crate::scene::Scene;
use crate::scene::SceneContainer;
use crate::scene::spec_find_camera;
use crate::sprite_renderer::SpriteRenderer;
use crate::sprite_renderer::spec_sprite_draws;
use crate::statistics::Statistics;
use crate::statistics::spec_begin_frame;
use crate::statistics::spec_end_frame;
use crate::statistics::spec_finalize;
use crate::surface::SurfaceSharedData;
use crate::ui_renderer::DrawingContext;
use crate::ui_renderer::UIRenderer;
use crate::ui_renderer::spec_first_invalid;
use crate::ui_renderer::spec_ui_all_valid;

verus! {

/// Backend objects one renderer construction allocates.
pub const RENDERER_STARTUP_OBJECTS: u64 = 12;

/// Backend objects one frame-size change allocates before releasing the
/// previous target.
pub const FRAME_TARGET_OBJECTS: u64 = 5;

/// One step a render call performed, in order.
#[derive(Clone, Copy, PartialEq, Eq, Structural, Debug)]
pub enum PassEvent {
    GBufferPass { scene_index: usize, draws: usize },
    LightingPass { scene_index: usize, lights: usize },
    ParticlePass { draws: usize },
    SpritePass { draws: usize },
    FinalBlit { triangles: usize },
    UiPass { commands: usize },
    Present { succeeded: bool },
    Diagnostic { code: u32 },
}

/// What the host hands the renderer about one frame: monotonic clock
/// readings taken at the frame's start, after the passes, and after the
/// buffer swap; the swap's outcome; and the driver's pending error code. A
/// failed swap and a nonzero code are recorded, never fatal.
#[derive(Clone, Copy, PartialEq, Eq, Structural, Debug)]
pub struct FrameContext {
    pub begin_time_ms: u64,
    pub end_time_ms: u64,
    pub finalize_time_ms: u64,
    pub swap_succeeded: bool,
    pub diagnostic_code: u32,
}

impl FrameContext {
    /// The three clock readings were taken in order.
    pub open spec fn wf(self) -> bool {
        self.begin_time_ms <= self.end_time_ms <= self.finalize_time_ms
    }
}

/// The abstract value of a renderer.
pub ghost struct RendererView {
    pub frame_size: (u32, u32),
    pub ambient_color: Color,
    pub statistics: Statistics,
    pub white_dummy: u64,
    pub normal_dummy: u64,
    pub white_texels: Seq<u8>,
    pub normal_texels: Seq<u8>,
    pub gbuffer_program: u64,
    pub gbuffer_color: u64,
    pub gbuffer_normal: u64,
    pub gbuffer_depth: u64,
    pub gbuffer_frame: u64,
    pub gbuffer_width: u32,
    pub gbuffer_height: u32,
    pub trace: Seq<PassEvent>,
}

/// Per-scene frame events: each scene with a camera contributes one
/// geometry pass and one lighting pass, in scene order; a scene without a
/// camera contributes nothing.
pub open spec fn spec_scene_events(scenes: Seq<Scene>, white: u64, normal: u64) -> Seq<PassEvent>
    decreases scenes.len(),
{
    if scenes.len() == 0 {
        Seq::empty()
    } else {
        let prefix = spec_scene_events(scenes.drop_last(), white, normal);
        let nodes = scenes.last().nodes@;
        match spec_find_camera(nodes) {
            Some(camera) => prefix + seq![
                PassEvent::GBufferPass {
                    scene_index: (scenes.len() - 1) as usize,
                    draws: spec_gbuffer_draws(nodes, camera, white, normal).len() as usize,
                },
                PassEvent::LightingPass {
                    scene_index: (scenes.len() - 1) as usize,
                    lights: spec_light_draws(nodes, camera).len() as usize,
                },
            ],
            None => prefix,
        }
    }
}

/// Frame events up to and including the final blit.
pub open spec fn spec_pre_ui_trace(scenes: Seq<Scene>, white: u64, normal: u64) -> Seq<PassEvent> {
    spec_scene_events(scenes, white, normal) + seq![
        PassEvent::ParticlePass { draws: spec_particle_draws(scenes, white).len() as usize },
        PassEvent::SpritePass { draws: spec_sprite_draws(scenes, white).len() as usize },
        PassEvent::FinalBlit { triangles: 2 },
    ]
}

/// The full trace of a completed frame; `ui_commands` is how many UI
/// commands were replayed (all of them on a successful UI pass, those
/// before the first invalid reference otherwise).
pub open spec fn spec_frame_trace(
    scenes: Seq<Scene>,
    white: u64,
    normal: u64,
    ui_commands: int,
    swap_succeeded: bool,
    diagnostic_code: u32,
) -> Seq<PassEvent> {
    spec_pre_ui_trace(scenes, white, normal) + seq![
        PassEvent::UiPass { commands: ui_commands as usize },
        PassEvent::Present { succeeded: swap_succeeded },
    ] + (if diagnostic_code != NO_ERROR {
        seq![PassEvent::Diagnostic { code: diagnostic_code }]
    } else {
        Seq::<PassEvent>::empty()
    })
}

/// Transition: the frame target was recreated at the new size. The new
/// targets are allocated at exactly that size, the previous targets are
/// fully released, the allocated-object count is unchanged, and every
/// unrelated resource survives; nothing else about the renderer changed.
pub open spec fn spec_resized(
    pre: RendererView,
    post: RendererView,
    bpre: BackendView,
    bpost: BackendView,
    width: u32,
    height: u32,
) -> bool {
    &&& post.frame_size == (width, height)
    &&& post.gbuffer_width == width && post.gbuffer_height == height
    &&& spec_has_record(
        bpost.textures,
        spec_target_record(post.gbuffer_color, width, height, PixelKind::RGBA8),
    )
    &&& spec_has_record(
        bpost.textures,
        spec_target_record(post.gbuffer_normal, width, height, PixelKind::RGBA8),
    )
    &&& spec_has_record(
        bpost.textures,
        spec_target_record(post.gbuffer_depth, width, height, PixelKind::D24),
    )
    &&& spec_has_record(
        bpost.textures,
        spec_target_record(post.gbuffer_frame, width, height, PixelKind::RGBA8),
    )
    &&& !spec_texture_alive(bpost.textures, pre.gbuffer_color)
    &&& !spec_texture_alive(bpost.textures, pre.gbuffer_normal)
    &&& !spec_texture_alive(bpost.textures, pre.gbuffer_depth)
    &&& !spec_texture_alive(bpost.textures, pre.gbuffer_frame)
    &&& !spec_program_alive(bpost.programs, pre.gbuffer_program)
    &&& bpost.textures.len() == bpre.textures.len()
    &&& bpost.programs.len() == bpre.programs.len()
    &&& forall|r: TextureRecord|
        spec_has_record(bpre.textures, r) && r.id != pre.gbuffer_color && r.id
            != pre.gbuffer_normal && r.id != pre.gbuffer_depth && r.id != pre.gbuffer_frame
            ==> spec_has_record(bpost.textures, r)
    &&& post.ambient_color == pre.ambient_color
    &&& post.statistics == pre.statistics
    &&& post.white_dummy == pre.white_dummy
    &&& post.normal_dummy == pre.normal_dummy
    &&& post.white_texels == pre.white_texels
    &&& post.normal_texels == pre.normal_texels
    &&& post.trace == pre.trace
}

/// Transition: a render call leaves every allocated object and the frame
/// target untouched; only bindings, uniforms, statistics and the trace
/// move.
pub open spec fn spec_frame_preserves(
    pre: RendererView,
    post: RendererView,
    bpre: BackendView,
    bpost: BackendView,
) -> bool {
    &&& post.frame_size == pre.frame_size
    &&& post.ambient_color == pre.ambient_color
    &&& post.white_dummy == pre.white_dummy
    &&& post.normal_dummy == pre.normal_dummy
    &&& post.white_texels == pre.white_texels
    &&& post.normal_texels == pre.normal_texels
    &&& post.gbuffer_program == pre.gbuffer_program
    &&& post.gbuffer_color == pre.gbuffer_color
    &&& post.gbuffer_normal == pre.gbuffer_normal
    &&& post.gbuffer_depth == pre.gbuffer_depth
    &&& post.gbuffer_frame == pre.gbuffer_frame
    &&& post.gbuffer_width == pre.gbuffer_width
    &&& post.gbuffer_height == pre.gbuffer_height
    &&& bpost.textures == bpre.textures
    &&& bpost.programs == bpre.programs
    &&& bpost.next_id == bpre.next_id
}

/// The frame renderer.
pub struct Renderer {
    deferred_light_renderer: DeferredLightRenderer,
    gbuffer: GBuffer,
    flat_shader: FlatShader,
    sprite_renderer: SpriteRenderer,
    particle_system_renderer: ParticleSystemRenderer,
    /// Dummy white one-pixel texture, the stand-in when rendering something
    /// without a texture.
    white_dummy: GpuTexture,
    /// Dummy one-pixel flat-normal texture, the stand-in when rendering
    /// something without a normal map.
    normal_dummy: GpuTexture,
    ui_renderer: UIRenderer,
    statistics: Statistics,
    quad: SurfaceSharedData,
    frame_size: (u32, u32),
    ambient_color: Color,
    frame_trace: Vec<PassEvent>,
}

impl View for Renderer {
    type V = RendererView;

    closed spec fn view(&self) -> RendererView {
        RendererView {
            frame_size: self.frame_size,
            ambient_color: self.ambient_color,
            statistics: self.statistics,
            white_dummy: self.white_dummy.id,
            normal_dummy: self.normal_dummy.id,
            white_texels: self.white_dummy.data@,
            normal_texels: self.normal_dummy.data@,
            gbuffer_program: self.gbuffer.program.id,
            gbuffer_color: self.gbuffer.color_texture,
            gbuffer_normal: self.gbuffer.normal_texture,
            gbuffer_depth: self.gbuffer.depth_texture,
            gbuffer_frame: self.gbuffer.frame_texture,
            gbuffer_width: self.gbuffer.width,
            gbuffer_height: self.gbuffer.height,
            trace: self.frame_trace@,
        }
    }
}

impl Renderer {
    /// Everything the renderer owns is allocated in the backend: the frame
    /// target with its pass, every pass program (all distinct), both dummy
    /// textures, and the unit quad used for the final blit.
    pub closed spec fn wf(self, v: BackendView) -> bool {
        &&& self.gbuffer.wf(v)
        &&& self.deferred_light_renderer.wf(v)
        &&& self.sprite_renderer.wf(v)
        &&& self.particle_system_renderer.wf(v)
        &&& self.ui_renderer.wf(v)
        &&& spec_program_alive(v.programs, self.flat_shader.program.id)
        &&& spec_has_record(v.textures, spec_target_record(self.white_dummy.id, 1, 1, PixelKind::RGBA8))
        &&& spec_has_record(v.textures, spec_target_record(self.normal_dummy.id, 1, 1, PixelKind::RGBA8))
        &&& self.quad.wf()
        &&& self.quad.triangles@.len() == 2
        &&& self.gbuffer.program.id != self.deferred_light_renderer.program.id
        &&& self.gbuffer.program.id != self.flat_shader.program.id
        &&& self.gbuffer.program.id != self.sprite_renderer.program.id
        &&& self.gbuffer.program.id != self.ui_renderer.program.id
        &&& self.gbuffer.program.id != self.particle_system_renderer.program.id
        &&& self.white_dummy.id != self.gbuffer.color_texture
        &&& self.white_dummy.id != self.gbuffer.normal_texture
        &&& self.white_dummy.id != self.gbuffer.depth_texture
        &&& self.white_dummy.id != self.gbuffer.frame_texture
        &&& self.normal_dummy.id != self.gbuffer.color_texture
        &&& self.normal_dummy.id != self.gbuffer.normal_texture
        &&& self.normal_dummy.id != self.gbuffer.depth_texture
        &&& self.normal_dummy.id != self.gbuffer.frame_texture
    }

    /// Builds every pass and both dummy textures; fails fast, with nothing
    /// usable, if the frame target cannot be created (zero-sized frame) —
    /// the renderer is never half-initialized. Enables depth testing.
    pub fn new(backend: &mut Backend, frame_size: (u32, u32)) -> (r: Result<Renderer, RendererError>)
        requires
            old(backend).inv(),
            old(backend)@.next_id + RENDERER_STARTUP_OBJECTS <= u64::MAX,
        ensures
            final(backend).inv(),
            (r is Ok) <==> frame_size.0 > 0 && frame_size.1 > 0,
            r matches Ok(renderer) ==> {
                &&& renderer.wf(final(backend)@)
                &&& renderer@.frame_size == frame_size
                &&& renderer@.gbuffer_width == frame_size.0
                &&& renderer@.gbuffer_height == frame_size.1
                &&& renderer@.ambient_color == (Color { r: 100, g: 100, b: 100, a: 255 })
                &&& renderer@.statistics == Statistics::spec_default()
                &&& renderer@.trace.len() == 0
                &&& spec_has_record(
                    final(backend)@.textures,
                    spec_target_record(renderer@.white_dummy, 1, 1, PixelKind::RGBA8),
                )
                &&& spec_has_record(
                    final(backend)@.textures,
                    spec_target_record(renderer@.normal_dummy, 1, 1, PixelKind::RGBA8),
                )
                &&& renderer@.white_dummy != renderer@.normal_dummy
                &&& renderer@.white_texels == seq![255u8, 255u8, 255u8, 255u8]
                &&& renderer@.normal_texels == seq![128u8, 128u8, 255u8, 255u8]
                &&& final(backend)@.textures.len() == old(backend)@.textures.len() + 6
                &&& final(backend)@.programs.len() == old(backend)@.programs.len() + 6
                &&& final(backend)@.next_id == old(backend)@.next_id + RENDERER_STARTUP_OBJECTS
                &&& final(backend)@.depth_test == true
                &&& forall|rec: TextureRecord|
                    spec_has_record(old(backend)@.textures, rec) ==> spec_has_record(
                        final(backend)@.textures,
                        rec,
                    )
                &&& forall|id: u64|
                    spec_program_alive(old(backend)@.programs, id) ==> spec_program_alive(
                        final(backend)@.programs,
                        id,
                    )
            },
            r is Err ==> {
                &&& r == Err::<Renderer, RendererError>(RendererError::FrameResource {
                    width: frame_size.0,
                    height: frame_size.1,
                })
                &&& final(backend)@ == old(backend)@.with_depth_test(true).with_programs(
                    old(backend)@.programs.push(old(backend)@.next_id).push(
                        (old(backend)@.next_id + 1) as u64,
                    ),
                ).with_next_id((old(backend)@.next_id + 2) as u64)
            },
    {
        backend.set_depth_test(true);
        let deferred_light_renderer = DeferredLightRenderer::new(backend)?;
        let flat_shader = FlatShader::new(backend)?;
        let ghost b2 = backend@;
        let gbuffer = GBuffer::new(backend, frame_size)?;
        let statistics = Statistics::default();
        let sprite_renderer = SpriteRenderer::new(backend)?;
        let white_bytes: Vec<u8> = vec![255, 255, 255, 255];
        let white_dummy = match GpuTexture::new(
            backend,
            GpuTextureKind::Rectangle { width: 1, height: 1 },
            PixelKind::RGBA8,
            &white_bytes,
            false,
        ) {
            Ok(t) => t,
            Err(e) => {
                proof {
                    assert(false);
                }
                return Err(e);
            },
        };
        let normal_bytes: Vec<u8> = vec![128, 128, 255, 255];
        let normal_dummy = match GpuTexture::new(
            backend,
            GpuTextureKind::Rectangle { width: 1, height: 1 },
            PixelKind::RGBA8,
            &normal_bytes,
            false,
        ) {
            Ok(t) => t,
            Err(e) => {
                proof {
                    assert(false);
                }
                return Err(e);
            },
        };
        proof {
            assert(white_bytes@ =~= seq![255u8, 255u8, 255u8, 255u8]);
            assert(normal_bytes@ =~= seq![128u8, 128u8, 255u8, 255u8]);
        }
        let quad = SurfaceSharedData::make_unit_xy_quad();
        let ui_renderer = UIRenderer::new(backend)?;
        let particle_system_renderer = ParticleSystemRenderer::new(backend)?;
        proof {
            lemma_push_preserves_programs(
                old(backend)@.programs,
                deferred_light_renderer.program.id,
            );
            lemma_push_preserves_programs(
                old(backend)@.programs.push(deferred_light_renderer.program.id),
                flat_shader.program.id,
            );
            lemma_push_preserves_programs(b2.programs, gbuffer.program.id);
            let b3 = b2.with_programs(b2.programs.push(gbuffer.program.id));
            lemma_push_preserves_programs(b3.programs, sprite_renderer.program.id);
            let p4 = b3.programs.push(sprite_renderer.program.id);
            lemma_push_preserves_programs(p4, ui_renderer.program.id);
            lemma_push_preserves_programs(p4.push(ui_renderer.program.id), particle_system_renderer.program.id);
            let t2 = b2.textures;
            let g1 = spec_target_record(gbuffer.color_texture, frame_size.0, frame_size.1, PixelKind::RGBA8);
            let g2 = spec_target_record(gbuffer.normal_texture, frame_size.0, frame_size.1, PixelKind::RGBA8);
            let g3 = spec_target_record(gbuffer.depth_texture, frame_size.0, frame_size.1, PixelKind::D24);
            let g4 = spec_target_record(gbuffer.frame_texture, frame_size.0, frame_size.1, PixelKind::RGBA8);
            lemma_push_preserves_records(t2, g1);
            lemma_push_preserves_records(t2.push(g1), g2);
            lemma_push_preserves_records(t2.push(g1).push(g2), g3);
            lemma_push_preserves_records(t2.push(g1).push(g2).push(g3), g4);
            let t6 = t2.push(g1).push(g2).push(g3).push(g4);
            let w = spec_target_record(white_dummy.id, 1, 1, PixelKind::RGBA8);
            let n = spec_target_record(normal_dummy.id, 1, 1, PixelKind::RGBA8);
            lemma_push_preserves_records(t6, w);
            lemma_push_preserves_records(t6.push(w), n);
        }
        Ok(Renderer {
            deferred_light_renderer,
            gbuffer,
            flat_shader,
            sprite_renderer,
            particle_system_renderer,
            white_dummy,
            normal_dummy,
            ui_renderer,
            statistics,
            quad,
            frame_size,
            ambient_color: Color::opaque(100, 100, 100),
            frame_trace: Vec::new(),
        })
    }

    /// The ambient color the lighting pass seeds each frame with; any value
    /// is accepted.
    pub fn set_ambient_color(&mut self, color: Color)
        ensures
            final(self)@ == (RendererView { ambient_color: color, ..old(self)@ }),
    {
        self.ambient_color = color;
    }

    pub fn get_ambient_color(&self) -> (color: Color)
        ensures
            color == self@.ambient_color,
    {
        self.ambient_color
    }

    /// A copy of the timing statistics; read-only for callers.
    pub fn get_statistics(&self) -> (statistics: Statistics)
        ensures
            statistics == self@.statistics,
    {
        self.statistics
    }

    /// What the most recent render call did, pass by pass.
    pub fn get_frame_trace(&self) -> (trace: &Vec<PassEvent>)
        ensures
            trace@ == self@.trace,
    {
        &self.frame_trace
    }

    pub fn get_frame_size(&self) -> (size: (u32, u32))
        ensures
            size == self@.frame_size,
    {
        self.frame_size
    }

    /// Recreates the frame target at the new size; must be called on a
    /// resize notification before the next render, or rendering uses stale
    /// dimensions. On success the previous target is fully released — the
    /// allocated-object count is unchanged. On failure (zero-sized frame)
    /// nothing changes: the previous target and size stay active, and the
    /// call can be retried with different parameters.
    pub fn set_frame_size(
        &mut self,
        backend: &mut Backend,
        new_size: (u32, u32),
    ) -> (r: Result<(), RendererError>)
        requires
            old(backend).inv(),
            old(self).wf(old(backend)@),
            old(backend)@.next_id + FRAME_TARGET_OBJECTS <= u64::MAX,
        ensures
            final(backend).inv(),
            final(self).wf(final(backend)@),
            (r is Ok) <==> new_size.0 > 0 && new_size.1 > 0,
            r is Ok ==> spec_resized(
                old(self)@,
                final(self)@,
                old(backend)@,
                final(backend)@,
                new_size.0,
                new_size.1,
            ),
            r is Err ==> {
                &&& final(self)@ == old(self)@
                &&& *final(self) == *old(self)
                &&& final(backend)@ == old(backend)@
                &&& r == Err::<(), RendererError>(RendererError::FrameResource {
                    width: new_size.0,
                    height: new_size.1,
                })
            },
    {
        let new_gbuffer = match GBuffer::new(backend, new_size) {
            Ok(g) => g,
            Err(e) => {
                return Err(e);
            },
        };
        proof {
            // the old target's records and programs survive the five pushes
            let pre = old(backend)@;
            lemma_push_preserves_programs(pre.programs, new_gbuffer.program.id);
            let t0 = pre.textures;
            let g1 = spec_target_record(new_gbuffer.color_texture, new_size.0, new_size.1, PixelKind::RGBA8);
            let g2 = spec_target_record(new_gbuffer.normal_texture, new_size.0, new_size.1, PixelKind::RGBA8);
            let g3 = spec_target_record(new_gbuffer.depth_texture, new_size.0, new_size.1, PixelKind::D24);
            let g4 = spec_target_record(new_gbuffer.frame_texture, new_size.0, new_size.1, PixelKind::RGBA8);
            lemma_push_preserves_records(t0, g1);
            lemma_push_preserves_records(t0.push(g1), g2);
            lemma_push_preserves_records(t0.push(g1).push(g2), g3);
            lemma_push_preserves_records(t0.push(g1).push(g2).push(g3), g4);
            // the old target's ids are below the old id counter, the new
            // ones at or above it: releasing the old cannot touch the new
            lemma_has_record_alive(
                pre.textures,
                spec_target_record(old(self).gbuffer.color_texture, old(self).gbuffer.width, old(self).gbuffer.height, PixelKind::RGBA8),
            );
            lemma_has_record_alive(
                pre.textures,
                spec_target_record(old(self).gbuffer.normal_texture, old(self).gbuffer.width, old(self).gbuffer.height, PixelKind::RGBA8),
            );
            lemma_has_record_alive(
                pre.textures,
                spec_target_record(old(self).gbuffer.depth_texture, old(self).gbuffer.width, old(self).gbuffer.height, PixelKind::D24),
            );
            lemma_has_record_alive(
                pre.textures,
                spec_target_record(old(self).gbuffer.frame_texture, old(self).gbuffer.width, old(self).gbuffer.height, PixelKind::RGBA8),
            );
            assert forall|id: u64| spec_texture_alive(pre.textures, id) implies id
                < pre.next_id by {
                let k = choose|k: int| 0 <= k < pre.textures.len() && pre.textures[k].id == id;
            }
            assert forall|id: u64| spec_program_alive(pre.programs, id) implies id
                < pre.next_id by {
                let k = choose|k: int| 0 <= k < pre.programs.len() && pre.programs[k] == id;
            }
        }
        let ghost mid = backend@;
        let old_gbuffer_color = self.gbuffer.color_texture;
        let old_gbuffer_normal = self.gbuffer.normal_texture;
        let old_gbuffer_depth = self.gbuffer.depth_texture;
        let old_gbuffer_frame = self.gbuffer.frame_texture;
        self.gbuffer.release(backend);
        proof {
            // the new target's records survive the release of the old one
            assert(spec_has_record(
                backend@.textures,
                spec_target_record(new_gbuffer.color_texture, new_size.0, new_size.1, PixelKind::RGBA8),
            ));
            assert(spec_has_record(
                backend@.textures,
                spec_target_record(new_gbuffer.normal_texture, new_size.0, new_size.1, PixelKind::RGBA8),
            ));
            assert(spec_has_record(
                backend@.textures,
                spec_target_record(new_gbuffer.depth_texture, new_size.0, new_size.1, PixelKind::D24),
            ));
            assert(spec_has_record(
                backend@.textures,
                spec_target_record(new_gbuffer.frame_texture, new_size.0, new_size.1, PixelKind::RGBA8),
            ));
        }
        self.gbuffer = new_gbuffer;
        self.frame_size = new_size;
        Ok(())
    }

    /// Claims every loaded texture resource that is not yet GPU-resident:
    /// uploads it, raises its filtering to maximum anisotropy and records
    /// the texture id on the resource. Already-resident resources are
    /// untouched — the operation is idempotent and safe to call every
    /// frame. Callable only between frames.
    pub fn upload_resources(
        &mut self,
        backend: &mut Backend,
        resource_manager: &mut crate::resource_manager::ResourceManager,
    )
        requires
            old(backend).inv(),
            old(self).wf(old(backend)@),
            forall|k: int|
                0 <= k < old(resource_manager).textures@.len() && old(
                    resource_manager,
                ).textures@[k].gpu_tex is None
                    ==> crate::resource_manager::spec_texture_resource_valid(
                    old(resource_manager).textures@[k],
                ),
            old(backend)@.next_id + old(resource_manager).textures@.len() <= u64::MAX,
        ensures
            final(backend).inv(),
            final(self).wf(final(backend)@),
            *final(self) == *old(self),
            final(resource_manager).textures@ == crate::resource_manager::spec_upload_result(
                old(resource_manager).textures@,
                old(backend)@.next_id,
            ),
            final(backend)@.textures == old(backend)@.textures
                + crate::resource_manager::spec_uploaded_records(
                old(resource_manager).textures@,
                old(backend)@.next_id,
            ),
            final(backend)@.next_id == old(backend)@.next_id
                + crate::resource_manager::spec_uploads_needed(old(resource_manager).textures@),
            final(backend)@.programs == old(backend)@.programs,
            final(backend)@.bound_program == old(backend)@.bound_program,
            final(backend)@.bound_framebuffer == old(backend)@.bound_framebuffer,
            final(backend)@.viewport == old(backend)@.viewport,
            final(backend)@.depth_test == old(backend)@.depth_test,
            final(backend)@.uniform_wvp == old(backend)@.uniform_wvp,
            final(backend)@.uniform_texture_unit == old(backend)@.uniform_texture_unit,
            final(backend)@.uniform_color == old(backend)@.uniform_color,
    {
        let ghost old_ts = resource_manager.textures@;
        let ghost first_id = backend@.next_id;
        let n = resource_manager.textures.len();
        let mut i: usize = 0;
        proof {
            assert(old_ts.take(0int) =~= Seq::<crate::resource_manager::TextureResource>::empty());
            assert(old_ts.skip(0int) =~= old_ts);
            assert(crate::resource_manager::spec_upload_result(old_ts.take(0int), first_id)
                + old_ts.skip(0int) =~= old_ts);
            assert(backend@.textures =~= backend@.textures
                + crate::resource_manager::spec_uploaded_records(old_ts.take(0int), first_id));
        }
        while i < n
            invariant
                n == old_ts.len(),
                i <= n,
                backend.inv(),
                resource_manager.textures@ == crate::resource_manager::spec_upload_result(
                    old_ts.take(i as int),
                    first_id,
                ) + old_ts.skip(i as int),
                resource_manager.textures@.len() == n,
                backend@.textures == old(backend)@.textures
                    + crate::resource_manager::spec_uploaded_records(
                    old_ts.take(i as int),
                    first_id,
                ),
                backend@.next_id == first_id + crate::resource_manager::spec_uploads_needed(
                    old_ts.take(i as int),
                ),
                backend@.programs == old(backend)@.programs,
                backend@.bound_program == old(backend)@.bound_program,
                backend@.bound_framebuffer == old(backend)@.bound_framebuffer,
                backend@.viewport == old(backend)@.viewport,
                backend@.depth_test == old(backend)@.depth_test,
                backend@.uniform_wvp == old(backend)@.uniform_wvp,
                backend@.uniform_texture_unit == old(backend)@.uniform_texture_unit,
                backend@.uniform_color == old(backend)@.uniform_color,
                first_id == old(backend)@.next_id,
                first_id + n <= u64::MAX,
                forall|k: int|
                    0 <= k < n && old_ts[k].gpu_tex is None
                        ==> crate::resource_manager::spec_texture_resource_valid(old_ts[k]),
                forall|k: int| i <= k < n ==> resource_manager.textures@[k] == old_ts[k],
                *self == *old(self),
            decreases n - i,
        {
            proof {
                crate::resource_manager::lemma_uploads_needed_bounds(old_ts.take(i as int));
                assert(old_ts.take(i as int + 1).drop_last() =~= old_ts.take(i as int));
                assert(old_ts.take(i as int + 1).last() == old_ts[i as int]);
            }
            let resident = match resource_manager.textures[i].gpu_tex {
                Some(_) => true,
                None => false,
            };
            if !resident {
                let mut taken = crate::resource_manager::TextureResource {
                    width: 0,
                    height: 0,
                    kind: crate::resource_manager::TextureResourceKind::Grayscale,
                    bytes: Vec::new(),
                    gpu_tex: None,
                };
                resource_manager.textures.set_and_swap(i, &mut taken);
                let ghost pre_create = backend@;
                let texture = match GpuTexture::new(
                    backend,
                    GpuTextureKind::Rectangle { width: taken.width, height: taken.height },
                    taken.kind.pixel_kind(),
                    &taken.bytes,
                    true,
                ) {
                    Ok(t) => t,
                    Err(_) => {
                        proof {
                            assert(false);
                        }
                        return ;
                    },
                };
                proof {
                    assert(!spec_texture_alive(pre_create.textures, texture.id)) by {
                        if spec_texture_alive(pre_create.textures, texture.id) {
                            let k = choose|k: int|
                                0 <= k < pre_create.textures.len() && pre_create.textures[k].id
                                    == texture.id;
                        }
                    }
                    crate::backend::lemma_index_of_fresh(
                        pre_create.textures,
                        TextureRecord {
                            id: texture.id,
                            kind: GpuTextureKind::Rectangle { width: taken.width, height: taken.height },
                            pixel_kind: taken.kind.spec_pixel_kind(),
                            mipmaps: true,
                            max_anisotropy: false,
                        },
                    );
                    assert(spec_texture_alive(backend@.textures, texture.id)) by {
                        assert(backend@.textures[pre_create.textures.len() as int].id
                            == texture.id);
                    }
                }
                texture.set_max_anisotropy(backend);
                proof {
                    let created = TextureRecord {
                        id: texture.id,
                        kind: GpuTextureKind::Rectangle { width: taken.width, height: taken.height },
                        pixel_kind: taken.kind.spec_pixel_kind(),
                        mipmaps: true,
                        max_anisotropy: false,
                    };
                    let finished = TextureRecord { max_anisotropy: true, ..created };
                    assert(backend@.textures =~= pre_create.textures.push(finished));
                    assert(pre_create.textures.push(finished) =~= old(backend)@.textures
                        + crate::resource_manager::spec_uploaded_records(
                        old_ts.take(i as int),
                        first_id,
                    ).push(finished));
                    assert(crate::resource_manager::spec_uploaded_records(
                        old_ts.take(i as int + 1),
                        first_id,
                    ) =~= crate::resource_manager::spec_uploaded_records(
                        old_ts.take(i as int),
                        first_id,
                    ).push(finished));
                }
                taken.gpu_tex = Some(texture.id);
                resource_manager.textures.set_and_swap(i, &mut taken);
                proof {
                    assert(resource_manager.textures@ =~= crate::resource_manager::spec_upload_result(
                        old_ts.take(i as int + 1),
                        first_id,
                    ) + old_ts.skip(i as int + 1));
                }
            } else {
                proof {
                    assert(resource_manager.textures@ =~= crate::resource_manager::spec_upload_result(
                        old_ts.take(i as int + 1),
                        first_id,
                    ) + old_ts.skip(i as int + 1));
                    assert(backend@.textures =~= old(backend)@.textures
                        + crate::resource_manager::spec_uploaded_records(
                        old_ts.take(i as int + 1),
                        first_id,
                    ));
                }
            }
            i = i + 1;
        }
        proof {
            assert(old_ts.take(n as int) =~= old_ts);
            assert(old_ts.skip(n as int) =~= Seq::<crate::resource_manager::TextureResource>::empty());
            assert(resource_manager.textures@ =~= crate::resource_manager::spec_upload_result(
                old_ts,
                first_id,
            ));
            // the renderer's own records survive the appended uploads
            assert forall|r: TextureRecord|
                spec_has_record(old(backend)@.textures, r) implies spec_has_record(
                backend@.textures,
                r,
            ) by {
                let k = choose|k: int|
                    0 <= k < old(backend)@.textures.len() && old(backend)@.textures[k] == r;
                assert(backend@.textures[k] == r);
            }
        }
    }

    /// Runs the geometry and lighting passes for every scene that has a
    /// camera, appending their events to the frame trace; scenes without a
    /// camera are skipped entirely.
    #[verifier::rlimit(100)]
    fn run_scene_passes(
        &mut self,
        backend: &mut Backend,
        scenes: &SceneContainer,
        white: &GpuTexture,
        normal: &GpuTexture,
    )
        requires
            old(backend).inv(),
            old(self).wf(old(backend)@),
            spec_texture_alive(old(backend)@.textures, white.id),
        ensures
            final(backend).inv(),
            final(self).wf(final(backend)@),
            final(backend)@.textures == old(backend)@.textures,
            final(backend)@.programs == old(backend)@.programs,
            final(backend)@.next_id == old(backend)@.next_id,
            final(self).frame_trace@ == old(self).frame_trace@ + spec_scene_events(
                scenes.scenes@,
                white.id,
                normal.id,
            ),
            final(self).statistics == old(self).statistics,
            final(self).frame_size == old(self).frame_size,
            final(self).ambient_color == old(self).ambient_color,
            final(self).white_dummy == old(self).white_dummy,
            final(self).normal_dummy == old(self).normal_dummy,
            final(self).flat_shader == old(self).flat_shader,
            final(self).gbuffer.program == old(self).gbuffer.program,
            final(self).gbuffer.color_texture == old(self).gbuffer.color_texture,
            final(self).gbuffer.normal_texture == old(self).gbuffer.normal_texture,
            final(self).gbuffer.depth_texture == old(self).gbuffer.depth_texture,
            final(self).gbuffer.frame_texture == old(self).gbuffer.frame_texture,
            final(self).gbuffer.width == old(self).gbuffer.width,
            final(self).gbuffer.height == old(self).gbuffer.height,
    {
        let ghost trace0 = self.frame_trace@;
        let n_scenes = scenes.scenes.len();
        let mut s: usize = 0;
        proof {
            assert(scenes.scenes@.take(0int) =~= Seq::<Scene>::empty());
            assert(self.frame_trace@ =~= trace0 + spec_scene_events(
                scenes.scenes@.take(0int),
                white.id,
                normal.id,
            ));
        }
        while s < n_scenes
            invariant
                n_scenes == scenes.scenes@.len(),
                s <= n_scenes,
                backend.inv(),
                self.wf(backend@),
                backend@.textures == old(backend)@.textures,
                backend@.programs == old(backend)@.programs,
                backend@.next_id == old(backend)@.next_id,
                spec_texture_alive(backend@.textures, white.id),
                self.frame_trace@ == trace0 + spec_scene_events(
                    scenes.scenes@.take(s as int),
                    white.id,
                    normal.id,
                ),
                self.statistics == old(self).statistics,
                self.frame_size == old(self).frame_size,
                self.ambient_color == old(self).ambient_color,
                self.white_dummy == old(self).white_dummy,
                self.normal_dummy == old(self).normal_dummy,
                self.flat_shader == old(self).flat_shader,
                self.gbuffer.program == old(self).gbuffer.program,
                self.gbuffer.color_texture == old(self).gbuffer.color_texture,
                self.gbuffer.normal_texture == old(self).gbuffer.normal_texture,
                self.gbuffer.depth_texture == old(self).gbuffer.depth_texture,
                self.gbuffer.frame_texture == old(self).gbuffer.frame_texture,
                self.gbuffer.width == old(self).gbuffer.width,
                self.gbuffer.height == old(self).gbuffer.height,
            decreases n_scenes - s,
        {
            proof {
                assert(scenes.scenes@.take(s as int + 1).drop_last() =~= scenes.scenes@.take(
                    s as int,
                ));
                assert(scenes.scenes@.take(s as int + 1).last() == scenes.scenes@[s as int]);
            }
            let scene = &scenes.scenes[s];
            match scene.find_camera() {
                Some(camera) => {
                    self.gbuffer.fill(backend, scene, &camera, white, normal);
                    self.deferred_light_renderer.render(
                        backend,
                        scene,
                        &camera,
                        &self.gbuffer,
                        white,
                        self.ambient_color,
                    );
                    let gbuffer_draws = self.gbuffer.draws.len();
                    let lights = self.deferred_light_renderer.light_draws.len();
                    let gbuffer_event = PassEvent::GBufferPass {
                        scene_index: s,
                        draws: gbuffer_draws,
                    };
                    let lighting_event = PassEvent::LightingPass { scene_index: s, lights };
                    self.frame_trace.push(gbuffer_event);
                    self.frame_trace.push(lighting_event);
                    proof {
                        assert(self.frame_trace@ =~= trace0 + (spec_scene_events(
                            scenes.scenes@.take(s as int),
                            white.id,
                            normal.id,
                        ) + seq![gbuffer_event, lighting_event]));
                    }
                },
                None => {},
            }
            s = s + 1;
        }
        proof {
            assert(scenes.scenes@.take(n_scenes as int) =~= scenes.scenes@);
        }
    }

    /// Runs the particle and sprite passes across all scenes — particles
    /// first, so sprites are not soft-occluded by particle depth blending —
    /// then composites the lit frame onto the back buffer with the flat
    /// shader.
    #[verifier::rlimit(100)]
    fn run_composite_passes(&mut self, backend: &mut Backend, scenes: &SceneContainer, white: &GpuTexture)
        requires
            old(backend).inv(),
            old(self).wf(old(backend)@),
        ensures
            final(backend).inv(),
            final(self).wf(final(backend)@),
            final(backend)@.textures == old(backend)@.textures,
            final(backend)@.programs == old(backend)@.programs,
            final(backend)@.next_id == old(backend)@.next_id,
            final(self).frame_trace@ == old(self).frame_trace@ + seq![
                PassEvent::ParticlePass {
                    draws: spec_particle_draws(scenes.scenes@, white.id).len() as usize,
                },
                PassEvent::SpritePass {
                    draws: spec_sprite_draws(scenes.scenes@, white.id).len() as usize,
                },
                PassEvent::FinalBlit { triangles: 2 },
            ],
            final(self).statistics == old(self).statistics,
            final(self).frame_size == old(self).frame_size,
            final(self).ambient_color == old(self).ambient_color,
            final(self).white_dummy == old(self).white_dummy,
            final(self).normal_dummy == old(self).normal_dummy,
            final(self).gbuffer.program == old(self).gbuffer.program,
            final(self).gbuffer.color_texture == old(self).gbuffer.color_texture,
            final(self).gbuffer.normal_texture == old(self).gbuffer.normal_texture,
            final(self).gbuffer.depth_texture == old(self).gbuffer.depth_texture,
            final(self).gbuffer.frame_texture == old(self).gbuffer.frame_texture,
            final(self).gbuffer.width == old(self).gbuffer.width,
            final(self).gbuffer.height == old(self).gbuffer.height,
    {
        self.particle_system_renderer.render(backend, scenes, white, &self.gbuffer);
        let particle_draws = self.particle_system_renderer.draws.len();
        self.frame_trace.push(PassEvent::ParticlePass { draws: particle_draws });
        self.sprite_renderer.render(backend, scenes, white);
        let sprite_draws = self.sprite_renderer.draws.len();
        self.frame_trace.push(PassEvent::SpritePass { draws: sprite_draws });
        // composite the lit frame onto the back buffer
        backend.bind_framebuffer(0);
        backend.set_viewport(self.frame_size.0, self.frame_size.1);
        self.flat_shader.bind(backend);
        self.flat_shader.set_wvp_matrix(
            backend,
            FrameMatrix { width: self.frame_size.0, height: self.frame_size.1 },
        );
        self.flat_shader.set_diffuse_texture(backend, 0);
        proof {
            lemma_has_record_alive(
                backend@.textures,
                spec_target_record(
                    self.gbuffer.frame_texture,
                    self.gbuffer.width,
                    self.gbuffer.height,
                    PixelKind::RGBA8,
                ),
            );
        }
        backend.bind_texture(self.gbuffer.frame_texture);
        let triangles = self.quad.draw(backend);
        self.frame_trace.push(PassEvent::FinalBlit { triangles });
        proof {
            assert(self.frame_trace@ =~= old(self).frame_trace@ + seq![
                PassEvent::ParticlePass {
                    draws: spec_particle_draws(scenes.scenes@, white.id).len() as usize,
                },
                PassEvent::SpritePass {
                    draws: spec_sprite_draws(scenes.scenes@, white.id).len() as usize,
                },
                PassEvent::FinalBlit { triangles: 2 },
            ]);
        }
    }

    /// Renders one frame: for each scene with a camera, the geometry pass
    /// and the lighting pass; then the particle pass, the sprite pass, the
    /// final blit of the lit frame onto the back buffer, and the UI
    /// overlay; then the frame is counted, the host's buffer-swap outcome
    /// and any driver diagnostic are recorded, and timing is finalized. A
    /// started frame always runs to the present and is finalized: a failing
    /// UI command abandons only the remaining UI commands and surfaces as
    /// the call's error after the frame completes; a failed swap or a
    /// nonzero diagnostic code is recorded in the trace and never fails the
    /// frame. No resource is allocated or freed.
    #[verifier::rlimit(100)]
    pub fn render(
        &mut self,
        backend: &mut Backend,
        scenes: &SceneContainer,
        drawing_context: &DrawingContext,
        context: &FrameContext,
    ) -> (r: Result<(), RendererError>)
        requires
            old(backend).inv(),
            old(self).wf(old(backend)@),
            context.wf(),
            context.begin_time_ms >= old(self)@.statistics.last_fps_commit_time,
            old(self)@.statistics.frame_counter < usize::MAX,
        ensures
            final(backend).inv(),
            final(self).wf(final(backend)@),
            spec_frame_preserves(old(self)@, final(self)@, old(backend)@, final(backend)@),
            (r is Ok) <==> spec_ui_all_valid(drawing_context.commands@, drawing_context.resources@),
            final(self)@.trace == spec_frame_trace(
                scenes.scenes@,
                old(self)@.white_dummy,
                old(self)@.normal_dummy,
                spec_first_invalid(drawing_context.commands@, drawing_context.resources@),
                context.swap_succeeded,
                context.diagnostic_code,
            ),
            final(self)@.statistics == spec_finalize(
                spec_end_frame(
                    spec_begin_frame(old(self)@.statistics, context.begin_time_ms),
                    context.end_time_ms,
                ),
                context.finalize_time_ms,
            ),
            r is Err ==> r == Err::<(), RendererError>(RendererError::UiRender {
                command_index: spec_first_invalid(
                    drawing_context.commands@,
                    drawing_context.resources@,
                ) as usize,
            }),
    {
        self.statistics.begin_frame(context.begin_time_ms);
        self.frame_trace.clear();
        let white = self.white_dummy;
        let normal = self.normal_dummy;
        proof {
            lemma_has_record_alive(
                backend@.textures,
                spec_target_record(white.id, 1, 1, PixelKind::RGBA8),
            );
        }
        self.run_scene_passes(backend, scenes, &white, &normal);
        proof {
            assert(self.frame_trace@ =~= spec_scene_events(
                scenes.scenes@,
                white.id,
                normal.id,
            ));
        }
        self.run_composite_passes(backend, scenes, &white);
        proof {
            assert(self.frame_trace@ =~= spec_pre_ui_trace(scenes.scenes@, white.id, normal.id));
        }
        proof {
            lemma_has_record_alive(
                backend@.textures,
                spec_target_record(white.id, 1, 1, PixelKind::RGBA8),
            );
        }
        let ui_result = self.ui_renderer.render(
            backend,
            self.frame_size.0,
            self.frame_size.1,
            drawing_context,
            &white,
        );
        let replayed = self.ui_renderer.executed.len();
        self.frame_trace.push(PassEvent::UiPass { commands: replayed });
        self.statistics.end_frame(context.end_time_ms);
        self.frame_trace.push(PassEvent::Present { succeeded: context.swap_succeeded });
        if context.diagnostic_code != NO_ERROR {
            self.frame_trace.push(PassEvent::Diagnostic { code: context.diagnostic_code });
        }
        self.statistics.finalize(context.finalize_time_ms);
        proof {
            assert(self.frame_trace@ =~= spec_frame_trace(
                scenes.scenes@,
                white.id,
                normal.id,
                spec_first_invalid(drawing_context.commands@, drawing_context.resources@),
                context.swap_succeeded,
                context.diagnostic_code,
            ));
        }
        ui_result
    }
}

/// Every geometry or lighting event names a scene the frame actually has.
pub proof fn lemma_scene_events_indices(scenes: Seq<Scene>, white: u64, normal: u64)
    requires
        scenes.len() <= usize::MAX,
    ensures
        forall|k: int|
            0 <= k < spec_scene_events(scenes, white, normal).len()
                ==> match #[trigger] spec_scene_events(scenes, white, normal)[k] {
                PassEvent::GBufferPass { scene_index, .. } => scene_index < scenes.len(),
                PassEvent::LightingPass { scene_index, .. } => scene_index < scenes.len(),
                _ => true,
            },
    decreases scenes.len(),
{
    if scenes.len() > 0 {
        lemma_scene_events_indices(scenes.drop_last(), white, normal);
    }
}

/// A scene without a camera contributes nothing to the frame: no geometry
/// pass and no lighting pass is invoked for it. (That it cannot fail the
/// frame either is part of `render`'s contract: success depends only on the
/// UI command list.)
pub proof fn lemma_scene_without_camera_skipped(
    scenes: Seq<Scene>,
    white: u64,
    normal: u64,
    scene_index: int,
)
    requires
        scenes.len() <= usize::MAX,
        0 <= scene_index < scenes.len(),
        spec_find_camera(scenes[scene_index].nodes@) is None,
    ensures
        forall|k: int|
            0 <= k < spec_scene_events(scenes, white, normal).len()
                ==> match #[trigger] spec_scene_events(scenes, white, normal)[k] {
                PassEvent::GBufferPass { scene_index: i, .. } => i != scene_index,
                PassEvent::LightingPass { scene_index: i, .. } => i != scene_index,
                _ => true,
            },
    decreases scenes.len(),
{
    if scenes.len() > 0 {
        let prefix = spec_scene_events(scenes.drop_last(), white, normal);
        let events = spec_scene_events(scenes, white, normal);
        if scene_index == scenes.len() - 1 {
            lemma_scene_events_indices(scenes.drop_last(), white, normal);
            assert(events == prefix);
            assert forall|k: int| 0 <= k < events.len() implies match #[trigger] events[k] {
                PassEvent::GBufferPass { scene_index: i, .. } => i != scene_index,
                PassEvent::LightingPass { scene_index: i, .. } => i != scene_index,
                _ => true,
            } by {
                assert(events[k] == prefix[k]);
                assert(match prefix[k] {
                    PassEvent::GBufferPass { scene_index: i, .. } => i < scenes.drop_last().len(),
                    PassEvent::LightingPass { scene_index: i, .. } => i < scenes.drop_last().len(),
                    _ => true,
                });
            }
        } else {
            assert(scenes.drop_last()[scene_index] == scenes[scene_index]);
            lemma_scene_without_camera_skipped(scenes.drop_last(), white, normal, scene_index);
            let nodes = scenes.last().nodes@;
            match spec_find_camera(nodes) {
                None => {
                    assert(events == prefix);
                    assert forall|k: int| 0 <= k < events.len() implies match #[trigger] events[k] {
                        PassEvent::GBufferPass { scene_index: i, .. } => i != scene_index,
                        PassEvent::LightingPass { scene_index: i, .. } => i != scene_index,
                        _ => true,
                    } by {
                        assert(events[k] == prefix[k]);
                        assert(match prefix[k] {
                            PassEvent::GBufferPass { scene_index: i, .. } => i != scene_index,
                            PassEvent::LightingPass { scene_index: i, .. } => i != scene_index,
                            _ => true,
                        });
                    }
                },
                Some(camera) => {
                    let tail = seq![
                        PassEvent::GBufferPass {
                            scene_index: (scenes.len() - 1) as usize,
                            draws: spec_gbuffer_draws(nodes, camera, white, normal).len() as usize,
                        },
                        PassEvent::LightingPass {
                            scene_index: (scenes.len() - 1) as usize,
                            lights: spec_light_draws(nodes, camera).len() as usize,
                        },
                    ];
                    assert(events == prefix + tail);
                    assert forall|k: int| 0 <= k < events.len() implies match #[trigger] events[k] {
                        PassEvent::GBufferPass { scene_index: i, .. } => i != scene_index,
                        PassEvent::LightingPass { scene_index: i, .. } => i != scene_index,
                        _ => true,
                    } by {
                        if k < prefix.len() {
                            assert(events[k] == prefix[k]);
                            assert(match prefix[k] {
                                PassEvent::GBufferPass { scene_index: i, .. } => i != scene_index,
                                PassEvent::LightingPass { scene_index: i, .. } => i != scene_index,
                                _ => true,
                            });
                        } else {
                            assert(events[k] == tail[k - prefix.len()]);
                            assert(k - prefix.len() == 0 || k - prefix.len() == 1);
                        }
                    }
                },
            }
        }
    }
}

/// Recreating the frame target and then rendering a frame leaves a frame
/// target of exactly the requested size allocated, the previous target
/// fully released, and the allocated-object count unchanged.
pub proof fn lemma_resize_then_render_target(
    r0: RendererView,
    r1: RendererView,
    r2: RendererView,
    b0: BackendView,
    b1: BackendView,
    b2: BackendView,
    width: u32,
    height: u32,
)
    requires
        width > 0,
        height > 0,
        spec_resized(r0, r1, b0, b1, width, height),
        spec_frame_preserves(r1, r2, b1, b2),
    ensures
        r2.frame_size == (width, height),
        r2.gbuffer_width == width,
        r2.gbuffer_height == height,
        spec_has_record(
            b2.textures,
            spec_target_record(r2.gbuffer_frame, width, height, PixelKind::RGBA8),
        ),
        !spec_texture_alive(b2.textures, r0.gbuffer_color),
        !spec_texture_alive(b2.textures, r0.gbuffer_normal),
        !spec_texture_alive(b2.textures, r0.gbuffer_depth),
        !spec_texture_alive(b2.textures, r0.gbuffer_frame),
        b2.textures.len() == b0.textures.len(),
        b2.programs.len() == b0.programs.len(),
{
}

} // verus!
