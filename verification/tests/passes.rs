use frame_renderer::backend::Backend;
use frame_renderer::backend::BackendDiagnostic;
use frame_renderer::backend::classify_diagnostic;
use frame_renderer::deferred_light_renderer::DeferredLightRenderer;
use frame_renderer::deferred_light_renderer::light_in_range;
use frame_renderer::error::RendererError;
use frame_renderer::error::ShaderStage;
use frame_renderer::gbuffer::GBuffer;
use frame_renderer::gpu_program::GpuProgram;
use frame_renderer::gpu_texture::GpuTexture;
use frame_renderer::gpu_texture::GpuTextureKind;
use frame_renderer::gpu_texture::PixelKind;
use frame_renderer::inspector::EmitterButton;
use frame_renderer::inspector::HandlerAction;
use frame_renderer::inspector::ParticleSystemHandler;
use frame_renderer::inspector::PropertyChange;
use frame_renderer::inspector::SceneCommand;
use frame_renderer::math::Color;
use frame_renderer::math::Vector3;
use frame_renderer::particle_system_renderer::ParticleSystemRenderer;
use frame_renderer::particle_system_renderer::SOFT_BOUNDARY_SHARPNESS_MAX;
use frame_renderer::particle_system_renderer::soft_boundary_falloff;
use frame_renderer::scene::Camera;
use frame_renderer::scene::Emitter;
use frame_renderer::scene::Light;
use frame_renderer::scene::Material;
use frame_renderer::scene::Mesh;
use frame_renderer::scene::Node;
use frame_renderer::scene::ParticleSystem;
use frame_renderer::scene::Scene;
use frame_renderer::scene::SceneContainer;
use frame_renderer::scene::Sprite;
use frame_renderer::sprite_renderer::SpriteRenderer;
use frame_renderer::surface::SurfaceSharedData;
use frame_renderer::surface::TriangleDefinition;

fn camera_box(reach: i32) -> Camera {
    Camera {
        position: Vector3::new(0, 0, 0),
        frustum_min: Vector3::new(-reach, -reach, -reach),
        frustum_max: Vector3::new(reach, reach, reach),
    }
}

fn white_dummy(backend: &mut Backend) -> GpuTexture {
    GpuTexture::new(
        backend,
        GpuTextureKind::Rectangle { width: 1, height: 1 },
        PixelKind::RGBA8,
        &vec![255, 255, 255, 255],
        false,
    )
    .unwrap()
}

fn normal_dummy(backend: &mut Backend) -> GpuTexture {
    GpuTexture::new(
        backend,
        GpuTextureKind::Rectangle { width: 1, height: 1 },
        PixelKind::RGBA8,
        &vec![128, 128, 255, 255],
        false,
    )
    .unwrap()
}

fn particle_system(factor: u32, live: usize) -> ParticleSystem {
    ParticleSystem {
        enabled: true,
        texture: None,
        acceleration: Vector3::new(0, -10, 0),
        soft_boundary_sharpness_factor: factor,
        live_particles: live,
        emitters: vec![Emitter::Sphere],
    }
}

#[test]
fn gbuffer_binds_dummies_for_unset_material_slots() {
    let mut backend = Backend::new();
    let white = white_dummy(&mut backend);
    let normal = normal_dummy(&mut backend);
    let mut gbuffer = GBuffer::new(&mut backend, (64, 64)).unwrap();
    let scene = Scene {
        nodes: vec![
            Node::Mesh(Mesh {
                position: Vector3::new(1, 1, 1),
                material: Material { diffuse_texture: None, normal_texture: None },
                has_geometry: true,
            }),
            Node::Mesh(Mesh {
                position: Vector3::new(2, 2, 2),
                material: Material { diffuse_texture: Some(42), normal_texture: Some(43) },
                has_geometry: true,
            }),
        ],
    };
    gbuffer.fill(&mut backend, &scene, &camera_box(10), &white, &normal);
    assert_eq!(gbuffer.draws.len(), 2);
    // an unset slot is rendered with the dummy stand-in, exactly as an
    // explicit solid-white texture would be
    assert_eq!(gbuffer.draws[0].diffuse_texture, white.id);
    assert_eq!(gbuffer.draws[0].normal_texture, normal.id);
    // a set slot keeps its own texture
    assert_eq!(gbuffer.draws[1].diffuse_texture, 42);
    assert_eq!(gbuffer.draws[1].normal_texture, 43);
}

#[test]
fn gbuffer_skips_culled_and_bufferless_meshes() {
    let mut backend = Backend::new();
    let white = white_dummy(&mut backend);
    let normal = normal_dummy(&mut backend);
    let mut gbuffer = GBuffer::new(&mut backend, (64, 64)).unwrap();
    let scene = Scene {
        nodes: vec![
            // outside the camera frustum: culled
            Node::Mesh(Mesh {
                position: Vector3::new(50, 0, 0),
                material: Material { diffuse_texture: None, normal_texture: None },
                has_geometry: true,
            }),
            // no geometry buffer: skipped, not an error
            Node::Mesh(Mesh {
                position: Vector3::new(0, 0, 0),
                material: Material { diffuse_texture: None, normal_texture: None },
                has_geometry: false,
            }),
            Node::Mesh(Mesh {
                position: Vector3::new(3, 0, 0),
                material: Material { diffuse_texture: None, normal_texture: None },
                has_geometry: true,
            }),
        ],
    };
    gbuffer.fill(&mut backend, &scene, &camera_box(10), &white, &normal);
    assert_eq!(gbuffer.draws.len(), 1);
    assert_eq!(gbuffer.draws[0].node_index, 2);
}

#[test]
fn gbuffer_rejects_zero_size() {
    let mut backend = Backend::new();
    match GBuffer::new(&mut backend, (64, 0)) {
        Err(RendererError::FrameResource { width: 64, height: 0 }) => {},
        _ => panic!("a zero-sized target must be rejected"),
    }
    assert_eq!(backend.texture_count(), 0);
    assert_eq!(backend.program_count(), 0);
}

#[test]
fn light_range_is_a_sphere_around_the_camera() {
    let camera = camera_box(10);
    assert!(light_in_range(&camera, &Light { position: Vector3::new(3, 4, 0), radius: 5 }));
    assert!(!light_in_range(&camera, &Light { position: Vector3::new(3, 4, 0), radius: 4 }));
    assert!(light_in_range(&camera, &Light { position: Vector3::new(0, 0, 0), radius: 0 }));
}

#[test]
fn lighting_pass_skips_out_of_range_lights() {
    let mut backend = Backend::new();
    let white = white_dummy(&mut backend);
    let normal = normal_dummy(&mut backend);
    let gbuffer = {
        let mut g = GBuffer::new(&mut backend, (64, 64)).unwrap();
        g.fill(&mut backend, &Scene { nodes: vec![] }, &camera_box(10), &white, &normal);
        g
    };
    let mut lighting = DeferredLightRenderer::new(&mut backend).unwrap();
    let scene = Scene {
        nodes: vec![
            Node::Light(Light { position: Vector3::new(1, 0, 0), radius: 2 }),
            Node::Light(Light { position: Vector3::new(100, 0, 0), radius: 2 }),
            Node::Light(Light { position: Vector3::new(0, 2, 0), radius: 2 }),
        ],
    };
    lighting.render(
        &mut backend,
        &scene,
        &camera_box(10),
        &gbuffer,
        &white,
        Color::opaque(100, 100, 100),
    );
    assert_eq!(lighting.light_draws.len(), 2);
    assert_eq!(lighting.light_draws[0].node_index, 0);
    assert_eq!(lighting.light_draws[1].node_index, 2);
}

#[test]
fn soft_boundary_factor_zero_is_maximum_softness() {
    // factor 0 renders with the widest depth-blend falloff (no hard edge);
    // the maximum factor renders indistinguishably from a hard depth test
    assert_eq!(soft_boundary_falloff(0), SOFT_BOUNDARY_SHARPNESS_MAX);
    assert_eq!(soft_boundary_falloff(SOFT_BOUNDARY_SHARPNESS_MAX), 0);
    assert_eq!(soft_boundary_falloff(SOFT_BOUNDARY_SHARPNESS_MAX + 7), 0);
    assert_eq!(soft_boundary_falloff(1), SOFT_BOUNDARY_SHARPNESS_MAX - 1);
}

#[test]
fn particle_pass_records_falloff_and_skips_empty_systems() {
    let mut backend = Backend::new();
    let white = white_dummy(&mut backend);
    let normal = normal_dummy(&mut backend);
    let gbuffer = {
        let mut g = GBuffer::new(&mut backend, (64, 64)).unwrap();
        g.fill(&mut backend, &Scene { nodes: vec![] }, &camera_box(10), &white, &normal);
        g
    };
    let mut particles = ParticleSystemRenderer::new(&mut backend).unwrap();
    let scenes = SceneContainer {
        scenes: vec![
            Scene {
                nodes: vec![
                    Node::ParticleSystem(particle_system(0, 16)),
                    // zero live particles: a rasterization no-op
                    Node::ParticleSystem(particle_system(3, 0)),
                ],
            },
            Scene {
                nodes: vec![Node::ParticleSystem(particle_system(SOFT_BOUNDARY_SHARPNESS_MAX, 4))],
            },
        ],
    };
    particles.render(&mut backend, &scenes, &white, &gbuffer);
    assert_eq!(particles.draws.len(), 2);
    assert_eq!(particles.draws[0].scene_index, 0);
    assert_eq!(particles.draws[0].node_index, 0);
    assert_eq!(particles.draws[0].particles, 16);
    assert_eq!(particles.draws[0].texture, white.id);
    // the softest possible blend against scene depth
    assert_eq!(particles.draws[0].falloff, SOFT_BOUNDARY_SHARPNESS_MAX);
    // a hard depth edge
    assert_eq!(particles.draws[1].falloff, 0);
    assert_eq!(particles.draws[1].scene_index, 1);
}

#[test]
fn sprite_pass_draws_each_sprite_with_its_texture() {
    let mut backend = Backend::new();
    let white = white_dummy(&mut backend);
    let mut sprites = SpriteRenderer::new(&mut backend).unwrap();
    let scenes = SceneContainer {
        scenes: vec![
            Scene {
                nodes: vec![
                    Node::Sprite(Sprite { position: Vector3::new(0, 0, 0), texture: Some(9) }),
                    Node::Base,
                    Node::Sprite(Sprite { position: Vector3::new(1, 0, 0), texture: None }),
                ],
            },
        ],
    };
    sprites.render(&mut backend, &scenes, &white);
    assert_eq!(sprites.draws.len(), 2);
    assert_eq!(sprites.draws[0].texture, 9);
    assert_eq!(sprites.draws[1].texture, white.id);
}

#[test]
fn texture_creation_validates_format_and_size() {
    let mut backend = Backend::new();
    // 2x2 RGBA needs 16 bytes; 15 is rejected
    match GpuTexture::new(
        &mut backend,
        GpuTextureKind::Rectangle { width: 2, height: 2 },
        PixelKind::RGBA8,
        &vec![0; 15],
        false,
    ) {
        Err(RendererError::ResourceCreation { actual_bytes: 15, .. }) => {},
        _ => panic!("a mismatched buffer must be rejected"),
    }
    assert_eq!(backend.texture_count(), 0);
    let texture = GpuTexture::new(
        &mut backend,
        GpuTextureKind::Rectangle { width: 2, height: 2 },
        PixelKind::RGBA8,
        &vec![0; 16],
        false,
    )
    .unwrap();
    assert_eq!(backend.texture_count(), 1);
    assert_eq!(backend.texture_dimensions(texture.id), Some((2, 2)));
}

#[test]
fn texture_upload_requires_the_same_dimensions() {
    let mut backend = Backend::new();
    let texture = GpuTexture::new(
        &mut backend,
        GpuTextureKind::Rectangle { width: 2, height: 1 },
        PixelKind::RGB8,
        &vec![0; 6],
        false,
    )
    .unwrap();
    assert!(texture.upload(&mut backend, &vec![1; 6]).is_ok());
    match texture.upload(&mut backend, &vec![1; 7]) {
        Err(RendererError::ResourceCreation { actual_bytes: 7, .. }) => {},
        _ => panic!("a mismatched upload must be rejected"),
    }
}

#[test]
fn texture_release_frees_the_object() {
    let mut backend = Backend::new();
    let texture = white_dummy(&mut backend);
    assert!(backend.is_texture_alive(texture.id));
    texture.release(&mut backend);
    assert!(!backend.is_texture_alive(texture.id));
    assert_eq!(backend.texture_count(), 0);
}

#[test]
fn shader_compilation_reports_the_failing_stage() {
    let mut backend = Backend::new();
    match GpuProgram::compile(&mut backend, "", "void main() {}") {
        Err(RendererError::ShaderCompilation { stage: ShaderStage::Vertex, diagnostic }) => {
            assert_eq!(diagnostic, "no shader source provided");
        },
        _ => panic!("an empty vertex stage must be rejected"),
    }
    match GpuProgram::compile(&mut backend, "void main() {}", "") {
        Err(RendererError::ShaderCompilation { stage: ShaderStage::Fragment, .. }) => {},
        _ => panic!("an empty fragment stage must be rejected"),
    }
    assert!(GpuProgram::compile(&mut backend, "void main() {}", "void main() {}").is_ok());
    assert_eq!(backend.program_count(), 1);
}

#[test]
fn unit_quad_has_two_triangles_over_four_corners() {
    let quad = SurfaceSharedData::make_unit_xy_quad();
    assert_eq!(quad.vertex_count, 4);
    assert_eq!(
        quad.triangles.as_slice(),
        &[TriangleDefinition { a: 0, b: 1, c: 2 }, TriangleDefinition { a: 0, b: 2, c: 3 }]
    );
}

#[test]
fn diagnostics_classify_every_driver_code() {
    assert_eq!(classify_diagnostic(0), None);
    assert_eq!(classify_diagnostic(0x0500), Some(BackendDiagnostic::InvalidEnum));
    assert_eq!(classify_diagnostic(0x0501), Some(BackendDiagnostic::InvalidValue));
    assert_eq!(classify_diagnostic(0x0502), Some(BackendDiagnostic::InvalidOperation));
    assert_eq!(classify_diagnostic(0x0503), Some(BackendDiagnostic::StackOverflow));
    assert_eq!(classify_diagnostic(0x0504), Some(BackendDiagnostic::StackUnderflow));
    assert_eq!(classify_diagnostic(0x0505), Some(BackendDiagnostic::OutOfMemory));
    assert_eq!(classify_diagnostic(0x9999), Some(BackendDiagnostic::Unknown));
    assert_eq!(BackendDiagnostic::OutOfMemory.label(), "GL_OUT_OF_MEMORY");
    assert_eq!(BackendDiagnostic::InvalidEnum.label(), "GL_INVALID_ENUM");
}

#[test]
fn handler_maps_each_property_change_to_its_command() {
    let mut handler = ParticleSystemHandler::new();
    let node = 11u64;
    assert_eq!(
        handler.handle(&PropertyChange::TextureChanged(Some(5)), node),
        HandlerAction::Do(SceneCommand::SetParticleSystemTexture { node, texture: Some(5) })
    );
    assert_eq!(
        handler.handle(&PropertyChange::AccelerationChanged(Vector3::new(0, -10, 0)), node),
        HandlerAction::Do(SceneCommand::SetParticleSystemAcceleration {
            node,
            acceleration: Vector3::new(0, -10, 0),
        })
    );
    assert_eq!(
        handler.handle(&PropertyChange::EnabledChanged(false), node),
        HandlerAction::Do(SceneCommand::SetParticleSystemEnabled { node, enabled: false })
    );
    assert_eq!(
        handler.handle(&PropertyChange::SoftBoundaryFactorChanged(12), node),
        HandlerAction::Do(SceneCommand::SetSoftBoundarySharpnessFactor { node, factor: 12 })
    );
    assert_eq!(
        handler.handle(&PropertyChange::EmitterRemoved(2), node),
        HandlerAction::Do(SceneCommand::DeleteEmitter { node, index: 2 })
    );
    assert!(!handler.is_selector_open());
}

#[test]
fn adding_an_emitter_goes_through_the_selector() {
    let mut handler = ParticleSystemHandler::new();
    let node = 3u64;
    assert_eq!(
        handler.handle(&PropertyChange::EmitterAdded, node),
        HandlerAction::OpenEmitterSelector
    );
    assert!(handler.is_selector_open());
    // a click outside the three buttons does nothing
    assert_eq!(handler.handle_ui_message(None, node), None);
    assert!(handler.is_selector_open());
    // a button click adds the matching default emitter and closes the window
    assert_eq!(
        handler.handle_ui_message(Some(EmitterButton::Cuboid), node),
        Some(SceneCommand::AddParticleSystemEmitter { node, emitter: Emitter::Cuboid })
    );
    assert!(!handler.is_selector_open());
    let mut again = ParticleSystemHandler::new();
    assert_eq!(
        again.handle_ui_message(Some(EmitterButton::Sphere), node),
        Some(SceneCommand::AddParticleSystemEmitter { node, emitter: Emitter::Sphere })
    );
    assert_eq!(
        ParticleSystemHandler::new().handle_ui_message(Some(EmitterButton::Cylinder), node),
        Some(SceneCommand::AddParticleSystemEmitter { node, emitter: Emitter::Cylinder })
    );
}

#[test]
fn find_camera_returns_the_first_camera() {
    let scene = Scene {
        nodes: vec![
            Node::Base,
            Node::Camera(camera_box(1)),
            Node::Camera(camera_box(2)),
        ],
    };
    assert_eq!(scene.find_camera(), Some(camera_box(1)));
    assert_eq!(Scene { nodes: vec![Node::Base] }.find_camera(), None);
}

#[test]
fn error_descriptions_name_the_failure() {
    let error = RendererError::FrameResource { width: 0, height: 5 };
    assert_eq!(error.describe(), "frame target creation failed");
    let ui = RendererError::UiRender { command_index: 3 };
    assert_eq!(ui.describe(), "ui draw command referenced an invalid resource");
}
