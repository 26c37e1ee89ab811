use frame_renderer::backend::Backend;
use frame_renderer::error::RendererError;
use frame_renderer::math::Color;
use frame_renderer::math::Vector3;
use frame_renderer::renderer::FrameContext;
use frame_renderer::renderer::PassEvent;
use frame_renderer::renderer::Renderer;
use frame_renderer::resource_manager::ResourceManager;
use frame_renderer::resource_manager::TextureResource;
use frame_renderer::resource_manager::TextureResourceKind;
use frame_renderer::scene::Camera;
use frame_renderer::scene::Material;
use frame_renderer::scene::Mesh;
use frame_renderer::scene::Light;
use frame_renderer::scene::Node;
use frame_renderer::scene::Scene;
use frame_renderer::scene::SceneContainer;
use frame_renderer::ui_renderer::DrawCommand;
use frame_renderer::ui_renderer::DrawCommandKind;
use frame_renderer::ui_renderer::DrawingContext;
use frame_renderer::ui_renderer::UiResource;

fn wide_camera() -> Camera {
    Camera {
        position: Vector3::new(0, 0, 0),
        frustum_min: Vector3::new(-1000, -1000, -1000),
        frustum_max: Vector3::new(1000, 1000, 1000),
    }
}

fn plain_mesh(x: i32) -> Node {
    Node::Mesh(Mesh {
        position: Vector3::new(x, 0, 0),
        material: Material { diffuse_texture: None, normal_texture: None },
        has_geometry: true,
    })
}

fn empty_ui() -> DrawingContext {
    DrawingContext { commands: Vec::new(), resources: Vec::new() }
}

fn frame(begin: u64, end: u64, finalize: u64) -> FrameContext {
    FrameContext {
        begin_time_ms: begin,
        end_time_ms: end,
        finalize_time_ms: finalize,
        swap_succeeded: true,
        diagnostic_code: 0,
    }
}

#[test]
fn renderer_construction_at_800_600() {
    let mut backend = Backend::new();
    let renderer = Renderer::new(&mut backend, (800, 600)).unwrap();
    assert_eq!(renderer.get_frame_size(), (800, 600));
    assert_eq!(renderer.get_ambient_color(), Color::opaque(100, 100, 100));
    assert_eq!(renderer.get_statistics().frames_per_second, 0);
    // four frame-target textures and two dummy textures
    assert_eq!(backend.texture_count(), 6);
    // geometry, lighting, flat, sprite, particle and UI programs
    assert_eq!(backend.program_count(), 6);
}

#[test]
fn renderer_construction_rejects_zero_frame() {
    let mut backend = Backend::new();
    match Renderer::new(&mut backend, (0, 600)) {
        Err(RendererError::FrameResource { width: 0, height: 600 }) => {},
        _ => panic!("a zero-sized frame must be rejected"),
    }
}

#[test]
fn one_camera_one_mesh_frame() {
    // a renderer at 800x600 rendering one scene with one camera and one
    // untextured, unlit mesh: the frame succeeds, the statistics show no
    // full second has elapsed, and the frame is the ambient color plus the
    // mesh's unlit contribution only (one geometry draw, zero lights)
    let mut backend = Backend::new();
    let mut renderer = Renderer::new(&mut backend, (800, 600)).unwrap();
    let scenes = SceneContainer {
        scenes: vec![Scene { nodes: vec![Node::Camera(wide_camera()), plain_mesh(5)] }],
    };
    let ui = empty_ui();
    let r = renderer.render(&mut backend, &scenes, &ui, &frame(0, 10, 16));
    assert!(r.is_ok());
    assert_eq!(renderer.get_statistics().frames_per_second, 0);
    assert_eq!(renderer.get_ambient_color(), Color::opaque(100, 100, 100));
    let trace = renderer.get_frame_trace();
    assert_eq!(
        trace.as_slice(),
        &[
            PassEvent::GBufferPass { scene_index: 0, draws: 1 },
            PassEvent::LightingPass { scene_index: 0, lights: 0 },
            PassEvent::ParticlePass { draws: 0 },
            PassEvent::SpritePass { draws: 0 },
            PassEvent::FinalBlit { triangles: 2 },
            PassEvent::UiPass { commands: 0 },
            PassEvent::Present { succeeded: true },
        ]
    );
}

#[test]
fn scene_without_camera_is_skipped() {
    let mut backend = Backend::new();
    let mut renderer = Renderer::new(&mut backend, (320, 200)).unwrap();
    let scenes = SceneContainer {
        scenes: vec![
            Scene {
                nodes: vec![
                    plain_mesh(1),
                    Node::Light(Light { position: Vector3::new(0, 0, 0), radius: 50 }),
                ],
            },
        ],
    };
    let ui = empty_ui();
    let r = renderer.render(&mut backend, &scenes, &ui, &frame(0, 5, 8));
    assert!(r.is_ok());
    for event in renderer.get_frame_trace() {
        match event {
            PassEvent::GBufferPass { .. } => panic!("no geometry work for a camera-less scene"),
            PassEvent::LightingPass { .. } => panic!("no lighting work for a camera-less scene"),
            _ => {},
        }
    }
}

#[test]
fn lights_in_range_are_counted() {
    let mut backend = Backend::new();
    let mut renderer = Renderer::new(&mut backend, (320, 200)).unwrap();
    let scenes = SceneContainer {
        scenes: vec![
            Scene {
                nodes: vec![
                    Node::Camera(wide_camera()),
                    Node::Light(Light { position: Vector3::new(3, 4, 0), radius: 5 }),
                    Node::Light(Light { position: Vector3::new(3, 4, 0), radius: 4 }),
                ],
            },
        ],
    };
    let ui = empty_ui();
    renderer.render(&mut backend, &scenes, &ui, &frame(0, 5, 8)).unwrap();
    // distance 5 from the camera: radius 5 contributes, radius 4 does not
    assert!(renderer.get_frame_trace().contains(&PassEvent::LightingPass {
        scene_index: 0,
        lights: 1,
    }));
}

#[test]
fn set_frame_size_recreates_the_target_without_leaking() {
    let mut backend = Backend::new();
    let mut renderer = Renderer::new(&mut backend, (800, 600)).unwrap();
    let textures_before = backend.texture_count();
    let programs_before = backend.program_count();
    renderer.set_frame_size(&mut backend, (1024, 768)).unwrap();
    assert_eq!(renderer.get_frame_size(), (1024, 768));
    // the previous target is fully released: same object counts
    assert_eq!(backend.texture_count(), textures_before);
    assert_eq!(backend.program_count(), programs_before);
    // a following render allocates nothing either
    let scenes = SceneContainer { scenes: vec![] };
    let ui = empty_ui();
    renderer.render(&mut backend, &scenes, &ui, &frame(0, 2, 3)).unwrap();
    assert_eq!(backend.texture_count(), textures_before);
    assert_eq!(backend.program_count(), programs_before);
}

#[test]
fn set_frame_size_rejects_zero() {
    let mut backend = Backend::new();
    let mut renderer = Renderer::new(&mut backend, (800, 600)).unwrap();
    let textures_before = backend.texture_count();
    match renderer.set_frame_size(&mut backend, (0, 768)) {
        Err(RendererError::FrameResource { width: 0, height: 768 }) => {},
        _ => panic!("a zero-sized frame must be rejected"),
    }
    // the failure is recoverable: nothing allocated or freed, and the
    // previous target and size stay active
    assert_eq!(backend.texture_count(), textures_before);
    assert_eq!(renderer.get_frame_size(), (800, 600));
    renderer.set_frame_size(&mut backend, (640, 480)).unwrap();
    assert_eq!(renderer.get_frame_size(), (640, 480));
}

#[test]
fn fps_counts_frames_in_one_second_windows() {
    let mut backend = Backend::new();
    let mut renderer = Renderer::new(&mut backend, (100, 100)).unwrap();
    let scenes = SceneContainer { scenes: vec![] };
    let ui = empty_ui();
    // three frames, each ending at least one second after the last window
    // started: each closes a window of exactly one frame
    renderer.render(&mut backend, &scenes, &ui, &frame(1000, 1001, 1002)).unwrap();
    assert_eq!(renderer.get_statistics().frames_per_second, 1);
    renderer.render(&mut backend, &scenes, &ui, &frame(2400, 2401, 2402)).unwrap();
    assert_eq!(renderer.get_statistics().frames_per_second, 1);
    renderer.render(&mut backend, &scenes, &ui, &frame(3500, 3501, 3502)).unwrap();
    assert_eq!(renderer.get_statistics().frames_per_second, 1);
}

#[test]
fn fps_commits_the_count_of_a_full_window() {
    let mut backend = Backend::new();
    let mut renderer = Renderer::new(&mut backend, (100, 100)).unwrap();
    let scenes = SceneContainer { scenes: vec![] };
    let ui = empty_ui();
    // two quick frames inside the first window, then one that closes it
    renderer.render(&mut backend, &scenes, &ui, &frame(10, 11, 12)).unwrap();
    assert_eq!(renderer.get_statistics().frames_per_second, 0);
    renderer.render(&mut backend, &scenes, &ui, &frame(20, 21, 22)).unwrap();
    assert_eq!(renderer.get_statistics().frames_per_second, 0);
    renderer.render(&mut backend, &scenes, &ui, &frame(1500, 1501, 1502)).unwrap();
    assert_eq!(renderer.get_statistics().frames_per_second, 3);
    assert_eq!(renderer.get_statistics().pure_frame_time, 1);
    assert_eq!(renderer.get_statistics().capped_frame_time, 2);
}

#[test]
fn failed_swap_still_counts_the_frame() {
    let mut backend = Backend::new();
    let mut renderer = Renderer::new(&mut backend, (100, 100)).unwrap();
    let scenes = SceneContainer { scenes: vec![] };
    let ui = empty_ui();
    let context = FrameContext {
        begin_time_ms: 1000,
        end_time_ms: 1001,
        finalize_time_ms: 1002,
        swap_succeeded: false,
        diagnostic_code: 0,
    };
    let r = renderer.render(&mut backend, &scenes, &ui, &context);
    assert!(r.is_ok());
    assert!(renderer.get_frame_trace().contains(&PassEvent::Present { succeeded: false }));
    assert_eq!(renderer.get_statistics().frames_per_second, 1);
}

#[test]
fn driver_diagnostic_is_recorded_not_fatal() {
    let mut backend = Backend::new();
    let mut renderer = Renderer::new(&mut backend, (100, 100)).unwrap();
    let scenes = SceneContainer { scenes: vec![] };
    let ui = empty_ui();
    let context = FrameContext {
        begin_time_ms: 0,
        end_time_ms: 1,
        finalize_time_ms: 2,
        swap_succeeded: true,
        diagnostic_code: 0x0505,
    };
    let r = renderer.render(&mut backend, &scenes, &ui, &context);
    assert!(r.is_ok());
    assert!(renderer.get_frame_trace().contains(&PassEvent::Diagnostic { code: 0x0505 }));
}

#[test]
fn invalid_ui_command_aborts_only_the_ui_pass() {
    let mut backend = Backend::new();
    let mut renderer = Renderer::new(&mut backend, (100, 100)).unwrap();
    let scenes = SceneContainer { scenes: vec![] };
    let ui = DrawingContext {
        commands: vec![
            DrawCommand { kind: DrawCommandKind::Rectangle, resource: None },
            DrawCommand { kind: DrawCommandKind::Text, resource: Some(7) },
        ],
        resources: vec![UiResource::Font],
    };
    match renderer.render(&mut backend, &scenes, &ui, &frame(1000, 1001, 1002)) {
        Err(RendererError::UiRender { command_index: 1 }) => {},
        _ => panic!("the out-of-range font reference must fail the UI pass"),
    }
    // only the UI pass was cut short: the command before the bad one was
    // replayed, and the frame still ran to the present and was counted
    assert!(renderer.get_frame_trace().contains(&PassEvent::UiPass { commands: 1 }));
    assert_eq!(
        renderer.get_frame_trace().last(),
        Some(&PassEvent::Present { succeeded: true })
    );
    assert_eq!(renderer.get_statistics().frames_per_second, 1);
    assert_eq!(renderer.get_statistics().capped_frame_time, 2);
}

#[test]
fn valid_ui_commands_are_all_replayed() {
    let mut backend = Backend::new();
    let mut renderer = Renderer::new(&mut backend, (100, 100)).unwrap();
    let scenes = SceneContainer { scenes: vec![] };
    let ui = DrawingContext {
        commands: vec![
            DrawCommand { kind: DrawCommandKind::Clip, resource: None },
            DrawCommand { kind: DrawCommandKind::Text, resource: Some(0) },
            DrawCommand { kind: DrawCommandKind::Rectangle, resource: Some(1) },
        ],
        resources: vec![UiResource::Font, UiResource::Texture],
    };
    renderer.render(&mut backend, &scenes, &ui, &frame(0, 1, 2)).unwrap();
    assert!(renderer.get_frame_trace().contains(&PassEvent::UiPass { commands: 3 }));
}

#[test]
fn upload_resources_claims_each_texture_once() {
    let mut backend = Backend::new();
    let mut renderer = Renderer::new(&mut backend, (100, 100)).unwrap();
    let mut manager = ResourceManager {
        textures: vec![
            TextureResource {
                width: 2,
                height: 2,
                kind: TextureResourceKind::RGBA,
                bytes: vec![0; 16],
                gpu_tex: None,
            },
            TextureResource {
                width: 1,
                height: 3,
                kind: TextureResourceKind::RGB,
                bytes: vec![0; 9],
                gpu_tex: None,
            },
        ],
    };
    let before = backend.texture_count();
    renderer.upload_resources(&mut backend, &mut manager);
    assert_eq!(backend.texture_count(), before + 2);
    let first = manager.textures[0].gpu_tex;
    let second = manager.textures[1].gpu_tex;
    assert!(first.is_some());
    assert!(second.is_some());
    // a second call with no new textures performs zero additional uploads
    renderer.upload_resources(&mut backend, &mut manager);
    assert_eq!(backend.texture_count(), before + 2);
    assert_eq!(manager.textures[0].gpu_tex, first);
    assert_eq!(manager.textures[1].gpu_tex, second);
}

#[test]
fn set_ambient_color_round_trip() {
    let mut backend = Backend::new();
    let mut renderer = Renderer::new(&mut backend, (100, 100)).unwrap();
    renderer.set_ambient_color(Color::opaque(10, 20, 30));
    assert_eq!(renderer.get_ambient_color(), Color::opaque(10, 20, 30));
    assert_eq!(renderer.get_ambient_color().a, 255);
}
