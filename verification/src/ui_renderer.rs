//! The UI compositing pass: replays a pre-recorded list of 2D draw commands
//! (rectangles, text glyphs, clipped regions) on top of the 3D result,
//! under an orthographic projection matching the frame size. A command that
//! references an invalid font or texture resource fails the pass — the
//! remaining commands of that frame are abandoned, the frame itself is not.
use vstd::prelude::*;

use crate::backend::Backend;
use crate::backend::BackendView;
use crate::backend::spec_created_program;
use crate::backend::spec_program_alive;
use crate::backend::spec_texture_alive;
use crate::error::RendererError;
use crate::gpu_program::GpuProgram;
use crate::gpu_texture::GpuTexture;
use crate::math::FrameMatrix;

verus! {

/// A resource a draw command may reference.
#[derive(Clone, Copy, PartialEq, Eq, Structural, Debug)]
pub enum UiResource {
    Font,
    Texture,
}

/// The primitive a draw command rasterizes.
#[derive(Clone, Copy, PartialEq, Eq, Structural, Debug)]
pub enum DrawCommandKind {
    Rectangle,
    Text,
    Clip,
}

/// One pre-recorded 2D draw command; `resource` indexes the drawing
/// context's resource table.
#[derive(Clone, Copy, PartialEq, Eq, Debug)]
pub struct DrawCommand {
    pub kind: DrawCommandKind,
    pub resource: Option<usize>,
}

/// The flat, replayable list of 2D draw primitives the widget layer
/// produced, plus the font/texture resources they reference.
#[derive(Clone, Debug)]
pub struct DrawingContext {
    pub commands: Vec<DrawCommand>,
    pub resources: Vec<UiResource>,
}

/// A command's resource reference is valid: text must reference a font, a
/// rectangle may reference a texture or nothing, a clip region references
/// nothing.
pub open spec fn spec_command_valid(command: DrawCommand, resources: Seq<UiResource>) -> bool {
    match command.resource {
        None => !(command.kind is Text),
        Some(i) => i < resources.len() && (match command.kind {
            DrawCommandKind::Text => resources[i as int] is Font,
            DrawCommandKind::Rectangle => resources[i as int] is Texture,
            DrawCommandKind::Clip => false,
        }),
    }
}

/// Every command's reference is valid.
pub open spec fn spec_ui_all_valid(commands: Seq<DrawCommand>, resources: Seq<UiResource>) -> bool {
    forall|i: int| 0 <= i < commands.len() ==> spec_command_valid(commands[i], resources)
}

/// Position of the first invalid command; the list's length when all are
/// valid. Exactly this many commands are replayed.
pub open spec fn spec_first_invalid(
    commands: Seq<DrawCommand>,
    resources: Seq<UiResource>,
) -> int
    decreases commands.len(),
{
    if commands.len() == 0 {
        0
    } else if !spec_command_valid(commands[0], resources) {
        0
    } else {
        1 + spec_first_invalid(commands.drop_first(), resources)
    }
}

proof fn lemma_first_invalid_at(commands: Seq<DrawCommand>, resources: Seq<UiResource>, i: int)
    requires
        0 <= i <= commands.len(),
        forall|j: int| 0 <= j < i ==> spec_command_valid(commands[j], resources),
        i < commands.len() ==> !spec_command_valid(commands[i], resources),
    ensures
        spec_first_invalid(commands, resources) == i,
    decreases i,
{
    if i > 0 {
        assert(forall|j: int|
            0 <= j < i - 1 ==> spec_command_valid(commands.drop_first()[j], resources));
        lemma_first_invalid_at(commands.drop_first(), resources, i - 1);
    }
}

fn command_valid(command: &DrawCommand, resources: &Vec<UiResource>) -> (v: bool)
    ensures
        v == spec_command_valid(*command, resources@),
{
    match command.resource {
        None => match command.kind {
            DrawCommandKind::Text => false,
            _ => true,
        },
        Some(i) => {
            if i < resources.len() {
                match (command.kind, &resources[i]) {
                    (DrawCommandKind::Text, UiResource::Font) => true,
                    (DrawCommandKind::Rectangle, UiResource::Texture) => true,
                    _ => false,
                }
            } else {
                false
            }
        },
    }
}

/// The UI pass.
pub struct UIRenderer {
    pub program: GpuProgram,
    pub executed: Vec<DrawCommand>,
}

impl UIRenderer {
    pub open spec fn wf(self, v: BackendView) -> bool {
        spec_program_alive(v.programs, self.program.id)
    }

    /// Compiles the UI shader; fixed non-empty sources, so with id headroom
    /// this succeeds.
    pub fn new(backend: &mut Backend) -> (r: Result<UIRenderer, RendererError>)
        requires
            old(backend).inv(),
            old(backend)@.next_id < u64::MAX,
        ensures
            final(backend).inv(),
            r is Ok,
            r matches Ok(u) ==> {
                &&& spec_created_program(old(backend)@, final(backend)@, u.program.id)
                &&& u.wf(final(backend)@)
                &&& u.executed@.len() == 0
            },
    {
        let program = GpuProgram::compile(backend, ui_vertex_source(), ui_fragment_source())?;
        proof {
            crate::backend::lemma_push_preserves_programs(old(backend)@.programs, program.id);
        }
        Ok(UIRenderer { program, executed: Vec::new() })
    }

    /// Replays the drawing context's commands in order under an
    /// orthographic projection matching the frame size. Succeeds exactly
    /// when every command's resource reference is valid; the first invalid
    /// reference fails the pass, and exactly the commands before it were
    /// replayed.
    pub fn render(
        &mut self,
        backend: &mut Backend,
        width: u32,
        height: u32,
        drawing_context: &DrawingContext,
        white_dummy: &GpuTexture,
    ) -> (r: Result<(), RendererError>)
        requires
            old(backend).inv(),
            old(self).wf(old(backend)@),
            spec_texture_alive(old(backend)@.textures, white_dummy.id),
        ensures
            final(backend).inv(),
            final(self).wf(final(backend)@),
            final(self).program == old(self).program,
            (r is Ok) <==> spec_ui_all_valid(drawing_context.commands@, drawing_context.resources@),
            final(self).executed@ == drawing_context.commands@.take(
                spec_first_invalid(drawing_context.commands@, drawing_context.resources@),
            ),
            final(self).executed@.len() == spec_first_invalid(
                drawing_context.commands@,
                drawing_context.resources@,
            ),
            r is Err ==> r == Err::<(), RendererError>(RendererError::UiRender {
                command_index: spec_first_invalid(
                    drawing_context.commands@,
                    drawing_context.resources@,
                ) as usize,
            }),
            final(backend)@ == old(backend)@.with_bound_program(
                Some(old(self).program.id),
            ).with_uniform_wvp(Some(FrameMatrix { width, height })).with_bound_texture(
                Some(white_dummy.id),
            ),
    {
        self.program.bind(backend);
        self.program.set_matrix(backend, FrameMatrix { width, height });
        backend.bind_texture(white_dummy.id);
        self.executed.clear();
        let n = drawing_context.commands.len();
        let mut i: usize = 0;
        proof {
            assert(self.executed@ =~= Seq::<DrawCommand>::empty());
            assert(drawing_context.commands@.take(0int) =~= Seq::<DrawCommand>::empty());
        }
        while i < n
            invariant
                n == drawing_context.commands@.len(),
                i <= n,
                backend.inv(),
                backend@ == old(backend)@.with_bound_program(
                    Some(old(self).program.id),
                ).with_uniform_wvp(Some(FrameMatrix { width, height })).with_bound_texture(
                    Some(white_dummy.id),
                ),
                old(self).wf(old(backend)@),
                forall|j: int|
                    0 <= j < i ==> spec_command_valid(
                        drawing_context.commands@[j],
                        drawing_context.resources@,
                    ),
                self.executed@ == drawing_context.commands@.take(i as int),
                self.program == old(self).program,
            decreases n - i,
        {
            let command = &drawing_context.commands[i];
            if !command_valid(command, &drawing_context.resources) {
                proof {
                    lemma_first_invalid_at(
                        drawing_context.commands@,
                        drawing_context.resources@,
                        i as int,
                    );
                }
                return Err(RendererError::UiRender { command_index: i });
            }
            self.executed.push(*command);
            proof {
                assert(drawing_context.commands@.take(i as int + 1) =~= drawing_context.commands@
                    .take(i as int).push(drawing_context.commands@[i as int]));
            }
            i = i + 1;
        }
        proof {
            lemma_first_invalid_at(drawing_context.commands@, drawing_context.resources@, n as int);
            assert(drawing_context.commands@.take(n as int) =~= drawing_context.commands@);
        }
        Ok(())
    }
}

fn ui_vertex_source() -> (s: &'static str)
    ensures
        s@.len() > 0,
{
    proof {
        reveal_strlit("attribute vec2 vertexPosition; uniform mat4 projection; void main() { gl_Position = projection * vec4(vertexPosition, 0.0, 1.0); }");
    }
    "attribute vec2 vertexPosition; uniform mat4 projection; void main() { gl_Position = projection * vec4(vertexPosition, 0.0, 1.0); }"
}

fn ui_fragment_source() -> (s: &'static str)
    ensures
        s@.len() > 0,
{
    proof {
        reveal_strlit("uniform sampler2D diffuseTexture; varying vec2 texCoord; uniform vec4 solidColor; void main() { gl_FragColor = solidColor * texture2D(diffuseTexture, texCoord); }");
    }
    "uniform sampler2D diffuseTexture; varying vec2 texCoord; uniform vec4 solidColor; void main() { gl_FragColor = solidColor * texture2D(diffuseTexture, texCoord); }"
}

} // verus!
