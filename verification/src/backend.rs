//! The graphics backend model: one value of [`Backend`] stands for the
//! global mutable driver state every pass shares — which objects are
//! allocated, which program, texture and framebuffer are currently bound,
//! and the uniforms last configured. Passes execute in a fixed order
//! precisely because this state is global; the contracts here make each
//! binding side effect explicit so that ordering is enforced by the
//! verifier rather than by convention.
use vstd::prelude::*;
use vstd::pervasive::VecAdditionalExecFns;
use vstd::string::StringExecFns;

use crate::error::RendererError;
use crate::error::ShaderStage;
use crate::gpu_texture::GpuTextureKind;
use crate::gpu_texture::PixelKind;
use crate::gpu_texture::spec_texture_data_valid;
use crate::gpu_texture::texture_bytes;
use crate::math::Color;
use crate::math::FrameMatrix;

verus! {

/// No diagnostic is pending.
pub const NO_ERROR: u32 = 0;

pub const INVALID_ENUM: u32 = 0x0500;

pub const INVALID_VALUE: u32 = 0x0501;

pub const INVALID_OPERATION: u32 = 0x0502;

pub const STACK_OVERFLOW: u32 = 0x0503;

pub const STACK_UNDERFLOW: u32 = 0x0504;

pub const OUT_OF_MEMORY: u32 = 0x0505;

/// A driver error code detected after a frame. Such a code means degraded
/// rendering, never a crash condition: it is reported to the host's log and
/// the frame still counts.
#[derive(Clone, Copy, PartialEq, Eq, Structural, Debug)]
pub enum BackendDiagnostic {
    InvalidEnum,
    InvalidValue,
    InvalidOperation,
    StackOverflow,
    StackUnderflow,
    OutOfMemory,
    /// A code this model does not name; still reported.
    Unknown,
}

pub open spec fn spec_classify_diagnostic(code: u32) -> Option<BackendDiagnostic> {
    if code == NO_ERROR {
        None
    } else if code == INVALID_ENUM {
        Some(BackendDiagnostic::InvalidEnum)
    } else if code == INVALID_VALUE {
        Some(BackendDiagnostic::InvalidValue)
    } else if code == INVALID_OPERATION {
        Some(BackendDiagnostic::InvalidOperation)
    } else if code == STACK_OVERFLOW {
        Some(BackendDiagnostic::StackOverflow)
    } else if code == STACK_UNDERFLOW {
        Some(BackendDiagnostic::StackUnderflow)
    } else if code == OUT_OF_MEMORY {
        Some(BackendDiagnostic::OutOfMemory)
    } else {
        Some(BackendDiagnostic::Unknown)
    }
}

/// Maps a raw driver error code to a diagnostic; `None` means no error.
pub fn classify_diagnostic(code: u32) -> (r: Option<BackendDiagnostic>)
    ensures
        r == spec_classify_diagnostic(code),
{
    if code == NO_ERROR {
        None
    } else if code == INVALID_ENUM {
        Some(BackendDiagnostic::InvalidEnum)
    } else if code == INVALID_VALUE {
        Some(BackendDiagnostic::InvalidValue)
    } else if code == INVALID_OPERATION {
        Some(BackendDiagnostic::InvalidOperation)
    } else if code == STACK_OVERFLOW {
        Some(BackendDiagnostic::StackOverflow)
    } else if code == STACK_UNDERFLOW {
        Some(BackendDiagnostic::StackUnderflow)
    } else if code == OUT_OF_MEMORY {
        Some(BackendDiagnostic::OutOfMemory)
    } else {
        Some(BackendDiagnostic::Unknown)
    }
}

impl BackendDiagnostic {
    pub open spec fn spec_label(self) -> Seq<char> {
        match self {
            BackendDiagnostic::InvalidEnum => "GL_INVALID_ENUM"@,
            BackendDiagnostic::InvalidValue => "GL_INVALID_VALUE"@,
            BackendDiagnostic::InvalidOperation => "GL_INVALID_OPERATION"@,
            BackendDiagnostic::StackOverflow => "GL_STACK_OVERFLOW"@,
            BackendDiagnostic::StackUnderflow => "GL_STACK_UNDERFLOW"@,
            BackendDiagnostic::OutOfMemory => "GL_OUT_OF_MEMORY"@,
            BackendDiagnostic::Unknown => "GL_UNKNOWN_ERROR"@,
        }
    }

    /// The driver constant's name, for hosts that log diagnostics.
    pub fn label(&self) -> (s: &'static str)
        ensures
            s@ == self.spec_label(),
    {
        match self {
            BackendDiagnostic::InvalidEnum => "GL_INVALID_ENUM",
            BackendDiagnostic::InvalidValue => "GL_INVALID_VALUE",
            BackendDiagnostic::InvalidOperation => "GL_INVALID_OPERATION",
            BackendDiagnostic::StackOverflow => "GL_STACK_OVERFLOW",
            BackendDiagnostic::StackUnderflow => "GL_STACK_UNDERFLOW",
            BackendDiagnostic::OutOfMemory => "GL_OUT_OF_MEMORY",
            BackendDiagnostic::Unknown => "GL_UNKNOWN_ERROR",
        }
    }
}

/// One allocated texture object, as the backend tracks it.
#[derive(Clone, Copy, PartialEq, Eq, Structural, Debug)]
pub struct TextureRecord {
    pub id: u64,
    pub kind: GpuTextureKind,
    pub pixel_kind: PixelKind,
    pub mipmaps: bool,
    pub max_anisotropy: bool,
}

/// The abstract value of the backend state.
pub ghost struct BackendView {
    pub textures: Seq<TextureRecord>,
    pub programs: Seq<u64>,
    pub next_id: u64,
    pub bound_program: Option<u64>,
    pub bound_texture: Option<u64>,
    pub bound_framebuffer: u64,
    pub viewport: (u32, u32),
    pub depth_test: bool,
    pub uniform_wvp: Option<FrameMatrix>,
    pub uniform_texture_unit: Option<u32>,
    pub uniform_color: Option<Color>,
}

impl BackendView {
    pub open spec fn with_textures(self, textures: Seq<TextureRecord>) -> BackendView {
        BackendView { textures, ..self }
    }

    pub open spec fn with_next_id(self, next_id: u64) -> BackendView {
        BackendView { next_id, ..self }
    }

    pub open spec fn with_programs(self, programs: Seq<u64>) -> BackendView {
        BackendView { programs, ..self }
    }

    pub open spec fn with_bound_program(self, bound_program: Option<u64>) -> BackendView {
        BackendView { bound_program, ..self }
    }

    pub open spec fn with_bound_texture(self, bound_texture: Option<u64>) -> BackendView {
        BackendView { bound_texture, ..self }
    }

    pub open spec fn with_bound_framebuffer(self, bound_framebuffer: u64) -> BackendView {
        BackendView { bound_framebuffer, ..self }
    }

    pub open spec fn with_viewport(self, viewport: (u32, u32)) -> BackendView {
        BackendView { viewport, ..self }
    }

    pub open spec fn with_depth_test(self, depth_test: bool) -> BackendView {
        BackendView { depth_test, ..self }
    }

    pub open spec fn with_uniform_wvp(self, uniform_wvp: Option<FrameMatrix>) -> BackendView {
        BackendView { uniform_wvp, ..self }
    }

    pub open spec fn with_uniform_texture_unit(self, uniform_texture_unit: Option<u32>) -> BackendView {
        BackendView { uniform_texture_unit, ..self }
    }

    pub open spec fn with_uniform_color(self, uniform_color: Option<Color>) -> BackendView {
        BackendView { uniform_color, ..self }
    }
}

/// First position of the texture with this id.
pub open spec fn spec_index_of_texture(s: Seq<TextureRecord>, id: u64) -> int
    decreases s.len(),
{
    if s.len() == 0 {
        0
    } else if s[0].id == id {
        0
    } else {
        1 + spec_index_of_texture(s.drop_first(), id)
    }
}

/// First position of this program id.
pub open spec fn spec_index_of_program(s: Seq<u64>, id: u64) -> int
    decreases s.len(),
{
    if s.len() == 0 {
        0
    } else if s[0] == id {
        0
    } else {
        1 + spec_index_of_program(s.drop_first(), id)
    }
}

/// Some allocated texture has this id.
pub open spec fn spec_texture_alive(s: Seq<TextureRecord>, id: u64) -> bool {
    exists|i: int| 0 <= i < s.len() && s[i].id == id
}

/// Some linked program has this id.
pub open spec fn spec_program_alive(s: Seq<u64>, id: u64) -> bool {
    exists|i: int| 0 <= i < s.len() && s[i] == id
}

/// Transition: a texture object with a fresh id was allocated and bound.
pub open spec fn spec_created_texture(
    pre: BackendView,
    post: BackendView,
    id: u64,
    kind: GpuTextureKind,
    pixel_kind: PixelKind,
    mipmaps: bool,
) -> bool {
    &&& id == pre.next_id
    &&& post == pre.with_textures(
        pre.textures.push(TextureRecord { id, kind, pixel_kind, mipmaps, max_anisotropy: false }),
    ).with_next_id((pre.next_id + 1) as u64).with_bound_texture(Some(id))
}

/// Transition: the texture with this id was released; if it was bound, it
/// is no longer.
pub open spec fn spec_released_texture(pre: BackendView, post: BackendView, id: u64) -> bool {
    post == pre.with_textures(
        pre.textures.remove(spec_index_of_texture(pre.textures, id)),
    ).with_bound_texture(if pre.bound_texture == Some(id) { None } else { pre.bound_texture })
}

/// Transition: the program with this id was released; if it was bound, it
/// is no longer.
pub open spec fn spec_released_program(pre: BackendView, post: BackendView, id: u64) -> bool {
    post == pre.with_programs(
        pre.programs.remove(spec_index_of_program(pre.programs, id)),
    ).with_bound_program(if pre.bound_program == Some(id) { None } else { pre.bound_program })
}

/// Transition: the texture was rebound and its record now carries maximum
/// anisotropic filtering.
pub open spec fn spec_set_max_anisotropy(pre: BackendView, post: BackendView, id: u64) -> bool {
    let i = spec_index_of_texture(pre.textures, id);
    post == pre.with_textures(
        pre.textures.update(i, TextureRecord { max_anisotropy: true, ..pre.textures[i] }),
    ).with_bound_texture(Some(id))
}

/// Transition: a program with a fresh id was linked; binding state is
/// untouched (linking does not bind).
pub open spec fn spec_created_program(pre: BackendView, post: BackendView, id: u64) -> bool {
    &&& id == pre.next_id
    &&& post == pre.with_programs(pre.programs.push(id)).with_next_id((pre.next_id + 1) as u64)
}

/// This exact texture record is allocated.
pub open spec fn spec_has_record(s: Seq<TextureRecord>, r: TextureRecord) -> bool {
    exists|k: int| 0 <= k < s.len() && s[k] == r
}

pub proof fn lemma_has_record_alive(s: Seq<TextureRecord>, r: TextureRecord)
    requires
        spec_has_record(s, r),
    ensures
        spec_texture_alive(s, r.id),
{
    let k = choose|k: int| 0 <= k < s.len() && s[k] == r;
    assert(s[k].id == r.id);
}

/// First-occurrence facts for an allocated texture id.
pub proof fn lemma_index_of_texture_props(s: Seq<TextureRecord>, id: u64)
    requires
        spec_texture_alive(s, id),
    ensures
        0 <= spec_index_of_texture(s, id) < s.len(),
        s[spec_index_of_texture(s, id)].id == id,
        forall|j: int| 0 <= j < spec_index_of_texture(s, id) ==> s[j].id != id,
    decreases s.len(),
{
    if s.len() > 0 && s[0].id != id {
        let k = choose|k: int| 0 <= k < s.len() && s[k].id == id;
        assert(s.drop_first()[k - 1].id == id);
        lemma_index_of_texture_props(s.drop_first(), id);
        assert forall|j: int| 0 <= j < spec_index_of_texture(s, id) implies s[j].id != id by {
            if j > 0 {
                assert(s.drop_first()[j - 1].id != id);
            }
        }
    }
}

/// Pushing a record keeps every allocated record and adds the new one.
pub proof fn lemma_push_preserves_records(s: Seq<TextureRecord>, new: TextureRecord)
    ensures
        forall|r: TextureRecord| spec_has_record(s, r) ==> spec_has_record(s.push(new), r),
        spec_has_record(s.push(new), new),
        forall|id: u64| spec_texture_alive(s, id) ==> spec_texture_alive(s.push(new), id),
{
    assert(s.push(new)[s.len() as int] == new);
    assert forall|r: TextureRecord| spec_has_record(s, r) implies spec_has_record(
        s.push(new),
        r,
    ) by {
        let k = choose|k: int| 0 <= k < s.len() && s[k] == r;
        assert(s.push(new)[k] == r);
    }
    assert forall|id: u64| spec_texture_alive(s, id) implies spec_texture_alive(
        s.push(new),
        id,
    ) by {
        let k = choose|k: int| 0 <= k < s.len() && s[k].id == id;
        assert(s.push(new)[k].id == id);
    }
}

/// What releasing a texture does to the allocated-record view: the id is
/// gone, every other record survives, and nothing appears.
pub proof fn lemma_released_texture_facts(pre: BackendView, post: BackendView, id: u64)
    requires
        spec_backend_inv(pre),
        spec_texture_alive(pre.textures, id),
        spec_released_texture(pre, post, id),
    ensures
        !spec_texture_alive(post.textures, id),
        post.textures.len() == pre.textures.len() - 1,
        forall|r: TextureRecord|
            spec_has_record(pre.textures, r) && r.id != id ==> spec_has_record(post.textures, r),
        forall|r: TextureRecord| spec_has_record(post.textures, r) ==> spec_has_record(
            pre.textures,
            r,
        ),
        forall|other: u64|
            spec_texture_alive(pre.textures, other) && other != id ==> spec_texture_alive(
                post.textures,
                other,
            ),
        forall|other: u64| spec_texture_alive(post.textures, other) ==> spec_texture_alive(
            pre.textures,
            other,
        ),
{
    lemma_index_of_texture_props(pre.textures, id);
    let i = spec_index_of_texture(pre.textures, id);
    let post_t = pre.textures.remove(i);
    assert(forall|k: int|
        0 <= k < post_t.len() ==> post_t[k] == (if k < i {
            pre.textures[k]
        } else {
            pre.textures[k + 1]
        }));
    assert forall|k: int| 0 <= k < post_t.len() implies post_t[k].id != id by {
        if k >= i {
            assert(pre.textures[i].id == id);
            assert(pre.textures[k + 1].id != id);
        }
    }
    assert forall|r: TextureRecord|
        spec_has_record(pre.textures, r) && r.id != id implies spec_has_record(post_t, r) by {
        let k = choose|k: int| 0 <= k < pre.textures.len() && pre.textures[k] == r;
        assert(k != i);
        if k < i {
            assert(post_t[k] == r);
        } else {
            assert(post_t[k - 1] == r);
        }
    }
    assert forall|r: TextureRecord| spec_has_record(post_t, r) implies spec_has_record(
        pre.textures,
        r,
    ) by {
        let k = choose|k: int| 0 <= k < post_t.len() && post_t[k] == r;
    }
    assert forall|other: u64|
        spec_texture_alive(pre.textures, other) && other != id implies spec_texture_alive(
        post_t,
        other,
    ) by {
        let k = choose|k: int| 0 <= k < pre.textures.len() && pre.textures[k].id == other;
        assert(k != i);
        if k < i {
            assert(post_t[k].id == other);
        } else {
            assert(post_t[k - 1].id == other);
        }
    }
    assert forall|other: u64| spec_texture_alive(post_t, other) implies spec_texture_alive(
        pre.textures,
        other,
    ) by {
        let k = choose|k: int| 0 <= k < post_t.len() && post_t[k].id == other;
    }
}

/// What releasing a program does to the linked-program view.
pub proof fn lemma_released_program_facts(pre: BackendView, post: BackendView, id: u64)
    requires
        spec_backend_inv(pre),
        spec_program_alive(pre.programs, id),
        spec_released_program(pre, post, id),
    ensures
        !spec_program_alive(post.programs, id),
        post.programs.len() == pre.programs.len() - 1,
        forall|other: u64|
            spec_program_alive(pre.programs, other) && other != id ==> spec_program_alive(
                post.programs,
                other,
            ),
        forall|other: u64| spec_program_alive(post.programs, other) ==> spec_program_alive(
            pre.programs,
            other,
        ),
{
    lemma_index_of_program_props(pre.programs, id);
    let i = spec_index_of_program(pre.programs, id);
    let post_p = pre.programs.remove(i);
    assert(forall|k: int|
        0 <= k < post_p.len() ==> post_p[k] == (if k < i {
            pre.programs[k]
        } else {
            pre.programs[k + 1]
        }));
    assert forall|k: int| 0 <= k < post_p.len() implies post_p[k] != id by {
        if k >= i {
            assert(pre.programs[i] == id);
            assert(pre.programs[k + 1] != id);
        }
    }
    assert forall|other: u64|
        spec_program_alive(pre.programs, other) && other != id implies spec_program_alive(
        post_p,
        other,
    ) by {
        let k = choose|k: int| 0 <= k < pre.programs.len() && pre.programs[k] == other;
        assert(k != i);
        if k < i {
            assert(post_p[k] == other);
        } else {
            assert(post_p[k - 1] == other);
        }
    }
    assert forall|other: u64| spec_program_alive(post_p, other) implies spec_program_alive(
        pre.programs,
        other,
    ) by {
        let k = choose|k: int| 0 <= k < post_p.len() && post_p[k] == other;
    }
}

/// First-occurrence facts for a linked program id.
pub proof fn lemma_index_of_program_props(s: Seq<u64>, id: u64)
    requires
        spec_program_alive(s, id),
    ensures
        0 <= spec_index_of_program(s, id) < s.len(),
        s[spec_index_of_program(s, id)] == id,
    decreases s.len(),
{
    if s.len() > 0 && s[0] != id {
        let k = choose|k: int| 0 <= k < s.len() && s[k] == id;
        assert(s.drop_first()[k - 1] == id);
        lemma_index_of_program_props(s.drop_first(), id);
    }
}

/// A record with a fresh id lands at the end, so the first occurrence of
/// its id is the last position.
pub proof fn lemma_index_of_fresh(s: Seq<TextureRecord>, r: TextureRecord)
    requires
        !spec_texture_alive(s, r.id),
    ensures
        spec_index_of_texture(s.push(r), r.id) == s.len(),
    decreases s.len(),
{
    if s.len() == 0 {
        assert(s.push(r)[0] == r);
    } else {
        assert(s.push(r)[0] == s[0]);
        assert(s[0].id != r.id);
        assert(s.push(r).drop_first() =~= s.drop_first().push(r));
        assert(!spec_texture_alive(s.drop_first(), r.id)) by {
            if spec_texture_alive(s.drop_first(), r.id) {
                let k = choose|k: int|
                    0 <= k < s.drop_first().len() && s.drop_first()[k].id == r.id;
                assert(s[k + 1].id == r.id);
            }
        }
        lemma_index_of_fresh(s.drop_first(), r);
    }
}

/// Pushing a program id keeps every linked program.
pub proof fn lemma_push_preserves_programs(s: Seq<u64>, new: u64)
    ensures
        forall|id: u64| spec_program_alive(s, id) ==> spec_program_alive(s.push(new), id),
        spec_program_alive(s.push(new), new),
{
    assert(s.push(new)[s.len() as int] == new);
    assert forall|id: u64| spec_program_alive(s, id) implies spec_program_alive(
        s.push(new),
        id,
    ) by {
        let k = choose|k: int| 0 <= k < s.len() && s[k] == id;
        assert(s.push(new)[k] == id);
    }
}

proof fn lemma_index_of_texture_first(s: Seq<TextureRecord>, id: u64, i: int)
    requires
        0 <= i < s.len(),
        s[i].id == id,
        forall|j: int| 0 <= j < i ==> s[j].id != id,
    ensures
        spec_index_of_texture(s, id) == i,
    decreases i,
{
    if i > 0 {
        assert(forall|j: int| 0 <= j < i - 1 ==> s.drop_first()[j].id != id);
        lemma_index_of_texture_first(s.drop_first(), id, i - 1);
    }
}

proof fn lemma_index_of_program_first(s: Seq<u64>, id: u64, i: int)
    requires
        0 <= i < s.len(),
        s[i] == id,
        forall|j: int| 0 <= j < i ==> s[j] != id,
    ensures
        spec_index_of_program(s, id) == i,
    decreases i,
{
    if i > 0 {
        assert(forall|j: int| 0 <= j < i - 1 ==> s.drop_first()[j] != id);
        lemma_index_of_program_first(s.drop_first(), id, i - 1);
    }
}

/// The global mutable backend state shared by all passes of a frame.
pub struct Backend {
    textures: Vec<TextureRecord>,
    programs: Vec<u64>,
    next_id: u64,
    bound_program: Option<u64>,
    bound_texture: Option<u64>,
    bound_framebuffer: u64,
    viewport: (u32, u32),
    depth_test: bool,
    uniform_wvp: Option<FrameMatrix>,
    uniform_texture_unit: Option<u32>,
    uniform_color: Option<Color>,
}

impl View for Backend {
    type V = BackendView;

    closed spec fn view(&self) -> BackendView {
        BackendView {
            textures: self.textures@,
            programs: self.programs@,
            next_id: self.next_id,
            bound_program: self.bound_program,
            bound_texture: self.bound_texture,
            bound_framebuffer: self.bound_framebuffer,
            viewport: self.viewport,
            depth_test: self.depth_test,
            uniform_wvp: self.uniform_wvp,
            uniform_texture_unit: self.uniform_texture_unit,
            uniform_color: self.uniform_color,
        }
    }
}

/// Object ids are unique and below the id counter.
pub open spec fn spec_backend_inv(v: BackendView) -> bool {
    &&& forall|i: int, j: int|
        0 <= i < j < v.textures.len() ==> v.textures[i].id != v.textures[j].id
    &&& forall|i: int| 0 <= i < v.textures.len() ==> v.textures[i].id < v.next_id
    &&& forall|i: int, j: int| 0 <= i < j < v.programs.len() ==> v.programs[i] != v.programs[j]
    &&& forall|i: int| 0 <= i < v.programs.len() ==> v.programs[i] < v.next_id
    &&& forall|i: int, j: int|
        0 <= i < v.textures.len() && 0 <= j < v.programs.len() ==> v.textures[i].id
            != v.programs[j]
}

proof fn lemma_inv_push_texture(v: BackendView, record: TextureRecord)
    requires
        spec_backend_inv(v),
        record.id == v.next_id,
        v.next_id < u64::MAX,
    ensures
        spec_backend_inv(
            v.with_textures(v.textures.push(record)).with_next_id((v.next_id + 1) as u64),
        ),
{
    let post = v.textures.push(record);
    assert(forall|k: int|
        0 <= k < post.len() ==> post[k] == (if k < v.textures.len() {
            v.textures[k]
        } else {
            record
        }));
}

proof fn lemma_inv_push_program(v: BackendView, id: u64)
    requires
        spec_backend_inv(v),
        id == v.next_id,
        v.next_id < u64::MAX,
    ensures
        spec_backend_inv(
            v.with_programs(v.programs.push(id)).with_next_id((v.next_id + 1) as u64),
        ),
{
    let post = v.programs.push(id);
    assert(forall|k: int|
        0 <= k < post.len() ==> post[k] == (if k < v.programs.len() {
            v.programs[k]
        } else {
            id
        }));
}

proof fn lemma_inv_remove_texture(v: BackendView, i: int)
    requires
        spec_backend_inv(v),
        0 <= i < v.textures.len(),
    ensures
        spec_backend_inv(v.with_textures(v.textures.remove(i))),
{
    let post = v.textures.remove(i);
    assert(forall|k: int|
        0 <= k < post.len() ==> post[k] == (if k < i {
            v.textures[k]
        } else {
            v.textures[k + 1]
        }));
}

proof fn lemma_inv_remove_program(v: BackendView, i: int)
    requires
        spec_backend_inv(v),
        0 <= i < v.programs.len(),
    ensures
        spec_backend_inv(v.with_programs(v.programs.remove(i))),
{
    let post = v.programs.remove(i);
    assert(forall|k: int|
        0 <= k < post.len() ==> post[k] == (if k < i {
            v.programs[k]
        } else {
            v.programs[k + 1]
        }));
}

proof fn lemma_inv_update_texture(v: BackendView, i: int, record: TextureRecord)
    requires
        spec_backend_inv(v),
        0 <= i < v.textures.len(),
        record.id == v.textures[i].id,
    ensures
        spec_backend_inv(v.with_textures(v.textures.update(i, record))),
{
    let post = v.textures.update(i, record);
    assert(forall|k: int|
        0 <= k < post.len() ==> post[k].id == v.textures[k].id);
}

impl Backend {
    /// Object ids are unique and below the id counter.
    pub open spec fn inv(self) -> bool {
        spec_backend_inv(self@)
    }

    /// A fresh backend: no objects, nothing bound, depth test off.
    pub fn new() -> (b: Backend)
        ensures
            b.inv(),
            b@.textures.len() == 0,
            b@.programs.len() == 0,
            b@.next_id == 0,
            b@.bound_program is None,
            b@.bound_texture is None,
            b@.bound_framebuffer == 0,
            b@.viewport == (0u32, 0u32),
            b@.depth_test == false,
            b@.uniform_wvp is None,
            b@.uniform_texture_unit is None,
            b@.uniform_color is None,
    {
        Backend {
            textures: Vec::new(),
            programs: Vec::new(),
            next_id: 0,
            bound_program: None,
            bound_texture: None,
            bound_framebuffer: 0,
            viewport: (0, 0),
            depth_test: false,
            uniform_wvp: None,
            uniform_texture_unit: None,
            uniform_color: None,
        }
    }

    /// Allocates a texture object and uploads `bytes`; fails exactly when
    /// the format/size combination is rejected (zero-sized shape or a data
    /// buffer whose length does not match). Binds the new texture.
    pub fn create_texture(
        &mut self,
        kind: GpuTextureKind,
        pixel_kind: PixelKind,
        bytes: &Vec<u8>,
        generate_mipmaps: bool,
    ) -> (r: Result<u64, RendererError>)
        requires
            old(self).inv(),
            old(self)@.next_id < u64::MAX,
        ensures
            final(self).inv(),
            (r is Ok) <==> spec_texture_data_valid(kind, pixel_kind, bytes@.len() as int),
            r matches Ok(id) ==> spec_created_texture(
                old(self)@,
                final(self)@,
                id,
                kind,
                pixel_kind,
                generate_mipmaps,
            ),
            r is Err ==> {
                &&& final(self)@ == old(self)@
                &&& r == Err::<u64, RendererError>(RendererError::ResourceCreation {
                    kind,
                    pixel_kind,
                    actual_bytes: bytes@.len() as usize,
                })
            },
    {
        let expected = texture_bytes(kind, pixel_kind);
        let positive = match kind {
            GpuTextureKind::Line { length } => length > 0,
            GpuTextureKind::Rectangle { width, height } => width > 0 && height > 0,
            GpuTextureKind::Cube { width, height } => width > 0 && height > 0,
        };
        if positive && (bytes.len() as u128) == expected {
            let id = self.next_id;
            proof {
                lemma_inv_push_texture(
                    self@,
                    TextureRecord {
                        id,
                        kind,
                        pixel_kind,
                        mipmaps: generate_mipmaps,
                        max_anisotropy: false,
                    },
                );
            }
            self.textures.push(
                TextureRecord { id, kind, pixel_kind, mipmaps: generate_mipmaps, max_anisotropy: false },
            );
            self.next_id = self.next_id + 1;
            self.bound_texture = Some(id);
            Ok(id)
        } else {
            Err(RendererError::ResourceCreation { kind, pixel_kind, actual_bytes: bytes.len() })
        }
    }

    /// Allocates a render-target texture of the given size; no data upload.
    /// Fails exactly on a zero-sized target. Binds the new texture.
    pub fn create_render_target(
        &mut self,
        width: u32,
        height: u32,
        pixel_kind: PixelKind,
    ) -> (r: Result<u64, RendererError>)
        requires
            old(self).inv(),
            old(self)@.next_id < u64::MAX,
        ensures
            final(self).inv(),
            (r is Ok) <==> width > 0 && height > 0,
            r matches Ok(id) ==> spec_created_texture(
                old(self)@,
                final(self)@,
                id,
                GpuTextureKind::Rectangle { width, height },
                pixel_kind,
                false,
            ),
            r is Err ==> {
                &&& final(self)@ == old(self)@
                &&& r == Err::<u64, RendererError>(RendererError::FrameResource { width, height })
            },
    {
        if width > 0 && height > 0 {
            let id = self.next_id;
            proof {
                lemma_inv_push_texture(
                    self@,
                    TextureRecord {
                        id,
                        kind: GpuTextureKind::Rectangle { width, height },
                        pixel_kind,
                        mipmaps: false,
                        max_anisotropy: false,
                    },
                );
            }
            self.textures.push(
                TextureRecord {
                    id,
                    kind: GpuTextureKind::Rectangle { width, height },
                    pixel_kind,
                    mipmaps: false,
                    max_anisotropy: false,
                },
            );
            self.next_id = self.next_id + 1;
            self.bound_texture = Some(id);
            Ok(id)
        } else {
            Err(RendererError::FrameResource { width, height })
        }
    }

    /// Releases the texture with this id; a bound texture becomes unbound.
    pub fn release_texture(&mut self, id: u64)
        requires
            old(self).inv(),
            spec_texture_alive(old(self)@.textures, id),
        ensures
            final(self).inv(),
            spec_released_texture(old(self)@, final(self)@, id),
    {
        let mut i: usize = 0;
        while i < self.textures.len() && self.textures[i].id != id
            invariant
                i <= self.textures@.len(),
                forall|j: int| 0 <= j < i ==> self.textures@[j].id != id,
            decreases self.textures@.len() - i,
        {
            i = i + 1;
        }
        assert(i < self.textures@.len() && self.textures@[i as int].id == id) by {
            assert(spec_texture_alive(self.textures@, id));
        }
        proof {
            lemma_index_of_texture_first(self.textures@, id, i as int);
            lemma_inv_remove_texture(self@, i as int);
        }
        self.textures.remove(i);
        match self.bound_texture {
            Some(b) => {
                if b == id {
                    self.bound_texture = None;
                }
            },
            None => {},
        }
    }

    /// Rebinds the texture and raises its filtering to maximum anisotropy.
    pub fn set_max_anisotropy(&mut self, id: u64)
        requires
            old(self).inv(),
            spec_texture_alive(old(self)@.textures, id),
        ensures
            final(self).inv(),
            spec_set_max_anisotropy(old(self)@, final(self)@, id),
    {
        let mut i: usize = 0;
        while i < self.textures.len() && self.textures[i].id != id
            invariant
                i <= self.textures@.len(),
                forall|j: int| 0 <= j < i ==> self.textures@[j].id != id,
            decreases self.textures@.len() - i,
        {
            i = i + 1;
        }
        assert(i < self.textures@.len() && self.textures@[i as int].id == id) by {
            assert(spec_texture_alive(self.textures@, id));
        }
        let mut record = self.textures[i];
        record.max_anisotropy = true;
        proof {
            lemma_index_of_texture_first(self.textures@, id, i as int);
            lemma_inv_update_texture(self@, i as int, record);
        }
        self.textures.set(i, record);
        self.bound_texture = Some(id);
    }

    /// Compiles and links a program from the two shader stages; fails with
    /// the backend's diagnostic exactly when a stage's source is empty.
    pub fn compile_program(
        &mut self,
        vertex_source: &str,
        fragment_source: &str,
    ) -> (r: Result<u64, RendererError>)
        requires
            old(self).inv(),
            old(self)@.next_id < u64::MAX,
        ensures
            final(self).inv(),
            (r is Ok) <==> vertex_source@.len() > 0 && fragment_source@.len() > 0,
            r matches Ok(id) ==> spec_created_program(old(self)@, final(self)@, id),
            r is Err ==> final(self)@ == old(self)@,
            r matches Err(e) ==> (e matches RendererError::ShaderCompilation { stage, diagnostic }
                && stage == (if vertex_source@.len() == 0 {
                    ShaderStage::Vertex
                } else {
                    ShaderStage::Fragment
                }) && diagnostic@ == "no shader source provided"@),
    {
        if vertex_source.is_empty() {
            return Err(RendererError::ShaderCompilation {
                stage: ShaderStage::Vertex,
                diagnostic: String::from_str("no shader source provided"),
            });
        }
        if fragment_source.is_empty() {
            return Err(RendererError::ShaderCompilation {
                stage: ShaderStage::Fragment,
                diagnostic: String::from_str("no shader source provided"),
            });
        }
        let id = self.next_id;
        proof {
            lemma_inv_push_program(self@, id);
        }
        self.programs.push(id);
        self.next_id = self.next_id + 1;
        Ok(id)
    }

    /// Releases the program with this id; a bound program becomes unbound.
    pub fn release_program(&mut self, id: u64)
        requires
            old(self).inv(),
            spec_program_alive(old(self)@.programs, id),
        ensures
            final(self).inv(),
            spec_released_program(old(self)@, final(self)@, id),
    {
        let mut i: usize = 0;
        while i < self.programs.len() && self.programs[i] != id
            invariant
                i <= self.programs@.len(),
                forall|j: int| 0 <= j < i ==> self.programs@[j] != id,
            decreases self.programs@.len() - i,
        {
            i = i + 1;
        }
        assert(i < self.programs@.len() && self.programs@[i as int] == id) by {
            assert(spec_program_alive(self.programs@, id));
        }
        proof {
            lemma_index_of_program_first(self.programs@, id, i as int);
            lemma_inv_remove_program(self@, i as int);
        }
        self.programs.remove(i);
        match self.bound_program {
            Some(b) => {
                if b == id {
                    self.bound_program = None;
                }
            },
            None => {},
        }
    }

    /// Makes the program active; uniform setters are only valid while their
    /// program is the bound one.
    pub fn bind_program(&mut self, id: u64)
        requires
            old(self).inv(),
            spec_program_alive(old(self)@.programs, id),
        ensures
            final(self).inv(),
            final(self)@ == old(self)@.with_bound_program(Some(id)),
    {
        self.bound_program = Some(id);
    }

    /// Binds the texture in global state.
    pub fn bind_texture(&mut self, id: u64)
        requires
            old(self).inv(),
            spec_texture_alive(old(self)@.textures, id),
        ensures
            final(self).inv(),
            final(self)@ == old(self)@.with_bound_texture(Some(id)),
    {
        self.bound_texture = Some(id);
    }

    /// Selects the framebuffer every draw lands in; handle 0 is the back
    /// buffer.
    pub fn bind_framebuffer(&mut self, handle: u64)
        requires
            old(self).inv(),
        ensures
            final(self).inv(),
            final(self)@ == old(self)@.with_bound_framebuffer(handle),
    {
        self.bound_framebuffer = handle;
    }

    pub fn set_viewport(&mut self, width: u32, height: u32)
        requires
            old(self).inv(),
        ensures
            final(self).inv(),
            final(self)@ == old(self)@.with_viewport((width, height)),
    {
        self.viewport = (width, height);
    }

    pub fn set_depth_test(&mut self, enabled: bool)
        requires
            old(self).inv(),
        ensures
            final(self).inv(),
            final(self)@ == old(self)@.with_depth_test(enabled),
    {
        self.depth_test = enabled;
    }

    /// Writes the world-view-projection uniform of the bound program.
    pub fn set_uniform_matrix(&mut self, matrix: FrameMatrix)
        requires
            old(self).inv(),
            old(self)@.bound_program is Some,
        ensures
            final(self).inv(),
            final(self)@ == old(self)@.with_uniform_wvp(Some(matrix)),
    {
        self.uniform_wvp = Some(matrix);
    }

    /// Writes the sampler-unit uniform of the bound program.
    pub fn set_uniform_texture_unit(&mut self, unit: u32)
        requires
            old(self).inv(),
            old(self)@.bound_program is Some,
        ensures
            final(self).inv(),
            final(self)@ == old(self)@.with_uniform_texture_unit(Some(unit)),
    {
        self.uniform_texture_unit = Some(unit);
    }

    /// Writes the color uniform of the bound program.
    pub fn set_uniform_color(&mut self, color: Color)
        requires
            old(self).inv(),
            old(self)@.bound_program is Some,
        ensures
            final(self).inv(),
            final(self)@ == old(self)@.with_uniform_color(Some(color)),
    {
        self.uniform_color = Some(color);
    }

    /// How many texture objects are currently allocated.
    pub fn texture_count(&self) -> (n: usize)
        ensures
            n == self@.textures.len(),
    {
        self.textures.len()
    }

    /// How many programs are currently linked.
    pub fn program_count(&self) -> (n: usize)
        ensures
            n == self@.programs.len(),
    {
        self.programs.len()
    }

    /// Whether a texture object with this id is allocated.
    pub fn is_texture_alive(&self, id: u64) -> (alive: bool)
        ensures
            alive == spec_texture_alive(self@.textures, id),
    {
        let mut i: usize = 0;
        while i < self.textures.len()
            invariant
                i <= self.textures@.len(),
                forall|j: int| 0 <= j < i ==> self.textures@[j].id != id,
            decreases self.textures@.len() - i,
        {
            if self.textures[i].id == id {
                return true;
            }
            i = i + 1;
        }
        false
    }

    /// Reported width and height of an allocated texture, `None` if no such
    /// texture exists.
    pub fn texture_dimensions(&self, id: u64) -> (r: Option<(u32, u32)>)
        requires
            self.inv(),
        ensures
            (r is Some) <==> spec_texture_alive(self@.textures, id),
            r matches Some(d) ==> d == self@.textures[spec_index_of_texture(
                self@.textures,
                id,
            )].kind.spec_dimensions(),
    {
        let mut i: usize = 0;
        while i < self.textures.len()
            invariant
                i <= self.textures@.len(),
                forall|j: int| 0 <= j < i ==> self.textures@[j].id != id,
            decreases self.textures@.len() - i,
        {
            if self.textures[i].id == id {
                proof {
                    lemma_index_of_texture_first(self.textures@, id, i as int);
                }
                let record = self.textures[i];
                return Some(match record.kind {
                    GpuTextureKind::Line { length } => (length, 1),
                    GpuTextureKind::Rectangle { width, height } => (width, height),
                    GpuTextureKind::Cube { width, height } => (width, height),
                });
            }
            i = i + 1;
        }
        None
    }
}

} // verus!
