//! The device command log.
//!
//! The library never calls a graphics driver: every GPU effect is recorded as
//! a [`Command`] in a [`Device`] log, in the exact order the driver must see
//! it, and the host program replays the log against the real API. Contracts
//! over the log are how this crate states what reaches the GPU: which handles
//! are allocated, what is uploaded, what is drawn, and in which order.

use vstd::prelude::*;

use crate::resource;
use crate::stream;
use crate::texture;

verus! {

/// Target of a texture image or framebuffer attachment: the flat 2D target
/// or one of the six cubemap faces (0 = +X, 1 = -X, 2 = +Y, 3 = -Y,
/// 4 = +Z, 5 = -Z).
#[derive(Copy, Debug, Clone, PartialEq, Eq, Structural)]
pub enum TexTarget {
    Flat2D,
    CubeFace { face: u32 },
}

/// A texture sampling parameter.
#[derive(Copy, Debug, Clone, PartialEq, Eq, Structural)]
pub enum TexParam {
    WrapS,
    WrapT,
    WrapR,
    MinFilter,
    MagFilter,
}

/// Value of a texture sampling parameter.
#[derive(Copy, Debug, Clone, PartialEq, Eq, Structural)]
pub enum ParamValue {
    Wrapping(texture::WrapMode),
    Filtering(texture::Filter),
}

/// A shader uniform the pipeline sets; the host maps each name to the
/// matching source-level uniform string.
#[derive(Copy, Debug, Clone, PartialEq, Eq, Structural)]
pub enum UniformName {
    Projection,
    View,
    HdrTexture,
    EnvMap,
    Roughness,
    Sampler,
    WindowSize,
}

/// A matrix the host must compute and upload: the fixed 90-degree capture
/// projection, or the capture view for one cubemap face.
#[derive(Copy, Debug, Clone, PartialEq, Eq, Structural)]
pub enum MatrixRef {
    CaptureProjection,
    CaptureView { face: u32 },
}

/// One recorded driver call.
#[derive(Debug, Clone)]
pub enum Command {
    GenBuffer { handle: u32 },
    BindBuffer { kind: resource::Type, handle: u32 },
    /// Full replacement of the bound buffer's contents.
    BufferData { kind: resource::Type, bytes: Vec<u8> },
    DeleteBuffer { handle: u32 },
    GenTexture { handle: u32 },
    BindTexture { target: texture::Type, handle: u32 },
    /// Allocates (pixels absent) or fills (pixels present) one texture image.
    TexImage2D {
        target: TexTarget,
        level: u32,
        width: u32,
        height: u32,
        format: stream::Format,
        pixels: Option<Vec<u8>>,
    },
    PixelStore { alignment: u32 },
    TexParameter { target: texture::Type, param: TexParam, value: ParamValue },
    GenerateMipmap { target: texture::Type, handle: u32 },
    GenFramebuffer { handle: u32 },
    BindFramebuffer { handle: u32 },
    DeleteFramebuffer { handle: u32 },
    GenRenderbuffer { handle: u32 },
    BindRenderbuffer { handle: u32 },
    RenderbufferStorage { width: u32, height: u32 },
    DeleteRenderbuffer { handle: u32 },
    FramebufferRenderbuffer { renderbuffer: u32 },
    /// Attaches one texture image (a face, at a mip level) as the render
    /// target, so the following draws write into it.
    FramebufferTexture2D { target: TexTarget, texture: u32, level: u32 },
    Viewport { width: u32, height: u32 },
    Clear,
    UseProgram { program: u32 },
    SetUniformMatrix { name: UniformName, matrix: MatrixRef },
    SetUniformInt { name: UniformName, value: i32 },
    /// A scalar uniform given as the exact rational numer/denom; the host
    /// performs the one floating-point division.
    SetUniformRatio { name: UniformName, numer: u32, denom: u32 },
    ActiveTexture { slot: u32 },
    EnableAttribute { slot: u32, dimension: u32, stride: u32, offset: usize },
    DrawElements { count: usize, byte_offset: usize },
    DeleteTexture { handle: u32 },
    DeleteProgram { program: u32 },
}

/// Mathematical image of one command: identical to [`Command`] except that
/// byte payloads are sequences. Contracts speak of these.
pub enum CommandView {
    GenBuffer { handle: u32 },
    BindBuffer { kind: resource::Type, handle: u32 },
    BufferData { kind: resource::Type, bytes: Seq<u8> },
    DeleteBuffer { handle: u32 },
    GenTexture { handle: u32 },
    BindTexture { target: texture::Type, handle: u32 },
    TexImage2D {
        target: TexTarget,
        level: u32,
        width: u32,
        height: u32,
        format: stream::Format,
        pixels: Option<Seq<u8>>,
    },
    PixelStore { alignment: u32 },
    TexParameter { target: texture::Type, param: TexParam, value: ParamValue },
    GenerateMipmap { target: texture::Type, handle: u32 },
    GenFramebuffer { handle: u32 },
    BindFramebuffer { handle: u32 },
    DeleteFramebuffer { handle: u32 },
    GenRenderbuffer { handle: u32 },
    BindRenderbuffer { handle: u32 },
    RenderbufferStorage { width: u32, height: u32 },
    DeleteRenderbuffer { handle: u32 },
    FramebufferRenderbuffer { renderbuffer: u32 },
    FramebufferTexture2D { target: TexTarget, texture: u32, level: u32 },
    Viewport { width: u32, height: u32 },
    Clear,
    UseProgram { program: u32 },
    SetUniformMatrix { name: UniformName, matrix: MatrixRef },
    SetUniformInt { name: UniformName, value: i32 },
    SetUniformRatio { name: UniformName, numer: u32, denom: u32 },
    ActiveTexture { slot: u32 },
    EnableAttribute { slot: u32, dimension: u32, stride: u32, offset: usize },
    DrawElements { count: usize, byte_offset: usize },
    DeleteTexture { handle: u32 },
    DeleteProgram { program: u32 },
}

impl View for Command {
    type V = CommandView;

    open spec fn view(&self) -> CommandView {
        match *self {
            Command::GenBuffer { handle } => CommandView::GenBuffer { handle },
            Command::BindBuffer { kind, handle } => CommandView::BindBuffer { kind, handle },
            Command::BufferData { kind, bytes } => CommandView::BufferData {
                kind,
                bytes: bytes@,
            },
            Command::DeleteBuffer { handle } => CommandView::DeleteBuffer { handle },
            Command::GenTexture { handle } => CommandView::GenTexture { handle },
            Command::BindTexture { target, handle } => CommandView::BindTexture { target, handle },
            Command::TexImage2D { target, level, width, height, format, pixels } => (
            CommandView::TexImage2D {
                target,
                level,
                width,
                height,
                format,
                pixels: match pixels {
                    Option::Some(p) => Option::Some(p@),
                    Option::None => Option::None,
                },
            }),
            Command::PixelStore { alignment } => CommandView::PixelStore { alignment },
            Command::TexParameter { target, param, value } => CommandView::TexParameter {
                target,
                param,
                value,
            },
            Command::GenerateMipmap { target, handle } => CommandView::GenerateMipmap {
                target,
                handle,
            },
            Command::GenFramebuffer { handle } => CommandView::GenFramebuffer { handle },
            Command::BindFramebuffer { handle } => CommandView::BindFramebuffer { handle },
            Command::DeleteFramebuffer { handle } => CommandView::DeleteFramebuffer { handle },
            Command::GenRenderbuffer { handle } => CommandView::GenRenderbuffer { handle },
            Command::BindRenderbuffer { handle } => CommandView::BindRenderbuffer { handle },
            Command::RenderbufferStorage { width, height } => CommandView::RenderbufferStorage {
                width,
                height,
            },
            Command::DeleteRenderbuffer { handle } => CommandView::DeleteRenderbuffer { handle },
            Command::FramebufferRenderbuffer { renderbuffer } => (
            CommandView::FramebufferRenderbuffer { renderbuffer }),
            Command::FramebufferTexture2D { target, texture, level } => (
            CommandView::FramebufferTexture2D { target, texture, level }),
            Command::Viewport { width, height } => CommandView::Viewport { width, height },
            Command::Clear => CommandView::Clear,
            Command::UseProgram { program } => CommandView::UseProgram { program },
            Command::SetUniformMatrix { name, matrix } => CommandView::SetUniformMatrix {
                name,
                matrix,
            },
            Command::SetUniformInt { name, value } => CommandView::SetUniformInt { name, value },
            Command::SetUniformRatio { name, numer, denom } => CommandView::SetUniformRatio {
                name,
                numer,
                denom,
            },
            Command::ActiveTexture { slot } => CommandView::ActiveTexture { slot },
            Command::EnableAttribute { slot, dimension, stride, offset } => (
            CommandView::EnableAttribute { slot, dimension, stride, offset }),
            Command::DrawElements { count, byte_offset } => CommandView::DrawElements {
                count,
                byte_offset,
            },
            Command::DeleteTexture { handle } => CommandView::DeleteTexture { handle },
            Command::DeleteProgram { program } => CommandView::DeleteProgram { program },
        }
    }
}

/// Mathematical image of a whole command list.
pub open spec fn log_of(s: Seq<Command>) -> Seq<CommandView> {
    s.map_values(|c: Command| c@)
}

/// The recorder of driver calls. Handles are allocated by a counter starting
/// at 1, so every allocated handle is nonzero and all are distinct.
#[derive(Debug)]
pub struct Device {
    pub next_handle: u32,
    pub commands: Vec<Command>,
}

impl Device {
    /// Handle counter discipline: 0 is reserved for "no object".
    pub open spec fn wf(self) -> bool {
        self.next_handle >= 1
    }

    /// The recorded log, as mathematical command images.
    pub open spec fn log(self) -> Seq<CommandView> {
        log_of(self.commands@)
    }

    pub fn new() -> (d: Device)
        ensures
            d.wf(),
            d.next_handle == 1,
            d.log() == Seq::<CommandView>::empty(),
    {
        let d = Device { next_handle: 1, commands: Vec::new() };
        proof {
            assert(d.log() =~= Seq::<CommandView>::empty());
        }
        d
    }

    /// Appends one command to the log.
    pub fn record(&mut self, c: Command)
        ensures
            final(self).next_handle == old(self).next_handle,
            final(self).commands@ == old(self).commands@.push(c),
            final(self).log() == old(self).log().push(c@),
    {
        let ghost cv = c@;
        self.commands.push(c);
        proof {
            lemma_log_of_push(old(self).commands@, self.commands@[self.commands@.len() - 1]);
            assert(self.log() =~= old(self).log().push(cv));
        }
    }

    /// Draws a fresh native handle; handles are never reused, so they are
    /// pairwise distinct and never 0.
    pub fn fresh_handle(&mut self) -> (h: u32)
        requires
            old(self).wf(),
            old(self).next_handle < u32::MAX,
        ensures
            final(self).wf(),
            h == old(self).next_handle,
            h >= 1,
            final(self).next_handle == old(self).next_handle + 1,
            final(self).commands@ == old(self).commands@,
            final(self).log() == old(self).log(),
    {
        let h = self.next_handle;
        self.next_handle = self.next_handle + 1;
        h
    }
}

/// Mapping a command list to its image commutes with appending one command.
pub proof fn lemma_log_of_push(s: Seq<Command>, c: Command)
    ensures
        log_of(s.push(c)) == log_of(s).push(c@),
{
    assert(log_of(s.push(c)) =~= log_of(s).push(c@));
}

/// Mapping a command list to its image commutes with concatenation.
pub proof fn lemma_log_of_concat(a: Seq<Command>, b: Seq<Command>)
    ensures
        log_of(a + b) == log_of(a) + log_of(b),
{
    assert(log_of(a + b) =~= log_of(a) + log_of(b));
}

/// Number of commands in `s` satisfying `pred`.
pub open spec fn count_where(s: Seq<CommandView>, pred: spec_fn(CommandView) -> bool) -> nat
    decreases s.len(),
{
    if s.len() == 0 {
        0
    } else {
        count_where(s.drop_last(), pred) + if pred(s.last()) {
            1nat
        } else {
            0nat
        }
    }
}

pub proof fn lemma_count_where_push(s: Seq<CommandView>, c: CommandView, pred: spec_fn(CommandView) -> bool)
    ensures
        count_where(s.push(c), pred) == count_where(s, pred) + if pred(c) {
            1nat
        } else {
            0nat
        },
{
    assert(s.push(c).drop_last() =~= s);
}

pub proof fn lemma_count_where_concat(a: Seq<CommandView>, b: Seq<CommandView>, pred: spec_fn(CommandView) -> bool)
    ensures
        count_where(a + b, pred) == count_where(a, pred) + count_where(b, pred),
    decreases b.len(),
{
    if b.len() == 0 {
        assert(a + b =~= a);
    } else {
        lemma_count_where_concat(a, b.drop_last(), pred);
        assert((a + b).drop_last() =~= a + b.drop_last());
        assert((a + b).last() == b.last());
    }
}

/// A count of zero means no index satisfies the predicate.
pub proof fn lemma_count_where_zero(s: Seq<CommandView>, pred: spec_fn(CommandView) -> bool)
    requires
        count_where(s, pred) == 0,
    ensures
        forall|i: int| 0 <= i < s.len() ==> !pred(s[i]),
    decreases s.len(),
{
    if s.len() > 0 {
        lemma_count_where_zero(s.drop_last(), pred);
        assert(forall|i: int|
            0 <= i < s.len() - 1 ==> s[i] == s.drop_last()[i] && !pred(s.drop_last()[i]));
    }
}

/// True of commands through which the GPU writes into a face or level of
/// texture `tex`: attaching it to the capture framebuffer.
pub open spec fn is_attach_to(tex: u32) -> spec_fn(CommandView) -> bool {
    |c: CommandView|
        match c {
            CommandView::FramebufferTexture2D { texture, .. } => texture == tex,
            _ => false,
        }
}

/// True of draw calls.
pub open spec fn is_draw() -> spec_fn(CommandView) -> bool {
    |c: CommandView|
        match c {
            CommandView::DrawElements { .. } => true,
            _ => false,
        }
}

/// True of commands that name texture `tex` at all: binding it, generating
/// its mipmaps, attaching it, creating or deleting it.
pub open spec fn mentions_texture(tex: u32) -> spec_fn(CommandView) -> bool {
    |c: CommandView|
        match c {
            CommandView::GenTexture { handle } => handle == tex,
            CommandView::BindTexture { handle, .. } => handle == tex,
            CommandView::GenerateMipmap { handle, .. } => handle == tex,
            CommandView::FramebufferTexture2D { texture, .. } => texture == tex,
            CommandView::DeleteTexture { handle } => handle == tex,
            _ => false,
        }
}

/// True of scalar uniform settings given as rationals (the prefilter's
/// roughness is the only one).
pub open spec fn is_ratio_set() -> spec_fn(CommandView) -> bool {
    |c: CommandView|
        match c {
            CommandView::SetUniformRatio { .. } => true,
            _ => false,
        }
}

/// The rational scalar uniforms set by the commands of `s`, in order.
pub open spec fn ratios_of(s: Seq<CommandView>) -> Seq<(u32, u32)>
    decreases s.len(),
{
    if s.len() == 0 {
        Seq::empty()
    } else {
        ratios_of(s.drop_last()) + (match s.last() {
            CommandView::SetUniformRatio { numer, denom, .. } => seq![(numer, denom)],
            _ => Seq::<(u32, u32)>::empty(),
        })
    }
}

pub proof fn lemma_ratios_of_concat(a: Seq<CommandView>, b: Seq<CommandView>)
    ensures
        ratios_of(a + b) == ratios_of(a) + ratios_of(b),
    decreases b.len(),
{
    if b.len() == 0 {
        assert(a + b =~= a);
        assert(ratios_of(a) + ratios_of(b) =~= ratios_of(a));
    } else {
        lemma_ratios_of_concat(a, b.drop_last());
        assert((a + b).drop_last() =~= a + b.drop_last());
        assert((a + b).last() == b.last());
        assert(ratios_of(a) + ratios_of(b.drop_last()) + (match b.last() {
            CommandView::SetUniformRatio { numer, denom, .. } => seq![(numer, denom)],
            _ => Seq::<(u32, u32)>::empty(),
        }) =~= ratios_of(a) + ratios_of(b));
    }
}

/// A list with no rational uniform settings collects none.
pub proof fn lemma_ratios_of_none(s: Seq<CommandView>)
    requires
        count_where(s, is_ratio_set()) == 0,
    ensures
        ratios_of(s) == Seq::<(u32, u32)>::empty(),
    decreases s.len(),
{
    if s.len() > 0 {
        lemma_ratios_of_none(s.drop_last());
        assert(ratios_of(s) =~= Seq::<(u32, u32)>::empty());
    } else {
        assert(ratios_of(s) =~= Seq::<(u32, u32)>::empty());
    }
}

/// Counting distributes over a five-part concatenation.
pub proof fn lemma_count_five_parts(
    a: Seq<CommandView>,
    b: Seq<CommandView>,
    c: Seq<CommandView>,
    d: Seq<CommandView>,
    e: Seq<CommandView>,
    pred: spec_fn(CommandView) -> bool,
)
    ensures
        count_where(a + b + c + d + e, pred) == count_where(a, pred) + count_where(b, pred)
            + count_where(c, pred) + count_where(d, pred) + count_where(e, pred),
{
    lemma_count_where_concat(a, b, pred);
    lemma_count_where_concat(a + b, c, pred);
    lemma_count_where_concat(a + b + c, d, pred);
    lemma_count_where_concat(a + b + c + d, e, pred);
}

/// If `p` matches nothing at or after position `k` and `q` matches nothing
/// before it, then every `p` match comes before every `q` match.
pub proof fn lemma_ordered_in_parts(
    s: Seq<CommandView>,
    k: int,
    p: spec_fn(CommandView) -> bool,
    q: spec_fn(CommandView) -> bool,
)
    requires
        0 <= k <= s.len(),
        count_where(s.skip(k), p) == 0,
        count_where(s.subrange(0, k), q) == 0,
    ensures
        forall|i: int, j: int|
            0 <= i < s.len() && 0 <= j < s.len() && p(#[trigger] s[i]) && q(#[trigger] s[j])
                ==> i < j,
{
    lemma_count_where_zero(s.skip(k), p);
    lemma_count_where_zero(s.subrange(0, k), q);
    assert forall|i: int, j: int|
        0 <= i < s.len() && 0 <= j < s.len() && p(#[trigger] s[i]) && q(#[trigger] s[j]) implies i
        < j by {
        if i >= k {
            assert(s[i] == s.skip(k)[i - k]);
        }
        if j < k {
            assert(s[j] == s.subrange(0, k)[j]);
        }
    }
}

/// Counting distributes over a six-part concatenation.
pub proof fn lemma_count_six_parts(
    a: Seq<CommandView>,
    b: Seq<CommandView>,
    c: Seq<CommandView>,
    d: Seq<CommandView>,
    e: Seq<CommandView>,
    f: Seq<CommandView>,
    pred: spec_fn(CommandView) -> bool,
)
    ensures
        count_where(a + b + c + d + e + f, pred) == count_where(a, pred) + count_where(b, pred)
            + count_where(c, pred) + count_where(d, pred) + count_where(e, pred) + count_where(
            f,
            pred,
        ),
{
    lemma_count_five_parts(a, b, c, d, e, pred);
    lemma_count_where_concat(a + b + c + d + e, f, pred);
}

/// A list exactly one of whose positions satisfies `pred` counts one.
pub proof fn lemma_count_one_at(s: Seq<CommandView>, pred: spec_fn(CommandView) -> bool, at: int)
    requires
        0 <= at < s.len(),
        forall|i: int| 0 <= i < s.len() ==> (pred(s[i]) <==> i == at),
    ensures
        count_where(s, pred) == 1,
    decreases s.len(),
{
    if at == s.len() - 1 {
        assert(forall|i: int| 0 <= i < s.len() - 1 ==> s.drop_last()[i] == s[i]);
        lemma_count_where_all_false(s.drop_last(), pred);
    } else {
        assert(forall|i: int| 0 <= i < s.len() - 1 ==> s.drop_last()[i] == s[i]);
        lemma_count_one_at(s.drop_last(), pred, at);
    }
}

/// A list none of whose commands satisfies `pred` counts zero.
pub proof fn lemma_count_where_all_false(s: Seq<CommandView>, pred: spec_fn(CommandView) -> bool)
    requires
        forall|i: int| 0 <= i < s.len() ==> !pred(s[i]),
    ensures
        count_where(s, pred) == 0,
    decreases s.len(),
{
    if s.len() > 0 {
        assert(forall|i: int| 0 <= i < s.len() - 1 ==> s.drop_last()[i] == s[i]);
        lemma_count_where_all_false(s.drop_last(), pred);
    }
}

/// True of full buffer uploads.
pub open spec fn is_upload() -> spec_fn(CommandView) -> bool {
    |c: CommandView|
        match c {
            CommandView::BufferData { .. } => true,
            _ => false,
        }
}

/// True of native buffer releases of handle `h`.
pub open spec fn is_buffer_delete(h: u32) -> spec_fn(CommandView) -> bool {
    |c: CommandView|
        match c {
            CommandView::DeleteBuffer { handle } => handle == h,
            _ => false,
        }
}

} // verus!
