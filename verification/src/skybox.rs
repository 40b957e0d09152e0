//! The image-based-lighting precomputation pipeline.
//!
//! From a decoded HDR panorama it produces four textures: the raw
//! environment cubemap (equirectangular source rendered onto six faces), the
//! diffuse irradiance cubemap (hemispherical convolution of the
//! environment), the specular prefilter cubemap (one roughness per mip
//! level), and the split-sum BRDF lookup table. The passes run in that
//! order; the contracts pin down that the environment's six faces are
//! written exactly once, before the irradiance and prefilter passes read
//! them, that the roughness uniform takes exactly the values m/4 for mip m,
//! and that the BRDF pass touches no texture but its own.

use vstd::prelude::*;

use crate::backend::{
    attribute_commands, lemma_attribute_commands_quiet, lemma_sync_log_quiet, spec_alloc_count,
    spec_sync_buffer, spec_sync_log, Backend,
};
use crate::device::{
    count_where, is_attach_to, is_draw, is_ratio_set, lemma_count_one_at,
    lemma_count_where_all_false, lemma_count_where_concat, lemma_count_where_zero,
    lemma_ratios_of_concat, lemma_ratios_of_none, mentions_texture, ratios_of, Command,
    CommandView, Device, MatrixRef, TexParam, TexTarget, ParamValue, UniformName,
};
use crate::model::{has_cube_geometry, has_quad_geometry, ModelCache, Shape, SubMesh};
use crate::shader::Pipeline;
use crate::stream;
use crate::texture::{
    self, lemma_texture_new_log_quiet, spec_texture_new_log, HdrImage, Texture, TextureDesc,
};

verus! {

/// Edge length of the environment cubemap's faces, and of the BRDF lookup
/// table.
pub const SKYBOX_RESOLUTION: u32 = 1080;

/// Edge length of the irradiance cubemap's faces.
pub const IRRADIANCE_RESOLUTION: u32 = 32;

/// Edge length of the prefilter cubemap's base mip faces.
pub const PREFILTER_RESOLUTION: u32 = 128;

/// Number of mip levels of the prefilter cubemap.
pub const MAX_MIP_LEVELS: u32 = 5;

/// The capture camera for one cubemap face: looking from the origin toward
/// `center`, with `up` chosen so the projected image is not mirrored. All
/// components are 0 or plus/minus 1; the host builds the look-at matrix.
#[derive(Copy, Debug, Clone, PartialEq, Eq, Structural)]
pub struct CaptureDirection {
    pub center_x: i32,
    pub center_y: i32,
    pub center_z: i32,
    pub up_x: i32,
    pub up_y: i32,
    pub up_z: i32,
}

/// The six capture cameras, one per face, in face order +X, -X, +Y, -Y,
/// +Z, -Z.
pub open spec fn spec_capture_views() -> Seq<CaptureDirection> {
    seq![
        CaptureDirection { center_x: 1i32, center_y: 0i32, center_z: 0i32, up_x: 0i32, up_y: -1i32, up_z: 0i32 },
        CaptureDirection { center_x: -1i32, center_y: 0i32, center_z: 0i32, up_x: 0i32, up_y: -1i32, up_z: 0i32 },
        CaptureDirection { center_x: 0i32, center_y: 1i32, center_z: 0i32, up_x: 0i32, up_y: 0i32, up_z: 1i32 },
        CaptureDirection { center_x: 0i32, center_y: -1i32, center_z: 0i32, up_x: 0i32, up_y: 0i32, up_z: -1i32 },
        CaptureDirection { center_x: 0i32, center_y: 0i32, center_z: 1i32, up_x: 0i32, up_y: -1i32, up_z: 0i32 },
        CaptureDirection { center_x: 0i32, center_y: 0i32, center_z: -1i32, up_x: 0i32, up_y: -1i32, up_z: 0i32 },
    ]
}

/// The six capture cameras the face-capture passes use.
pub fn get_capture_views() -> (views: Vec<CaptureDirection>)
    ensures
        views@ == spec_capture_views(),
{
    let mut views: Vec<CaptureDirection> = Vec::new();
    views.push(CaptureDirection { center_x: 1, center_y: 0, center_z: 0, up_x: 0, up_y: -1, up_z: 0 });
    views.push(
        CaptureDirection { center_x: -1, center_y: 0, center_z: 0, up_x: 0, up_y: -1, up_z: 0 },
    );
    views.push(CaptureDirection { center_x: 0, center_y: 1, center_z: 0, up_x: 0, up_y: 0, up_z: 1 });
    views.push(
        CaptureDirection { center_x: 0, center_y: -1, center_z: 0, up_x: 0, up_y: 0, up_z: -1 },
    );
    views.push(CaptureDirection { center_x: 0, center_y: 0, center_z: 1, up_x: 0, up_y: -1, up_z: 0 });
    views.push(
        CaptureDirection { center_x: 0, center_y: 0, center_z: -1, up_x: 0, up_y: -1, up_z: 0 },
    );
    proof {
        assert(views@ =~= spec_capture_views());
    }
    views
}

/// The pixel format of every pass's render target: three float components.
pub open spec fn capture_format() -> stream::Format {
    stream::Format {
        dimension: stream::Dimension::VEC3,
        _type: stream::Type::FLOAT,
        usage: stream::Usage::RGB,
    }
}

/// The sampling settings every generated texture uses.
pub open spec fn capture_desc() -> TextureDesc {
    TextureDesc {
        wrap_s: texture::WrapMode::CLAMP,
        wrap_t: texture::WrapMode::CLAMP,
        min_filter: texture::Filter::LINEAR,
        mag_filter: texture::Filter::LINEAR,
    }
}

/// The pixel format of the flat BRDF lookup table: two float components,
/// the split-sum scale and bias.
pub open spec fn lut_format() -> stream::Format {
    stream::Format {
        dimension: stream::Dimension::VEC2,
        _type: stream::Type::FLOAT,
        usage: stream::Usage::RG,
    }
}

/// The cubemap-face image allocations of one capture target: six empty
/// float-RGB faces of edge `size`, in face order.
pub open spec fn face_allocations(size: u32) -> Seq<CommandView> {
    Seq::new(
        6,
        |k: int| (CommandView::TexImage2D {
            target: TexTarget::CubeFace { face: k as u32 },
            level: 0,
            width: size,
            height: size,
            format: capture_format(),
            pixels: Option::None,
        }),
    )
}

/// The clamp-to-edge, linear sampling parameters of a capture cubemap.
pub open spec fn cube_sampling_params() -> Seq<CommandView> {
    seq![
        CommandView::TexParameter {
            target: texture::Type::TexCUBE,
            param: TexParam::WrapS,
            value: ParamValue::Wrapping(texture::WrapMode::CLAMP),
        },
        CommandView::TexParameter {
            target: texture::Type::TexCUBE,
            param: TexParam::WrapT,
            value: ParamValue::Wrapping(texture::WrapMode::CLAMP),
        },
        CommandView::TexParameter {
            target: texture::Type::TexCUBE,
            param: TexParam::WrapR,
            value: ParamValue::Wrapping(texture::WrapMode::CLAMP),
        },
        CommandView::TexParameter {
            target: texture::Type::TexCUBE,
            param: TexParam::MinFilter,
            value: ParamValue::Filtering(texture::Filter::LINEAR),
        },
    ]
}

/// The fixed setup of the environment conversion pass: the capture
/// framebuffer, the cubemap's face allocations and sampling parameters, the
/// program with the 90-degree capture projection, the panorama bound as the
/// sampling source, and the full-resolution viewport.
pub open spec fn skybox_pass_pre(fresh: u32, hdr: u32, program: u32) -> Seq<CommandView> {
    let fb = fresh;
    let tex = (fresh + 1) as u32;
    seq![
        CommandView::GenFramebuffer { handle: fb },
        CommandView::BindFramebuffer { handle: fb },
        CommandView::FramebufferRenderbuffer { renderbuffer: 0 },
        CommandView::GenTexture { handle: tex },
        CommandView::BindTexture { target: texture::Type::TexCUBE, handle: tex },
    ] + face_allocations(SKYBOX_RESOLUTION) + cube_sampling_params() + seq![
        CommandView::TexParameter {
            target: texture::Type::TexCUBE,
            param: TexParam::MagFilter,
            value: ParamValue::Filtering(texture::Filter::LINEAR),
        },
        CommandView::UseProgram { program },
        CommandView::SetUniformMatrix {
            name: UniformName::Projection,
            matrix: MatrixRef::CaptureProjection,
        },
        CommandView::SetUniformInt { name: UniformName::HdrTexture, value: 0 },
        CommandView::ActiveTexture { slot: 0 },
        CommandView::BindTexture { target: texture::Type::Tex2D, handle: hdr },
        CommandView::Viewport { width: SKYBOX_RESOLUTION, height: SKYBOX_RESOLUTION },
        CommandView::BindFramebuffer { handle: fb },
    ]
}

/// The fixed setup of the irradiance pass: capture renderbuffer and
/// framebuffer, the environment's mipmap generation, the 32x32 cubemap's
/// allocations and parameters, the depth storage, the program with the
/// capture projection, the environment bound as the sampling source, and
/// the 32x32 viewport.
#[verifier::opaque]
pub open spec fn irradiance_pass_pre(fresh: u32, env: u32, program: u32) -> Seq<CommandView> {
    let rbo = fresh;
    let fbo = (fresh + 1) as u32;
    let tex = (fresh + 2) as u32;
    seq![
        CommandView::GenRenderbuffer { handle: rbo },
        CommandView::GenFramebuffer { handle: fbo },
        CommandView::BindTexture { target: texture::Type::TexCUBE, handle: env },
        CommandView::GenerateMipmap { target: texture::Type::TexCUBE, handle: env },
        CommandView::GenTexture { handle: tex },
        CommandView::BindTexture { target: texture::Type::TexCUBE, handle: tex },
    ] + face_allocations(IRRADIANCE_RESOLUTION) + cube_sampling_params() + seq![
        CommandView::TexParameter {
            target: texture::Type::TexCUBE,
            param: TexParam::MagFilter,
            value: ParamValue::Filtering(texture::Filter::LINEAR),
        },
        CommandView::BindFramebuffer { handle: fbo },
        CommandView::BindRenderbuffer { handle: rbo },
        CommandView::RenderbufferStorage {
            width: IRRADIANCE_RESOLUTION,
            height: IRRADIANCE_RESOLUTION,
        },
        CommandView::UseProgram { program },
        CommandView::SetUniformInt { name: UniformName::EnvMap, value: 0 },
        CommandView::SetUniformMatrix {
            name: UniformName::Projection,
            matrix: MatrixRef::CaptureProjection,
        },
        CommandView::ActiveTexture { slot: 0 },
        CommandView::BindTexture { target: texture::Type::TexCUBE, handle: env },
        CommandView::Viewport { width: IRRADIANCE_RESOLUTION, height: IRRADIANCE_RESOLUTION },
        CommandView::BindFramebuffer { handle: fbo },
    ]
}

/// The fixed setup of the prefilter pass: capture renderbuffer and
/// framebuffer, the 128x128 cubemap's allocations, parameters (trilinear
/// minification) and mip-chain generation, and the program with the capture
/// projection sampling the environment.
#[verifier::opaque]
pub open spec fn prefilter_pass_pre(fresh: u32, env: u32, program: u32) -> Seq<CommandView> {
    let rbo = fresh;
    let fbo = (fresh + 1) as u32;
    let tex = (fresh + 2) as u32;
    seq![
        CommandView::GenRenderbuffer { handle: rbo },
        CommandView::GenFramebuffer { handle: fbo },
        CommandView::GenTexture { handle: tex },
        CommandView::BindTexture { target: texture::Type::TexCUBE, handle: tex },
    ] + face_allocations(PREFILTER_RESOLUTION) + cube_sampling_params() + seq![
        CommandView::TexParameter {
            target: texture::Type::TexCUBE,
            param: TexParam::MinFilter,
            value: ParamValue::Filtering(texture::Filter::LINEAR_MIP_LINEAR),
        },
        CommandView::GenerateMipmap { target: texture::Type::TexCUBE, handle: tex },
        CommandView::UseProgram { program },
        CommandView::SetUniformMatrix {
            name: UniformName::Projection,
            matrix: MatrixRef::CaptureProjection,
        },
        CommandView::ActiveTexture { slot: 0 },
        CommandView::BindTexture { target: texture::Type::TexCUBE, handle: env },
        CommandView::BindFramebuffer { handle: fbo },
    ]
}

/// The fixed setup of the BRDF pass: capture renderbuffer and framebuffer,
/// the flat two-channel lookup texture allocated and attached as the render
/// target, the full-resolution viewport, a clear, and the program. No
/// texture is ever bound as a sampling source.
#[verifier::opaque]
pub open spec fn brdf_pass_pre(fresh: u32, program: u32) -> Seq<CommandView> {
    let rbo = fresh;
    let fbo = (fresh + 1) as u32;
    let tex = (fresh + 2) as u32;
    seq![
        CommandView::GenRenderbuffer { handle: rbo },
        CommandView::GenFramebuffer { handle: fbo },
        CommandView::GenTexture { handle: tex },
        CommandView::BindTexture { target: texture::Type::Tex2D, handle: tex },
        CommandView::TexImage2D {
            target: TexTarget::Flat2D,
            level: 0,
            width: SKYBOX_RESOLUTION,
            height: SKYBOX_RESOLUTION,
            format: lut_format(),
            pixels: Option::None,
        },
        CommandView::TexParameter {
            target: texture::Type::Tex2D,
            param: TexParam::WrapS,
            value: ParamValue::Wrapping(texture::WrapMode::CLAMP),
        },
        CommandView::TexParameter {
            target: texture::Type::Tex2D,
            param: TexParam::WrapT,
            value: ParamValue::Wrapping(texture::WrapMode::CLAMP),
        },
        CommandView::TexParameter {
            target: texture::Type::Tex2D,
            param: TexParam::MinFilter,
            value: ParamValue::Filtering(texture::Filter::LINEAR),
        },
        CommandView::TexParameter {
            target: texture::Type::Tex2D,
            param: TexParam::MagFilter,
            value: ParamValue::Filtering(texture::Filter::LINEAR),
        },
        CommandView::BindFramebuffer { handle: fbo },
        CommandView::BindRenderbuffer { handle: rbo },
        CommandView::RenderbufferStorage { width: 512, height: 512 },
        CommandView::FramebufferTexture2D { target: TexTarget::Flat2D, texture: tex, level: 0 },
        CommandView::Viewport { width: SKYBOX_RESOLUTION, height: SKYBOX_RESOLUTION },
        CommandView::Clear,
        CommandView::UseProgram { program },
    ]
}

/// The teardown of a pass that allocated only a framebuffer.
pub open spec fn fb_teardown(fb: u32) -> Seq<CommandView> {
    seq![CommandView::BindFramebuffer { handle: 0u32 }, CommandView::DeleteFramebuffer {
        handle: fb,
    }]
}

/// The teardown of a pass that allocated a framebuffer and a renderbuffer.
pub open spec fn capture_teardown(fbo: u32, rbo: u32) -> Seq<CommandView> {
    seq![
        CommandView::BindFramebuffer { handle: 0u32 },
        CommandView::DeleteFramebuffer { handle: fbo },
        CommandView::DeleteRenderbuffer { handle: rbo },
    ]
}

/// The single full-screen draw and teardown of the BRDF pass: the quad
/// model's six-index sub-mesh, drawn once.
pub open spec fn brdf_pass_tail(fbo: u32, rbo: u32) -> Seq<CommandView> {
    seq![
        CommandView::DrawElements { count: 6, byte_offset: 0 },
        CommandView::BindFramebuffer { handle: 0u32 },
        CommandView::DeleteFramebuffer { handle: fbo },
        CommandView::DeleteRenderbuffer { handle: rbo },
    ]
}

/// The whole command list of the environment conversion pass, given the
/// first fresh handle, the panorama and program handles, and the cube
/// model's buffer and attribute state: the fixed setup, the cube model's
/// two buffer syncs around its attribute setup, the six face renders of
/// cubemap `fresh + 1` in face order with the cube's 36-index sub-mesh, and
/// the framebuffer teardown. Opaque so that callers carry only the name;
/// reveal it to reason about the content.
#[verifier::opaque]
pub open spec fn spec_skybox_pass_log(
    fresh: u32,
    hdr: u32,
    program: u32,
    vb: crate::buffer::BufferView,
    ib: crate::buffer::BufferView,
    attrs: Seq<stream::Attribute>,
) -> Seq<CommandView> {
    skybox_pass_pre(fresh, hdr, program) + spec_sync_log(
        vb,
        crate::resource::Type::ArrayBuffer,
        (fresh + 2) as u32,
    ) + attribute_commands(attrs) + spec_sync_log(
        ib,
        crate::resource::Type::IndexBuffer,
        (fresh + 2 + spec_alloc_count(vb)) as u32,
    ) + faces_segment((fresh + 1) as u32, 0, 36, 0, 6) + fb_teardown(fresh)
}

/// The whole command list of the irradiance pass: the fixed setup
/// (including the environment's mipmap generation), the cube model's buffer
/// syncs around its attribute setup, the six face renders of cubemap
/// `fresh + 2` with the cube's 36-index sub-mesh, and the capture teardown.
#[verifier::opaque]
pub open spec fn spec_irradiance_pass_log(
    fresh: u32,
    env: u32,
    program: u32,
    vb: crate::buffer::BufferView,
    ib: crate::buffer::BufferView,
    attrs: Seq<stream::Attribute>,
) -> Seq<CommandView> {
    irradiance_pass_pre(fresh, env, program) + spec_sync_log(
        vb,
        crate::resource::Type::ArrayBuffer,
        (fresh + 3) as u32,
    ) + attribute_commands(attrs) + spec_sync_log(
        ib,
        crate::resource::Type::IndexBuffer,
        (fresh + 3 + spec_alloc_count(vb)) as u32,
    ) + faces_segment((fresh + 2) as u32, 0, 36, 0, 6) + capture_teardown(
        (fresh + 1) as u32,
        fresh,
    )
}

/// The whole command list of the prefilter pass: the fixed setup, the cube
/// model's buffer syncs around its attribute setup, the five mip renders
/// (each its renderbuffer/viewport/roughness setup and six face renders of
/// cubemap `fresh + 2` at that mip with the cube's 36-index sub-mesh), and
/// the capture teardown.
#[verifier::opaque]
pub open spec fn spec_prefilter_pass_log(
    fresh: u32,
    env: u32,
    program: u32,
    vb: crate::buffer::BufferView,
    ib: crate::buffer::BufferView,
    attrs: Seq<stream::Attribute>,
) -> Seq<CommandView> {
    prefilter_pass_pre(fresh, env, program) + spec_sync_log(
        vb,
        crate::resource::Type::ArrayBuffer,
        (fresh + 3) as u32,
    ) + attribute_commands(attrs) + spec_sync_log(
        ib,
        crate::resource::Type::IndexBuffer,
        (fresh + 3 + spec_alloc_count(vb)) as u32,
    ) + mips_segment(fresh, (fresh + 2) as u32, 36, 0, 5) + capture_teardown(
        (fresh + 1) as u32,
        fresh,
    )
}

/// The whole command list of the BRDF pass: the fixed setup (which attaches
/// the lookup texture `fresh + 2` as the render target and binds no sampling
/// source), the quad model's buffer syncs around its attribute setup, and
/// one draw of the quad's six-index sub-mesh followed by the teardown.
#[verifier::opaque]
pub open spec fn spec_brdf_pass_log(
    fresh: u32,
    program: u32,
    vb: crate::buffer::BufferView,
    ib: crate::buffer::BufferView,
    attrs: Seq<stream::Attribute>,
) -> Seq<CommandView> {
    brdf_pass_pre(fresh, program) + spec_sync_log(
        vb,
        crate::resource::Type::ArrayBuffer,
        (fresh + 3) as u32,
    ) + attribute_commands(attrs) + spec_sync_log(
        ib,
        crate::resource::Type::IndexBuffer,
        (fresh + 3 + spec_alloc_count(vb)) as u32,
    ) + brdf_pass_tail((fresh + 1) as u32, fresh)
}

/// Commands that render one cubemap face at mip `level` of texture `tex`:
/// point the capture camera at the face, attach the face as the render
/// target, clear, draw.
pub open spec fn face_segment(
    tex: u32,
    level: u32,
    count: usize,
    byte_offset: usize,
    face: u32,
) -> Seq<CommandView> {
    seq![
        CommandView::SetUniformMatrix {
            name: UniformName::View,
            matrix: MatrixRef::CaptureView { face },
        },
        CommandView::FramebufferTexture2D {
            target: TexTarget::CubeFace { face },
            texture: tex,
            level,
        },
        CommandView::Clear,
        CommandView::DrawElements { count, byte_offset },
    ]
}

/// The face renders of faces `0 .. n`, in order.
pub open spec fn faces_segment(
    tex: u32,
    level: u32,
    count: usize,
    byte_offset: usize,
    n: nat,
) -> Seq<CommandView>
    decreases n,
{
    if n == 0 {
        Seq::empty()
    } else {
        faces_segment(tex, level, count, byte_offset, (n - 1) as nat) + face_segment(
            tex,
            level,
            count,
            byte_offset,
            (n - 1) as u32,
        )
    }
}

/// What a run of face renders amounts to: one attach per face, all to `tex`,
/// one draw per face, no other texture touched, no rational uniform set.
pub proof fn lemma_faces_segment_counts(
    tex: u32,
    level: u32,
    count: usize,
    byte_offset: usize,
    n: nat,
    h: u32,
)
    ensures
        count_where(faces_segment(tex, level, count, byte_offset, n), is_attach_to(tex)) == n,
        h != tex ==> count_where(faces_segment(tex, level, count, byte_offset, n), is_attach_to(h))
            == 0,
        h != tex ==> count_where(
            faces_segment(tex, level, count, byte_offset, n),
            mentions_texture(h),
        ) == 0,
        count_where(faces_segment(tex, level, count, byte_offset, n), is_draw()) == n,
        count_where(faces_segment(tex, level, count, byte_offset, n), is_ratio_set()) == 0,
    decreases n,
{
    reveal_with_fuel(count_where, 6);
    if n > 0 {
        lemma_faces_segment_counts(tex, level, count, byte_offset, (n - 1) as nat, h);
        let fs = face_segment(tex, level, count, byte_offset, (n - 1) as u32);
        lemma_count_where_concat(
            faces_segment(tex, level, count, byte_offset, (n - 1) as nat),
            fs,
            is_attach_to(tex),
        );
        lemma_count_where_concat(
            faces_segment(tex, level, count, byte_offset, (n - 1) as nat),
            fs,
            is_attach_to(h),
        );
        lemma_count_where_concat(
            faces_segment(tex, level, count, byte_offset, (n - 1) as nat),
            fs,
            mentions_texture(h),
        );
        lemma_count_where_concat(
            faces_segment(tex, level, count, byte_offset, (n - 1) as nat),
            fs,
            is_draw(),
        );
        lemma_count_where_concat(
            faces_segment(tex, level, count, byte_offset, (n - 1) as nat),
            fs,
            is_ratio_set(),
        );
    }
}

} // verus!

verus! {

/// The irradiance pass's fixed setup renders nothing: it attaches no
/// texture, draws nothing, and sets no rational uniform.
#[verifier::rlimit(100)]
proof fn lemma_irradiance_pre_quiet(fresh: u32, env: u32, program: u32, h: u32)
    ensures
        count_where(irradiance_pass_pre(fresh, env, program), is_attach_to(h)) == 0,
        count_where(irradiance_pass_pre(fresh, env, program), is_draw()) == 0,
        count_where(irradiance_pass_pre(fresh, env, program), is_ratio_set()) == 0,
        irradiance_pass_pre(fresh, env, program).len() == 27,
        irradiance_pass_pre(fresh, env, program)[3] == (CommandView::GenerateMipmap {
            target: texture::Type::TexCUBE,
            handle: env,
        }),
{
    reveal(irradiance_pass_pre);
    let pre = irradiance_pass_pre(fresh, env, program);
    assert forall|i: int| 0 <= i < pre.len() implies !is_attach_to(h)(pre[i]) && !is_draw()(
        pre[i],
    ) && !is_ratio_set()(pre[i]) by {
        if 6 <= i < 12 {
            assert(pre[i] == face_allocations(IRRADIANCE_RESOLUTION)[i - 6]);
        }
    }
    lemma_count_where_all_false(pre, is_attach_to(h));
    lemma_count_where_all_false(pre, is_draw());
    lemma_count_where_all_false(pre, is_ratio_set());
}

/// The prefilter pass's fixed setup renders nothing: it attaches no
/// texture, draws nothing, and sets no rational uniform.
#[verifier::rlimit(100)]
proof fn lemma_prefilter_pre_quiet(fresh: u32, env: u32, program: u32, h: u32)
    ensures
        count_where(prefilter_pass_pre(fresh, env, program), is_attach_to(h)) == 0,
        count_where(prefilter_pass_pre(fresh, env, program), is_draw()) == 0,
        count_where(prefilter_pass_pre(fresh, env, program), is_ratio_set()) == 0,
        prefilter_pass_pre(fresh, env, program).len() == 21,
{
    reveal(prefilter_pass_pre);
    let pre = prefilter_pass_pre(fresh, env, program);
    assert forall|i: int| 0 <= i < pre.len() implies !is_attach_to(h)(pre[i]) && !is_draw()(
        pre[i],
    ) && !is_ratio_set()(pre[i]) by {
        if 4 <= i < 10 {
            assert(pre[i] == face_allocations(PREFILTER_RESOLUTION)[i - 4]);
        }
    }
    lemma_count_where_all_false(pre, is_attach_to(h));
    lemma_count_where_all_false(pre, is_draw());
    lemma_count_where_all_false(pre, is_ratio_set());
}

/// The BRDF pass's fixed setup attaches the fresh lookup texture exactly
/// once as the render target, touches no other texture, draws nothing, and
/// sets no rational uniform.
#[verifier::rlimit(100)]
proof fn lemma_brdf_pre_quiet(fresh: u32, program: u32, h: u32)
    ensures
        count_where(
            brdf_pass_pre(fresh, program),
            is_attach_to(((fresh + 2) as u32)),
        ) == 1,
        h != ((fresh + 2) as u32) ==> count_where(brdf_pass_pre(fresh, program), is_attach_to(h))
            == 0 && count_where(brdf_pass_pre(fresh, program), mentions_texture(h)) == 0,
        count_where(brdf_pass_pre(fresh, program), is_draw()) == 0,
        count_where(brdf_pass_pre(fresh, program), is_ratio_set()) == 0,
        brdf_pass_pre(fresh, program).len() == 16,
{
    reveal(brdf_pass_pre);
    let pre = brdf_pass_pre(fresh, program);
    let tex = (fresh + 2) as u32;
    assert forall|i: int| 0 <= i < pre.len() implies !is_draw()(pre[i]) && !is_ratio_set()(
        pre[i],
    ) && (is_attach_to(tex)(pre[i]) <==> i == 12) by {}
    lemma_count_where_all_false(pre, is_draw());
    lemma_count_where_all_false(pre, is_ratio_set());
    lemma_count_one_at(pre, is_attach_to(tex), 12);
    if h != tex {
        assert forall|i: int| 0 <= i < pre.len() implies !is_attach_to(h)(pre[i])
            && !mentions_texture(h)(pre[i]) by {}
        lemma_count_where_all_false(pre, is_attach_to(h));
        lemma_count_where_all_false(pre, mentions_texture(h));
    }
}

/// What one capture pass's command list amounts to, counted over the
/// appended segment: the fixed setup and teardown touch nothing, the buffer
/// syncs and attribute setup touch nothing, and the face renders attach and
/// draw the capture target exactly six times and set no rational uniform.
#[verifier::rlimit(100)]
proof fn lemma_capture_pass_counts(
    log0: Seq<CommandView>,
    pre: Seq<CommandView>,
    d_vb: Seq<CommandView>,
    d_at: Seq<CommandView>,
    d_ib: Seq<CommandView>,
    fs: Seq<CommandView>,
    tail: Seq<CommandView>,
    full: Seq<CommandView>,
    tex: u32,
    vb0: crate::buffer::BufferView,
    ib0: crate::buffer::BufferView,
    attrs0: Seq<stream::Attribute>,
    nh0: u32,
    nh1: u32,
    count: usize,
    byte_offset: usize,
)
    requires
        full == log0 + (pre + d_vb + d_at + d_ib + fs + tail),
        d_vb == spec_sync_log(vb0, crate::resource::Type::ArrayBuffer, nh0),
        d_at == attribute_commands(attrs0),
        d_ib == spec_sync_log(ib0, crate::resource::Type::IndexBuffer, nh1),
        fs == faces_segment(tex, 0, count, byte_offset, 6),
        forall|h: u32| count_where(pre, is_attach_to(h)) == 0,
        count_where(pre, is_draw()) == 0,
        count_where(pre, is_ratio_set()) == 0,
        forall|h: u32| count_where(tail, is_attach_to(h)) == 0,
        count_where(tail, is_draw()) == 0,
        count_where(tail, is_ratio_set()) == 0,
    ensures
        log0.len() <= full.len(),
        full.subrange(0, log0.len() as int) == log0,
        count_where(full.skip(log0.len() as int), is_attach_to(tex)) == 6,
        forall|h: u32|
            h != tex ==> count_where(full.skip(log0.len() as int), is_attach_to(h)) == 0,
        count_where(full.skip(log0.len() as int), is_draw()) == 6,
        count_where(full.skip(log0.len() as int), is_ratio_set()) == 0,
{
    let delta = full.skip(log0.len() as int);
    assert(delta =~= pre + d_vb + d_at + d_ib + fs + tail);
    assert(full.subrange(0, log0.len() as int) =~= log0);
    lemma_sync_log_quiet(vb0, crate::resource::Type::ArrayBuffer, nh0, 0);
    lemma_sync_log_quiet(ib0, crate::resource::Type::IndexBuffer, nh1, 0);
    lemma_attribute_commands_quiet(attrs0, 0);
    lemma_faces_segment_counts(tex, 0, count, byte_offset, 6, 0);
    crate::device::lemma_count_six_parts(pre, d_vb, d_at, d_ib, fs, tail, is_draw());
    crate::device::lemma_count_six_parts(pre, d_vb, d_at, d_ib, fs, tail, is_ratio_set());
    assert forall|h: u32| count_where(delta, is_attach_to(h)) == count_where(
        fs,
        is_attach_to(h),
    ) by {
        lemma_sync_log_quiet(vb0, crate::resource::Type::ArrayBuffer, nh0, h);
        lemma_sync_log_quiet(ib0, crate::resource::Type::IndexBuffer, nh1, h);
        lemma_attribute_commands_quiet(attrs0, h);
        crate::device::lemma_count_six_parts(pre, d_vb, d_at, d_ib, fs, tail, is_attach_to(h));
    }
    assert forall|h: u32| h != tex implies count_where(delta, is_attach_to(h)) == 0 by {
        lemma_faces_segment_counts(tex, 0, count, byte_offset, 6, h);
    }
}

/// What one irradiance pass's command list amounts to: the capture-pass
/// counts, plus the placement fact that the environment's mipmap generation
/// (the fourth setup command) precedes every draw of the pass.
#[verifier::rlimit(100)]
proof fn lemma_irradiance_pass_facts(
    log0: Seq<CommandView>,
    pre: Seq<CommandView>,
    d_vb: Seq<CommandView>,
    d_at: Seq<CommandView>,
    d_ib: Seq<CommandView>,
    fs: Seq<CommandView>,
    tail: Seq<CommandView>,
    full: Seq<CommandView>,
    tex: u32,
    env: u32,
    vb0: crate::buffer::BufferView,
    ib0: crate::buffer::BufferView,
    attrs0: Seq<stream::Attribute>,
    nh0: u32,
    nh1: u32,
    count: usize,
    byte_offset: usize,
    fbo: u32,
    rbo: u32,
)
    requires
        full == log0 + (pre + d_vb + d_at + d_ib + fs + tail),
        forall|h: u32| count_where(pre, is_attach_to(h)) == 0,
        count_where(pre, is_draw()) == 0,
        count_where(pre, is_ratio_set()) == 0,
        pre.len() >= 4,
        pre[3] == (CommandView::GenerateMipmap {
            target: texture::Type::TexCUBE,
            handle: env,
        }),
        d_vb == spec_sync_log(vb0, crate::resource::Type::ArrayBuffer, nh0),
        d_at == attribute_commands(attrs0),
        d_ib == spec_sync_log(ib0, crate::resource::Type::IndexBuffer, nh1),
        fs == faces_segment(tex, 0, count, byte_offset, 6),
        tail == capture_teardown(fbo, rbo),
    ensures
        log0.len() <= full.len(),
        full.subrange(0, log0.len() as int) == log0,
        count_where(full.skip(log0.len() as int), is_attach_to(tex)) == 6,
        forall|h: u32|
            h != tex ==> count_where(full.skip(log0.len() as int), is_attach_to(h)) == 0,
        count_where(full.skip(log0.len() as int), is_draw()) == 6,
        count_where(full.skip(log0.len() as int), is_ratio_set()) == 0,
        log0.len() + 3 < full.len(),
        full[log0.len() as int + 3] == (CommandView::GenerateMipmap {
            target: texture::Type::TexCUBE,
            handle: env,
        }),
        forall|i: int|
            log0.len() <= i < full.len() && is_draw()(#[trigger] full[i]) ==> log0.len() + 3 < i,
{
    assert forall|h: u32| count_where(tail, is_attach_to(h)) == 0 by {
        assert(!is_attach_to(h)(tail[0]) && !is_attach_to(h)(tail[1]) && !is_attach_to(h)(
            tail[2],
        ));
        lemma_count_where_all_false(tail, is_attach_to(h));
    }
    assert(!is_draw()(tail[0]) && !is_draw()(tail[1]) && !is_draw()(tail[2]) && !is_ratio_set()(
        tail[0],
    ) && !is_ratio_set()(tail[1]) && !is_ratio_set()(tail[2]));
    lemma_count_where_all_false(tail, is_draw());
    lemma_count_where_all_false(tail, is_ratio_set());
    lemma_capture_pass_counts(
        log0,
        pre,
        d_vb,
        d_at,
        d_ib,
        fs,
        tail,
        full,
        tex,
        vb0,
        ib0,
        attrs0,
        nh0,
        nh1,
        count,
        byte_offset,
    );
    let delta = full.skip(log0.len() as int);
    assert(delta =~= pre + d_vb + d_at + d_ib + fs + tail);
    let prefix = pre + d_vb + d_at + d_ib;
    assert(count_where(d_vb, is_draw()) == 0 && count_where(d_at, is_draw()) == 0 && count_where(
        d_ib,
        is_draw(),
    ) == 0) by {
        lemma_sync_log_quiet(vb0, crate::resource::Type::ArrayBuffer, nh0, 0);
        lemma_sync_log_quiet(ib0, crate::resource::Type::IndexBuffer, nh1, 0);
        lemma_attribute_commands_quiet(attrs0, 0);
    }
    lemma_count_where_concat(pre, d_vb, is_draw());
    lemma_count_where_concat(pre + d_vb, d_at, is_draw());
    lemma_count_where_concat(pre + d_vb + d_at, d_ib, is_draw());
    lemma_count_where_zero(prefix, is_draw());
    assert(delta[3] == pre[3]);
    assert(full[log0.len() as int + 3] == delta[3]);
    assert forall|i: int|
        log0.len() <= i < full.len() && is_draw()(#[trigger] full[i]) implies log0.len() + 3
        < i by {
        assert(full[i] == delta[i - log0.len() as int]);
        if i - log0.len() < prefix.len() {
            assert(delta[i - log0.len() as int] == prefix[i - log0.len() as int]);
        }
    }
}

/// Binds the cube model's vertex buffer, attributes and index buffer, then
/// renders all six cubemap faces of `tex` at mip `level`: per face, the
/// capture view uniform, the face attachment, a clear, and one draw of the
/// cube's 36-index sub-mesh.
#[verifier::rlimit(100)]
fn render_cube_faces(dev: &mut Device, cache: &mut ModelCache, pipeline: &Pipeline, tex: u32, level: u32)
    requires
        old(dev).wf(),
        old(dev).next_handle as int + 2 <= u32::MAX,
        has_cube_geometry(old(cache).cube),
    ensures
        final(dev).wf(),
        final(dev).next_handle == old(dev).next_handle + spec_alloc_count(
            old(cache).cube.vertex_buffer@,
        ) + spec_alloc_count(old(cache).cube.index_buffer@),
        has_cube_geometry(final(cache).cube),
        final(cache).sphere == old(cache).sphere,
        final(cache).quad == old(cache).quad,
        final(cache).cube.vertex_buffer@ == spec_sync_buffer(
            old(cache).cube.vertex_buffer@,
            crate::resource::Type::ArrayBuffer,
            old(dev).next_handle,
        ),
        final(cache).cube.index_buffer@ == spec_sync_buffer(
            old(cache).cube.index_buffer@,
            crate::resource::Type::IndexBuffer,
            (old(dev).next_handle + spec_alloc_count(old(cache).cube.vertex_buffer@)) as u32,
        ),
        final(cache).cube.attributes == old(cache).cube.attributes,
        final(cache).cube.meshes == old(cache).cube.meshes,
        final(cache).cube.materials == old(cache).cube.materials,
        final(dev).log() == old(dev).log() + (spec_sync_log(
            old(cache).cube.vertex_buffer@,
            crate::resource::Type::ArrayBuffer,
            old(dev).next_handle,
        ) + attribute_commands(old(cache).cube.attributes@) + spec_sync_log(
            old(cache).cube.index_buffer@,
            crate::resource::Type::IndexBuffer,
            (old(dev).next_handle + spec_alloc_count(old(cache).cube.vertex_buffer@)) as u32,
        ) + faces_segment(tex, level, 36, 0, 6)),
{
    let ghost log0 = old(dev).log();
    let ghost vb0 = old(cache).cube.vertex_buffer@;
    let ghost ib0 = old(cache).cube.index_buffer@;
    let ghost attrs0 = old(cache).cube.attributes@;
    let cube = cache.shape_mut(Shape::Cube);
    let sm: SubMesh = cube.meshes[0].sub_meshes[0];
    let count = sm.num_indices;
    let byte_offset = sm.start_index * 4;
    let ghost nh0 = dev.next_handle;
    Backend::set_vertex_buffer(dev, &mut cube.vertex_buffer);
    proof {
        crate::model::lemma_block_layout_valid(72, 72, 0);
    }
    let ghost nh1 = dev.next_handle;
    Backend::set_attributes(dev, &cube.attributes);
    Backend::set_index_buffer(dev, &mut cube.index_buffer);
    let ghost d_vb = spec_sync_log(vb0, crate::resource::Type::ArrayBuffer, nh0);
    let ghost d_at = attribute_commands(attrs0);
    let ghost d_ib = spec_sync_log(ib0, crate::resource::Type::IndexBuffer, nh1);
    let ghost base = dev.log();
    proof {
        assert(base =~= log0 + (d_vb + d_at + d_ib));
    }
    let mut face: u32 = 0;
    while face < 6
        invariant
            face <= 6,
            dev.wf(),
            dev.next_handle == nh1 + (if ib0.role == crate::resource::Type::Invalid {
                1int
            } else {
                0int
            }),
            dev.log() == base + faces_segment(tex, level, count, byte_offset, face as nat),
        decreases 6 - face,
    {
        pipeline.set_uniform_matrix(dev, UniformName::View, MatrixRef::CaptureView { face });
        dev.record(Command::FramebufferTexture2D {
            target: TexTarget::CubeFace { face },
            texture: tex,
            level,
        });
        dev.record(Command::Clear);
        dev.record(Command::DrawElements { count, byte_offset });
        proof {
            assert(dev.log() =~= base + faces_segment(
                tex,
                level,
                count,
                byte_offset,
                face as nat,
            ) + face_segment(tex, level, count, byte_offset, face));
            assert(dev.log() =~= base + faces_segment(
                tex,
                level,
                count,
                byte_offset,
                face as nat + 1,
            ));
        }
        face = face + 1;
    }
    proof {
        assert(count == 36 && byte_offset == 0);
        assert(dev.log() =~= log0 + (d_vb + d_at + d_ib + faces_segment(tex, level, 36, 0, 6)));
    }
}

/// Renders the equirectangular HDR source onto the six faces of a fresh
/// environment cubemap at [`SKYBOX_RESOLUTION`]: each face is attached and
/// drawn exactly once, nothing else is rendered into, and the capture
/// framebuffer is torn down before returning.
#[verifier::rlimit(100)]
pub fn generate_skybox_texture(
    dev: &mut Device,
    hdr_texture: &Texture,
    pipeline: &Pipeline,
    cache: &mut ModelCache,
) -> (t: Texture)
    requires
        old(dev).wf(),
        old(dev).next_handle as int + 8 <= u32::MAX,
        has_cube_geometry(old(cache).cube),
    ensures
        final(dev).wf(),
        old(dev).next_handle <= final(dev).next_handle,
        final(dev).next_handle as int <= old(dev).next_handle as int + 8,
        t.id == old(dev).next_handle + 1,
        1 <= t.id < final(dev).next_handle,
        t._type == texture::Type::TexCUBE,
        t.width == SKYBOX_RESOLUTION,
        t.height == SKYBOX_RESOLUTION,
        t.format == capture_format(),
        t.texture_desc == capture_desc(),
        has_cube_geometry(final(cache).cube),
        final(cache).sphere == old(cache).sphere,
        final(cache).quad == old(cache).quad,
        final(dev).next_handle == old(dev).next_handle + 2 + spec_alloc_count(
            old(cache).cube.vertex_buffer@,
        ) + spec_alloc_count(old(cache).cube.index_buffer@),
        final(cache).cube.vertex_buffer@ == spec_sync_buffer(
            old(cache).cube.vertex_buffer@,
            crate::resource::Type::ArrayBuffer,
            (old(dev).next_handle + 2) as u32,
        ),
        final(cache).cube.index_buffer@ == spec_sync_buffer(
            old(cache).cube.index_buffer@,
            crate::resource::Type::IndexBuffer,
            (old(dev).next_handle + 2 + spec_alloc_count(
                old(cache).cube.vertex_buffer@,
            )) as u32,
        ),
        final(cache).cube.attributes == old(cache).cube.attributes,
        final(cache).cube.meshes == old(cache).cube.meshes,
        final(cache).cube.materials == old(cache).cube.materials,
        final(dev).log() == old(dev).log() + spec_skybox_pass_log(
            old(dev).next_handle,
            hdr_texture.id,
            pipeline.id,
            old(cache).cube.vertex_buffer@,
            old(cache).cube.index_buffer@,
            old(cache).cube.attributes@,
        ),
        old(dev).log().len() <= final(dev).log().len(),
        final(dev).log().subrange(0, old(dev).log().len() as int) == old(dev).log(),
        count_where(
            final(dev).log().skip(old(dev).log().len() as int),
            is_attach_to(t.id),
        ) == 6,
        forall|h: u32|
            h != t.id ==> count_where(
                final(dev).log().skip(old(dev).log().len() as int),
                is_attach_to(h),
            ) == 0,
        count_where(final(dev).log().skip(old(dev).log().len() as int), is_draw()) == 6,
        count_where(final(dev).log().skip(old(dev).log().len() as int), is_ratio_set()) == 0,
{
    let ghost log0 = old(dev).log();
    let fb = dev.fresh_handle();
    dev.record(Command::GenFramebuffer { handle: fb });
    dev.record(Command::BindFramebuffer { handle: fb });
    dev.record(Command::FramebufferRenderbuffer { renderbuffer: 0 });
    let tex = dev.fresh_handle();
    dev.record(Command::GenTexture { handle: tex });
    dev.record(Command::BindTexture { target: texture::Type::TexCUBE, handle: tex });
    let format = stream::Format::new(
        stream::Dimension::VEC3,
        stream::Type::FLOAT,
        stream::Usage::RGB,
    );
    let mut face: u32 = 0;
    let ghost log1 = dev.log();
    while face < 6
        invariant
            face <= 6,
            dev.next_handle == old(dev).next_handle + 2,
            dev.log() == log1 + Seq::new(
                face as nat,
                |k: int| (CommandView::TexImage2D {
                    target: TexTarget::CubeFace { face: k as u32 },
                    level: 0,
                    width: SKYBOX_RESOLUTION,
                    height: SKYBOX_RESOLUTION,
                    format: capture_format(),
                    pixels: Option::None,
                }),
            ),
            format == capture_format(),
        decreases 6 - face,
    {
        dev.record(Command::TexImage2D {
            target: TexTarget::CubeFace { face },
            level: 0,
            width: SKYBOX_RESOLUTION,
            height: SKYBOX_RESOLUTION,
            format,
            pixels: Option::None,
        });
        proof {
            assert(dev.log() =~= log1 + Seq::new(
                face as nat + 1,
                |k: int| (CommandView::TexImage2D {
                    target: TexTarget::CubeFace { face: k as u32 },
                    level: 0,
                    width: SKYBOX_RESOLUTION,
                    height: SKYBOX_RESOLUTION,
                    format: capture_format(),
                    pixels: Option::None,
                }),
            ));
        }
        face = face + 1;
    }
    dev.record(Command::TexParameter {
        target: texture::Type::TexCUBE,
        param: TexParam::WrapS,
        value: ParamValue::Wrapping(texture::WrapMode::CLAMP),
    });
    dev.record(Command::TexParameter {
        target: texture::Type::TexCUBE,
        param: TexParam::WrapT,
        value: ParamValue::Wrapping(texture::WrapMode::CLAMP),
    });
    dev.record(Command::TexParameter {
        target: texture::Type::TexCUBE,
        param: TexParam::WrapR,
        value: ParamValue::Wrapping(texture::WrapMode::CLAMP),
    });
    dev.record(Command::TexParameter {
        target: texture::Type::TexCUBE,
        param: TexParam::MinFilter,
        value: ParamValue::Filtering(texture::Filter::LINEAR),
    });
    dev.record(Command::TexParameter {
        target: texture::Type::TexCUBE,
        param: TexParam::MagFilter,
        value: ParamValue::Filtering(texture::Filter::LINEAR),
    });
    pipeline.use_program(dev);
    pipeline.set_uniform_matrix(dev, UniformName::Projection, MatrixRef::CaptureProjection);
    pipeline.set_uniform_1i(dev, UniformName::HdrTexture, 0);
    dev.record(Command::ActiveTexture { slot: 0 });
    dev.record(Command::BindTexture { target: texture::Type::Tex2D, handle: hdr_texture.id });
    dev.record(Command::Viewport { width: SKYBOX_RESOLUTION, height: SKYBOX_RESOLUTION });
    dev.record(Command::BindFramebuffer { handle: fb });

    let ghost pre = dev.log().subrange(log0.len() as int, dev.log().len() as int);
    proof {
        assert(pre =~= skybox_pass_pre(old(dev).next_handle, hdr_texture.id, pipeline.id)) by {
            assert(pre.len() == 23);
        }
        assert forall|h: u32| count_where(pre, is_attach_to(h)) == 0 && count_where(
            pre,
            is_draw(),
        ) == 0 && count_where(pre, is_ratio_set()) == 0 by {
            assert forall|i: int| 0 <= i < pre.len() implies !is_attach_to(h)(pre[i]) && !is_draw()(
                pre[i],
            ) && !is_ratio_set()(pre[i]) by {
                assert(pre[i] == dev.log()[log0.len() + i]);
            }
            lemma_count_where_all_false(pre, is_attach_to(h));
            lemma_count_where_all_false(pre, is_draw());
            lemma_count_where_all_false(pre, is_ratio_set());
        }
    }

    let ghost vb0 = old(cache).cube.vertex_buffer@;
    let ghost ib0 = old(cache).cube.index_buffer@;
    let ghost attrs0 = old(cache).cube.attributes@;
    let cube = cache.shape_mut(Shape::Cube);
    let sm: SubMesh = cube.meshes[0].sub_meshes[0];
    let count = sm.num_indices;
    let byte_offset = sm.start_index * 4;
    let ghost nh0 = dev.next_handle;
    proof {
        assert(nh0 == old(dev).next_handle + 2);
    }
    Backend::set_vertex_buffer(dev, &mut cube.vertex_buffer);
    proof {
        crate::model::lemma_block_layout_valid(72, 72, 0);
    }
    let ghost nh1 = dev.next_handle;
    proof {
        assert(nh1 == nh0 + spec_alloc_count(vb0));
    }
    Backend::set_attributes(dev, &cube.attributes);
    Backend::set_index_buffer(dev, &mut cube.index_buffer);
    let ghost d_vb = spec_sync_log(vb0, crate::resource::Type::ArrayBuffer, nh0);
    let ghost d_at = attribute_commands(attrs0);
    let ghost d_ib = spec_sync_log(ib0, crate::resource::Type::IndexBuffer, nh1);
    let ghost base = dev.log();
    proof {
        assert(base =~= log0 + pre + d_vb + d_at + d_ib);
    }

    let mut face: u32 = 0;
    while face < 6
        invariant
            face <= 6,
            dev.wf(),
            dev.next_handle == nh1 + (if ib0.role == crate::resource::Type::Invalid {
                1int
            } else {
                0int
            }),
            dev.log() == base + faces_segment(tex, 0, count, byte_offset, face as nat),
        decreases 6 - face,
    {
        pipeline.set_uniform_matrix(dev, UniformName::View, MatrixRef::CaptureView { face });
        dev.record(Command::FramebufferTexture2D {
            target: TexTarget::CubeFace { face },
            texture: tex,
            level: 0,
        });
        dev.record(Command::Clear);
        dev.record(Command::DrawElements { count, byte_offset });
        proof {
            assert(dev.log() =~= base + faces_segment(tex, 0, count, byte_offset, face as nat)
                + face_segment(tex, 0, count, byte_offset, face));
            assert(dev.log() =~= base + faces_segment(
                tex,
                0,
                count,
                byte_offset,
                face as nat + 1,
            ));
        }
        face = face + 1;
    }
    dev.record(Command::BindFramebuffer { handle: 0 });
    dev.record(Command::DeleteFramebuffer { handle: fb });

    proof {
        let ghost tail = seq![
            CommandView::BindFramebuffer { handle: 0u32 },
            CommandView::DeleteFramebuffer { handle: fb },
        ];
        let ghost fs = faces_segment(tex, 0, count, byte_offset, 6);
        let ghost delta = dev.log().subrange(log0.len() as int, dev.log().len() as int);
        assert(dev.log() =~= log0 + (pre + d_vb + d_at + d_ib + fs + tail));
        assert(delta =~= pre + d_vb + d_at + d_ib + fs + tail);
        assert(dev.log().subrange(0, log0.len() as int) =~= log0);
        assert forall|i: int| 0 <= i < tail.len() implies !is_draw()(tail[i]) && !is_ratio_set()(
            tail[i],
        ) by {}
        lemma_count_where_all_false(tail, is_draw());
        lemma_count_where_all_false(tail, is_ratio_set());
        lemma_sync_log_quiet(vb0, crate::resource::Type::ArrayBuffer, nh0, 0);
        lemma_sync_log_quiet(ib0, crate::resource::Type::IndexBuffer, nh1, 0);
        lemma_attribute_commands_quiet(attrs0, 0);
        lemma_faces_segment_counts(tex, 0, count, byte_offset, 6, 0);
        crate::device::lemma_count_six_parts(pre, d_vb, d_at, d_ib, fs, tail, is_draw());
        crate::device::lemma_count_six_parts(pre, d_vb, d_at, d_ib, fs, tail, is_ratio_set());
        assert forall|h: u32| count_where(delta, is_attach_to(h)) == count_where(
            fs,
            is_attach_to(h),
        ) by {
            lemma_sync_log_quiet(vb0, crate::resource::Type::ArrayBuffer, nh0, h);
            lemma_sync_log_quiet(ib0, crate::resource::Type::IndexBuffer, nh1, h);
            lemma_attribute_commands_quiet(attrs0, h);
            assert forall|i: int| 0 <= i < tail.len() implies !is_attach_to(h)(tail[i]) by {}
            lemma_count_where_all_false(tail, is_attach_to(h));
            crate::device::lemma_count_six_parts(pre, d_vb, d_at, d_ib, fs, tail, is_attach_to(h));
        }
        assert forall|h: u32| h != tex implies count_where(delta, is_attach_to(h)) == 0 by {
            lemma_faces_segment_counts(tex, 0, count, byte_offset, 6, h);
        }
        assert(count == 36 && byte_offset == 0);
        assert(dev.log() =~= log0 + spec_skybox_pass_log(
            old(dev).next_handle,
            hdr_texture.id,
            pipeline.id,
            vb0,
            ib0,
            attrs0,
        )) by {
            reveal(spec_skybox_pass_log);
            assert(tail =~= fb_teardown(fb));
            assert(dev.log() =~= log0 + (pre + d_vb + d_at + d_ib + fs + tail));
        }
    }
    Texture {
        id: tex,
        format,
        _type: texture::Type::TexCUBE,
        width: SKYBOX_RESOLUTION,
        height: SKYBOX_RESOLUTION,
        texture_desc: TextureDesc::default(),
    }
}

} // verus!

verus! {

/// Convolves the environment cubemap into a fresh 32x32 irradiance cubemap:
/// the environment's mipmaps are generated before any draw (the convolution
/// samples prefiltered texels for stability), the environment itself is
/// never rendered into, and each irradiance face is attached and drawn
/// exactly once.
#[verifier::rlimit(100)]
/// Records the irradiance pass's fixed setup and returns the renderbuffer,
/// framebuffer and cubemap handles it allocated.
#[verifier::rlimit(100)]
#[verifier::spinoff_prover]
fn irradiance_setup(dev: &mut Device, skybox_texture: &Texture, pipeline: &Pipeline) -> (out: (
    u32,
    u32,
    u32,
))
    requires
        old(dev).wf(),
        old(dev).next_handle as int + 8 <= u32::MAX,
    ensures
        final(dev).wf(),
        final(dev).next_handle == old(dev).next_handle + 3,
        out == (old(dev).next_handle, ((old(dev).next_handle + 1) as u32), ((old(
            dev,
        ).next_handle + 2) as u32)),
        final(dev).log() == old(dev).log() + irradiance_pass_pre(
            old(dev).next_handle,
            skybox_texture.id,
            pipeline.id,
        ),
{

    let ghost log0 = old(dev).log();
    let rbo = dev.fresh_handle();
    dev.record(Command::GenRenderbuffer { handle: rbo });
    let fbo = dev.fresh_handle();
    dev.record(Command::GenFramebuffer { handle: fbo });
    dev.record(Command::BindTexture {
        target: texture::Type::TexCUBE,
        handle: skybox_texture.id,
    });
    dev.record(Command::GenerateMipmap {
        target: texture::Type::TexCUBE,
        handle: skybox_texture.id,
    });
    let tex = dev.fresh_handle();
    dev.record(Command::GenTexture { handle: tex });
    dev.record(Command::BindTexture { target: texture::Type::TexCUBE, handle: tex });
    let format = stream::Format::new(
        stream::Dimension::VEC3,
        stream::Type::FLOAT,
        stream::Usage::RGB,
    );
    let mut face: u32 = 0;
    let ghost log1 = dev.log();
    while face < 6
        invariant
            face <= 6,
            dev.next_handle == old(dev).next_handle + 3,
            dev.log() == log1 + Seq::new(
                face as nat,
                |k: int| (CommandView::TexImage2D {
                    target: TexTarget::CubeFace { face: k as u32 },
                    level: 0,
                    width: IRRADIANCE_RESOLUTION,
                    height: IRRADIANCE_RESOLUTION,
                    format: capture_format(),
                    pixels: Option::None,
                }),
            ),
            format == capture_format(),
        decreases 6 - face,
    {
        dev.record(Command::TexImage2D {
            target: TexTarget::CubeFace { face },
            level: 0,
            width: IRRADIANCE_RESOLUTION,
            height: IRRADIANCE_RESOLUTION,
            format,
            pixels: Option::None,
        });
        proof {
            assert(dev.log() =~= log1 + Seq::new(
                face as nat + 1,
                |k: int| (CommandView::TexImage2D {
                    target: TexTarget::CubeFace { face: k as u32 },
                    level: 0,
                    width: IRRADIANCE_RESOLUTION,
                    height: IRRADIANCE_RESOLUTION,
                    format: capture_format(),
                    pixels: Option::None,
                }),
            ));
        }
        face = face + 1;
    }
    dev.record(Command::TexParameter {
        target: texture::Type::TexCUBE,
        param: TexParam::WrapS,
        value: ParamValue::Wrapping(texture::WrapMode::CLAMP),
    });
    dev.record(Command::TexParameter {
        target: texture::Type::TexCUBE,
        param: TexParam::WrapT,
        value: ParamValue::Wrapping(texture::WrapMode::CLAMP),
    });
    dev.record(Command::TexParameter {
        target: texture::Type::TexCUBE,
        param: TexParam::WrapR,
        value: ParamValue::Wrapping(texture::WrapMode::CLAMP),
    });
    dev.record(Command::TexParameter {
        target: texture::Type::TexCUBE,
        param: TexParam::MinFilter,
        value: ParamValue::Filtering(texture::Filter::LINEAR),
    });
    dev.record(Command::TexParameter {
        target: texture::Type::TexCUBE,
        param: TexParam::MagFilter,
        value: ParamValue::Filtering(texture::Filter::LINEAR),
    });
    dev.record(Command::BindFramebuffer { handle: fbo });
    dev.record(Command::BindRenderbuffer { handle: rbo });
    dev.record(Command::RenderbufferStorage {
        width: IRRADIANCE_RESOLUTION,
        height: IRRADIANCE_RESOLUTION,
    });
    pipeline.use_program(dev);
    pipeline.set_uniform_1i(dev, UniformName::EnvMap, 0);
    pipeline.set_uniform_matrix(dev, UniformName::Projection, MatrixRef::CaptureProjection);
    dev.record(Command::ActiveTexture { slot: 0 });
    dev.record(Command::BindTexture {
        target: texture::Type::TexCUBE,
        handle: skybox_texture.id,
    });
    dev.record(Command::Viewport {
        width: IRRADIANCE_RESOLUTION,
        height: IRRADIANCE_RESOLUTION,
    });
    dev.record(Command::BindFramebuffer { handle: fbo });

    let ghost pre = dev.log().subrange(log0.len() as int, dev.log().len() as int);
    proof {
        assert(pre =~= irradiance_pass_pre(
            old(dev).next_handle,
            skybox_texture.id,
            pipeline.id,
        )) by {
            reveal(irradiance_pass_pre);
            assert(pre.len() == 27);
        }
        assert(pre[3] == (CommandView::GenerateMipmap {
            target: texture::Type::TexCUBE,
            handle: skybox_texture.id,
        }));
        assert forall|h: u32| count_where(pre, is_attach_to(h)) == 0 && count_where(
            pre,
            is_draw(),
        ) == 0 && count_where(pre, is_ratio_set()) == 0 by {
            assert forall|i: int| 0 <= i < pre.len() implies !is_attach_to(h)(pre[i]) && !is_draw()(
                pre[i],
            ) && !is_ratio_set()(pre[i]) by {
                assert(pre[i] == dev.log()[log0.len() + i]);
            }
            lemma_count_where_all_false(pre, is_attach_to(h));
            lemma_count_where_all_false(pre, is_draw());
            lemma_count_where_all_false(pre, is_ratio_set());
        }
    }

    (rbo, fbo, tex)
}

pub fn generate_irradiance_map(
    dev: &mut Device,
    skybox_texture: &Texture,
    pipeline: &Pipeline,
    cache: &mut ModelCache,
) -> (t: Texture)
    requires
        old(dev).wf(),
        old(dev).next_handle as int + 8 <= u32::MAX,
        has_cube_geometry(old(cache).cube),
    ensures
        final(dev).wf(),
        old(dev).next_handle <= final(dev).next_handle,
        final(dev).next_handle as int <= old(dev).next_handle as int + 8,
        t.id == old(dev).next_handle + 2,
        1 <= t.id < final(dev).next_handle,
        t._type == texture::Type::TexCUBE,
        t.width == IRRADIANCE_RESOLUTION,
        t.height == IRRADIANCE_RESOLUTION,
        t.format == capture_format(),
        t.texture_desc == capture_desc(),
        has_cube_geometry(final(cache).cube),
        final(cache).sphere == old(cache).sphere,
        final(cache).quad == old(cache).quad,
        final(dev).next_handle == old(dev).next_handle + 3 + spec_alloc_count(
            old(cache).cube.vertex_buffer@,
        ) + spec_alloc_count(old(cache).cube.index_buffer@),
        final(cache).cube.vertex_buffer@ == spec_sync_buffer(
            old(cache).cube.vertex_buffer@,
            crate::resource::Type::ArrayBuffer,
            (old(dev).next_handle + 3) as u32,
        ),
        final(cache).cube.index_buffer@ == spec_sync_buffer(
            old(cache).cube.index_buffer@,
            crate::resource::Type::IndexBuffer,
            (old(dev).next_handle + 3 + spec_alloc_count(
                old(cache).cube.vertex_buffer@,
            )) as u32,
        ),
        final(cache).cube.attributes == old(cache).cube.attributes,
        final(cache).cube.meshes == old(cache).cube.meshes,
        final(cache).cube.materials == old(cache).cube.materials,
        final(dev).log() == old(dev).log() + spec_irradiance_pass_log(
            old(dev).next_handle,
            skybox_texture.id,
            pipeline.id,
            old(cache).cube.vertex_buffer@,
            old(cache).cube.index_buffer@,
            old(cache).cube.attributes@,
        ),
        old(dev).log().len() <= final(dev).log().len(),
        final(dev).log().subrange(0, old(dev).log().len() as int) == old(dev).log(),
        count_where(
            final(dev).log().skip(old(dev).log().len() as int),
            is_attach_to(t.id),
        ) == 6,
        forall|h: u32|
            h != t.id ==> count_where(
                final(dev).log().skip(old(dev).log().len() as int),
                is_attach_to(h),
            ) == 0,
        count_where(final(dev).log().skip(old(dev).log().len() as int), is_draw()) == 6,
        count_where(final(dev).log().skip(old(dev).log().len() as int), is_ratio_set()) == 0,
        exists|j: int| {
            &&& old(dev).log().len() <= j < final(dev).log().len()
            &&& (#[trigger] final(dev).log()[j]) == (CommandView::GenerateMipmap {
                target: texture::Type::TexCUBE,
                handle: skybox_texture.id,
            })
            &&& forall|i: int|
                old(dev).log().len() <= i < final(dev).log().len() && is_draw()(
                    #[trigger] final(dev).log()[i],
                ) ==> j < i
        },
{
    let ghost log0 = old(dev).log();
    let (rbo, fbo, tex) = irradiance_setup(dev, skybox_texture, pipeline);
    let format = stream::Format::new(
        stream::Dimension::VEC3,
        stream::Type::FLOAT,
        stream::Usage::RGB,
    );
    let ghost pre = irradiance_pass_pre(old(dev).next_handle, skybox_texture.id, pipeline.id);
    proof {
        assert forall|h: u32| count_where(pre, is_attach_to(h)) == 0 by {
            lemma_irradiance_pre_quiet(old(dev).next_handle, skybox_texture.id, pipeline.id, h);
        }
        lemma_irradiance_pre_quiet(old(dev).next_handle, skybox_texture.id, pipeline.id, 0);
    }

    let ghost vb0 = old(cache).cube.vertex_buffer@;
    let ghost ib0 = old(cache).cube.index_buffer@;
    let ghost attrs0 = old(cache).cube.attributes@;
    let ghost nh0 = dev.next_handle;
    proof {
        assert(nh0 == old(dev).next_handle + 3);
    }
    render_cube_faces(dev, cache, pipeline, tex, 0);
    let ghost nh1 = (nh0 + spec_alloc_count(vb0)) as u32;
    let ghost d_vb = spec_sync_log(vb0, crate::resource::Type::ArrayBuffer, nh0);
    let ghost d_at = attribute_commands(attrs0);
    let ghost d_ib = spec_sync_log(ib0, crate::resource::Type::IndexBuffer, nh1);
    dev.record(Command::BindFramebuffer { handle: 0 });
    dev.record(Command::DeleteFramebuffer { handle: fbo });
    dev.record(Command::DeleteRenderbuffer { handle: rbo });

    proof {
        let ghost tail = capture_teardown(fbo, rbo);
        let ghost fs = faces_segment(tex, 0, 36, 0, 6);
        assert(dev.log() =~= log0 + (pre + d_vb + d_at + d_ib + fs + tail)) by {}
        lemma_irradiance_pass_facts(
            log0,
            pre,
            d_vb,
            d_at,
            d_ib,
            fs,
            tail,
            dev.log(),
            tex,
            skybox_texture.id,
            vb0,
            ib0,
            attrs0,
            nh0,
            nh1,
            36,
            0,
            fbo,
            rbo,
        );
        assert(dev.log() =~= log0 + spec_irradiance_pass_log(
            old(dev).next_handle,
            skybox_texture.id,
            pipeline.id,
            vb0,
            ib0,
            attrs0,
        )) by {
            reveal(spec_irradiance_pass_log);
        }
    }
    Texture {
        id: tex,
        format,
        _type: texture::Type::TexCUBE,
        width: IRRADIANCE_RESOLUTION,
        height: IRRADIANCE_RESOLUTION,
        texture_desc: TextureDesc::default(),
    }
}

} // verus!

verus! {

/// The renderbuffer/viewport/roughness setup of one prefilter mip level of
/// edge length `size`.
pub open spec fn mip_setup_segment(rbo: u32, size: u32, m: u32) -> Seq<CommandView> {
    seq![
        CommandView::BindRenderbuffer { handle: rbo },
        CommandView::RenderbufferStorage { width: size, height: size },
        CommandView::Viewport { width: size, height: size },
        CommandView::SetUniformRatio { name: UniformName::Roughness, numer: m, denom: 4 },
    ]
}

/// Edge length of prefilter mip `m`: the base resolution halved `m` times.
pub open spec fn spec_mip_size(m: u32) -> u32 {
    PREFILTER_RESOLUTION >> m
}

/// The prefilter renders of mips `0 .. n`: per mip, its setup followed by
/// its six face renders.
pub open spec fn mips_segment(rbo: u32, tex: u32, count: usize, byte_offset: usize, n: nat) -> Seq<
    CommandView,
>
    decreases n,
{
    if n == 0 {
        Seq::empty()
    } else {
        mips_segment(rbo, tex, count, byte_offset, (n - 1) as nat) + mip_setup_segment(
            rbo,
            spec_mip_size((n - 1) as u32),
            (n - 1) as u32,
        ) + faces_segment(tex, (n - 1) as u32, count, byte_offset, 6)
    }
}

/// What the mip chain renders amount to: six attaches and draws per mip, all
/// to `tex`, and one roughness setting of exactly m/4 per mip `m`, in order.
#[verifier::rlimit(100)]
pub proof fn lemma_mips_segment_counts(
    rbo: u32,
    tex: u32,
    count: usize,
    byte_offset: usize,
    n: nat,
    h: u32,
)
    ensures
        count_where(mips_segment(rbo, tex, count, byte_offset, n), is_attach_to(tex)) == 6 * n,
        h != tex ==> count_where(mips_segment(rbo, tex, count, byte_offset, n), is_attach_to(h))
            == 0,
        count_where(mips_segment(rbo, tex, count, byte_offset, n), is_draw()) == 6 * n,
        ratios_of(mips_segment(rbo, tex, count, byte_offset, n)) == Seq::new(
            n,
            |m: int| (m as u32, 4u32),
        ),
    decreases n,
{
    reveal_with_fuel(count_where, 6);
    reveal_with_fuel(ratios_of, 6);
    if n == 0 {
        assert(ratios_of(mips_segment(rbo, tex, count, byte_offset, 0)) =~= Seq::new(
            0,
            |m: int| (m as u32, 4u32),
        ));
    } else {
        lemma_mips_segment_counts(rbo, tex, count, byte_offset, (n - 1) as nat, h);
        let prev = mips_segment(rbo, tex, count, byte_offset, (n - 1) as nat);
        let setup = mip_setup_segment(rbo, spec_mip_size((n - 1) as u32), (n - 1) as u32);
        let fs = faces_segment(tex, (n - 1) as u32, count, byte_offset, 6);
        lemma_faces_segment_counts(tex, (n - 1) as u32, count, byte_offset, 6, h);
        lemma_faces_segment_counts(tex, (n - 1) as u32, count, byte_offset, 6, tex);
        lemma_count_where_concat(prev, setup, is_attach_to(tex));
        lemma_count_where_concat(prev + setup, fs, is_attach_to(tex));
        lemma_count_where_concat(prev, setup, is_attach_to(h));
        lemma_count_where_concat(prev + setup, fs, is_attach_to(h));
        lemma_count_where_concat(prev, setup, is_draw());
        lemma_count_where_concat(prev + setup, fs, is_draw());
        lemma_ratios_of_concat(prev, setup);
        lemma_ratios_of_concat(prev + setup, fs);
        lemma_faces_segment_counts(tex, (n - 1) as u32, count, byte_offset, 6, 0);
        lemma_ratios_of_none(fs);
        assert(ratios_of(setup) =~= seq![((n - 1) as u32, 4u32)]);
        assert(ratios_of(mips_segment(rbo, tex, count, byte_offset, n)) =~= Seq::new(
            n,
            |m: int| (m as u32, 4u32),
        ));
    }
}

/// Records the prefilter pass's fixed setup and returns the renderbuffer,
/// framebuffer and cubemap handles it allocated.
#[verifier::rlimit(100)]
#[verifier::spinoff_prover]
fn prefilter_setup(dev: &mut Device, skybox_texture: &Texture, pipeline: &Pipeline) -> (out: (
    u32,
    u32,
    u32,
))
    requires
        old(dev).wf(),
        old(dev).next_handle as int + 8 <= u32::MAX,
    ensures
        final(dev).wf(),
        final(dev).next_handle == old(dev).next_handle + 3,
        out == (old(dev).next_handle, ((old(dev).next_handle + 1) as u32), ((old(
            dev,
        ).next_handle + 2) as u32)),
        final(dev).log() == old(dev).log() + prefilter_pass_pre(
            old(dev).next_handle,
            skybox_texture.id,
            pipeline.id,
        ),
{
    let ghost log0 = old(dev).log();
    let rbo = dev.fresh_handle();
    dev.record(Command::GenRenderbuffer { handle: rbo });
    let fbo = dev.fresh_handle();
    dev.record(Command::GenFramebuffer { handle: fbo });
    let tex = dev.fresh_handle();
    dev.record(Command::GenTexture { handle: tex });
    dev.record(Command::BindTexture { target: texture::Type::TexCUBE, handle: tex });
    let format = stream::Format::new(
        stream::Dimension::VEC3,
        stream::Type::FLOAT,
        stream::Usage::RGB,
    );
    let mut face: u32 = 0;
    let ghost log1 = dev.log();
    while face < 6
        invariant
            face <= 6,
            dev.next_handle == old(dev).next_handle + 3,
            dev.log() == log1 + Seq::new(
                face as nat,
                |k: int| (CommandView::TexImage2D {
                    target: TexTarget::CubeFace { face: k as u32 },
                    level: 0,
                    width: PREFILTER_RESOLUTION,
                    height: PREFILTER_RESOLUTION,
                    format: capture_format(),
                    pixels: Option::None,
                }),
            ),
            format == capture_format(),
        decreases 6 - face,
    {
        dev.record(Command::TexImage2D {
            target: TexTarget::CubeFace { face },
            level: 0,
            width: PREFILTER_RESOLUTION,
            height: PREFILTER_RESOLUTION,
            format,
            pixels: Option::None,
        });
        proof {
            assert(dev.log() =~= log1 + Seq::new(
                face as nat + 1,
                |k: int| (CommandView::TexImage2D {
                    target: TexTarget::CubeFace { face: k as u32 },
                    level: 0,
                    width: PREFILTER_RESOLUTION,
                    height: PREFILTER_RESOLUTION,
                    format: capture_format(),
                    pixels: Option::None,
                }),
            ));
        }
        face = face + 1;
    }
    dev.record(Command::TexParameter {
        target: texture::Type::TexCUBE,
        param: TexParam::WrapS,
        value: ParamValue::Wrapping(texture::WrapMode::CLAMP),
    });
    dev.record(Command::TexParameter {
        target: texture::Type::TexCUBE,
        param: TexParam::WrapT,
        value: ParamValue::Wrapping(texture::WrapMode::CLAMP),
    });
    dev.record(Command::TexParameter {
        target: texture::Type::TexCUBE,
        param: TexParam::WrapR,
        value: ParamValue::Wrapping(texture::WrapMode::CLAMP),
    });
    dev.record(Command::TexParameter {
        target: texture::Type::TexCUBE,
        param: TexParam::MinFilter,
        value: ParamValue::Filtering(texture::Filter::LINEAR),
    });
    dev.record(Command::TexParameter {
        target: texture::Type::TexCUBE,
        param: TexParam::MinFilter,
        value: ParamValue::Filtering(texture::Filter::LINEAR_MIP_LINEAR),
    });
    dev.record(Command::GenerateMipmap { target: texture::Type::TexCUBE, handle: tex });
    pipeline.use_program(dev);
    pipeline.set_uniform_matrix(dev, UniformName::Projection, MatrixRef::CaptureProjection);
    dev.record(Command::ActiveTexture { slot: 0 });
    dev.record(Command::BindTexture {
        target: texture::Type::TexCUBE,
        handle: skybox_texture.id,
    });
    dev.record(Command::BindFramebuffer { handle: fbo });
    proof {
        let ghost pre = dev.log().subrange(log0.len() as int, dev.log().len() as int);
        assert(pre =~= prefilter_pass_pre(
            old(dev).next_handle,
            skybox_texture.id,
            pipeline.id,
        )) by {
            reveal(prefilter_pass_pre);
            assert(pre.len() == 21);
        }
        assert(dev.log() =~= log0 + prefilter_pass_pre(
            old(dev).next_handle,
            skybox_texture.id,
            pipeline.id,
        ));
    }
    (rbo, fbo, tex)
}

/// Renders the environment into a fresh 128x128 prefilter cubemap with five
/// mip levels: for each mip level m, the render-target edge is halved m
/// times and the roughness uniform is set to exactly m/4, then all six faces
/// are attached and drawn; the environment itself is never rendered into.
#[verifier::rlimit(100)]
pub fn generate_prefilter_texture(
    dev: &mut Device,
    skybox_texture: &Texture,
    pipeline: &Pipeline,
    cache: &mut ModelCache,
) -> (t: Texture)
    requires
        old(dev).wf(),
        old(dev).next_handle as int + 8 <= u32::MAX,
        has_cube_geometry(old(cache).cube),
    ensures
        final(dev).wf(),
        old(dev).next_handle <= final(dev).next_handle,
        final(dev).next_handle as int <= old(dev).next_handle as int + 8,
        t.id == old(dev).next_handle + 2,
        1 <= t.id < final(dev).next_handle,
        t._type == texture::Type::TexCUBE,
        t.width == PREFILTER_RESOLUTION,
        t.height == PREFILTER_RESOLUTION,
        t.format == capture_format(),
        t.texture_desc == capture_desc(),
        has_cube_geometry(final(cache).cube),
        final(cache).sphere == old(cache).sphere,
        final(cache).quad == old(cache).quad,
        final(dev).next_handle == old(dev).next_handle + 3 + spec_alloc_count(
            old(cache).cube.vertex_buffer@,
        ) + spec_alloc_count(old(cache).cube.index_buffer@),
        final(cache).cube.vertex_buffer@ == spec_sync_buffer(
            old(cache).cube.vertex_buffer@,
            crate::resource::Type::ArrayBuffer,
            (old(dev).next_handle + 3) as u32,
        ),
        final(cache).cube.index_buffer@ == spec_sync_buffer(
            old(cache).cube.index_buffer@,
            crate::resource::Type::IndexBuffer,
            (old(dev).next_handle + 3 + spec_alloc_count(
                old(cache).cube.vertex_buffer@,
            )) as u32,
        ),
        final(cache).cube.attributes == old(cache).cube.attributes,
        final(cache).cube.meshes == old(cache).cube.meshes,
        final(cache).cube.materials == old(cache).cube.materials,
        final(dev).log() == old(dev).log() + spec_prefilter_pass_log(
            old(dev).next_handle,
            skybox_texture.id,
            pipeline.id,
            old(cache).cube.vertex_buffer@,
            old(cache).cube.index_buffer@,
            old(cache).cube.attributes@,
        ),
        old(dev).log().len() <= final(dev).log().len(),
        final(dev).log().subrange(0, old(dev).log().len() as int) == old(dev).log(),
        count_where(
            final(dev).log().skip(old(dev).log().len() as int),
            is_attach_to(t.id),
        ) == 30,
        forall|h: u32|
            h != t.id ==> count_where(
                final(dev).log().skip(old(dev).log().len() as int),
                is_attach_to(h),
            ) == 0,
        count_where(final(dev).log().skip(old(dev).log().len() as int), is_draw()) == 30,
        ratios_of(final(dev).log().skip(old(dev).log().len() as int)) == seq![
            (0u32, 4u32),
            (1u32, 4u32),
            (2u32, 4u32),
            (3u32, 4u32),
            (4u32, 4u32),
        ],
{
    let ghost log0 = old(dev).log();
    let (rbo, fbo, tex) = prefilter_setup(dev, skybox_texture, pipeline);
    let format = stream::Format::new(
        stream::Dimension::VEC3,
        stream::Type::FLOAT,
        stream::Usage::RGB,
    );
    let ghost pre = prefilter_pass_pre(old(dev).next_handle, skybox_texture.id, pipeline.id);
    proof {
        assert forall|h: u32| count_where(pre, is_attach_to(h)) == 0 by {
            lemma_prefilter_pre_quiet(old(dev).next_handle, skybox_texture.id, pipeline.id, h);
        }
        lemma_prefilter_pre_quiet(old(dev).next_handle, skybox_texture.id, pipeline.id, 0);
    }

    let ghost vb0 = old(cache).cube.vertex_buffer@;
    let ghost ib0 = old(cache).cube.index_buffer@;
    let ghost attrs0 = old(cache).cube.attributes@;
    let cube = cache.shape_mut(Shape::Cube);
    let sm: SubMesh = cube.meshes[0].sub_meshes[0];
    let count = sm.num_indices;
    let byte_offset = sm.start_index * 4;
    let ghost nh0 = dev.next_handle;
    proof {
        assert(nh0 == old(dev).next_handle + 3);
    }
    Backend::set_vertex_buffer(dev, &mut cube.vertex_buffer);
    proof {
        crate::model::lemma_block_layout_valid(72, 72, 0);
    }
    let ghost nh1 = dev.next_handle;
    proof {
        assert(nh1 == nh0 + spec_alloc_count(vb0));
    }
    Backend::set_attributes(dev, &cube.attributes);
    Backend::set_index_buffer(dev, &mut cube.index_buffer);
    let ghost d_vb = spec_sync_log(vb0, crate::resource::Type::ArrayBuffer, nh0);
    let ghost d_at = attribute_commands(attrs0);
    let ghost d_ib = spec_sync_log(ib0, crate::resource::Type::IndexBuffer, nh1);
    let ghost base = dev.log();
    proof {
        assert(base =~= log0 + pre + d_vb + d_at + d_ib);
    }

    let mut mip: u32 = 0;
    while mip < MAX_MIP_LEVELS
        invariant
            mip <= MAX_MIP_LEVELS,
            dev.wf(),
            dev.next_handle == nh1 + (if ib0.role == crate::resource::Type::Invalid {
                1int
            } else {
                0int
            }),
            dev.log() == base + mips_segment(rbo, tex, count, byte_offset, mip as nat),
        decreases MAX_MIP_LEVELS - mip,
    {
        let size = PREFILTER_RESOLUTION >> mip;
        dev.record(Command::BindRenderbuffer { handle: rbo });
        dev.record(Command::RenderbufferStorage { width: size, height: size });
        dev.record(Command::Viewport { width: size, height: size });
        pipeline.set_uniform_ratio(dev, UniformName::Roughness, mip, MAX_MIP_LEVELS - 1);
        let ghost mid = base + mips_segment(rbo, tex, count, byte_offset, mip as nat)
            + mip_setup_segment(rbo, size, mip);
        proof {
            assert(dev.log() =~= mid);
        }
        let mut face: u32 = 0;
        while face < 6
            invariant
                face <= 6,
                dev.wf(),
                dev.next_handle == nh1 + (if ib0.role == crate::resource::Type::Invalid {
                    1int
                } else {
                    0int
                }),
                dev.log() == mid + faces_segment(tex, mip, count, byte_offset, face as nat),
            decreases 6 - face,
        {
            pipeline.set_uniform_matrix(dev, UniformName::View, MatrixRef::CaptureView { face });
            dev.record(Command::FramebufferTexture2D {
                target: TexTarget::CubeFace { face },
                texture: tex,
                level: mip,
            });
            dev.record(Command::Clear);
            dev.record(Command::DrawElements { count, byte_offset });
            proof {
                assert(dev.log() =~= mid + faces_segment(tex, mip, count, byte_offset, face as nat)
                    + face_segment(tex, mip, count, byte_offset, face));
                assert(dev.log() =~= mid + faces_segment(
                    tex,
                    mip,
                    count,
                    byte_offset,
                    face as nat + 1,
                ));
            }
            face = face + 1;
        }
        proof {
            assert(size == spec_mip_size(mip));
            assert(dev.log() =~= base + mips_segment(rbo, tex, count, byte_offset, mip as nat + 1));
        }
        mip = mip + 1;
    }
    dev.record(Command::BindFramebuffer { handle: 0 });
    dev.record(Command::DeleteFramebuffer { handle: fbo });
    dev.record(Command::DeleteRenderbuffer { handle: rbo });

    proof {
        let ghost tail = seq![
            CommandView::BindFramebuffer { handle: 0u32 },
            CommandView::DeleteFramebuffer { handle: fbo },
            CommandView::DeleteRenderbuffer { handle: rbo },
        ];
        let ghost ms = mips_segment(rbo, tex, count, byte_offset, 5);
        let ghost delta = dev.log().subrange(log0.len() as int, dev.log().len() as int);
        assert(dev.log() =~= log0 + (pre + d_vb + d_at + d_ib + ms + tail));
        assert(delta =~= pre + d_vb + d_at + d_ib + ms + tail);
        assert(dev.log().subrange(0, log0.len() as int) =~= log0);
        assert forall|i: int| 0 <= i < tail.len() implies !is_draw()(tail[i]) && !is_ratio_set()(
            tail[i],
        ) by {}
        lemma_count_where_all_false(tail, is_draw());
        lemma_count_where_all_false(tail, is_ratio_set());
        lemma_sync_log_quiet(vb0, crate::resource::Type::ArrayBuffer, nh0, 0);
        lemma_sync_log_quiet(ib0, crate::resource::Type::IndexBuffer, nh1, 0);
        lemma_attribute_commands_quiet(attrs0, 0);
        lemma_mips_segment_counts(rbo, tex, count, byte_offset, 5, 0);
        crate::device::lemma_count_six_parts(pre, d_vb, d_at, d_ib, ms, tail, is_draw());
        crate::device::lemma_count_six_parts(pre, d_vb, d_at, d_ib, ms, tail, is_ratio_set());
        lemma_ratios_of_concat(pre, d_vb);
        lemma_ratios_of_concat(pre + d_vb, d_at);
        lemma_ratios_of_concat(pre + d_vb + d_at, d_ib);
        lemma_ratios_of_concat(pre + d_vb + d_at + d_ib, ms);
        lemma_ratios_of_concat(pre + d_vb + d_at + d_ib + ms, tail);
        lemma_ratios_of_none(pre);
        lemma_ratios_of_none(d_vb);
        lemma_ratios_of_none(d_at);
        lemma_ratios_of_none(d_ib);
        lemma_ratios_of_none(tail);
        assert(ratios_of(delta) =~= ratios_of(ms));
        assert forall|h: u32| count_where(delta, is_attach_to(h)) == count_where(
            ms,
            is_attach_to(h),
        ) by {
            lemma_sync_log_quiet(vb0, crate::resource::Type::ArrayBuffer, nh0, h);
            lemma_sync_log_quiet(ib0, crate::resource::Type::IndexBuffer, nh1, h);
            lemma_attribute_commands_quiet(attrs0, h);
            assert forall|i: int| 0 <= i < tail.len() implies !is_attach_to(h)(tail[i]) by {}
            lemma_count_where_all_false(tail, is_attach_to(h));
            crate::device::lemma_count_six_parts(pre, d_vb, d_at, d_ib, ms, tail, is_attach_to(h));
        }
        assert forall|h: u32| h != tex implies count_where(delta, is_attach_to(h)) == 0 by {
            lemma_mips_segment_counts(rbo, tex, count, byte_offset, 5, h);
        }
        assert(ratios_of(delta) =~= seq![
            (0u32, 4u32),
            (1u32, 4u32),
            (2u32, 4u32),
            (3u32, 4u32),
            (4u32, 4u32),
        ]);
        assert(count == 36 && byte_offset == 0);
        assert(dev.log() =~= log0 + spec_prefilter_pass_log(
            old(dev).next_handle,
            skybox_texture.id,
            pipeline.id,
            vb0,
            ib0,
            attrs0,
        )) by {
            reveal(spec_prefilter_pass_log);
            assert(tail =~= capture_teardown(fbo, rbo));
            assert(ms == mips_segment(rbo, tex, 36, 0, 5));
            assert(dev.log() =~= log0 + (pre + d_vb + d_at + d_ib + ms + tail));
        }
    }
    Texture {
        id: tex,
        format,
        _type: texture::Type::TexCUBE,
        width: PREFILTER_RESOLUTION,
        height: PREFILTER_RESOLUTION,
        texture_desc: TextureDesc::default(),
    }
}

} // verus!

verus! {

/// Records the BRDF pass's fixed setup — which attaches the fresh lookup
/// texture as the render target and binds no sampling source — and returns
/// the renderbuffer, framebuffer and texture handles it allocated.
#[verifier::rlimit(100)]
#[verifier::spinoff_prover]
fn brdf_setup(dev: &mut Device, pipeline: &Pipeline) -> (out: (u32, u32, u32))
    requires
        old(dev).wf(),
        old(dev).next_handle as int + 8 <= u32::MAX,
    ensures
        final(dev).wf(),
        final(dev).next_handle == old(dev).next_handle + 3,
        out == (old(dev).next_handle, ((old(dev).next_handle + 1) as u32), ((old(
            dev,
        ).next_handle + 2) as u32)),
        final(dev).log() == old(dev).log() + brdf_pass_pre(old(dev).next_handle, pipeline.id),
{

    let ghost log0 = old(dev).log();
    let rbo = dev.fresh_handle();
    dev.record(Command::GenRenderbuffer { handle: rbo });
    let fbo = dev.fresh_handle();
    dev.record(Command::GenFramebuffer { handle: fbo });
    let tex = dev.fresh_handle();
    dev.record(Command::GenTexture { handle: tex });
    dev.record(Command::BindTexture { target: texture::Type::Tex2D, handle: tex });
    let lut_format = stream::Format::new(
        stream::Dimension::VEC2,
        stream::Type::FLOAT,
        stream::Usage::RG,
    );
    dev.record(Command::TexImage2D {
        target: TexTarget::Flat2D,
        level: 0,
        width: SKYBOX_RESOLUTION,
        height: SKYBOX_RESOLUTION,
        format: lut_format,
        pixels: Option::None,
    });
    dev.record(Command::TexParameter {
        target: texture::Type::Tex2D,
        param: TexParam::WrapS,
        value: ParamValue::Wrapping(texture::WrapMode::CLAMP),
    });
    dev.record(Command::TexParameter {
        target: texture::Type::Tex2D,
        param: TexParam::WrapT,
        value: ParamValue::Wrapping(texture::WrapMode::CLAMP),
    });
    dev.record(Command::TexParameter {
        target: texture::Type::Tex2D,
        param: TexParam::MinFilter,
        value: ParamValue::Filtering(texture::Filter::LINEAR),
    });
    dev.record(Command::TexParameter {
        target: texture::Type::Tex2D,
        param: TexParam::MagFilter,
        value: ParamValue::Filtering(texture::Filter::LINEAR),
    });
    dev.record(Command::BindFramebuffer { handle: fbo });
    dev.record(Command::BindRenderbuffer { handle: rbo });
    dev.record(Command::RenderbufferStorage { width: 512, height: 512 });
    dev.record(Command::FramebufferTexture2D {
        target: TexTarget::Flat2D,
        texture: tex,
        level: 0,
    });
    dev.record(Command::Viewport { width: SKYBOX_RESOLUTION, height: SKYBOX_RESOLUTION });
    dev.record(Command::Clear);
    pipeline.use_program(dev);

    let ghost pre = dev.log().subrange(log0.len() as int, dev.log().len() as int);
    proof {
        assert(pre =~= brdf_pass_pre(old(dev).next_handle, pipeline.id)) by {
            reveal(brdf_pass_pre);
            assert(pre.len() == 16);
        }
        assert(dev.log() =~= log0 + brdf_pass_pre(old(dev).next_handle, pipeline.id));
    }

    (rbo, fbo, tex)
}

/// Renders the split-sum BRDF integration lookup table: one full-screen quad
/// pass into a fresh flat 2D texture. The pass reads no texture at all — in
/// particular not the environment cubemap — and renders into nothing but its
/// own target, exactly once.
#[verifier::rlimit(100)]
#[verifier::spinoff_prover]
pub fn generate_brdf_texture(dev: &mut Device, pipeline: &Pipeline, cache: &mut ModelCache) -> (t:
    Texture)
    requires
        old(dev).wf(),
        old(dev).next_handle as int + 8 <= u32::MAX,
        has_quad_geometry(old(cache).quad),
    ensures
        final(dev).wf(),
        old(dev).next_handle <= final(dev).next_handle,
        final(dev).next_handle as int <= old(dev).next_handle as int + 8,
        t.id == old(dev).next_handle + 2,
        1 <= t.id < final(dev).next_handle,
        t._type == texture::Type::Tex2D,
        t.width == SKYBOX_RESOLUTION,
        t.height == SKYBOX_RESOLUTION,
        t.format == lut_format(),
        t.texture_desc == capture_desc(),
        has_quad_geometry(final(cache).quad),
        final(cache).sphere == old(cache).sphere,
        final(cache).cube == old(cache).cube,
        final(dev).next_handle == old(dev).next_handle + 3 + spec_alloc_count(
            old(cache).quad.vertex_buffer@,
        ) + spec_alloc_count(old(cache).quad.index_buffer@),
        final(cache).quad.vertex_buffer@ == spec_sync_buffer(
            old(cache).quad.vertex_buffer@,
            crate::resource::Type::ArrayBuffer,
            (old(dev).next_handle + 3) as u32,
        ),
        final(cache).quad.index_buffer@ == spec_sync_buffer(
            old(cache).quad.index_buffer@,
            crate::resource::Type::IndexBuffer,
            (old(dev).next_handle + 3 + spec_alloc_count(
                old(cache).quad.vertex_buffer@,
            )) as u32,
        ),
        final(cache).quad.attributes == old(cache).quad.attributes,
        final(cache).quad.meshes == old(cache).quad.meshes,
        final(cache).quad.materials == old(cache).quad.materials,
        final(dev).log() == old(dev).log() + spec_brdf_pass_log(
            old(dev).next_handle,
            pipeline.id,
            old(cache).quad.vertex_buffer@,
            old(cache).quad.index_buffer@,
            old(cache).quad.attributes@,
        ),
        old(dev).log().len() <= final(dev).log().len(),
        final(dev).log().subrange(0, old(dev).log().len() as int) == old(dev).log(),
        count_where(
            final(dev).log().skip(old(dev).log().len() as int),
            is_attach_to(t.id),
        ) == 1,
        forall|h: u32|
            h != t.id ==> count_where(
                final(dev).log().skip(old(dev).log().len() as int),
                is_attach_to(h),
            ) == 0,
        forall|h: u32|
            h != t.id ==> count_where(
                final(dev).log().skip(old(dev).log().len() as int),
                mentions_texture(h),
            ) == 0,
        count_where(final(dev).log().skip(old(dev).log().len() as int), is_draw()) == 1,
        count_where(final(dev).log().skip(old(dev).log().len() as int), is_ratio_set()) == 0,
{
    let ghost log0 = old(dev).log();
    let (rbo, fbo, tex) = brdf_setup(dev, pipeline);
    let ghost pre = brdf_pass_pre(old(dev).next_handle, pipeline.id);
    proof {
        assert forall|h: u32|
            h != tex implies count_where(pre, is_attach_to(h)) == 0 && count_where(
            pre,
            mentions_texture(h),
        ) == 0 by {
            lemma_brdf_pre_quiet(old(dev).next_handle, pipeline.id, h);
        }
        lemma_brdf_pre_quiet(old(dev).next_handle, pipeline.id, 0);
    }

    let ghost vb0 = old(cache).quad.vertex_buffer@;
    let ghost ib0 = old(cache).quad.index_buffer@;
    let ghost attrs0 = old(cache).quad.attributes@;
    let quad = cache.shape_mut(Shape::Quad);
    let sm: SubMesh = quad.meshes[0].sub_meshes[0];
    let count = sm.num_indices;
    let byte_offset = sm.start_index * 4;
    let ghost nh0 = dev.next_handle;
    proof {
        assert(nh0 == old(dev).next_handle + 3);
    }
    Backend::set_vertex_buffer(dev, &mut quad.vertex_buffer);
    proof {
        crate::model::lemma_block_layout_valid(12, 12, 8);
    }
    let ghost nh1 = dev.next_handle;
    Backend::set_attributes(dev, &quad.attributes);
    Backend::set_index_buffer(dev, &mut quad.index_buffer);
    let ghost d_vb = spec_sync_log(vb0, crate::resource::Type::ArrayBuffer, nh0);
    let ghost d_at = attribute_commands(attrs0);
    let ghost d_ib = spec_sync_log(ib0, crate::resource::Type::IndexBuffer, nh1);

    dev.record(Command::DrawElements { count, byte_offset });
    dev.record(Command::BindFramebuffer { handle: 0 });
    dev.record(Command::DeleteFramebuffer { handle: fbo });
    dev.record(Command::DeleteRenderbuffer { handle: rbo });

    proof {
        let ghost tail = seq![
            CommandView::DrawElements { count, byte_offset },
            CommandView::BindFramebuffer { handle: 0u32 },
            CommandView::DeleteFramebuffer { handle: fbo },
            CommandView::DeleteRenderbuffer { handle: rbo },
        ];
        let ghost delta = dev.log().subrange(log0.len() as int, dev.log().len() as int);
        assert(dev.log() =~= log0 + (pre + d_vb + d_at + d_ib + tail));
        assert(delta =~= pre + d_vb + d_at + d_ib + tail);
        assert(dev.log().subrange(0, log0.len() as int) =~= log0);
        assert forall|i: int| 0 <= i < tail.len() implies (is_draw()(tail[i]) <==> i == 0)
            && !is_ratio_set()(tail[i]) by {}
        lemma_count_one_at(tail, is_draw(), 0);
        lemma_count_where_all_false(tail, is_ratio_set());
        assert forall|h: u32| count_where(delta, is_attach_to(h)) == count_where(
            pre,
            is_attach_to(h),
        ) && count_where(delta, mentions_texture(h)) == count_where(
            pre,
            mentions_texture(h),
        ) by {
            lemma_sync_log_quiet(vb0, crate::resource::Type::ArrayBuffer, nh0, h);
            lemma_sync_log_quiet(ib0, crate::resource::Type::IndexBuffer, nh1, h);
            lemma_attribute_commands_quiet(attrs0, h);
            assert forall|i: int| 0 <= i < tail.len() implies !is_attach_to(h)(tail[i])
                && !mentions_texture(h)(tail[i]) by {}
            lemma_count_where_all_false(tail, is_attach_to(h));
            lemma_count_where_all_false(tail, mentions_texture(h));
            crate::device::lemma_count_five_parts(pre, d_vb, d_at, d_ib, tail, is_attach_to(h));
            crate::device::lemma_count_five_parts(
                pre,
                d_vb,
                d_at,
                d_ib,
                tail,
                mentions_texture(h),
            );
        }
        lemma_sync_log_quiet(vb0, crate::resource::Type::ArrayBuffer, nh0, 0);
        lemma_sync_log_quiet(ib0, crate::resource::Type::IndexBuffer, nh1, 0);
        lemma_attribute_commands_quiet(attrs0, 0);
        crate::device::lemma_count_five_parts(pre, d_vb, d_at, d_ib, tail, is_draw());
        crate::device::lemma_count_five_parts(pre, d_vb, d_at, d_ib, tail, is_ratio_set());
        assert(count == 6 && byte_offset == 0);
        assert(dev.log() =~= log0 + spec_brdf_pass_log(
            old(dev).next_handle,
            pipeline.id,
            vb0,
            ib0,
            attrs0,
        )) by {
            reveal(spec_brdf_pass_log);
            assert(pre =~= brdf_pass_pre(old(dev).next_handle, pipeline.id)) by {
                reveal(brdf_pass_pre);
                assert(pre.len() == 16);
            }
            assert(tail =~= brdf_pass_tail(fbo, rbo));
            assert(dev.log() =~= log0 + (pre + d_vb + d_at + d_ib + tail));
        }
    }
    Texture {
        id: tex,
        format: stream::Format::new(stream::Dimension::VEC2, stream::Type::FLOAT, stream::Usage::RG),
        _type: texture::Type::Tex2D,
        width: SKYBOX_RESOLUTION,
        height: SKYBOX_RESOLUTION,
        texture_desc: TextureDesc::default(),
    }
}

} // verus!

verus! {

/// What the whole environment build amounts to, derived from the five
/// segments' counts: the environment's six face writes sit in the conversion
/// segment and precede every irradiance and prefilter write, the
/// environment's mipmap generation follows all of its face writes, the
/// environment is never mentioned once the BRDF pass attaches its target,
/// and the roughness settings are exactly the prefilter segment's.
#[verifier::rlimit(100)]
proof fn lemma_skybox_build_facts(
    log0: Seq<CommandView>,
    d0: Seq<CommandView>,
    d1: Seq<CommandView>,
    d2: Seq<CommandView>,
    d3: Seq<CommandView>,
    d4: Seq<CommandView>,
    full: Seq<CommandView>,
    sky: u32,
    irr: u32,
    pref: u32,
    brdf: u32,
    jm: int,
)
    requires
        full == log0 + (d0 + d1 + d2 + d3 + d4),
        forall|h: u32| count_where(d0, is_attach_to(h)) == 0,
        count_where(d0, is_ratio_set()) == 0,
        count_where(d1, is_attach_to(sky)) == 6,
        forall|h: u32| h != sky ==> count_where(d1, is_attach_to(h)) == 0,
        count_where(d1, is_ratio_set()) == 0,
        forall|h: u32| h != irr ==> count_where(d2, is_attach_to(h)) == 0,
        count_where(d2, is_ratio_set()) == 0,
        forall|h: u32| h != pref ==> count_where(d3, is_attach_to(h)) == 0,
        ratios_of(d3) == seq![(0u32, 4u32), (1u32, 4u32), (2u32, 4u32), (3u32, 4u32), (4u32, 4u32)],
        forall|h: u32|
            h != brdf ==> count_where(d4, is_attach_to(h)) == 0 && count_where(
                d4,
                mentions_texture(h),
            ) == 0,
        count_where(d4, is_ratio_set()) == 0,
        sky != irr,
        sky != pref,
        sky != brdf,
        brdf != irr,
        brdf != pref,
        log0.len() + d0.len() + d1.len() <= jm < (log0 + d0 + d1 + d2).len(),
        (log0 + d0 + d1 + d2)[jm] == (CommandView::GenerateMipmap {
            target: texture::Type::TexCUBE,
            handle: sky,
        }),
    ensures
        log0.len() <= full.len(),
        full.subrange(0, log0.len() as int) == log0,
        count_where(full.skip(log0.len() as int), is_attach_to(sky)) == 6,
        forall|i: int, j: int|
            #![trigger full.skip(log0.len() as int)[i], full.skip(log0.len() as int)[j]]
            {
                let delta = full.skip(log0.len() as int);
                0 <= i < delta.len() && 0 <= j < delta.len() && is_attach_to(sky)(delta[i])
                    && is_attach_to(irr)(delta[j]) ==> i < j
            },
        forall|i: int, j: int|
            #![trigger full.skip(log0.len() as int)[i], full.skip(log0.len() as int)[j]]
            {
                let delta = full.skip(log0.len() as int);
                0 <= i < delta.len() && 0 <= j < delta.len() && is_attach_to(sky)(delta[i])
                    && is_attach_to(pref)(delta[j]) ==> i < j
            },
        exists|j: int| {
            &&& 0 <= j < full.skip(log0.len() as int).len()
            &&& (#[trigger] full.skip(log0.len() as int)[j]) == (CommandView::GenerateMipmap {
                target: texture::Type::TexCUBE,
                handle: sky,
            })
            &&& forall|i: int|
                0 <= i < full.skip(log0.len() as int).len() && is_attach_to(sky)(
                    #[trigger] full.skip(log0.len() as int)[i],
                ) ==> i < j
        },
        forall|i: int, j: int|
            #![trigger full.skip(log0.len() as int)[i], full.skip(log0.len() as int)[j]]
            {
                let delta = full.skip(log0.len() as int);
                0 <= i < delta.len() && 0 <= j < delta.len() && mentions_texture(sky)(delta[i])
                    && is_attach_to(brdf)(delta[j]) ==> i < j
            },
        ratios_of(full.skip(log0.len() as int)) == seq![
            (0u32, 4u32),
            (1u32, 4u32),
            (2u32, 4u32),
            (3u32, 4u32),
            (4u32, 4u32),
        ],
{
    let delta = full.skip(log0.len() as int);
    assert(delta =~= d0 + d1 + d2 + d3 + d4);
    assert(full.subrange(0, log0.len() as int) =~= log0);

    // each pass attaches only its own texture, so the face writes of the
    // environment all sit in the conversion pass's segment
    crate::device::lemma_count_five_parts(d0, d1, d2, d3, d4, is_attach_to(sky));
    crate::device::lemma_count_five_parts(d0, d1, d2, d3, d4, is_attach_to(irr));
    crate::device::lemma_count_five_parts(d0, d1, d2, d3, d4, is_attach_to(pref));
    crate::device::lemma_count_five_parts(d0, d1, d2, d3, d4, is_attach_to(brdf));
    assert(count_where(delta, is_attach_to(sky)) == 6);

    // ordering: environment writes before irradiance and prefilter writes
    let k2 = d0.len() + d1.len();
    assert(delta.skip(k2 as int) =~= d2 + d3 + d4);
    assert(delta.subrange(0, k2 as int) =~= d0 + d1);
    crate::device::lemma_count_where_concat(d2, d3, is_attach_to(sky));
    crate::device::lemma_count_where_concat(d2 + d3, d4, is_attach_to(sky));
    crate::device::lemma_count_where_concat(d0, d1, is_attach_to(irr));
    crate::device::lemma_ordered_in_parts(delta, k2 as int, is_attach_to(sky), is_attach_to(irr));
    crate::device::lemma_count_where_concat(d0, d1, is_attach_to(pref));
    crate::device::lemma_ordered_in_parts(delta, k2 as int, is_attach_to(sky), is_attach_to(pref));

    // the environment is never touched once the BRDF pass begins
    let k4 = d0.len() + d1.len() + d2.len() + d3.len();
    assert(delta.skip(k4 as int) =~= d4);
    assert(delta.subrange(0, k4 as int) =~= d0 + d1 + d2 + d3);
    crate::device::lemma_count_where_concat(d0, d1, is_attach_to(brdf));
    crate::device::lemma_count_where_concat(d0 + d1, d2, is_attach_to(brdf));
    crate::device::lemma_count_where_concat(d0 + d1 + d2, d3, is_attach_to(brdf));
    crate::device::lemma_ordered_in_parts(
        delta,
        k4 as int,
        mentions_texture(sky),
        is_attach_to(brdf),
    );

    // the environment's mipmaps are generated only after its last face
    // write: the mipmap command sits in the irradiance pass's segment
    let jd = jm - log0.len() as int;
    assert((log0 + d0 + d1 + d2)[jm] == full[jm]);
    assert(delta[jd] == full[jm]);
    crate::device::lemma_count_where_zero(d2 + d3 + d4, is_attach_to(sky));
    crate::device::lemma_count_where_zero(d0, is_attach_to(sky));
    assert forall|i: int|
        0 <= i < delta.len() && is_attach_to(sky)(#[trigger] delta[i]) implies i < jd by {
        if i >= k2 {
            assert(delta[i] == (d2 + d3 + d4)[i - k2]);
        }
        if i < d0.len() {
            assert(delta[i] == d0[i]);
        }
    }

    // only the prefilter segment sets the roughness uniform
    crate::device::lemma_ratios_of_concat(d0, d1);
    crate::device::lemma_ratios_of_concat(d0 + d1, d2);
    crate::device::lemma_ratios_of_concat(d0 + d1 + d2, d3);
    crate::device::lemma_ratios_of_concat(d0 + d1 + d2 + d3, d4);
    lemma_ratios_of_none(d0);
    lemma_ratios_of_none(d1);
    lemma_ratios_of_none(d2);
    lemma_ratios_of_none(d4);
    assert(ratios_of(delta) =~= ratios_of(d3));
}

/// The four linked shader programs the pipeline renders with, compiled and
/// linked by the host: equirectangular-to-cubemap conversion, irradiance
/// convolution, specular prefiltering, and BRDF integration.
pub struct SkyboxPrograms {
    pub equirect_to_cube: Pipeline,
    pub irradiance: Pipeline,
    pub prefilter: Pipeline,
    pub brdf: Pipeline,
}

/// The image-based-lighting environment: the raw HDR radiance cubemap, the
/// diffuse irradiance cubemap, the roughness-mipped specular prefilter
/// cubemap, and the flat BRDF lookup table. All four are created together
/// and released together.
pub struct Skybox {
    pub skybox: Texture,
    pub irradiance: Texture,
    pub prefilter: Texture,
    pub brdf: Texture,
}

impl Skybox {
    /// Builds the whole environment from a decoded HDR panorama: uploads the
    /// panorama, converts it onto the environment cubemap, convolves the
    /// irradiance map, renders the prefilter mip chain, and integrates the
    /// BRDF lookup table, in that order.
    ///
    /// The contract pins the pipeline's shape: four distinct live textures of
    /// the documented kinds and sizes come back; the environment's six faces
    /// are rendered exactly once, and strictly before anything is rendered
    /// into the irradiance or prefilter maps; the environment's mipmaps are
    /// generated only after all six of its faces are complete; the roughness
    /// uniform is set exactly five times, to m/4 for mip m in order; and the
    /// environment is never touched again once the BRDF pass attaches its
    /// own target (the lookup table does not read the environment).
    #[verifier::rlimit(100)]
    pub fn new(
        dev: &mut Device,
        hdr: &HdrImage,
        programs: &SkyboxPrograms,
        cache: &mut ModelCache,
    ) -> (s: Skybox)
        requires
            old(dev).wf(),
            old(dev).next_handle as int + 40 <= u32::MAX,
            has_cube_geometry(old(cache).cube),
            has_quad_geometry(old(cache).quad),
        ensures
            final(dev).wf(),
            old(dev).next_handle <= final(dev).next_handle,
            final(dev).next_handle as int <= old(dev).next_handle as int + 40,
            1 <= s.skybox.id,
            s.skybox.id < s.irradiance.id,
            s.irradiance.id < s.prefilter.id,
            s.prefilter.id < s.brdf.id,
            s.skybox._type == texture::Type::TexCUBE,
            s.skybox.width == SKYBOX_RESOLUTION,
            s.skybox.height == SKYBOX_RESOLUTION,
            s.irradiance._type == texture::Type::TexCUBE,
            s.irradiance.width == IRRADIANCE_RESOLUTION,
            s.irradiance.height == IRRADIANCE_RESOLUTION,
            s.prefilter._type == texture::Type::TexCUBE,
            s.prefilter.width == PREFILTER_RESOLUTION,
            s.prefilter.height == PREFILTER_RESOLUTION,
            s.brdf._type == texture::Type::Tex2D,
            s.brdf.width == SKYBOX_RESOLUTION,
            s.brdf.height == SKYBOX_RESOLUTION,
            has_cube_geometry(final(cache).cube),
            has_quad_geometry(final(cache).quad),
            final(cache).sphere == old(cache).sphere,
            old(dev).log().len() <= final(dev).log().len(),
            final(dev).log().subrange(0, old(dev).log().len() as int) == old(dev).log(),
            count_where(
                final(dev).log().skip(old(dev).log().len() as int),
                is_attach_to(s.skybox.id),
            ) == 6,
            forall|i: int, j: int|
                #![trigger final(dev).log().skip(old(dev).log().len() as int)[i], final(dev).log().skip(old(dev).log().len() as int)[j]]
                {
                    let delta = final(dev).log().skip(old(dev).log().len() as int);
                    0 <= i < delta.len() && 0 <= j < delta.len() && is_attach_to(s.skybox.id)(
                        delta[i],
                    ) && is_attach_to(s.irradiance.id)(delta[j]) ==> i < j
                },
            forall|i: int, j: int|
                #![trigger final(dev).log().skip(old(dev).log().len() as int)[i], final(dev).log().skip(old(dev).log().len() as int)[j]]
                {
                    let delta = final(dev).log().skip(old(dev).log().len() as int);
                    0 <= i < delta.len() && 0 <= j < delta.len() && is_attach_to(s.skybox.id)(
                        delta[i],
                    ) && is_attach_to(s.prefilter.id)(delta[j]) ==> i < j
                },
            exists|j: int| {
                &&& 0 <= j < final(dev).log().skip(old(dev).log().len() as int).len()
                &&& (#[trigger] final(dev).log().skip(old(dev).log().len() as int)[j]) == (
                CommandView::GenerateMipmap {
                    target: texture::Type::TexCUBE,
                    handle: s.skybox.id,
                })
                &&& forall|i: int|
                    0 <= i < final(dev).log().skip(old(dev).log().len() as int).len()
                        && is_attach_to(s.skybox.id)(
                        #[trigger] final(dev).log().skip(old(dev).log().len() as int)[i],
                    ) ==> i < j
            },
            forall|i: int, j: int|
                #![trigger final(dev).log().skip(old(dev).log().len() as int)[i], final(dev).log().skip(old(dev).log().len() as int)[j]]
                {
                    let delta = final(dev).log().skip(old(dev).log().len() as int);
                    0 <= i < delta.len() && 0 <= j < delta.len() && mentions_texture(s.skybox.id)(
                        delta[i],
                    ) && is_attach_to(s.brdf.id)(delta[j]) ==> i < j
                },
            ratios_of(final(dev).log().skip(old(dev).log().len() as int)) == seq![
                (0u32, 4u32),
                (1u32, 4u32),
                (2u32, 4u32),
                (3u32, 4u32),
                (4u32, 4u32),
            ],
    {
        let ghost log0 = old(dev).log();
        let texture_format = stream::Format::new(
            stream::Dimension::VEC3,
            stream::Type::FLOAT,
            stream::Usage::RGB,
        );
        let hdr_texture = Texture::new(
            dev,
            &hdr.pixels,
            TextureDesc::default(),
            hdr.width,
            hdr.height,
            texture_format,
            texture::Type::Tex2D,
        );
        let ghost l1 = dev.log();
        let ghost d0 = spec_texture_new_log(
            hdr_texture.id,
            hdr.pixels@,
            crate::texture::spec_default_desc(),
            hdr.width,
            hdr.height,
            capture_format(),
        );
        let ghost nb1 = dev.next_handle;
        let ghost cube1 = cache.cube;
        let skybox_texture = generate_skybox_texture(
            dev,
            &hdr_texture,
            &programs.equirect_to_cube,
            cache,
        );
        let ghost l2 = dev.log();
        let ghost d1 = spec_skybox_pass_log(
            nb1,
            hdr_texture.id,
            programs.equirect_to_cube.id,
            cube1.vertex_buffer@,
            cube1.index_buffer@,
            cube1.attributes@,
        );
        let ghost nb2 = dev.next_handle;
        let ghost cube2 = cache.cube;
        let irradiance_texture = generate_irradiance_map(
            dev,
            &skybox_texture,
            &programs.irradiance,
            cache,
        );
        let ghost l3 = dev.log();
        let ghost d2 = spec_irradiance_pass_log(
            nb2,
            skybox_texture.id,
            programs.irradiance.id,
            cube2.vertex_buffer@,
            cube2.index_buffer@,
            cube2.attributes@,
        );
        let ghost jm = choose|j: int| {
            &&& l2.len() <= j < l3.len()
            &&& (#[trigger] l3[j]) == (CommandView::GenerateMipmap {
                target: texture::Type::TexCUBE,
                handle: skybox_texture.id,
            })
            &&& forall|i: int|
                l2.len() <= i < l3.len() && is_draw()(#[trigger] l3[i]) ==> j < i
        };
        let ghost nb3 = dev.next_handle;
        let ghost cube3 = cache.cube;
        let prefilter_texture = generate_prefilter_texture(
            dev,
            &skybox_texture,
            &programs.prefilter,
            cache,
        );
        let ghost l4 = dev.log();
        let ghost d3 = spec_prefilter_pass_log(
            nb3,
            skybox_texture.id,
            programs.prefilter.id,
            cube3.vertex_buffer@,
            cube3.index_buffer@,
            cube3.attributes@,
        );
        let ghost nb4 = dev.next_handle;
        let ghost quad4 = cache.quad;
        let brdf_texture = generate_brdf_texture(dev, &programs.brdf, cache);
        let ghost l5 = dev.log();
        let ghost d4 = spec_brdf_pass_log(
            nb4,
            programs.brdf.id,
            quad4.vertex_buffer@,
            quad4.index_buffer@,
            quad4.attributes@,
        );

        proof {
            assert(l1 =~= log0 + d0) by {}
            assert(l2 =~= l1 + d1) by {}
            assert(l3 =~= l2 + d2) by {}
            assert(l4 =~= l3 + d3) by {}
            assert(l5 =~= l4 + d4) by {}
            assert(l2.skip(l1.len() as int) =~= d1) by {}
            assert(l3.skip(l2.len() as int) =~= d2) by {}
            assert(l4.skip(l3.len() as int) =~= d3) by {}
            assert(l5.skip(l4.len() as int) =~= d4) by {}
            assert(l5 =~= log0 + (d0 + d1 + d2 + d3 + d4)) by {}
            let sky = skybox_texture.id;
            assert forall|h: u32| count_where(d0, is_attach_to(h)) == 0 by {
                lemma_texture_new_log_quiet(
                    hdr_texture.id,
                    hdr.pixels@,
                    crate::texture::spec_default_desc(),
                    hdr.width,
                    hdr.height,
                    capture_format(),
                    h,
                );
            }
            lemma_texture_new_log_quiet(
                hdr_texture.id,
                hdr.pixels@,
                crate::texture::spec_default_desc(),
                hdr.width,
                hdr.height,
                capture_format(),
                sky,
            );
            assert(l3 == log0 + d0 + d1 + d2) by {
                assert(l3 =~= log0 + d0 + d1 + d2);
            }
            lemma_skybox_build_facts(
                log0,
                d0,
                d1,
                d2,
                d3,
                d4,
                l5,
                skybox_texture.id,
                irradiance_texture.id,
                prefilter_texture.id,
                brdf_texture.id,
                jm,
            );
        }
        Skybox {
            skybox: skybox_texture,
            irradiance: irradiance_texture,
            prefilter: prefilter_texture,
            brdf: brdf_texture,
        }
    }
}

} // verus!

verus! {

impl Skybox {
    /// Releases the four environment textures together, in creation order:
    /// exactly one delete per texture. Taking the skybox by value makes a
    /// second release impossible.
    pub fn release(self, dev: &mut Device)
        ensures
            final(dev).next_handle == old(dev).next_handle,
            final(dev).log() == old(dev).log() + seq![
                CommandView::DeleteTexture { handle: self.skybox.id },
                CommandView::DeleteTexture { handle: self.irradiance.id },
                CommandView::DeleteTexture { handle: self.prefilter.id },
                CommandView::DeleteTexture { handle: self.brdf.id },
            ],
    {
        let ghost log0 = old(dev).log();
        let Skybox { skybox, irradiance, prefilter, brdf } = self;
        skybox.release(dev);
        irradiance.release(dev);
        prefilter.release(dev);
        brdf.release(dev);
        proof {
            assert(dev.log() =~= log0 + seq![
                CommandView::DeleteTexture { handle: self.skybox.id },
                CommandView::DeleteTexture { handle: self.irradiance.id },
                CommandView::DeleteTexture { handle: self.prefilter.id },
                CommandView::DeleteTexture { handle: self.brdf.id },
            ]);
        }
    }
}

} // verus!
