//! GPU textures: created once from CPU pixel data plus a wrap/filter
//! descriptor, immutable thereafter, owning their native handle for their
//! lifetime; and the process-wide cache of solid fallback textures.

use vstd::prelude::*;

use crate::bytes::clone_bytes;
use crate::device::{
    count_where, is_attach_to, is_draw, mentions_texture, Command, CommandView, Device, TexParam,
    TexTarget, ParamValue,
};
use crate::stream;
use vstd::arithmetic::div_mod::lemma_fundamental_div_mod_converse;

verus! {

/// Shape of a texture: a flat image or a six-face cubemap.
#[derive(Copy, Debug, Clone, PartialEq, Eq, Structural)]
pub enum Type {
    Tex2D,
    TexCUBE,
}

/// How sampling outside [0, 1] texture coordinates behaves.
#[allow(non_camel_case_types)]
#[derive(Copy, Debug, Clone, PartialEq, Eq, Structural)]
pub enum WrapMode {
    REPEAT,
    MIRROR,
    CLAMP,
    BORDER,
    MIRROR_REPEAT,
}

/// Minification/magnification filtering.
#[allow(non_camel_case_types)]
#[derive(Copy, Debug, Clone, PartialEq, Eq, Structural)]
pub enum Filter {
    NEAREST,
    LINEAR,
    NEAREST_MIP_NEAREST,
    LINEAR_MIP_NEAREST,
    NEAREST_MIP_LINEAR,
    LINEAR_MIP_LINEAR,
}

/// Wrap and filter settings a texture is created with.
#[derive(Copy, Debug, Clone, PartialEq, Eq, Structural)]
pub struct TextureDesc {
    pub wrap_s: WrapMode,
    pub wrap_t: WrapMode,
    pub min_filter: Filter,
    pub mag_filter: Filter,
}

impl Default for TextureDesc {
    fn default() -> (d: TextureDesc)
        ensures
            d == (TextureDesc {
                wrap_s: WrapMode::CLAMP,
                wrap_t: WrapMode::CLAMP,
                min_filter: Filter::LINEAR,
                mag_filter: Filter::LINEAR,
            }),
    {
        TextureDesc {
            wrap_s: WrapMode::CLAMP,
            wrap_t: WrapMode::CLAMP,
            min_filter: Filter::LINEAR,
            mag_filter: Filter::LINEAR,
        }
    }
}

/// A GPU image: the native handle, the pixel format, the texture shape, and
/// the dimensions and sampling settings it was created with. Immutable after
/// creation.
#[derive(Debug, Clone, PartialEq, Eq, Structural)]
pub struct Texture {
    pub id: u32,
    pub format: stream::Format,
    pub _type: Type,
    pub width: u32,
    pub height: u32,
    pub texture_desc: TextureDesc,
}

/// Commands that create one 2D texture image with handle `id` from `pixels`:
/// allocate, bind, set unpack alignment and the four sampling parameters,
/// then fill the image in one upload.
pub open spec fn spec_texture_new_log(
    id: u32,
    pixels: Seq<u8>,
    desc: TextureDesc,
    width: u32,
    height: u32,
    format: stream::Format,
) -> Seq<CommandView> {
    seq![
        CommandView::GenTexture { handle: id },
        CommandView::BindTexture { target: Type::Tex2D, handle: id },
        CommandView::PixelStore { alignment: 1 },
        CommandView::TexParameter {
            target: Type::Tex2D,
            param: TexParam::WrapS,
            value: ParamValue::Wrapping(desc.wrap_s),
        },
        CommandView::TexParameter {
            target: Type::Tex2D,
            param: TexParam::WrapT,
            value: ParamValue::Wrapping(desc.wrap_t),
        },
        CommandView::TexParameter {
            target: Type::Tex2D,
            param: TexParam::MinFilter,
            value: ParamValue::Filtering(desc.min_filter),
        },
        CommandView::TexParameter {
            target: Type::Tex2D,
            param: TexParam::MagFilter,
            value: ParamValue::Filtering(desc.mag_filter),
        },
        CommandView::TexImage2D {
            target: TexTarget::Flat2D,
            level: 0,
            width,
            height,
            format,
            pixels: Option::Some(pixels),
        },
    ]
}

impl Texture {
    /// Creates a 2D texture image from the given pixel bytes: one fresh
    /// nonzero handle, the sampling parameters of `texture_desc`, and exactly
    /// one image upload holding `pixels`.
    pub fn new(
        dev: &mut Device,
        pixels: &Vec<u8>,
        texture_desc: TextureDesc,
        width: u32,
        height: u32,
        format: stream::Format,
        _type: Type,
    ) -> (t: Texture)
        requires
            old(dev).wf(),
            old(dev).next_handle < u32::MAX,
        ensures
            final(dev).wf(),
            t == (Texture {
                id: old(dev).next_handle,
                format,
                _type,
                width,
                height,
                texture_desc,
            }),
            t.id >= 1,
            final(dev).next_handle == old(dev).next_handle + 1,
            final(dev).log() == old(dev).log() + spec_texture_new_log(
                t.id,
                pixels@,
                texture_desc,
                width,
                height,
                format,
            ),
    {
        let id = dev.fresh_handle();
        dev.record(Command::GenTexture { handle: id });
        dev.record(Command::BindTexture { target: Type::Tex2D, handle: id });
        dev.record(Command::PixelStore { alignment: 1 });
        dev.record(Command::TexParameter {
            target: Type::Tex2D,
            param: TexParam::WrapS,
            value: ParamValue::Wrapping(texture_desc.wrap_s),
        });
        dev.record(Command::TexParameter {
            target: Type::Tex2D,
            param: TexParam::WrapT,
            value: ParamValue::Wrapping(texture_desc.wrap_t),
        });
        dev.record(Command::TexParameter {
            target: Type::Tex2D,
            param: TexParam::MinFilter,
            value: ParamValue::Filtering(texture_desc.min_filter),
        });
        dev.record(Command::TexParameter {
            target: Type::Tex2D,
            param: TexParam::MagFilter,
            value: ParamValue::Filtering(texture_desc.mag_filter),
        });
        let bytes = clone_bytes(pixels);
        dev.record(Command::TexImage2D {
            target: TexTarget::Flat2D,
            level: 0,
            width,
            height,
            format,
            pixels: Option::Some(bytes),
        });
        proof {
            assert(dev.log() =~= old(dev).log() + spec_texture_new_log(
                id,
                pixels@,
                texture_desc,
                width,
                height,
                format,
            ));
        }
        Texture { id, format, _type, width, height, texture_desc }
    }
}

impl Texture {
    /// Releases the native texture handle: exactly one delete. Taking the
    /// texture by value makes a second release of the same texture
    /// impossible.
    pub fn release(self, dev: &mut Device)
        ensures
            final(dev).next_handle == old(dev).next_handle,
            final(dev).log() == old(dev).log().push(
                CommandView::DeleteTexture { handle: self.id },
            ),
    {
        dev.record(Command::DeleteTexture { handle: self.id });
    }
}

/// Process-wide solid fallback textures, used in place of material maps a
/// model does not supply: one white, blue, gray and black 1x1 image each.
pub struct TextureCache {
    pub blue_texture: Texture,
    pub white_texture: Texture,
    pub gray_texture: Texture,
    pub black_texture: Texture,
}

/// The RGBA bytes of the four fallback colors.
pub open spec fn white_color() -> Seq<u8> {
    seq![0xFFu8, 0xFFu8, 0xFFu8, 0xFFu8]
}

pub open spec fn blue_color() -> Seq<u8> {
    seq![0x80u8, 0x80u8, 0xFFu8, 0xFFu8]
}

pub open spec fn gray_color() -> Seq<u8> {
    seq![0x80u8, 0x80u8, 0x80u8, 0xFFu8]
}

pub open spec fn black_color() -> Seq<u8> {
    seq![0x00u8, 0x00u8, 0x00u8, 0xFFu8]
}

/// The format the fallback textures are created with.
pub open spec fn cache_format() -> stream::Format {
    stream::Format {
        dimension: stream::Dimension::VEC3,
        _type: stream::Type::UINT8,
        usage: stream::Usage::RGBA,
    }
}

fn solid_color_pixels(a: u8, b: u8, c: u8, d: u8) -> (v: Vec<u8>)
    ensures
        v@ == seq![a, b, c, d],
{
    let mut v: Vec<u8> = Vec::new();
    v.push(a);
    v.push(b);
    v.push(c);
    v.push(d);
    proof {
        assert(v@ =~= seq![a, b, c, d]);
    }
    v
}

impl TextureCache {
    /// Creates the four 1x1 fallback textures, in the order blue, white,
    /// gray, black: four distinct nonzero handles and one pixel upload each,
    /// holding exactly that color.
    pub fn new(dev: &mut Device) -> (cache: TextureCache)
        requires
            old(dev).wf(),
            old(dev).next_handle + 4 <= u32::MAX,
        ensures
            final(dev).wf(),
            final(dev).next_handle == old(dev).next_handle + 4,
            cache.blue_texture == spec_cache_texture(old(dev).next_handle),
            cache.white_texture == spec_cache_texture((old(dev).next_handle + 1) as u32),
            cache.gray_texture == spec_cache_texture((old(dev).next_handle + 2) as u32),
            cache.black_texture == spec_cache_texture((old(dev).next_handle + 3) as u32),
            final(dev).log() == old(dev).log() + spec_texture_new_log(
                cache.blue_texture.id,
                blue_color(),
                spec_default_desc(),
                1,
                1,
                cache_format(),
            ) + spec_texture_new_log(
                cache.white_texture.id,
                white_color(),
                spec_default_desc(),
                1,
                1,
                cache_format(),
            ) + spec_texture_new_log(
                cache.gray_texture.id,
                gray_color(),
                spec_default_desc(),
                1,
                1,
                cache_format(),
            ) + spec_texture_new_log(
                cache.black_texture.id,
                black_color(),
                spec_default_desc(),
                1,
                1,
                cache_format(),
            ),
    {
        let format = stream::Format::new(
            stream::Dimension::VEC3,
            stream::Type::UINT8,
            stream::Usage::RGBA,
        );
        let blue = solid_color_pixels(0x80, 0x80, 0xFF, 0xFF);
        let white = solid_color_pixels(0xFF, 0xFF, 0xFF, 0xFF);
        let gray = solid_color_pixels(0x80, 0x80, 0x80, 0xFF);
        let black = solid_color_pixels(0x00, 0x00, 0x00, 0xFF);
        let blue_texture = Texture::new(dev, &blue, TextureDesc::default(), 1, 1, format, Type::Tex2D);
        let white_texture = Texture::new(
            dev,
            &white,
            TextureDesc::default(),
            1,
            1,
            format,
            Type::Tex2D,
        );
        let gray_texture = Texture::new(dev, &gray, TextureDesc::default(), 1, 1, format, Type::Tex2D);
        let black_texture = Texture::new(
            dev,
            &black,
            TextureDesc::default(),
            1,
            1,
            format,
            Type::Tex2D,
        );
        TextureCache { blue_texture, white_texture, gray_texture, black_texture }
    }
}

/// The settings every fallback texture is created with.
pub open spec fn spec_default_desc() -> TextureDesc {
    TextureDesc {
        wrap_s: WrapMode::CLAMP,
        wrap_t: WrapMode::CLAMP,
        min_filter: Filter::LINEAR,
        mag_filter: Filter::LINEAR,
    }
}

/// A fallback cache texture with handle `id`: 1x1, 2D, default sampling.
pub open spec fn spec_cache_texture(id: u32) -> Texture {
    Texture {
        id,
        format: cache_format(),
        _type: Type::Tex2D,
        width: 1,
        height: 1,
        texture_desc: spec_default_desc(),
    }
}

/// The creation commands of a texture touch no other texture: they attach
/// nothing to a framebuffer, draw nothing, and mention no handle but `id`.
pub proof fn lemma_texture_new_log_quiet(
    id: u32,
    pixels: Seq<u8>,
    desc: TextureDesc,
    width: u32,
    height: u32,
    format: stream::Format,
    other: u32,
)
    ensures
        count_where(
            spec_texture_new_log(id, pixels, desc, width, height, format),
            is_draw(),
        ) == 0,
        count_where(
            spec_texture_new_log(id, pixels, desc, width, height, format),
            crate::device::is_ratio_set(),
        ) == 0,
        forall|h: u32|
            count_where(
                spec_texture_new_log(id, pixels, desc, width, height, format),
                is_attach_to(h),
            ) == 0,
        other != id ==> count_where(
            spec_texture_new_log(id, pixels, desc, width, height, format),
            mentions_texture(other),
        ) == 0,
{
    reveal_with_fuel(count_where, 10);
}

} // verus!

verus! {

/// The pixel rows of `p` in reverse order: the result starts with the last
/// `row_len`-byte row of `p` and ends with the first.
pub open spec fn flip_rows(p: Seq<u8>, row_len: nat, rows: nat) -> Seq<u8>
    decreases rows,
{
    if rows == 0 {
        Seq::empty()
    } else {
        p.skip(((rows - 1) * row_len) as int) + flip_rows(
            p.take(((rows - 1) * row_len) as int),
            row_len,
            (rows - 1) as nat,
        )
    }
}

/// Flipping rows preserves the byte count.
pub proof fn lemma_flip_rows_len(p: Seq<u8>, row_len: nat, rows: nat)
    requires
        p.len() == rows * row_len,
    ensures
        flip_rows(p, row_len, rows).len() == p.len(),
    decreases rows,
{
    if rows > 0 {
        assert((rows - 1) * row_len + row_len == rows * row_len) by (nonlinear_arith)
            requires
                rows >= 1,
        ;
        assert((rows - 1) * row_len <= p.len());
        let k = ((rows - 1) * row_len) as int;
        lemma_flip_rows_len(p.take(k), row_len, (rows - 1) as nat);
        assert(p.take(k).len() == k);
        assert(flip_rows(p, row_len, rows) == p.skip(k) + flip_rows(
            p.take(k),
            row_len,
            (rows - 1) as nat,
        ));
        assert(p.skip(k).len() == p.len() - k);
        assert(flip_rows(p, row_len, rows).len() == p.len());
    } else {
        assert(rows * row_len == 0) by (nonlinear_arith)
            requires
                rows == 0,
        ;
        assert(flip_rows(p, row_len, rows).len() == p.len());
    }
}

/// Appends `p[start .. start + len]` to `out`.
fn extend_range(out: &mut Vec<u8>, p: &Vec<u8>, start: usize, len: usize)
    requires
        start + len <= p@.len(),
    ensures
        final(out)@ == old(out)@ + p@.subrange(start as int, start + len),
{
    let total = p.len();
    let mut j: usize = 0;
    while j < len
        invariant
            j <= len,
            total == p@.len(),
            start + len <= p@.len(),
            out@ == old(out)@ + p@.subrange(start as int, start + j),
        decreases len - j,
    {
        out.push(p[start + j]);
        proof {
            assert(p@.subrange(start as int, start + j + 1) =~= p@.subrange(
                start as int,
                start + j,
            ).push(p@[start + j]));
            assert(out@ =~= old(out)@ + p@.subrange(start as int, start + j + 1));
        }
        j = j + 1;
    }
}

/// Reverses the row order of a tightly packed pixel rectangle: the image
/// decoder hands rows top to bottom, the rendering API wants them bottom to
/// top.
pub fn vertical_flip(pixels: &Vec<u8>, width: usize, height: usize, bytes_per_pixel: usize) -> (
    out: Vec<u8>)
    requires
        pixels@.len() == width * height * bytes_per_pixel,
        width * bytes_per_pixel <= usize::MAX,
    ensures
        out@ == flip_rows(
            pixels@,
            (width * bytes_per_pixel) as nat,
            height as nat,
        ),
{
    let row_len = width * bytes_per_pixel;
    let total = pixels.len();
    let ghost gl: nat = row_len as nat;
    proof {
        assert(width * height * bytes_per_pixel == height * (width * bytes_per_pixel))
            by (nonlinear_arith);
    }
    let mut out: Vec<u8> = Vec::new();
    proof {
        assert(pixels@.take((height * row_len) as int) =~= pixels@);
        assert(Seq::<u8>::empty() + flip_rows(pixels@, gl, height as nat) =~= flip_rows(
            pixels@,
            gl,
            height as nat,
        ));
        assert(out@ =~= Seq::<u8>::empty());
    }
    let mut r: usize = 0;
    while r < height
        invariant
            r <= height,
            row_len == width * bytes_per_pixel,
            gl == row_len,
            total == pixels@.len(),
            pixels@.len() == height * row_len,
            out@.len() == r * row_len,
            out@ + flip_rows(
                pixels@.take(((height - r) * row_len) as int),
                row_len as nat,
                (height - r) as nat,
            ) == flip_rows(pixels@, row_len as nat, height as nat),
        decreases height - r,
    {
        proof {
            assert((height - r) * row_len <= height * row_len && (height - 1 - r) * row_len + row_len
                == (height - r) * row_len && r * row_len + row_len == (r + 1) * row_len)
                by (nonlinear_arith)
                requires
                    r < height,
                    row_len >= 0,
            ;
            assert((height - 1 - r) * row_len + row_len <= pixels@.len());
        }
        let start = (height - 1 - r) * row_len;
        let ghost out0 = out@;
        let ghost remaining = pixels@.take(((height - r) * row_len) as int);
        extend_range(&mut out, pixels, start, row_len);
        proof {
            let h_r = (height - r) as nat;
            assert(h_r - 1 == height - 1 - r);
            assert(gl == row_len);
            assert(((h_r - 1) * gl) as int == start as int) by (nonlinear_arith)
                requires
                    h_r - 1 == height - 1 - r,
                    gl == row_len,
                    start == (height - 1 - r) * row_len,
                    h_r >= 1,
            ;
            assert(remaining.len() == (height - r) * row_len);
            assert(remaining.skip(((h_r - 1) * gl) as int) =~= pixels@.subrange(
                start as int,
                start + row_len,
            ));
            assert(remaining.take(((h_r - 1) * gl) as int) =~= pixels@.take(
                ((height - r - 1) * row_len) as int,
            ));
            assert(flip_rows(remaining, gl, h_r) == remaining.skip(((h_r - 1) * gl) as int)
                + flip_rows(remaining.take(((h_r - 1) * gl) as int), gl, (h_r - 1) as nat));
            assert(out@ + flip_rows(
                pixels@.take(((height - r - 1) * row_len) as int),
                gl,
                (height - r - 1) as nat,
            ) =~= out0 + flip_rows(remaining, gl, h_r));
        }
        r = r + 1;
    }
    proof {
        assert(pixels@.take(0) =~= Seq::<u8>::empty());
        assert(out@ + flip_rows(Seq::<u8>::empty(), gl, 0) =~= out@);
    }
    out
}

} // verus!

verus! {

/// A decoded Radiance HDR image: tightly packed RGBE texels (four bytes
/// each), rows already flipped to the rendering API's bottom-to-top order.
/// The host expands RGBE to linear float RGB right before upload.
pub struct HdrImage {
    pub pixels: Vec<u8>,
    pub width: u32,
    pub height: u32,
}

impl HdrImage {
    /// The pixel blob is exactly one four-byte texel per image position.
    pub open spec fn wf(self) -> bool {
        self.pixels@.len() == 4 * (self.width as nat) * (self.height as nat)
    }
}

/// What the Radiance HDR decoder yields on the given file bytes: `None` where
/// it rejects them, otherwise the RGBE texels in the decoder's top-to-bottom
/// row order together with the image's width and height.
pub uninterp spec fn hdr_decode(bytes: Seq<u8>) -> Option<(Seq<u8>, u32, u32)>;

/// The four bytes at `o` are an old-style run-length marker texel: color
/// components (1, 1, 1), any exponent.
pub open spec fn is_marker_texel(bytes: Seq<u8>, o: int) -> bool {
    bytes[o] == 1 && bytes[o + 1] == 1 && bytes[o + 2] == 1
}

/// Eight consecutive marker texels start at byte offset `o`.
pub open spec fn marker_run_at(bytes: Seq<u8>, o: int) -> bool {
    &&& is_marker_texel(bytes, o)
    &&& is_marker_texel(bytes, o + 4)
    &&& is_marker_texel(bytes, o + 8)
    &&& is_marker_texel(bytes, o + 12)
    &&& is_marker_texel(bytes, o + 16)
    &&& is_marker_texel(bytes, o + 20)
    &&& is_marker_texel(bytes, o + 24)
    &&& is_marker_texel(bytes, o + 28)
}

/// The byte stream holds eight consecutive marker texels somewhere. The
/// decoder's old-style run-length path multiplies its run factor by 256 for
/// every consecutive marker it reads, so an eighth consecutive one overflows
/// the factor and aborts the process; any input on which the decoder could
/// read such a run necessarily holds these 32 bytes, so inputs with them are
/// rejected before the decoder is called.
pub open spec fn spec_has_marker_run(bytes: Seq<u8>) -> bool {
    exists|o: int| 0 <= o && o + 32 <= bytes.len() && #[trigger] marker_run_at(bytes, o)
}

fn is_marker(bytes: &Vec<u8>, at: usize) -> (r: bool)
    requires
        at + 3 <= bytes@.len(),
    ensures
        r == is_marker_texel(bytes@, at as int),
{
    let n = bytes.len();
    bytes[at] == 1 && bytes[at + 1] == 1 && bytes[at + 2] == 1
}

/// Scans for eight consecutive old-style run-length marker texels at any
/// byte offset.
pub fn has_marker_run(bytes: &Vec<u8>) -> (found: bool)
    ensures
        found == spec_has_marker_run(bytes@),
{
    let n = bytes.len();
    if n < 32 {
        return false;
    }
    let mut o: usize = 0;
    while o <= n - 32
        invariant
            n == bytes@.len(),
            n >= 32,
            o <= n,
            forall|p: int| 0 <= p < o ==> !(#[trigger] marker_run_at(bytes@, p)),
        decreases n - o,
    {
        if is_marker(bytes, o) && is_marker(bytes, o + 4) && is_marker(bytes, o + 8) && is_marker(
            bytes,
            o + 12,
        ) && is_marker(bytes, o + 16) && is_marker(bytes, o + 20) && is_marker(bytes, o + 24)
            && is_marker(bytes, o + 28) {
            proof {
                assert(marker_run_at(bytes@, o as int));
            }
            return true;
        }
        proof {
            assert(!marker_run_at(bytes@, o as int));
        }
        o = o + 1;
    }
    proof {
        assert forall|p: int| 0 <= p && p + 32 <= bytes@.len() implies !(#[trigger] marker_run_at(
            bytes@,
            p,
        )) by {
            assert(p < o);
        }
    }
    false
}

#[verifier::external_type_specification]
#[verifier::external_body]
pub struct ExImageError(image::error::ImageError);

/// Relies on image's Radiance HDR decoder (`HdrDecoder::new` reads the
/// header, `read_image_native` the payload): a successful decode yields
/// exactly width x height RGBE texels of four bytes each, and the outcome is
/// a function of the input bytes alone. The decoder is total on the admitted
/// inputs except for one defect: reading eight consecutive old-style
/// run-length marker texels overflows its run factor and aborts, so the
/// `requires` excludes every input holding such a run.
#[verifier::external_body]
fn decode_hdr_rgbe(bytes: &Vec<u8>) -> (r: Result<
    (Vec<u8>, u32, u32),
    image::error::ImageError,
>)
    requires
        !spec_has_marker_run(bytes@),
    ensures
        match r {
            Ok(t) => {
                &&& hdr_decode(bytes@) == Some((t.0@, t.1, t.2))
                &&& t.0@.len() == 4 * (t.1 as nat) * (t.2 as nat)
            },
            Err(_) => hdr_decode(bytes@) is None,
        },
{
    let decoder = image::codecs::hdr::HdrDecoder::new(bytes.as_slice())?;
    let meta = decoder.metadata();
    let texels = decoder.read_image_native()?;
    let out: Vec<u8> = texels.iter().flat_map(|p| [p.c[0], p.c[1], p.c[2], p.e]).collect();
    Ok((out, meta.width, meta.height))
}

/// Relies on ImageError's Display implementation for a human-readable
/// message.
#[verifier::external_body]
fn image_error_text(e: &image::error::ImageError) -> String {
    format!("{}", e)
}

/// Decodes a Radiance HDR file into RGBE texels and flips the rows from the
/// decoder's top-to-bottom order to the rendering API's bottom-to-top
/// convention. An input holding eight consecutive old-style run-length
/// marker texels is rejected up front (the decoder cannot process such a
/// run); every other input succeeds exactly when the decoder accepts it,
/// and on failure the decoder's message is returned.
pub fn load_hdr_texture(bytes: &Vec<u8>) -> (r: Result<HdrImage, String>)
    ensures
        match r {
            Ok(img) => !spec_has_marker_run(bytes@) && match hdr_decode(bytes@) {
                Some(t) => {
                    &&& img.width == t.1
                    &&& img.height == t.2
                    &&& img.pixels@ == flip_rows(t.0, 4 * (t.1 as nat), t.2 as nat)
                    &&& img.wf()
                },
                None => false,
            },
            Err(_) => spec_has_marker_run(bytes@) || hdr_decode(bytes@) is None,
        },
{
    if has_marker_run(bytes) {
        return Err("unbounded run-length marker chain".to_string());
    }
    match decode_hdr_rgbe(bytes) {
        Ok((texels, width, height)) => {
            if height == 0 {
                let img = HdrImage { pixels: Vec::new(), width, height };
                proof {
                    assert(img.pixels@ =~= flip_rows(texels@, 4 * (width as nat), 0));
                    assert(4 * (width as nat) * 0 == 0) by (nonlinear_arith);
                }
                Ok(img)
            } else {
                let total = texels.len();
                let w = width as usize;
                let h = height as usize;
                proof {
                    assert(w * h * 4 == 4 * (width as nat) * (height as nat) && w * 4 <= w * h * 4
                        && w * 4 == 4 * (width as nat)) by (nonlinear_arith)
                        requires
                            w == width as nat,
                            h == height as nat,
                            h >= 1,
                    ;
                }
                proof {
                    assert(texels@.len() == (h as nat) * ((w * 4) as nat)) by (nonlinear_arith)
                        requires
                            texels@.len() == 4 * (width as nat) * (height as nat),
                            w == width as nat,
                            h == height as nat,
                    ;
                    lemma_flip_rows_len(texels@, (w * 4) as nat, h as nat);
                }
                let pixels = vertical_flip(&texels, w, h, 4);
                let img = HdrImage { pixels, width, height };
                Ok(img)
            }
        },
        Err(e) => Err(image_error_text(&e)),
    }
}

} // verus!
