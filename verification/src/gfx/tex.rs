//! Textures: from pixels to an image on the device.

use vstd::prelude::*;

use crate::gfx::command::Command;
use crate::gfx::decode::{load_rgba8, ImageLoadError};
use crate::gfx::handle::{Image, Pass, INVALID_ID};
use crate::gfx::kinds::{Filter, ImageType, ResourceUsage, Wrap};
use crate::gfx::pixels::{flip_rows, flip_vertical, RgbaImage};

verus! {

/// Pixels that a builder either borrows from its caller or owns.
#[derive(Debug)]
pub enum PixelData<'a> {
    Borrowed(&'a [u8]),
    Owned(Vec<u8>),
}

impl<'a> View for PixelData<'a> {
    type V = Seq<u8>;

    open spec fn view(&self) -> Seq<u8> {
        match self {
            PixelData::Borrowed(s) => s@,
            PixelData::Owned(v) => v@,
        }
    }
}

impl<'a> PixelData<'a> {
    /// The bytes, wherever they are kept.
    pub fn as_slice(&self) -> (s: &[u8])
        ensures
            s@ == self@,
    {
        match self {
            PixelData::Borrowed(s) => s,
            PixelData::Owned(v) => v.as_slice(),
        }
    }
}

/// What a texture builder holds, as plain values.
pub struct TextureSpec {
    /// Bytes of the pixels, four per pixel, first row at the bottom
    pub pixels: Seq<u8>,
    pub width: u32,
    pub height: u32,
    pub filter: Filter,
    pub wrap: Wrap,
}

impl TextureSpec {
    /// A texture of the pixels given, with linear filtering, clamped to its edge.
    pub open spec fn from_pixels(pixels: Seq<u8>, width: u32, height: u32) -> TextureSpec {
        TextureSpec { pixels, width, height, filter: Filter::Linear, wrap: Wrap::ClampToEdge }
    }

    /// The texture of a decoded picture: its rows from the bottom up.
    pub open spec fn from_image(img: RgbaImage) -> TextureSpec {
        TextureSpec::from_pixels(
            flip_rows(img.pixels(), 4 * img.width()),
            img.width(),
            img.height(),
        )
    }

    /// There are exactly four bytes for each pixel.
    pub open spec fn valid(self) -> bool {
        self.pixels.len() == 4 * self.width * self.height
    }

    /// `tex` is the texture that a builder of these values makes around `img`.
    pub open spec fn builds(self, img: Image, tex: Texture2dDrop) -> bool {
        &&& tex.img() == img
        &&& tex.w() == self.width
        &&& tex.h() == self.height
    }
}

/// Collects the pixels and the sampling of a texture before it is created.
#[derive(Debug)]
pub struct TextureBuilder<'a> {
    pixels: PixelData<'a>,
    size: [u32; 2],
    filter: Filter,
    wrap: Wrap,
}

impl<'a> View for TextureBuilder<'a> {
    type V = TextureSpec;

    closed spec fn view(&self) -> TextureSpec {
        TextureSpec {
            pixels: self.pixels@,
            width: self.size[0],
            height: self.size[1],
            filter: self.filter,
            wrap: self.wrap,
        }
    }
}

/// Description of a two-dimensional image for the device to create.
#[derive(Debug, Clone, Copy, PartialEq, Eq)]
pub struct ImageDesc<'a> {
    pub image_type: ImageType,
    pub width: u32,
    pub height: u32,
    pub min_filter: Filter,
    pub mag_filter: Filter,
    pub wrap_u: Wrap,
    pub wrap_v: Wrap,
    pub wrap_w: Wrap,
    pub render_target: bool,
    pub usage: ResourceUsage,
    /// Content of the image, where it is known at creation
    pub pixels: Option<&'a [u8]>,
}

impl TextureBuilder<'static> {
    /// Decodes an image file held in memory.
    ///
    /// Whether `mem` decodes, and to which picture, is for the decoder to
    /// say. Where it does, the builder is the one that `from_dyn_img` makes
    /// of the picture; where it does not, the error is the decoder's.
    pub fn from_encoded_bytes(mem: &[u8]) -> (r: Result<Self, ImageLoadError>)
        ensures
            r matches Ok(b) ==> b@.valid() && b@.filter == Filter::Linear && b@.wrap
                == Wrap::ClampToEdge,
    {
        match load_rgba8(mem) {
            Ok((w, h, data)) => Ok(Self::from_dyn_img(RgbaImage::trimmed(w, h, data))),
            Err(e) => Err(e),
        }
    }

    /// The texture of a decoded picture.
    ///
    /// The rows are put in reverse order, since the device counts them from
    /// the bottom.
    pub fn from_dyn_img(img: RgbaImage) -> (b: Self)
        ensures
            b@ == TextureSpec::from_image(img),
            b@.valid(),
    {
        let w: u32 = img.width();
        let h: u32 = img.height();
        let data = img.data();
        let pixels = if w == 0 || h == 0 {
            Vec::new()
        } else {
            proof {
                // a row is no longer than the buffer, whose length fits
                assert(data@.len() == data.len());
                assert(4 * w <= 4 * w * h) by (nonlinear_arith)
                    requires
                        0 <= w,
                        1 <= h,
                ;
            }
            flip_vertical(data.as_slice(), 4 * (w as usize), h as usize)
        };
        proof {
            if w == 0 || h == 0 {
                assert(4 * w * h == 0) by (nonlinear_arith)
                    requires
                        w == 0 || h == 0,
                ;
                assert(pixels@ =~= flip_rows(img.pixels(), 4 * w));
            }
        }
        Self {
            pixels: PixelData::Owned(pixels),
            size: [w, h],
            filter: Filter::Linear,
            wrap: Wrap::ClampToEdge,
        }
    }
}

impl<'a> TextureBuilder<'a> {
    /// A texture of `w` by `h` pixels that the caller keeps in `pixels`.
    pub fn from_pixels(pixels: &'a [u8], w: u32, h: u32) -> (b: Self)
        ensures
            b@ == TextureSpec::from_pixels(pixels@, w, h),
    {
        Self {
            pixels: PixelData::Borrowed(pixels),
            size: [w, h],
            filter: Filter::Linear,
            wrap: Wrap::ClampToEdge,
        }
    }

    /// Whether the builder holds exactly four bytes for each of its pixels.
    /// Only such a builder describes an image that the device can create.
    pub fn is_valid(&self) -> (ok: bool)
        ensures
            ok == self@.valid(),
    {
        let row: u128 = 4 * (self.size[0] as u128);
        assert(row * self.size[1] <= 0x4_0000_0000 * 0x1_0000_0000) by (nonlinear_arith)
            requires
                0 <= row <= 0x4_0000_0000,
                0 <= self.size[1] <= 0x1_0000_0000,
        ;
        let want: u128 = row * (self.size[1] as u128);
        self.pixels.as_slice().len() as u128 == want
    }

    /// Sets how the texture is sampled between texels.
    pub fn filter(&mut self, filter: Filter) -> (b: &mut Self)
        ensures
            b@ == (TextureSpec { filter, ..old(self)@ }),
            *final(self) == *final(b),
    {
        self.filter = filter;
        self
    }

    /// Sets how the texture is sampled outside of its unit square.
    pub fn wrap(&mut self, wrap: Wrap) -> (b: &mut Self)
        ensures
            b@ == (TextureSpec { wrap, ..old(self)@ }),
            *final(self) == *final(b),
    {
        self.wrap = wrap;
        self
    }

    /// Description of the immutable image that holds this texture.
    pub fn image_desc(&self) -> (desc: ImageDesc<'_>)
        ensures
            desc == (ImageDesc {
                render_target: false,
                usage: ResourceUsage::Immutable,
                pixels: desc.pixels,
                ..spec_img_desc(self@.width, self@.height, self@.filter, self@.wrap)
            }),
            desc.pixels matches Some(p) && p@ == self@.pixels,
    {
        let mut desc = img_desc(self.size[0], self.size[1], self.filter, self.wrap);
        desc.render_target = false;
        desc.usage = ResourceUsage::Immutable;
        desc.pixels = Some(self.pixels.as_slice());
        desc
    }

    /// The texture, once the device has created `img` from `image_desc`.
    pub fn build_texture(&self, img: Image) -> (tex: Texture2dDrop)
        ensures
            self@.builds(img, tex),
    {
        Texture2dDrop { img, w: self.size[0], h: self.size[1] }
    }
}

/// What `img_desc` returns.
pub open spec fn spec_img_desc(w: u32, h: u32, filter: Filter, wrap: Wrap) -> ImageDesc<'static> {
    ImageDesc {
        image_type: ImageType::Dim2,
        width: w,
        height: h,
        min_filter: filter,
        mag_filter: filter,
        wrap_u: wrap,
        wrap_v: wrap,
        wrap_w: wrap,
        render_target: false,
        usage: ResourceUsage::Unset,
        pixels: None,
    }
}

/// Description of a two-dimensional image without content, sampled the same
/// way in every direction.
pub fn img_desc(w: u32, h: u32, filter: Filter, wrap: Wrap) -> (desc: ImageDesc<'static>)
    ensures
        desc == spec_img_desc(w, h, filter, wrap),
{
    ImageDesc {
        image_type: ImageType::Dim2,
        width: w,
        height: h,
        min_filter: filter,
        mag_filter: filter,
        wrap_u: wrap,
        wrap_v: wrap,
        wrap_w: wrap,
        render_target: false,
        usage: ResourceUsage::Unset,
        pixels: None,
    }
}

/// Owned 2D texture
#[derive(Debug)]
pub struct Texture2dDrop {
    img: Image,
    w: u32,
    h: u32,
}

impl Texture2dDrop {
    /// The image that the texture owns.
    pub closed spec fn spec_img(&self) -> Image {
        self.img
    }

    /// Width in pixels.
    pub closed spec fn spec_w(&self) -> u32 {
        self.w
    }

    /// Height in pixels.
    pub closed spec fn spec_h(&self) -> u32 {
        self.h
    }

    /// Width and height in pixels.
    pub open spec fn spec_size(&self) -> Seq<u32> {
        seq![self.w(), self.h()]
    }

    /// Prefer to use [`TextureBuilder`]
    pub fn new(img: Image, w: u32, h: u32) -> (tex: Self)
        ensures
            tex.img() == img,
            tex.w() == w,
            tex.h() == h,
    {
        Self { img, w, h }
    }

    #[verifier::when_used_as_spec(spec_w)]
    pub fn w(&self) -> (w: u32)
        ensures
            w == self.spec_w(),
    {
        self.w
    }

    #[verifier::when_used_as_spec(spec_h)]
    pub fn h(&self) -> (h: u32)
        ensures
            h == self.spec_h(),
    {
        self.h
    }

    pub fn size(&self) -> (size: [u32; 2])
        ensures
            size@ == self.spec_size(),
    {
        let size = [self.w, self.h];
        assert(size@ =~= self.spec_size());
        size
    }

    #[verifier::when_used_as_spec(spec_img)]
    pub fn img(&self) -> (img: Image)
        ensures
            img == self.spec_img(),
    {
        self.img
    }

    /// What is left to do when the texture is given up: destroy its image.
    pub open spec fn spec_release(&self) -> Command {
        Command::DestroyImage { img: self.img() }
    }

    /// Gives the texture up. The one command left to carry out destroys its image.
    pub fn release(self) -> (cmd: Command)
        ensures
            cmd == self.spec_release(),
    {
        Command::DestroyImage { img: self.img }
    }
}

impl Default for Texture2dDrop {
    /// A texture of no pixels around the handle that names no image.
    fn default() -> (tex: Self)
        ensures
            tex.img().id == INVALID_ID,
            tex.w() == 0,
            tex.h() == 0,
    {
        Texture2dDrop { img: Image { id: INVALID_ID }, w: 0, h: 0 }
    }
}

/// A texture built of a pixel buffer of `w` by `h` pixels reports that size,
/// whatever filter and wrap mode were chosen on the way.
pub proof fn lemma_texture_reports_size(
    pixels: Seq<u8>,
    w: u32,
    h: u32,
    b: TextureSpec,
    img: Image,
    tex: Texture2dDrop,
)
    requires
        pixels.len() == 4 * w * h,
        b == (TextureSpec {
            filter: b.filter,
            wrap: b.wrap,
            ..TextureSpec::from_pixels(pixels, w, h)
        }),
        b.builds(img, tex),
    ensures
        tex.spec_size() == seq![w, h],
        tex.img() == img,
{
}

/// A texture built around an image destroys that image when it is given up,
/// and asks for nothing else.
pub proof fn lemma_texture_releases_its_image(b: TextureSpec, img: Image, tex: Texture2dDrop)
    requires
        b.builds(img, tex),
    ensures
        tex.spec_release() == (Command::DestroyImage { img }),
{
}

/// Off-screen 2D rendering target
#[derive(Debug)]
pub struct RenderTexture2d {
    /// Render target texture bound to the rendering pass
    tex: Texture2dDrop,
    /// Off-screen rendering pass
    pass: Pass,
}

impl RenderTexture2d {
    /// The texture that the pass renders to.
    pub closed spec fn spec_tex(&self) -> Texture2dDrop {
        self.tex
    }

    /// The pass that the target owns.
    pub closed spec fn spec_pass(&self) -> Pass {
        self.pass
    }

    /// A target that owns `tex` and the pass that renders to it.
    pub fn new(tex: Texture2dDrop, pass: Pass) -> (target: Self)
        ensures
            target.spec_tex() == tex,
            target.pass() == pass,
    {
        Self { tex, pass }
    }

    /// The pass for off-screen rendering
    #[verifier::when_used_as_spec(spec_pass)]
    pub fn pass(&self) -> (pass: Pass)
        ensures
            pass == self.spec_pass(),
    {
        self.pass
    }

    pub fn tex(&self) -> (tex: &Texture2dDrop)
        ensures
            *tex == self.spec_tex(),
    {
        &self.tex
    }

    pub fn w(&self) -> (w: u32)
        ensures
            w == self.spec_tex().w(),
    {
        self.tex.w
    }

    pub fn h(&self) -> (h: u32)
        ensures
            h == self.spec_tex().h(),
    {
        self.tex.h
    }

    pub fn size(&self) -> (size: [u32; 2])
        ensures
            size@ == self.spec_tex().spec_size(),
    {
        let size = [self.tex.w, self.tex.h];
        assert(size@ =~= self.spec_tex().spec_size());
        size
    }

    pub fn img(&self) -> (img: Image)
        ensures
            img == self.spec_tex().img(),
    {
        self.tex.img
    }

    /// What is left to do when the target is given up: destroy its pass, then
    /// what its texture leaves.
    pub open spec fn spec_release(&self) -> Seq<Command> {
        seq![Command::DestroyPass { pass: self.pass() }, self.spec_tex().spec_release()]
    }

    /// Gives the target up. The pass is destroyed first, then the image of
    /// its texture; nothing else is, and neither is destroyed twice.
    pub fn release(self) -> (cmds: [Command; 2])
        ensures
            cmds@ == self.spec_release(),
    {
        let pass = Command::DestroyPass { pass: self.pass };
        let cmds = [pass, self.tex.release()];
        assert(cmds@ =~= self.spec_release());
        cmds
    }
}

impl Default for RenderTexture2d {
    /// A target of no pixels around the handles that name nothing.
    fn default() -> (target: Self)
        ensures
            target.pass().id == INVALID_ID,
            target.spec_tex().img().id == INVALID_ID,
            target.spec_tex().w() == 0,
            target.spec_tex().h() == 0,
    {
        RenderTexture2d { tex: Texture2dDrop::default(), pass: Pass { id: INVALID_ID } }
    }
}

/// A rendering target that is given up destroys its pass once and the image
/// of its texture once, and nothing else.
pub proof fn lemma_render_texture_releases_each_once(target: RenderTexture2d)
    ensures
        target.spec_release().len() == 2,
        target.spec_release()[0] == (Command::DestroyPass { pass: target.pass() }),
        target.spec_release()[1] == (Command::DestroyImage { img: target.spec_tex().img() }),
{
}

} // verus!
