//! Textures: the pixels of a decoded image, three bytes each, their
//! orientation, and their hand-over to the driver.

use vstd::arithmetic::div_mod::{
    lemma_div_pos_is_pos, lemma_fundamental_div_mod, lemma_fundamental_div_mod_converse,
    lemma_mod_bound,
};
use vstd::prelude::*;

verus! {

/// An image in memory: three bytes a pixel, red, green and blue, row by
/// row from the top.
#[derive(Debug, PartialEq, Eq)]
pub struct DecodedImage {
    pub width: u32,
    pub height: u32,
    pub pixels: Vec<[u8; 3]>,
}

impl DecodedImage {
    /// An image holds one pixel for each of its positions.
    pub open spec fn well_formed(&self) -> bool {
        self.pixels@.len() == self.width * self.height
    }

    /// Whether the image holds one pixel for each of its positions.
    pub fn is_well_formed(&self) -> (r: bool)
        ensures
            r == self.well_formed(),
    {
        assert(self.width * self.height <= 0xffff_ffff * 0xffff_ffff) by (nonlinear_arith)
            requires
                0 <= self.width <= 0xffff_ffff,
                0 <= self.height <= 0xffff_ffff,
        ;
        let positions: u64 = (self.width as u64) * (self.height as u64);
        self.pixels.len() as u64 == positions
    }
}

/// The rows of an image in reverse order.
pub open spec fn flip_rows(pixels: Seq<[u8; 3]>, width: nat, height: nat) -> Seq<[u8; 3]> {
    Seq::new(
        pixels.len(),
        |i: int| pixels[(height - 1 - i / (width as int)) * width + i % (width as int)],
    )
}

/// The pixels of an image as a texture holds them.
pub open spec fn oriented(pixels: Seq<[u8; 3]>, width: nat, height: nat, flip: bool) -> Seq<
    [u8; 3],
> {
    if flip {
        flip_rows(pixels, width, height)
    } else {
        pixels
    }
}

/// Where a position of the image falls in its pixels, and the position
/// a place in the pixels stands for.
proof fn lemma_position(width: nat, height: nat, x: nat, y: nat)
    requires
        x < width,
        y < height,
    ensures
        0 <= y * width + x < width * height,
        ((y * width + x) as int) / (width as int) == y,
        ((y * width + x) as int) % (width as int) == x,
{
    assert(y * width + x < width * height) by (nonlinear_arith)
        requires
            x < width,
            y < height,
    ;
    assert(0 <= y * width) by (nonlinear_arith);
    lemma_fundamental_div_mod_converse((y * width + x) as int, width as int, y as int, x as int);
}

/// Flipping moves the pixel at column `x` of row `y` to the same column
/// of row `height - 1 - y`.
pub proof fn lemma_flip_rows_by_position(
    pixels: Seq<[u8; 3]>,
    width: nat,
    height: nat,
    x: nat,
    y: nat,
)
    requires
        pixels.len() == width * height,
        x < width,
        y < height,
    ensures
        0 <= y * width + x < pixels.len(),
        0 <= (height - 1 - y) * width + x < pixels.len(),
        flip_rows(pixels, width, height)[(y * width + x) as int] == pixels[(height - 1 - y) * width
            + x],
{
    lemma_position(width, height, x, y);
    lemma_position(width, height, x, (height - 1 - y) as nat);
}

/// Flipping twice gives the image back.
pub proof fn lemma_flip_rows_twice(pixels: Seq<[u8; 3]>, width: nat, height: nat)
    requires
        pixels.len() == width * height,
    ensures
        flip_rows(flip_rows(pixels, width, height), width, height) == pixels,
{
    let once = flip_rows(pixels, width, height);
    let twice = flip_rows(once, width, height);
    assert forall|i: int| 0 <= i < pixels.len() implies twice[i] == pixels[i] by {
        assert(width > 0) by (nonlinear_arith)
            requires
                0 <= i < width * height,
        ;
        let x = (i % (width as int)) as nat;
        let y = (i / (width as int)) as nat;
        lemma_fundamental_div_mod(i, width as int);
        lemma_mod_bound(i, width as int);
        lemma_div_pos_is_pos(i, width as int);
        assert(y < height) by (nonlinear_arith)
            requires
                i == width * y + x,
                i < width * height,
                0 <= x,
                width > 0,
        ;
        assert(i == y * width + x) by (nonlinear_arith)
            requires
                i == width * y + x,
        ;
        lemma_flip_rows_by_position(once, width, height, x, y);
        lemma_flip_rows_by_position(pixels, width, height, x, (height - 1 - y) as nat);
    }
    assert(twice =~= pixels);
}

/// Calls `image::imageops::flip_vertical`, which copies the pixel at
/// `(x, y)` to `(x, height - 1 - y)` of a new buffer of the same size.
#[verifier::external_body]
fn flip_vertical(width: u32, height: u32, pixels: Vec<[u8; 3]>) -> (flipped: Vec<[u8; 3]>)
    requires
        pixels@.len() == width * height,
    ensures
        flipped@ == flip_rows(pixels@, width as nat, height as nat),
{
    let raw: Vec<u8> = pixels.into_iter().flatten().collect();
    let buffer = image::RgbImage::from_raw(width, height, raw).unwrap();
    image::imageops::flip_vertical(&buffer).pixels().map(|p| p.0).collect()
}

/// How texture coordinates outside the image are read.
#[derive(Clone, Copy, Debug, PartialEq, Eq)]
pub enum Wrap {
    Repeat,
    ClampToEdge,
}

/// How texels are sampled.
#[derive(Clone, Copy, Debug, PartialEq, Eq)]
pub enum Filter {
    Nearest,
    Linear,
}

/// A texture of the driver and, until they are uploaded, its pixels.
#[derive(Debug, PartialEq, Eq)]
pub struct Texture {
    pub id: u32,
    pub width: u32,
    pub height: u32,
    /// The pixels that wait for their upload.
    pub data: Vec<[u8; 3]>,
}

/// All that the driver needs to fill a texture: the pixels are three
/// bytes each, red, green and blue, row by row.
#[derive(Debug, PartialEq, Eq)]
pub struct TextureUpload {
    pub id: u32,
    pub width: u32,
    pub height: u32,
    pub wrap_s: Wrap,
    pub wrap_t: Wrap,
    pub min_filter: Filter,
    pub mag_filter: Filter,
    pub mipmaps: bool,
    pub pixels: Vec<[u8; 3]>,
}

impl Texture {
    /// A texture holds one pixel for each position, or none once they
    /// are uploaded.
    pub open spec fn well_formed(&self) -> bool {
        self.data@.len() == 0 || self.data@.len() == self.width * self.height
    }

    /// The texture of an image in memory, its rows reversed where asked.
    pub fn from_decoded(id: u32, image: DecodedImage, flip_vertically: bool) -> (texture: Texture)
        requires
            image.well_formed(),
        ensures
            texture.id == id,
            texture.width == image.width,
            texture.height == image.height,
            texture.data@ == oriented(
                image.pixels@,
                image.width as nat,
                image.height as nat,
                flip_vertically,
            ),
            texture.well_formed(),
            texture.data@.len() == texture.width * texture.height,
    {
        let data = if flip_vertically {
            flip_vertical(image.width, image.height, image.pixels)
        } else {
            image.pixels
        };
        Texture { id, width: image.width, height: image.height, data }
    }

    /// Hands the pixels over for upload and keeps none: repeated in both
    /// directions, sampled linearly, with mipmaps. There is nothing to
    /// hand over where the pixels are gone already.
    pub fn load(&mut self) -> (upload: Option<TextureUpload>)
        ensures
            final(self).id == old(self).id,
            final(self).width == old(self).width,
            final(self).height == old(self).height,
            final(self).data@.len() == 0,
            final(self).well_formed(),
            upload is Some <==> old(self).data@.len() > 0,
            upload matches Some(u) ==> {
                &&& u.id == old(self).id
                &&& u.width == old(self).width
                &&& u.height == old(self).height
                &&& u.wrap_s == Wrap::Repeat
                &&& u.wrap_t == Wrap::Repeat
                &&& u.min_filter == Filter::Linear
                &&& u.mag_filter == Filter::Linear
                &&& u.mipmaps
                &&& u.pixels@ == old(self).data@
            },
    {
        if self.data.len() == 0 {
            return None;
        }
        let mut pixels: Vec<[u8; 3]> = Vec::new();
        core::mem::swap(&mut self.data, &mut pixels);
        Some(
            TextureUpload {
                id: self.id,
                width: self.width,
                height: self.height,
                wrap_s: Wrap::Repeat,
                wrap_t: Wrap::Repeat,
                min_filter: Filter::Linear,
                mag_filter: Filter::Linear,
                mipmaps: true,
                pixels,
            },
        )
    }
}

} // verus!
