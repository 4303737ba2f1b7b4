use crate::color::Color;
use vstd::prelude::*;

verus! {

/// A rectangle of pixels, stored row by row from the top.
pub struct Canvas {
    width: usize,
    height: usize,
    pixels: Vec<Color>,
}

/// The place of pixel `(x, y)` in a row-major buffer of the given width.
pub open spec fn offset(width: int, x: int, y: int) -> int {
    width * y + x
}

/// Within one width, two places have the same offset only if they are the
/// same place.
pub proof fn lemma_offset_injective(width: int, x1: int, y1: int, x2: int, y2: int)
    requires
        0 <= x1 < width,
        0 <= x2 < width,
        0 <= y1,
        0 <= y2,
        offset(width, x1, y1) == offset(width, x2, y2),
    ensures
        x1 == x2,
        y1 == y2,
{
    if y1 < y2 {
        assert(width * y2 >= width * (y1 + 1)) by (nonlinear_arith)
            requires
                y2 >= y1 + 1,
                width > 0,
        ;
        assert(width * (y1 + 1) == width * y1 + width) by (nonlinear_arith);
    } else if y2 < y1 {
        assert(width * y1 >= width * (y2 + 1)) by (nonlinear_arith)
            requires
                y1 >= y2 + 1,
                width > 0,
        ;
        assert(width * (y2 + 1) == width * y2 + width) by (nonlinear_arith);
    }
}

/// Every place inside a canvas has its offset inside the buffer.
pub proof fn lemma_offset_in_bounds(width: int, height: int, x: int, y: int)
    requires
        0 <= x < width,
        0 <= y < height,
    ensures
        0 <= offset(width, x, y) < width * height,
{
    assert(width * y >= 0) by (nonlinear_arith)
        requires
            width > 0,
            y >= 0,
    ;
    assert(width * height >= width * (y + 1)) by (nonlinear_arith)
        requires
            height >= y + 1,
            width > 0,
    ;
    assert(width * (y + 1) == width * y + width) by (nonlinear_arith);
}

impl Canvas {
    #[verifier::type_invariant]
    spec fn well_formed(self) -> bool {
        self.pixels.len() == self.width * self.height
    }

    /// The number of columns.
    pub closed spec fn columns(self) -> int {
        self.width as int
    }

    /// The number of rows.
    pub closed spec fn rows(self) -> int {
        self.height as int
    }

    /// The pixels, row by row: pixel `(x, y)` stands at `offset(columns, x, y)`.
    pub closed spec fn buffer(self) -> Seq<Color> {
        self.pixels@
    }

    /// The colour at column `x` of row `y`.
    pub open spec fn pixel(self, x: int, y: int) -> Color {
        self.buffer()[offset(self.columns(), x, y)]
    }

    /// Whether `(x, y)` names a pixel of the canvas.
    pub open spec fn contains(self, x: int, y: int) -> bool {
        0 <= x < self.columns() && 0 <= y < self.rows()
    }

    /// A canvas of the given size with every pixel black.
    pub fn new(width: usize, height: usize) -> (canvas: Canvas)
        requires
            width * height <= usize::MAX,
        ensures
            canvas.columns() == width,
            canvas.rows() == height,
            canvas.buffer().len() == width * height,
            forall|i: int| 0 <= i < width * height ==> canvas.buffer()[i].is_black(),
    {
        let count: usize = width * height;
        let black = Color::black();
        let mut pixels: Vec<Color> = Vec::new();
        let mut i: usize = 0;
        while i < count
            invariant
                i <= count,
                pixels.len() == i,
                black.is_black(),
                forall|j: int| 0 <= j < i ==> pixels[j] == black,
            decreases count - i,
        {
            pixels.push(black);
            i += 1;
        }
        Canvas { width, height, pixels }
    }

    pub fn width(&self) -> (width: usize)
        ensures
            width == self.columns(),
    {
        self.width
    }

    pub fn height(&self) -> (height: usize)
        ensures
            height == self.rows(),
    {
        self.height
    }

    /// The pixels row by row, as colours.
    pub fn pixels(&self) -> (pixels: &Vec<Color>)
        ensures
            pixels@ == self.buffer(),
            pixels@.len() == self.columns() * self.rows(),
    {
        proof {
            use_type_invariant(self);
        }
        &self.pixels
    }

    /// The place of pixel `(x, y)` in the buffer.
    pub fn index(&self, x: usize, y: usize) -> (i: usize)
        requires
            self.contains(x as int, y as int),
        ensures
            i == offset(self.columns(), x as int, y as int),
            i < self.buffer().len(),
    {
        proof {
            use_type_invariant(self);
            lemma_offset_in_bounds(self.width as int, self.height as int, x as int, y as int);
        }
        self.width * y + x
    }

    /// Paints one pixel and leaves every other as it was.
    pub fn set_pixel(&mut self, x: usize, y: usize, color: Color)
        requires
            old(self).contains(x as int, y as int),
        ensures
            final(self).columns() == old(self).columns(),
            final(self).rows() == old(self).rows(),
            final(self).buffer() == old(self).buffer().update(
                offset(old(self).columns(), x as int, y as int),
                color,
            ),
            final(self).pixel(x as int, y as int) == color,
            forall|u: int, v: int|
                old(self).contains(u, v) && (u != x || v != y) ==> final(self).pixel(u, v) == old(
                    self,
                ).pixel(u, v),
    {
        let i = self.index(x, y);
        proof {
            use_type_invariant(&*self);
            assert forall|u: int, v: int| self.contains(u, v) && (u != x || v != y) implies offset(
                self.columns(),
                u,
                v,
            ) != i && 0 <= offset(self.columns(), u, v) < self.buffer().len() by {
                lemma_offset_in_bounds(self.width as int, self.height as int, u, v);
                if offset(self.columns(), u, v) == i {
                    lemma_offset_injective(self.width as int, u, v, x as int, y as int);
                }
            }
        }
        self.pixels[i] = color;
    }

    pub fn get_pixel(&self, x: usize, y: usize) -> (color: &Color)
        requires
            self.contains(x as int, y as int),
        ensures
            *color == self.pixel(x as int, y as int),
    {
        let i = self.index(x, y);
        &self.pixels[i]
    }
}

/// Whether `bytes` lays out `levels` as 8-bit RGBA: four bytes for each pixel,
/// in the pixels' order: red, green, blue, then an alpha of 255.
pub open spec fn is_rgba_of(bytes: Seq<u8>, levels: Seq<[u8; 3]>) -> bool {
    &&& bytes.len() == 4 * levels.len()
    &&& forall|i: int|
        0 <= i < levels.len() ==> {
            &&& bytes[4 * i] == (#[trigger] levels[i])@[0]
            &&& bytes[4 * i + 1] == levels[i]@[1]
            &&& bytes[4 * i + 2] == levels[i]@[2]
            &&& bytes[4 * i + 3] == 255
        }
}

/// The 8-bit RGBA image of a row of pixels whose channels have already been
/// brought to the levels 0 to 255. Every pixel comes out opaque.
pub fn to_rgba(levels: &[[u8; 3]]) -> (bytes: Vec<u8>)
    ensures
        is_rgba_of(bytes@, levels@),
{
    let mut bytes: Vec<u8> = Vec::new();
    let mut i: usize = 0;
    while i < levels.len()
        invariant
            i <= levels.len(),
            is_rgba_of(bytes@, levels@.take(i as int)),
        decreases levels.len() - i,
    {
        let ghost before = bytes@;
        let level = levels[i];
        bytes.push(level[0]);
        bytes.push(level[1]);
        bytes.push(level[2]);
        bytes.push(255);
        proof {
            let done = levels@.take(i as int);
            let next = levels@.take(i + 1);
            assert(next.len() == i + 1);
            assert(next[i as int] == levels@[i as int]);
            assert forall|j: int| 0 <= j < next.len() implies {
                &&& bytes@[4 * j] == (#[trigger] next[j])@[0]
                &&& bytes@[4 * j + 1] == next[j]@[1]
                &&& bytes@[4 * j + 2] == next[j]@[2]
                &&& bytes@[4 * j + 3] == 255
            } by {
                if j < i {
                    assert(next[j] == done[j]);
                    assert(bytes@[4 * j] == before[4 * j]);
                    assert(bytes@[4 * j + 1] == before[4 * j + 1]);
                    assert(bytes@[4 * j + 2] == before[4 * j + 2]);
                    assert(bytes@[4 * j + 3] == before[4 * j + 3]);
                }
            }
        }
        i += 1;
    }
    assert(levels@.take(i as int) =~= levels@);
    bytes
}

#[verifier::external_type_specification]
#[verifier::external_body]
pub struct ExEncodingError(png::EncodingError);

/// The PNG stream that the `png` crate's encoder writes for an 8-bit RGBA
/// image of the given size, with the encoder's settings otherwise untouched.
pub uninterp spec fn png_stream(rgba: Seq<u8>, width: u32, height: u32) -> Seq<u8>;

/// Why an image could not be encoded.
#[derive(Clone, Copy, Debug, PartialEq, Eq, Structural)]
pub enum EncodeError {
    /// The encoder could not write.
    Io,
    /// The image cannot be a PNG: a width or a height of zero.
    Format,
    /// The buffer does not have four bytes for each pixel.
    Parameter,
    /// The encoder's limits are exceeded.
    LimitsExceeded,
}

/// Runs `png::Encoder` into memory: `Encoder::new` with the given size,
/// `set_color(Rgba)`, `set_depth(Eight)`, `write_header`, then
/// `Writer::write_image_data` and `Writer::finish`.
///
/// Claimed of it: `write_header` refuses a width or a height of zero,
/// `write_image_data` refuses a buffer whose length is not four bytes for
/// each pixel, and nothing else fails, since writing into memory cannot. What
/// is written on success depends on the buffer and the size alone. The size
/// must be one whose byte count fits the machine: the encoder multiplies it
/// out before it compares.
#[verifier::external_body]
fn encode_rgba(rgba: &Vec<u8>, width: u32, height: u32) -> (r: Result<Vec<u8>, png::EncodingError>)
    requires
        4 * width * height <= usize::MAX,
    ensures
        r is Err <==> width == 0 || height == 0 || rgba@.len() != 4 * width * height,
        r matches Ok(stream) ==> stream@ == png_stream(rgba@, width, height),
{
    let mut stream = Vec::new();
    let mut encoder = png::Encoder::new(&mut stream, width, height);
    encoder.set_color(png::ColorType::Rgba);
    encoder.set_depth(png::BitDepth::Eight);
    let mut writer = encoder.write_header()?;
    writer.write_image_data(rgba)?;
    writer.finish()?;
    Ok(stream)
}

/// Tells the variants of `png::EncodingError` apart. Nothing is claimed of
/// which one an input gives.
#[verifier::external_body]
fn failure_of(error: &png::EncodingError) -> EncodeError {
    match error {
        png::EncodingError::IoError(_) => EncodeError::Io,
        png::EncodingError::Format(_) => EncodeError::Format,
        png::EncodingError::Parameter(_) => EncodeError::Parameter,
        png::EncodingError::LimitsExceeded => EncodeError::LimitsExceeded,
    }
}

/// Whether a buffer of 8-bit RGBA cannot be an image of the given size: the
/// size is empty, or the buffer does not hold four bytes for each pixel.
pub open spec fn unfit_for_png(rgba: Seq<u8>, width: u32, height: u32) -> bool {
    width == 0 || height == 0 || rgba.len() != 4 * width * height
}

/// The PNG stream of an 8-bit RGBA buffer that holds `height` rows of `width`
/// pixels.
///
/// A buffer that is unfit for the size is refused, and no other is. A size
/// whose byte count does not fit the machine is refused as `Parameter` before
/// the encoder is asked: no buffer can have that length. The stream of a fit
/// buffer is the one that `png_stream` names.
pub fn encode_png(rgba: &Vec<u8>, width: u32, height: u32) -> (r: Result<Vec<u8>, EncodeError>)
    ensures
        r is Err <==> unfit_for_png(rgba@, width, height),
        4 * width * height > usize::MAX ==> r == Err::<Vec<u8>, EncodeError>(EncodeError::Parameter),
        r matches Ok(stream) ==> stream@ == png_stream(rgba@, width, height),
{
    let row: u128 = 4u128 * (width as u128);
    assert(row * (height as u128) <= 0x4_0000_0000 * 0x1_0000_0000) by (nonlinear_arith)
        requires
            row <= 0x4_0000_0000,
            height <= 0x1_0000_0000,
    ;
    let needed: u128 = row * (height as u128);
    assert(needed == 4 * width * height) by (nonlinear_arith)
        requires
            needed == row * (height as u128),
            row == 4 * (width as u128),
    ;
    let held: usize = rgba.len();
    if needed > usize::MAX as u128 {
        assert(rgba@.len() == held);
        return Err(EncodeError::Parameter);
    }
    match encode_rgba(rgba, width, height) {
        Ok(stream) => Ok(stream),
        Err(error) => Err(failure_of(&error)),
    }
}

} // verus!
