//! The picture: a grid of colours, row by row from the top.

use crate::color::Color;
use crate::component::{zero, Component};
use vstd::prelude::*;

verus! {

/// The error of the `image` crate's encoders.
#[verifier::external_type_specification]
#[verifier::external_body]
pub struct ExImageError(image::ImageError);

/// The PNG stream that the `image` crate writes for the 8-bit RGBA samples
/// `data` of a picture of `width` by `height` pixels.
pub uninterp spec fn png_stream(data: Seq<u8>, width: u32, height: u32) -> Seq<u8>;

/// Encodes 8-bit RGBA samples as a PNG stream in memory.
///
/// Calls `image::png::PngEncoder::encode` on an encoder made by
/// `PngEncoder::new` over a fresh `Vec<u8>`, with `ColorType::Rgba8`. Four
/// samples for every pixel are asked for, as the encoder's size arithmetic
/// takes for granted. The encoder refuses a picture without columns or
/// without rows before it writes anything. For any other picture of 8-bit
/// RGBA samples it has no further refusal, and writing into a `Vec` does not
/// fail: so the contract claims success exactly for a picture with columns
/// and rows, and that the stream handed back is the one the encoder writes
/// for these samples and this size.
#[verifier::external_body]
fn encode_rgba8(data: &Vec<u8>, width: u32, height: u32) -> (r: Result<Vec<u8>, image::ImageError>)
    requires
        data@.len() == 4 * width * height,
    ensures
        width > 0 && height > 0 ==> r is Ok,
        width == 0 || height == 0 ==> r is Err,
        r matches Ok(stream) ==> stream@ == png_stream(data@, width, height),
{
    let mut stream = Vec::new();
    let encoder = image::png::PngEncoder::new(&mut stream);
    match encoder.encode(data.as_slice(), width, height, image::ColorType::Rgba8) {
        Ok(()) => Ok(stream),
        Err(error) => Err(error),
    }
}

/// The message of an encoder's error.
///
/// Formats the `image::ImageError` by its `Display` impl.
#[verifier::external_body]
fn describe(error: &image::ImageError) -> String {
    format!("{}", error)
}

/// Why a picture could not be encoded.
#[derive(Debug)]
pub enum PngError {
    /// The picture has more columns or rows than the format can count, or
    /// more samples than the machine can address.
    TooLarge,
    /// The encoder refused the picture, which has no columns or no rows,
    /// with its message.
    Encoder(String),
}

/// The byte of a channel: the channel times 255, cut down to a whole number
/// within `0..=255`.
pub open spec fn channel_byte<S: Component>(channel: S) -> u8 {
    channel.product(S::count_value(255)).truncated()
}

/// The 8-bit samples of `pixels`: red, green, blue and alpha of each pixel in
/// turn.
pub open spec fn samples<S: Component>(pixels: Seq<Color<S>>) -> Seq<u8> {
    Seq::new(
        4 * pixels.len(),
        |i: int|
            {
                let pixel = pixels[i / 4];
                if i % 4 == 0 {
                    channel_byte(pixel.red)
                } else if i % 4 == 1 {
                    channel_byte(pixel.green)
                } else if i % 4 == 2 {
                    channel_byte(pixel.blue)
                } else {
                    channel_byte(pixel.alpha)
                }
            },
    )
}

fn to_byte<S: Component>(channel: S) -> (r: u8)
    ensures
        r == channel_byte(channel),
{
    channel.mul(S::from_count(255)).to_byte()
}

/// A picture of `width` by `height` pixels, held row by row with the top row
/// first: the pixel in column `x` of row `y` stands at `x + y * width`.
pub struct Image<S: Component> {
    pixels: Vec<Color<S>>,
    width: usize,
    height: usize,
}

impl<S: Component> View for Image<S> {
    type V = Seq<Color<S>>;

    /// The pixels, row by row.
    closed spec fn view(&self) -> Seq<Color<S>> {
        self.pixels@
    }
}

impl<S: Component> Image<S> {
    /// The number of columns.
    pub closed spec fn columns(&self) -> usize {
        self.width
    }

    /// The number of rows.
    pub closed spec fn rows(&self) -> usize {
        self.height
    }

    /// There is one pixel for each place of the grid.
    pub open spec fn well_formed(&self) -> bool {
        self@.len() == self.columns() * self.rows()
    }

    /// The picture of `width` by `height` pixels that are all clear.
    pub fn new(width: usize, height: usize) -> (r: Self)
        requires
            width * height <= usize::MAX,
        ensures
            r.well_formed(),
            r.columns() == width,
            r.rows() == height,
            forall|i: int| 0 <= i < r@.len() ==> r@[i] == Color::<S>::gray(zero(), zero()),
    {
        let count = width * height;
        let mut pixels: Vec<Color<S>> = Vec::new();
        let mut i: usize = 0;
        while i < count
            invariant
                i <= count,
                pixels@.len() == i,
                forall|j: int| 0 <= j < i ==> pixels@[j] == Color::<S>::gray(zero(), zero()),
            decreases count - i,
        {
            pixels.push(Color::clear());
            i = i + 1;
        }
        Image { pixels, width, height }
    }

    pub fn width(&self) -> (r: usize)
        ensures
            r == self.columns(),
    {
        self.width
    }

    pub fn height(&self) -> (r: usize)
        ensures
            r == self.rows(),
    {
        self.height
    }

    /// The place of the pixel in column `x` of row `y`.
    pub fn index(&self, x: usize, y: usize) -> (r: usize)
        requires
            x + y * self.columns() <= usize::MAX,
        ensures
            r == x + y * self.columns(),
    {
        assert(y * self.width <= usize::MAX) by (nonlinear_arith)
            requires
                x + y * self.width <= usize::MAX,
        ;
        x + y * self.width
    }

    /// Whether the picture is beyond what a PNG stream of 8-bit samples can
    /// hold: more columns or rows than 32 bits can count, or more samples
    /// than the machine can address.
    pub open spec fn too_large(&self) -> bool {
        self.columns() > u32::MAX || self.rows() > u32::MAX || 4 * self@.len() > usize::MAX
    }

    /// The pixels, row by row.
    pub fn pixels(&self) -> (r: &[Color<S>])
        ensures
            r@ == self@,
    {
        self.pixels.as_slice()
    }

    /// The pixels, row by row, to be written to. The picture is what the
    /// slice holds when the borrow ends; a slice keeps its length, and the
    /// picture with it its shape.
    pub fn pixels_mut(&mut self) -> (r: &mut [Color<S>])
        requires
            old(self).well_formed(),
        ensures
            r@ == old(self)@,
            final(self)@ == final(r)@,
            final(self).columns() == old(self).columns(),
            final(self).rows() == old(self).rows(),
    {
        self.pixels.as_mut_slice()
    }

    /// Row `y`, to be written to. The other rows stay as they are.
    pub fn row_mut(&mut self, y: usize) -> (r: &mut [Color<S>])
        requires
            old(self).well_formed(),
            y < old(self).rows(),
        ensures
            r@ == old(self)@.subrange(y * old(self).columns(), (y + 1) * old(self).columns()),
            final(self)@ == old(self)@.subrange(0, y * old(self).columns()) + final(r)@ + old(
                self,
            )@.subrange((y + 1) * old(self).columns(), old(self)@.len() as int),
            final(self).columns() == old(self).columns(),
            final(self).rows() == old(self).rows(),
    {
        let total = self.pixels.len();
        assert(total == self.width * self.height);
        assert(0 <= y * self.width && y * self.width + self.width <= self.width * self.height)
            by (nonlinear_arith)
            requires
                y < self.height,
        ;
        assert((y + 1) * self.width == y * self.width + self.width) by (nonlinear_arith);
        let start = self.index(0, y);
        let (head, rest) = self.pixels.as_mut_slice().split_at_mut(start);
        let (row, tail) = rest.split_at_mut(self.width);
        row
    }

    /// The 8-bit samples of the picture: red, green, blue and alpha of each
    /// pixel, row by row.
    pub fn to_rgba8(&self) -> (r: Vec<u8>)
        requires
            4 * self@.len() <= usize::MAX,
        ensures
            r@ == samples(self@),
    {
        let mut data: Vec<u8> = Vec::new();
        let mut i: usize = 0;
        while i < self.pixels.len()
            invariant
                i <= self.pixels@.len(),
                data@.len() == 4 * i,
                data@ == samples(self.pixels@.take(i as int)),
            decreases self.pixels@.len() - i,
        {
            let pixel = self.pixels[i];
            let ghost before = data@;
            data.push(to_byte(pixel.red));
            data.push(to_byte(pixel.green));
            data.push(to_byte(pixel.blue));
            data.push(to_byte(pixel.alpha));
            proof {
                let shorter = self.pixels@.take(i as int);
                let longer = self.pixels@.take(i + 1);
                assert forall|k: int| 0 <= k < data@.len() implies data@[k] == samples(longer)[k] by {
                    if k < 4 * i {
                        assert(data@[k] == before[k]);
                        assert(shorter[k / 4] == longer[k / 4]);
                    } else {
                        assert(k / 4 == i);
                    }
                }
                assert(data@ =~= samples(longer));
            }
            i = i + 1;
        }
        proof {
            assert(self.pixels@.take(i as int) =~= self.pixels@);
        }
        data
    }

    /// Writes the picture to the end of `target` as a PNG stream of 8-bit
    /// RGBA samples.
    ///
    /// A picture with more columns or rows than 32 bits can count, or with
    /// more samples than the machine can address, is refused as too large.
    /// Any other picture is handed to the encoder, which encodes every
    /// picture that has columns and rows and refuses one that has none, with
    /// its message. Where the picture is refused, `target` is left as it was.
    pub fn write_png(&self, target: &mut Vec<u8>) -> (r: Result<(), PngError>)
        requires
            self.well_formed(),
        ensures
            r is Ok <==> !self.too_large() && self.columns() > 0 && self.rows() > 0,
            r matches Err(PngError::TooLarge) <==> self.too_large(),
            r matches Err(PngError::Encoder(_)) <==> !self.too_large() && (self.columns() == 0
                || self.rows() == 0),
            r is Ok ==> final(target)@ == old(target)@ + png_stream(
                samples(self@),
                self.columns() as u32,
                self.rows() as u32,
            ),
            r is Err ==> final(target)@ == old(target)@,
    {
        if self.width > 0xffff_ffff || self.height > 0xffff_ffff || self.pixels.len() > usize::MAX
            / 4 {
            return Err(PngError::TooLarge);
        }
        let data = self.to_rgba8();
        assert(4 * (self.width * self.height) == 4 * self.width * self.height)
            by (nonlinear_arith);
        match encode_rgba8(&data, self.width as u32, self.height as u32) {
            Ok(mut stream) => {
                target.append(&mut stream);
                Ok(())
            },
            Err(error) => Err(PngError::Encoder(describe(&error))),
        }
    }
}

} // verus!
