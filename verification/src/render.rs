//! Render configuration and pixel-buffer layout.
//!
//! A render is described by its image size in pixels, the number of samples
//! accumulated per pixel, and the recursion depth bound of the path tracer.
//! The configuration is validated once, up front; a render then works into a
//! flat row-major byte buffer of three channels per pixel, top row first,
//! and every pixel owns a private random generator seeded from its row and
//! column alone, so the output never depends on the order in which pixels
//! are traced.

use crate::pcg32::PCG32State;
use crate::pcg32::pcg_seeded;
use vstd::prelude::*;

verus! {

/// A configuration problem reported before any pixel work begins.
#[derive(Clone, Copy, Debug, PartialEq, Eq, Structural)]
pub enum RenderConfigError {
    /// The image width is zero.
    ZeroWidth,
    /// The image height is zero.
    ZeroHeight,
    /// The number of samples per pixel is zero.
    ZeroSamples,
    /// The pixel buffer of `width * height * 3` bytes would not be
    /// addressable with 32-bit offsets.
    ImageTooLarge,
}

#[derive(Clone, Copy, Debug, PartialEq, Eq, Structural)]
pub struct Renderer {
    pub img_width: u32,
    pub img_height: u32,
    pub samples_per_pixel: u32,
    pub max_depth: u32,
}

impl Renderer {
    /// A valid configuration: both image dimensions and the sample count are
    /// positive, and the whole byte buffer is addressable with 32-bit
    /// offsets.
    pub open spec fn wf(&self) -> bool {
        &&& self.img_width > 0
        &&& self.img_height > 0
        &&& self.samples_per_pixel > 0
        &&& self.img_width * self.img_height * 3 <= u32::MAX
    }

    /// Validate a configuration.  Exactly the well-formed configurations are
    /// accepted; a zero width, zero height, zero sample count or oversized
    /// image is rejected, checked in that order.
    pub fn new(img_width: u32, img_height: u32, samples_per_pixel: u32, max_depth: u32) -> (r:
        Result<Renderer, RenderConfigError>)
        ensures
            match r {
                Ok(renderer) => {
                    &&& renderer.wf()
                    &&& renderer.img_width == img_width
                    &&& renderer.img_height == img_height
                    &&& renderer.samples_per_pixel == samples_per_pixel
                    &&& renderer.max_depth == max_depth
                },
                Err(e) => {
                    &&& e == RenderConfigError::ZeroWidth <==> img_width == 0
                    &&& e == RenderConfigError::ZeroHeight <==> img_width > 0 && img_height == 0
                    &&& e == RenderConfigError::ZeroSamples <==> img_width > 0 && img_height > 0
                        && samples_per_pixel == 0
                    &&& e == RenderConfigError::ImageTooLarge <==> img_width > 0 && img_height > 0
                        && samples_per_pixel > 0 && img_width * img_height * 3 > u32::MAX
                },
            },
            r is Err <==> !(Renderer {
                img_width,
                img_height,
                samples_per_pixel,
                max_depth,
            }).wf(),
    {
        if img_width == 0 {
            return Err(RenderConfigError::ZeroWidth);
        }
        if img_height == 0 {
            return Err(RenderConfigError::ZeroHeight);
        }
        if samples_per_pixel == 0 {
            return Err(RenderConfigError::ZeroSamples);
        }
        proof {
            assert(img_width * img_height <= 0xFFFFFFFF * 0xFFFFFFFF) by (nonlinear_arith)
                requires
                    img_width <= 0xFFFFFFFF,
                    img_height <= 0xFFFFFFFF,
            ;
        }
        let pixels: u64 = img_width as u64 * img_height as u64;
        // u32::MAX is exactly three times this bound, so comparing the pixel
        // count against it decides whether `width * height * 3` fits in u32.
        if pixels > 1431655765 {
            return Err(RenderConfigError::ImageTooLarge);
        }
        Ok(Renderer { img_width, img_height, samples_per_pixel, max_depth })
    }

    /// The length in bytes of the output buffer: three channels per pixel.
    pub fn buffer_len(&self) -> (r: u32)
        requires
            self.wf(),
        ensures
            r == self.img_width * self.img_height * 3,
    {
        self.img_width * self.img_height * 3
    }

    /// The byte offset of pixel `(i, j)` — column `i` of row `j`, row zero
    /// at the top — in the row-major buffer.  The pixel's three channels lie
    /// at `r`, `r + 1` and `r + 2`, all inside the buffer.
    pub fn pixel_offset(&self, i: u32, j: u32) -> (r: u32)
        requires
            self.wf(),
            i < self.img_width,
            j < self.img_height,
        ensures
            r == (j * self.img_width + i) * 3,
            r + 3 <= self.img_width * self.img_height * 3,
    {
        proof {
            lemma_pixel_index_in_range(
                self.img_width as int,
                self.img_height as int,
                i as int,
                j as int,
            );
        }
        (j * self.img_width + i) * 3
    }

    /// The private random generator of pixel `(i, j)`: seeded from the row
    /// and column alone, so a pixel's samples are reproducible whatever
    /// order the pixels are traced in.
    pub fn pixel_rng(&self, i: u32, j: u32) -> (rng: PCG32State)
        ensures
            rng@ == pcg_seeded((17 + j as u64) as u64, (23 + i as u64) as u64),
    {
        PCG32State::new(17 + j as u64, 23 + i as u64)
    }

    /// Store one gamma-corrected, quantised sample triple at pixel
    /// `(i, j)`: exactly the pixel's three buffer bytes change.
    pub fn write_pixel(&self, buffer: &mut Vec<u8>, i: u32, j: u32, red: u8, green: u8, blue: u8)
        requires
            self.wf(),
            i < self.img_width,
            j < self.img_height,
            old(buffer)@.len() == self.img_width * self.img_height * 3,
        ensures
            final(buffer)@ == old(buffer)@.update((j * self.img_width + i) * 3, red).update(
                (j * self.img_width + i) * 3 + 1,
                green,
            ).update((j * self.img_width + i) * 3 + 2, blue),
    {
        let offset: usize = self.pixel_offset(i, j) as usize;
        buffer[offset] = red;
        buffer[offset + 1] = green;
        buffer[offset + 2] = blue;
    }
}

/// Pixel `(i, j)` of a `width` by `height` image starts at byte
/// `(j * width + i) * 3`, and its three bytes end at or before the buffer's
/// end.
proof fn lemma_pixel_index_in_range(width: int, height: int, i: int, j: int)
    by (nonlinear_arith)
    requires
        0 <= i < width,
        0 <= j < height,
    ensures
        (j * width + i) * 3 + 3 <= width * height * 3,
{
}

/// Two distinct pixels of a `width` by `height` image own disjoint byte
/// ranges of the row-major buffer, so their samples can be stored in any
/// order — or concurrently — without touching each other.
pub proof fn lemma_distinct_pixels_disjoint(width: int, height: int, i1: int, j1: int, i2: int, j2: int)
    by (nonlinear_arith)
    requires
        0 <= i1 < width,
        0 <= j1 < height,
        0 <= i2 < width,
        0 <= j2 < height,
        i1 != i2 || j1 != j2,
    ensures
        (j1 * width + i1) * 3 + 3 <= (j2 * width + i2) * 3 || (j2 * width + i2) * 3 + 3 <= (j1
            * width + i1) * 3,
{
}

} // verus!
