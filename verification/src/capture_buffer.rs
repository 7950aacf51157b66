//! Captured screen images as raw RGBA rows, and cropping of a rectangle out of them.
use vstd::prelude::*;

use crate::constants::OCR_RAW_IMAGE_CREATION_FAILED;

verus! {

/// A captured image: `width` × `height` pixels, four bytes (R, G, B, A) per pixel, row by
/// row. The display scale factor at capture time is kept as the bit pattern of an IEEE-754
/// double (`f64::to_bits`); it is carried along unchanged.
#[derive(Debug, Clone)]
pub struct CaptureBuffer {
    pub scale_factor_bits: u64,
    pub width: u32,
    pub height: u32,
    pub raw_data: Vec<u8>,
}

/// Why a crop was refused.
#[derive(Debug, Clone, Copy, PartialEq, Eq)]
pub enum CropError {
    /// A requested crop dimension is zero.
    ZeroDimensions,
    /// The pixel data is too short for the requested rows.
    ExceedsBounds,
}

impl CropError {
    /// The human-readable message of the error.
    pub fn message(&self) -> (m: &'static str)
        ensures
            m@ == crop_error_text(*self)@,
    {
        match self {
            CropError::ZeroDimensions => "Crop dimensions must be greater than zero",
            CropError::ExceedsBounds => "Crop region exceeds image bounds",
        }
    }
}

/// The message of each crop error.
pub open spec fn crop_error_text(e: CropError) -> &'static str {
    match e {
        CropError::ZeroDimensions => "Crop dimensions must be greater than zero",
        CropError::ExceedsBounds => "Crop region exceeds image bounds",
    }
}

/// The smaller of two integers.
pub open spec fn min_of(a: int, b: int) -> int {
    if a <= b {
        a
    } else {
        b
    }
}

/// A requested origin coordinate moved inside an extent of `size` pixels (0 when empty).
pub open spec fn clamp_origin(requested: int, size: int) -> int {
    if size == 0 {
        0
    } else {
        min_of(requested, size - 1)
    }
}

/// A requested extent shortened so that it ends at the image edge at the latest.
pub open spec fn clamp_extent(requested: int, size: int, origin: int) -> int {
    min_of(requested, size - origin)
}

/// The byte count of a `w` × `h` RGBA image fits in a `u32`.
pub open spec fn rgba_size_fits(w: int, h: int) -> bool {
    w * h * 4 <= u32::MAX
}

/// `len` bytes hold a whole `w` × `h` RGBA image.
pub open spec fn raw_image_fills(w: int, h: int, len: int) -> bool {
    w * h * 4 <= len
}

impl CaptureBuffer {
    /// Checks, before the image is read for text, that the raw data holds the whole RGBA
    /// image; otherwise the message that the image could not be made from it.
    pub fn check_raw_image(&self) -> (r: Result<(), String>)
        ensures
            match r {
                Ok(()) => raw_image_fills(self.width as int, self.height as int, self.raw_data@.len() as int),
                Err(m) => !raw_image_fills(self.width as int, self.height as int, self.raw_data@.len() as int)
                    && m@ == OCR_RAW_IMAGE_CREATION_FAILED@,
            },
    {
        let w = self.width as u128;
        let h = self.height as u128;
        assert(w * h <= 0xffff_ffff_0000_0001) by (nonlinear_arith)
            requires
                w <= 0xffff_ffff,
                h <= 0xffff_ffff,
        ;
        let needed: u128 = w * h * 4;
        if needed <= self.raw_data.len() as u128 {
            Ok(())
        } else {
            Err(String::from_str(OCR_RAW_IMAGE_CREATION_FAILED))
        }
    }

    /// A buffer holding the given pixel data as it is.
    pub fn build_from_raw_data(
        scale_factor_bits: u64,
        width_pixels: u32,
        height_pixels: u32,
        raw_rgba_data: Vec<u8>,
    ) -> (buffer: Self)
        ensures
            buffer.scale_factor_bits == scale_factor_bits,
            buffer.width == width_pixels,
            buffer.height == height_pixels,
            buffer.raw_data@ == raw_rgba_data@,
    {
        Self {
            scale_factor_bits,
            width: width_pixels,
            height: height_pixels,
            raw_data: raw_rgba_data,
        }
    }

    /// The pixel data holds exactly `width` × `height` pixels.
    pub open spec fn is_complete(&self) -> bool {
        self.raw_data@.len() == self.width * self.height * 4
    }

    /// The column at which a crop requested at `x` starts.
    pub open spec fn crop_x(&self, x: u32) -> int {
        clamp_origin(x as int, self.width as int)
    }

    /// The row at which a crop requested at `y` starts.
    pub open spec fn crop_y(&self, y: u32) -> int {
        clamp_origin(y as int, self.height as int)
    }

    /// The width of a crop requested at `x` with width `w`.
    pub open spec fn crop_w(&self, x: u32, w: u32) -> int {
        clamp_extent(w as int, self.width as int, self.crop_x(x))
    }

    /// The height of a crop requested at `y` with height `h`.
    pub open spec fn crop_h(&self, y: u32, h: u32) -> int {
        clamp_extent(h as int, self.height as int, self.crop_y(y))
    }

    /// The index in the source data of byte `k` of row `r` of the crop.
    pub open spec fn crop_source_index(&self, x: u32, y: u32, r: int, k: int) -> int {
        (self.crop_y(y) + r) * self.width * 4 + self.crop_x(x) * 4 + k
    }

    /// The pixel data is too short to hold the last row of the crop.
    pub open spec fn crop_exceeds_data(&self, x: u32, y: u32, w: u32, h: u32) -> bool {
        self.crop_h(y, h) > 0 && self.crop_source_index(x, y, self.crop_h(y, h) - 1, self.crop_w(x, w) * 4)
            > self.raw_data@.len()
    }

    /// `b` is the rectangle at (`x`, `y`) of `w` × `h` pixels cut out of this image, after the
    /// origin is moved inside the image and the size shortened to its edges.
    pub open spec fn is_crop_of(&self, b: CaptureBuffer, x: u32, y: u32, w: u32, h: u32) -> bool {
        &&& b.scale_factor_bits == self.scale_factor_bits
        &&& b.width == self.crop_w(x, w)
        &&& b.height == self.crop_h(y, h)
        &&& b.is_complete()
        &&& forall|row: int, k: int|
            0 <= row < b.height && 0 <= k < b.width * 4 ==> #[trigger] b.raw_data@[row * b.width * 4
                + k] == self.raw_data@[self.crop_source_index(x, y, row, k)]
    }

    /// Cuts out the rectangle at (`x`, `y`) of `crop_width` × `crop_height` pixels. The origin is
    /// moved inside the image and the size shortened to the image edges; a zero requested size
    /// and pixel data too short for the rectangle are errors.
    pub fn crop_region(&self, x: u32, y: u32, crop_width: u32, crop_height: u32) -> (r: Result<
        Self,
        CropError,
    >)
        requires
            rgba_size_fits(self.width as int, self.height as int),
        ensures
            crop_width == 0 || crop_height == 0 ==> r == Err::<Self, CropError>(
                CropError::ZeroDimensions,
            ),
            crop_width != 0 && crop_height != 0 && self.crop_exceeds_data(
                x,
                y,
                crop_width,
                crop_height,
            ) ==> r == Err::<Self, CropError>(CropError::ExceedsBounds),
            crop_width != 0 && crop_height != 0 && !self.crop_exceeds_data(
                x,
                y,
                crop_width,
                crop_height,
            ) ==> r is Ok,
            r matches Ok(b) ==> self.is_crop_of(b, x, y, crop_width, crop_height),
    {
        if crop_width == 0 || crop_height == 0 {
            return Err(CropError::ZeroDimensions);
        }
        let max_x = if self.width == 0 {
            0
        } else {
            self.width - 1
        };
        let max_y = if self.height == 0 {
            0
        } else {
            self.height - 1
        };
        let cx = if x < max_x {
            x
        } else {
            max_x
        };
        let cy = if y < max_y {
            y
        } else {
            max_y
        };
        let cw = if crop_width < self.width - cx {
            crop_width
        } else {
            self.width - cx
        };
        let ch = if crop_height < self.height - cy {
            crop_height
        } else {
            self.height - cy
        };
        let ghost w = self.width as int;
        let ghost h = self.height as int;
        assert(cx == self.crop_x(x) && cy == self.crop_y(y));
        assert(cw == self.crop_w(x, crop_width) && ch == self.crop_h(y, crop_height));
        proof {
            assert(cw * ch * 4 <= w * h * 4) by (nonlinear_arith)
                requires
                    cw <= w,
                    ch <= h,
                    0 <= cw,
                    0 <= ch,
            ;
        }
        let total_bytes = cw * ch * 4;
        let mut cropped_data: Vec<u8> = Vec::with_capacity(total_bytes as usize);
        let mut row: u32 = cy;
        assert(cropped_data@.len() == (row - cy) * (cw * 4)) by (nonlinear_arith)
            requires
                cropped_data@.len() == 0,
                row == cy,
        ;
        while row < cy + ch
            invariant
                cy <= row <= cy + ch,
                cy + ch <= h,
                cx + cw <= w,
                w == self.width,
                h == self.height,
                crop_width != 0 && crop_height != 0,
                cx == self.crop_x(x),
                cy == self.crop_y(y),
                cw == self.crop_w(x, crop_width),
                ch == self.crop_h(y, crop_height),
                rgba_size_fits(w, h),
                cropped_data@.len() == (row - cy) * (cw * 4),
                row > cy ==> (row - 1) * w * 4 + cx * 4 + cw * 4 <= self.raw_data@.len(),
                forall|rr: int, k: int|
                    0 <= rr < row - cy && 0 <= k < cw * 4 ==> #[trigger] cropped_data@[rr * cw * 4
                        + k] == self.raw_data@[(cy + rr) * w * 4 + cx * 4 + k],
            decreases cy + ch - row,
        {
            proof {
                assert(row * w * 4 + cx * 4 + cw * 4 <= (row + 1) * w * 4) by (nonlinear_arith)
                    requires
                        cx + cw <= w,
                ;
                assert((row + 1) * w * 4 <= h * w * 4) by (nonlinear_arith)
                    requires
                        row + 1 <= h,
                        0 <= w,
                ;
                assert(h * w * 4 == w * h * 4) by (nonlinear_arith);
            }
            let row_bytes = cw * 4;
            let row_start = (row * self.width * 4 + cx * 4) as usize;
            let row_end = row_start + row_bytes as usize;
            if row_end > self.raw_data.len() {
                proof {
                    assert((cy + ch - 1) * w * 4 + cx * 4 + cw * 4 >= row * w * 4 + cx * 4 + cw
                        * 4) by (nonlinear_arith)
                        requires
                            row <= cy + ch - 1,
                            0 <= w,
                    ;
                    assert(self.crop_source_index(x, y, ch - 1, cw * 4) == (cy + ch - 1) * w * 4
                        + cx * 4 + cw * 4);
                    assert(self.crop_exceeds_data(x, y, crop_width, crop_height));
                }
                return Err(CropError::ExceedsBounds);
            }
            let mut k: usize = 0;
            let ghost before = cropped_data@;
            while k < row_bytes as usize
                invariant
                    k <= row_bytes,
                    row_bytes == cw * 4,
                    row_end == row_start + row_bytes,
                    row_end <= self.raw_data@.len(),
                    row_start == row * w * 4 + cx * 4,
                    cropped_data@ == before + self.raw_data@.subrange(
                        row_start as int,
                        row_start + k,
                    ),
                decreases row_bytes - k,
            {
                cropped_data.push(self.raw_data[row_start + k]);
                proof {
                    assert(self.raw_data@.subrange(row_start as int, row_start + k + 1)
                        =~= self.raw_data@.subrange(row_start as int, row_start + k).push(
                        self.raw_data@[row_start + k],
                    ));
                }
                k = k + 1;
            }
            proof {
                let rr_new = row - cy;
                assert(before.len() == rr_new * row_bytes);
                assert forall|rr: int, kk: int|
                    0 <= rr < row + 1 - cy && 0 <= kk < cw * 4 implies #[trigger] cropped_data@[rr
                        * cw * 4 + kk] == self.raw_data@[(cy + rr) * w * 4 + cx * 4 + kk] by {
                    assert(rr * cw * 4 == rr * row_bytes) by (nonlinear_arith)
                        requires
                            row_bytes == cw * 4,
                    ;
                    if rr < rr_new {
                        assert(rr * row_bytes + kk < rr_new * row_bytes) by (nonlinear_arith)
                            requires
                                rr < rr_new,
                                kk < row_bytes,
                                0 <= kk,
                        ;
                    } else {
                        assert(rr == rr_new);
                        assert(rr * row_bytes + kk == before.len() + kk);
                    }
                }
                assert(cropped_data@.len() == (row + 1 - cy) * row_bytes) by (nonlinear_arith)
                    requires
                        cropped_data@.len() == (row - cy) * row_bytes + row_bytes,
                ;
            }
            row = row + 1;
        }
        proof {
            assert(ch * (cw * 4) == cw * ch * 4) by (nonlinear_arith);
            if ch > 0 {
                assert(self.crop_source_index(x, y, ch - 1, cw * 4) == (cy + ch - 1) * w * 4
                    + cx * 4 + cw * 4);
                assert(!self.crop_exceeds_data(x, y, crop_width, crop_height));
            }
            assert forall|rr: int, kk: int|
                0 <= rr < ch && 0 <= kk < cw * 4 implies #[trigger] cropped_data@[rr * cw * 4
                    + kk] == self.raw_data@[self.crop_source_index(x, y, rr, kk)] by {
                assert(self.crop_source_index(x, y, rr, kk) == (cy + rr) * w * 4 + cx * 4 + kk);
            }
        }
        Ok(Self::build_from_raw_data(self.scale_factor_bits, cw, ch, cropped_data))
    }
}

} // verus!
