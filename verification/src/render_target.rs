//! Offscreen render target: a fixed-size color and depth image pair,
//! recreated wholesale — never resized in place — when the requested
//! dimensions change.  `generation` counts those reallocations.

use vstd::prelude::*;
use crate::common::TextureFormat;
use crate::numeric::div_bits;
use crate::numeric::f_div;
use crate::numeric::f_of_u32;
use crate::numeric::float_of_u32;

verus! {

/// The copy alignment the device demands of a row of staging-buffer bytes.
pub const COPY_BYTES_PER_ROW_ALIGNMENT: u32 = 256;

/// Bytes per pixel of the color formats the engine draws into.
pub const BYTES_PER_PIXEL: u32 = 4;

/// A color image and a matching depth image, both owned by one device.
#[derive(Debug, Clone, Copy, PartialEq, Eq, Structural)]
pub struct RenderTarget {
    pub width: u32,
    pub height: u32,
    pub format: TextureFormat,
    /// How often the images have been (re)allocated since creation.
    pub generation: u64,
}

/// Layout of the row-padded staging buffer a synchronous read-back uses.
#[derive(Debug, Clone, Copy, PartialEq, Eq, Structural)]
pub struct CopyLayout {
    pub unpadded_bytes_per_row: u32,
    pub padded_bytes_per_row: u32,
    pub buffer_size: u64,
}

impl RenderTarget {
    pub fn new(width: u32, height: u32, format: TextureFormat) -> (t: RenderTarget)
        ensures
            t == (RenderTarget { width, height, format, generation: 0 }),
    {
        RenderTarget { width, height, format, generation: 0 }
    }

    /// No-op when the dimensions are unchanged — the images are not
    /// reallocated; otherwise both images are reconstructed wholesale, the
    /// format is kept, and the generation counter records the reallocation.
    pub fn resize(&mut self, width: u32, height: u32)
        requires
            old(self).generation < u64::MAX,
        ensures
            old(self).width == width && old(self).height == height ==> *final(self) == *old(self),
            old(self).width != width || old(self).height != height ==> *final(self)
                == (RenderTarget {
                width,
                height,
                format: old(self).format,
                generation: (old(self).generation + 1) as u64,
            }),
    {
        if self.width == width && self.height == height {
            return ;
        }
        self.width = width;
        self.height = height;
        self.generation = self.generation + 1;
    }

    /// Width over height.
    pub fn aspect_ratio(&self) -> (r: u32)
        ensures
            r == div_bits(float_of_u32(self.width), float_of_u32(self.height)),
    {
        f_div(f_of_u32(self.width), f_of_u32(self.height))
    }

    /// The staging-buffer layout of a synchronous color read-back: each row
    /// padded up to the device's copy alignment.
    pub fn copy_buffer_layout(&self) -> (l: CopyLayout)
        requires
            self.width <= 0x3FFFFF00,
        ensures
            l.unpadded_bytes_per_row == BYTES_PER_PIXEL * self.width,
            l.padded_bytes_per_row == ((l.unpadded_bytes_per_row + COPY_BYTES_PER_ROW_ALIGNMENT
                - 1) as int / COPY_BYTES_PER_ROW_ALIGNMENT as int) * COPY_BYTES_PER_ROW_ALIGNMENT
                as int,
            l.padded_bytes_per_row as int % COPY_BYTES_PER_ROW_ALIGNMENT as int == 0,
            l.unpadded_bytes_per_row <= l.padded_bytes_per_row,
            l.buffer_size == (l.padded_bytes_per_row as int) * (self.height as int),
    {
        let unpadded: u32 = BYTES_PER_PIXEL * self.width;
        let padded: u32 = ((unpadded + COPY_BYTES_PER_ROW_ALIGNMENT - 1)
            / COPY_BYTES_PER_ROW_ALIGNMENT) * COPY_BYTES_PER_ROW_ALIGNMENT;
        proof {
            assert(padded % 256 == 0 && unpadded <= padded) by (nonlinear_arith)
                requires
                    padded == ((unpadded + 255int) / 256int) * 256int,
                    0 <= unpadded <= 0xFFFFFC00int,
            ;
            assert((padded as u64) * (self.height as u64) <= u64::MAX) by (nonlinear_arith)
                requires
                    padded <= u32::MAX,
                    self.height <= u32::MAX,
            ;
        }
        let buffer_size: u64 = (padded as u64) * (self.height as u64);
        CopyLayout { unpadded_bytes_per_row: unpadded, padded_bytes_per_row: padded, buffer_size }
    }
}

} // verus!
