//! From the bytes of a mapped staging buffer to a tightly packed pixel
//! buffer.

use crate::depad::{depad, depadded};
use crate::source::GpuImageExportSource;
use vstd::prelude::*;

verus! {

/// Bytes of one pixel of a normalized buffer: four 8-bit channels.
pub const BYTES_PER_PIXEL: u32 = 4;

/// How the request to map a staging buffer for reading ended.
#[derive(Clone, Debug, PartialEq, Eq)]
pub enum MapOutcome {
    /// The buffer was mapped; these are its bytes, copied out before the
    /// mapping was released.
    Mapped(Vec<u8>),
    /// The backend declined or failed the request.
    Failed,
}

/// One frame of an export source, rows tightly packed.
#[derive(Clone, Debug, PartialEq, Eq)]
pub struct NormalizedPixelBuffer {
    pub width: u32,
    pub height: u32,
    pub data: Vec<u8>,
}

/// A pixel buffer as a value: its extent and its bytes.
pub struct PixelBuffer {
    pub width: nat,
    pub height: nat,
    pub data: Seq<u8>,
}

impl View for NormalizedPixelBuffer {
    type V = PixelBuffer;

    open spec fn view(&self) -> PixelBuffer {
        PixelBuffer { width: self.width as nat, height: self.height as nat, data: self.data@ }
    }
}

impl PixelBuffer {
    /// The bytes are exactly `width * height` pixels of four bytes.
    pub open spec fn is_rgba8(self) -> bool {
        self.data.len() == self.width * self.height * BYTES_PER_PIXEL
    }
}

/// The mapped bytes fill the staging buffer that `gpu_source` describes, and
/// a row fits in a padded row.
pub open spec fn fills_buffer(gpu_source: GpuImageExportSource, raw: Seq<u8>) -> bool {
    &&& gpu_source.bytes_per_row <= gpu_source.padded_bytes_per_row
    &&& raw.len() == gpu_source.padded_bytes_per_row * gpu_source.source_size.height
}

/// The frame that the mapped bytes `raw` hold for `gpu_source`.
pub open spec fn image_of(gpu_source: GpuImageExportSource, raw: Seq<u8>) -> PixelBuffer {
    PixelBuffer {
        width: gpu_source.source_size.width as nat,
        height: gpu_source.source_size.height as nat,
        data: depadded(
            raw,
            gpu_source.bytes_per_row as nat,
            gpu_source.padded_bytes_per_row as nat,
            gpu_source.source_size.height as nat,
        ),
    }
}

/// What `get_image` returns.
pub open spec fn read_back(gpu_source: GpuImageExportSource, outcome: MapOutcome) -> Option<
    PixelBuffer,
> {
    match outcome {
        MapOutcome::Mapped(raw) => if fills_buffer(gpu_source, raw@) {
            Some(image_of(gpu_source, raw@))
        } else {
            None
        },
        MapOutcome::Failed => None,
    }
}

/// A frame read back for a source whose rows are four bytes per pixel holds
/// exactly `width * height` pixels.
pub proof fn lemma_image_is_rgba8(gpu_source: GpuImageExportSource, raw: Seq<u8>)
    requires
        gpu_source.bytes_per_row == gpu_source.source_size.width * BYTES_PER_PIXEL,
    ensures
        image_of(gpu_source, raw).is_rgba8(),
{
    let w = gpu_source.source_size.width as int;
    let h = gpu_source.source_size.height as int;
    assert((w * 4) * h == w * h * 4) by (nonlinear_arith);
}

/// Turns the outcome of mapping the staging buffer of `gpu_source` into the
/// frame it holds. A failed mapping gives no frame, and so do mapped bytes
/// that do not fill the buffer.
pub fn get_image(gpu_source: &GpuImageExportSource, outcome: MapOutcome) -> (image: Option<
    NormalizedPixelBuffer,
>)
    ensures
        match image {
            Some(buffer) => read_back(*gpu_source, outcome) == Some(buffer@),
            None => read_back(*gpu_source, outcome) is None,
        },
        image matches Some(buffer) ==> buffer.data@.len() == gpu_source.bytes_per_row
            * gpu_source.source_size.height,
        image matches Some(buffer) ==> (gpu_source.bytes_per_row == gpu_source.source_size.width
            * BYTES_PER_PIXEL ==> buffer@.is_rgba8()),
{
    let raw = match outcome {
        MapOutcome::Mapped(raw) => raw,
        MapOutcome::Failed => {
            return None;
        },
    };
    let source_size = gpu_source.source_size;
    if gpu_source.bytes_per_row > gpu_source.padded_bytes_per_row {
        return None;
    }
    assert(gpu_source.padded_bytes_per_row * source_size.height <= 0xffff_ffff * 0xffff_ffff)
        by (nonlinear_arith)
        requires
            0 <= gpu_source.padded_bytes_per_row <= 0xffff_ffff,
            0 <= source_size.height <= 0xffff_ffff,
    ;
    let buffer_size: u64 = gpu_source.padded_bytes_per_row as u64 * source_size.height as u64;
    if raw.len() as u64 != buffer_size {
        return None;
    }
    proof {
        if gpu_source.bytes_per_row == source_size.width * BYTES_PER_PIXEL {
            lemma_image_is_rgba8(*gpu_source, raw@);
        }
    }
    let data = depad(
        raw,
        gpu_source.bytes_per_row as usize,
        gpu_source.padded_bytes_per_row as usize,
        source_size.height as usize,
    );
    Some(NormalizedPixelBuffer { width: source_size.width, height: source_size.height, data })
}

} // verus!
