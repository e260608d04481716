//! Export sources and what is prepared for each of them: the extent of the
//! source texture, the two row sizes and the size of the staging buffer.

use crate::layout::{
    align_copy_bytes_per_row, align_up, is_smallest_multiple_at_least,
    lemma_align_up_is_smallest_multiple, COPY_BYTES_PER_ROW_ALIGNMENT,
};
use vstd::prelude::*;

verus! {

/// `wgpu::TextureFormat`, carried through as an opaque value.
#[verifier::external_type_specification]
#[verifier::external_body]
pub struct ExTextureFormat(wgpu::TextureFormat);

/// `wgpu::TextureAspect`, carried through as an opaque value.
#[verifier::external_type_specification]
#[verifier::external_body]
pub struct ExTextureAspect(wgpu::TextureAspect);

/// The dimensions that `wgpu::TextureFormat::block_dimensions` returns for a
/// format. They depend on the format alone.
pub uninterp spec fn block_dimensions_of(format: wgpu::TextureFormat) -> (u32, u32);

/// The size that `wgpu::TextureFormat::block_size` returns for a format and
/// an aspect. It depends on the two alone.
pub uninterp spec fn block_size_of(
    format: wgpu::TextureFormat,
    aspect: Option<wgpu::TextureAspect>,
) -> Option<u32>;

/// Assumed of `wgpu::TextureFormat::block_dimensions`, which gives the width
/// and height of a texel block: the format alone decides them, and whatever
/// the format, both lie between 1 and 12.
pub assume_specification[ wgpu::TextureFormat::block_dimensions ](
    format: &wgpu::TextureFormat,
) -> (dimensions: (u32, u32))
    ensures
        dimensions == block_dimensions_of(*format),
        1 <= dimensions.0 <= 12,
        1 <= dimensions.1 <= 12,
;

/// Assumed of `wgpu::TextureFormat::block_size`, which gives the bytes in
/// one texel block where the format and aspect have such a size: format and
/// aspect alone decide it, and a size that it returns lies between 1 and 16.
pub assume_specification[ wgpu::TextureFormat::block_size ](
    format: &wgpu::TextureFormat,
    aspect: Option<wgpu::TextureAspect>,
) -> (size: Option<u32>)
    ensures
        size == block_size_of(*format, aspect),
        size matches Some(n) ==> 1 <= n <= 16,
;

/// Footprint of one texel block: its width in texels and its size in bytes.
#[derive(Clone, Copy, Debug, PartialEq, Eq, Structural)]
pub struct TexelBlock {
    pub width: u32,
    pub size: u32,
}

/// Extent of a source texture.
#[derive(Clone, Copy, Debug, PartialEq, Eq, Structural)]
pub struct SourceSize {
    pub width: u32,
    pub height: u32,
    pub depth_or_array_layers: u32,
}

/// What preparing an export source reads of its texture.
#[derive(Clone, Copy, Debug, PartialEq, Eq, Structural)]
pub struct SourceTexture {
    pub size: SourceSize,
    pub block: TexelBlock,
}

/// A render target to be exported, named by the identifier of its image.
#[derive(Clone, Copy, Debug, PartialEq, Eq, Structural)]
pub struct ImageExportSource(pub u64);

/// What is prepared for an export source: the layout of its staging buffer.
#[derive(Clone, Copy, Debug, PartialEq, Eq, Structural)]
pub struct GpuImageExportSource {
    /// Size of the staging buffer, in bytes.
    pub buffer_size: u64,
    pub source_handle: u64,
    pub source_size: SourceSize,
    pub bytes_per_row: u32,
    pub padded_bytes_per_row: u32,
}

/// Why an export source could not be prepared.
#[derive(Clone, Copy, Debug, PartialEq, Eq, Structural)]
pub enum PrepareError {
    /// The source texture does not exist on the render side.
    SourceTextureMissing,
}

impl TexelBlock {
    /// The texel block of a format whose blocks have the given dimensions
    /// and, where it has one, the given size in bytes: as wide as the
    /// dimensions say and of that size. A format without a block size has
    /// no texel block.
    pub open spec fn from_format(dimensions: (u32, u32), size: Option<u32>) -> Option<
        TexelBlock,
    > {
        match size {
            Some(size) => Some(TexelBlock { width: dimensions.0, size }),
            None => None,
        }
    }

    /// The texel block of a format whose blocks have the given dimensions
    /// and, where it has one, the given size in bytes. A format without a
    /// block size has no texel block.
    pub fn of(dimensions: (u32, u32), size: Option<u32>) -> (block: Option<TexelBlock>)
        ensures
            block == TexelBlock::from_format(dimensions, size),
    {
        match size {
            Some(size) => Some(TexelBlock { width: dimensions.0, size }),
            None => None,
        }
    }
}

/// The texel block of `format` when no aspect is selected: as wide as the
/// format's block dimensions say, and of the block size that the format has
/// without an aspect; `None` for the formats that have no such size. Every
/// block that comes back is between 1 and 12 texels wide and between 1 and
/// 16 bytes large.
pub fn texel_block(format: &wgpu::TextureFormat) -> (block: Option<TexelBlock>)
    ensures
        block == TexelBlock::from_format(
            block_dimensions_of(*format),
            block_size_of(*format, None),
        ),
        block matches Some(b) ==> 1 <= b.width <= 12 && 1 <= b.size <= 16,
{
    TexelBlock::of(format.block_dimensions(), format.block_size(None))
}

impl SourceTexture {
    /// Tightly packed size of one row of texel blocks, in bytes.
    pub open spec fn bytes_per_row(self) -> nat {
        ((self.size.width / self.block.width) * self.block.size) as nat
    }

    /// Row size rounded up to the copy alignment.
    pub open spec fn padded_bytes_per_row(self) -> nat {
        align_up(self.bytes_per_row(), COPY_BYTES_PER_ROW_ALIGNMENT as nat)
    }

    /// The block has a width and the padded row size fits in 32 bits.
    pub open spec fn supported(self) -> bool {
        &&& self.block.width >= 1
        &&& self.padded_bytes_per_row() <= u32::MAX
    }

    /// A texture of the given extent and texel block, if it is supported.
    pub fn new(size: SourceSize, block: TexelBlock) -> (texture: Option<SourceTexture>)
        ensures
            texture == if (SourceTexture { size, block }).supported() {
                Some(SourceTexture { size, block })
            } else {
                None
            },
    {
        if block.width == 0 {
            return None;
        }
        let blocks: u32 = size.width / block.width;
        match blocks.checked_mul(block.size) {
            Some(bytes_per_row) => match align_copy_bytes_per_row(bytes_per_row) {
                Some(_) => Some(SourceTexture { size, block }),
                None => None,
            },
            None => {
                proof {
                    lemma_align_up_is_smallest_multiple(
                        (SourceTexture { size, block }).bytes_per_row(),
                        COPY_BYTES_PER_ROW_ALIGNMENT as nat,
                    );
                }
                None
            },
        }
    }
}

impl From<u64> for ImageExportSource {
    fn from(value: u64) -> (source: ImageExportSource) {
        ImageExportSource(value)
    }
}

impl vstd::std_specs::convert::FromSpecImpl<u64> for ImageExportSource {
    open spec fn obeys_from_spec() -> bool {
        true
    }

    open spec fn from_spec(value: u64) -> ImageExportSource {
        ImageExportSource(value)
    }
}

impl GpuImageExportSource {
    /// The padded row size is the row size rounded up to the copy
    /// alignment, and the buffer holds one padded row per texture row.
    pub open spec fn wf(self) -> bool {
        &&& self.padded_bytes_per_row == align_up(
            self.bytes_per_row as nat,
            COPY_BYTES_PER_ROW_ALIGNMENT as nat,
        )
        &&& self.buffer_size == self.padded_bytes_per_row * self.source_size.height
    }
}

impl ImageExportSource {
    /// What `prepare_asset` returns for a source whose texture exists.
    pub open spec fn prepared(self, texture: SourceTexture) -> GpuImageExportSource {
        GpuImageExportSource {
            buffer_size: (texture.padded_bytes_per_row() * texture.size.height) as u64,
            source_handle: self.0,
            source_size: texture.size,
            bytes_per_row: texture.bytes_per_row() as u32,
            padded_bytes_per_row: texture.padded_bytes_per_row() as u32,
        }
    }

    /// Lays out the staging buffer for an export source. `gpu_image` is what
    /// the render side holds for the source's image, `None` when it holds
    /// nothing.
    pub fn prepare_asset(extracted_asset: ImageExportSource, gpu_image: Option<SourceTexture>) -> (prepared:
        Result<GpuImageExportSource, PrepareError>)
        requires
            gpu_image matches Some(texture) ==> texture.supported(),
        ensures
            prepared == match gpu_image {
                Some(texture) => Ok::<GpuImageExportSource, PrepareError>(
                    extracted_asset.prepared(texture),
                ),
                None => Err(PrepareError::SourceTextureMissing),
            },
            prepared matches Ok(gpu_source) ==> gpu_source.wf() && is_smallest_multiple_at_least(
                gpu_source.padded_bytes_per_row as nat,
                COPY_BYTES_PER_ROW_ALIGNMENT as nat,
                gpu_source.bytes_per_row as nat,
            ),
    {
        let texture = match gpu_image {
            Some(texture) => texture,
            None => {
                return Err(PrepareError::SourceTextureMissing);
            },
        };
        proof {
            lemma_prepared_is_well_formed(extracted_asset, texture);
        }
        let size = texture.size;
        let bytes_per_row: u32 = (size.width / texture.block.width) * texture.block.size;
        let padded_bytes_per_row: u32 = match align_copy_bytes_per_row(bytes_per_row) {
            Some(padded) => padded,
            None => unreached(),
        };
        assert(size.height * padded_bytes_per_row == padded_bytes_per_row * size.height)
            by (nonlinear_arith);
        Ok(
            GpuImageExportSource {
                buffer_size: size.height as u64 * padded_bytes_per_row as u64,
                source_handle: extracted_asset.0,
                source_size: size,
                bytes_per_row,
                padded_bytes_per_row,
            },
        )
    }
}

/// For every supported texture the prepared layout is well formed: both row
/// sizes fit in 32 bits, the buffer size fits in 64, and the padded row size
/// is the smallest multiple of the copy alignment that holds a row.
pub proof fn lemma_prepared_is_well_formed(source: ImageExportSource, texture: SourceTexture)
    requires
        texture.supported(),
    ensures
        texture.bytes_per_row() <= texture.padded_bytes_per_row() <= u32::MAX,
        texture.padded_bytes_per_row() * texture.size.height <= u64::MAX,
        source.prepared(texture).wf(),
        is_smallest_multiple_at_least(
            source.prepared(texture).padded_bytes_per_row as nat,
            COPY_BYTES_PER_ROW_ALIGNMENT as nat,
            source.prepared(texture).bytes_per_row as nat,
        ),
{
    let padded = texture.padded_bytes_per_row() as int;
    let height = texture.size.height as int;
    lemma_align_up_is_smallest_multiple(
        texture.bytes_per_row(),
        COPY_BYTES_PER_ROW_ALIGNMENT as nat,
    );
    assert(padded * height <= 0xffff_ffff * 0xffff_ffff) by (nonlinear_arith)
        requires
            0 <= padded <= 0xffff_ffff,
            0 <= height <= 0xffff_ffff,
    ;
}

} // verus!
