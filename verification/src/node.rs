//! The copy stage: once per frame, each export source whose texture is
//! resident has that texture copied into its staging buffer.

use crate::source::{GpuImageExportSource, SourceSize};
use vstd::prelude::*;

verus! {

/// One texture-to-buffer copy: which image is copied, how much of it, and
/// how its rows are laid out in the staging buffer.
#[derive(Clone, Copy, Debug, PartialEq, Eq, Structural)]
pub struct TextureCopy {
    /// The image that is copied from.
    pub source_handle: u64,
    /// Where the first row starts in the buffer.
    pub offset: u64,
    /// Distance between the starts of two rows in the buffer.
    pub bytes_per_row: u32,
    /// Extent of what is copied.
    pub copy_size: SourceSize,
}

/// The copy that `copy_for_frame` issues for a resident texture.
pub open spec fn copy_of(gpu_source: GpuImageExportSource) -> TextureCopy {
    TextureCopy {
        source_handle: gpu_source.source_handle,
        offset: 0,
        bytes_per_row: gpu_source.padded_bytes_per_row,
        copy_size: gpu_source.source_size,
    }
}

/// The copy to issue this frame for a prepared source: the whole texture,
/// rows at the padded pitch, from the start of the buffer. Where the texture
/// is not resident the source is skipped this frame.
pub fn copy_for_frame(gpu_source: &GpuImageExportSource, resident: bool) -> (copy: Option<
    TextureCopy,
>)
    ensures
        copy == if resident {
            Some(copy_of(*gpu_source))
        } else {
            None
        },
{
    if !resident {
        return None;
    }
    Some(
        TextureCopy {
            source_handle: gpu_source.source_handle,
            offset: 0,
            bytes_per_row: gpu_source.padded_bytes_per_row,
            copy_size: gpu_source.source_size,
        },
    )
}

/// A copy of a well-formed source writes one padded row per texture row and
/// so stays within the staging buffer, whose size is exactly that.
pub proof fn lemma_copy_fills_buffer(gpu_source: GpuImageExportSource)
    requires
        gpu_source.wf(),
    ensures
        copy_of(gpu_source).offset + copy_of(gpu_source).bytes_per_row * copy_of(
            gpu_source,
        ).copy_size.height == gpu_source.buffer_size,
{
}

} // verus!
