//! GPU frame readback: staging-buffer layout, row depadding and the
//! per-frame decisions that sit between a render target and its consumers.

pub mod depad;
pub mod layout;
pub mod ndi;
pub mod node;
pub mod readback;
pub mod registry;
pub mod source;

pub use depad::depad;
pub use layout::{align_copy_bytes_per_row, COPY_BYTES_PER_ROW_ALIGNMENT};
pub use ndi::{ndi_send_buffer, NDIExportRateLimiter, VideoFrame};
pub use node::{copy_for_frame, TextureCopy};
pub use readback::{get_image, MapOutcome, NormalizedPixelBuffer};
pub use registry::ExportSourceRegistry;
pub use source::{
    texel_block, GpuImageExportSource, ImageExportSource, PrepareError, SourceSize, SourceTexture,
    TexelBlock,
};
