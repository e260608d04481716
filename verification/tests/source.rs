use bevy_image_export::source::{
    texel_block, GpuImageExportSource, ImageExportSource, PrepareError, SourceSize, SourceTexture,
    TexelBlock,
};

fn extent(width: u32, height: u32) -> SourceSize {
    SourceSize { width, height, depth_or_array_layers: 1 }
}

const RGBA8: TexelBlock = TexelBlock { width: 1, size: 4 };

#[test]
fn texel_block_of_uncompressed_formats() {
    assert_eq!(texel_block(&wgpu::TextureFormat::Rgba8UnormSrgb), Some(RGBA8));
    assert_eq!(texel_block(&wgpu::TextureFormat::Bgra8Unorm), Some(RGBA8));
    assert_eq!(
        texel_block(&wgpu::TextureFormat::R8Unorm),
        Some(TexelBlock { width: 1, size: 1 })
    );
    assert_eq!(
        texel_block(&wgpu::TextureFormat::Rgba32Float),
        Some(TexelBlock { width: 1, size: 16 })
    );
}

#[test]
fn texel_block_of_compressed_formats() {
    assert_eq!(
        texel_block(&wgpu::TextureFormat::Bc1RgbaUnorm),
        Some(TexelBlock { width: 4, size: 8 })
    );
    assert_eq!(
        texel_block(&wgpu::TextureFormat::Astc {
            block: wgpu::AstcBlock::B12x10,
            channel: wgpu::AstcChannel::Unorm,
        }),
        Some(TexelBlock { width: 12, size: 16 })
    );
}

#[test]
fn formats_without_a_block_size_have_no_texel_block() {
    assert_eq!(texel_block(&wgpu::TextureFormat::Depth24Plus), None);
    assert_eq!(texel_block(&wgpu::TextureFormat::Depth24PlusStencil8), None);
    assert_eq!(texel_block(&wgpu::TextureFormat::Depth32FloatStencil8), None);
}

#[test]
fn a_format_with_a_block_size_has_a_texel_block() {
    assert_eq!(TexelBlock::of((1, 1), Some(4)), Some(TexelBlock { width: 1, size: 4 }));
    assert_eq!(TexelBlock::of((10, 6), Some(16)), Some(TexelBlock { width: 10, size: 16 }));
    assert_eq!(TexelBlock::of((1, 1), None), None);
}

#[test]
fn supported_textures_are_accepted() {
    let texture = SourceTexture::new(extent(768, 768), RGBA8);
    assert_eq!(texture, Some(SourceTexture { size: extent(768, 768), block: RGBA8 }));
    assert!(SourceTexture::new(extent(0, 0), RGBA8).is_some());
    assert!(SourceTexture::new(extent(0x3fff_ffc0, 1), RGBA8).is_some());
    assert!(SourceTexture::new(extent(u32::MAX, u32::MAX), TexelBlock { width: 1, size: 1 })
        .is_none());
    assert!(SourceTexture::new(extent(0xffff_ff00, u32::MAX), TexelBlock { width: 1, size: 1 })
        .is_some());
}

#[test]
fn textures_whose_rows_do_not_fit_are_refused() {
    assert_eq!(SourceTexture::new(extent(0x3fff_ffc1, 1), RGBA8), None);
    assert_eq!(SourceTexture::new(extent(0x4000_0000, 1), RGBA8), None);
    assert_eq!(SourceTexture::new(extent(u32::MAX, 1), RGBA8), None);
}

#[test]
fn a_block_without_width_is_refused() {
    assert_eq!(SourceTexture::new(extent(16, 16), TexelBlock { width: 0, size: 4 }), None);
}

#[test]
fn prepare_lays_out_a_four_by_four_rgba_source() {
    let texture = SourceTexture::new(extent(4, 4), RGBA8);
    let prepared = ImageExportSource::prepare_asset(ImageExportSource(11), texture);
    assert_eq!(
        prepared,
        Ok(GpuImageExportSource {
            buffer_size: 1024,
            source_handle: 11,
            source_size: extent(4, 4),
            bytes_per_row: 16,
            padded_bytes_per_row: 256,
        })
    );
}

#[test]
fn prepare_keeps_rows_that_are_already_aligned() {
    let texture = SourceTexture::new(extent(768, 768), RGBA8);
    let prepared = ImageExportSource::prepare_asset(ImageExportSource(1), texture).unwrap();
    assert_eq!(prepared.bytes_per_row, 3072);
    assert_eq!(prepared.padded_bytes_per_row, 3072);
    assert_eq!(prepared.buffer_size, 3072 * 768);
}

#[test]
fn prepare_counts_rows_in_texel_blocks() {
    let block = texel_block(&wgpu::TextureFormat::Bc1RgbaUnorm).unwrap();
    let texture = SourceTexture::new(extent(1026, 8), block);
    let prepared = ImageExportSource::prepare_asset(ImageExportSource(1), texture).unwrap();
    assert_eq!(prepared.bytes_per_row, 256 * 8);
    assert_eq!(prepared.padded_bytes_per_row, 2048);
    assert_eq!(prepared.buffer_size, 2048 * 8);
}

#[test]
fn prepare_sizes_the_buffer_in_64_bits() {
    let texture = SourceTexture::new(extent(0x3fff_ffc0, u32::MAX), RGBA8);
    let prepared = ImageExportSource::prepare_asset(ImageExportSource(1), texture).unwrap();
    assert_eq!(prepared.bytes_per_row, 0xffff_ff00);
    assert_eq!(prepared.padded_bytes_per_row, 0xffff_ff00);
    assert_eq!(prepared.buffer_size, 0xffff_ff00u64 * 0xffff_ffffu64);
}

#[test]
fn prepare_without_a_texture_reports_it_missing() {
    assert_eq!(
        ImageExportSource::prepare_asset(ImageExportSource(3), None),
        Err(PrepareError::SourceTextureMissing)
    );
}

#[test]
fn padded_row_is_aligned_for_every_width() {
    let mut width: u32 = 0;
    while width <= 2048 {
        let texture = SourceTexture::new(extent(width, 2), RGBA8);
        let prepared = ImageExportSource::prepare_asset(ImageExportSource(0), texture).unwrap();
        assert_eq!(prepared.bytes_per_row, width * 4);
        assert_eq!(prepared.padded_bytes_per_row % 256, 0);
        assert!(prepared.padded_bytes_per_row >= prepared.bytes_per_row);
        assert!(prepared.padded_bytes_per_row - prepared.bytes_per_row < 256);
        assert_eq!(prepared.buffer_size, 2 * prepared.padded_bytes_per_row as u64);
        width += 1;
    }
}

#[test]
fn a_source_is_made_from_the_identifier_of_its_image() {
    assert_eq!(ImageExportSource::from(42), ImageExportSource(42));
    let source: ImageExportSource = 7u64.into();
    assert_eq!(source.0, 7);
}
