use bevy_image_export::registry::ExportSourceRegistry;
use bevy_image_export::source::{
    ImageExportSource, PrepareError, SourceSize, SourceTexture, TexelBlock,
};

fn rgba(width: u32, height: u32) -> Option<SourceTexture> {
    let size = SourceSize { width, height, depth_or_array_layers: 1 };
    SourceTexture::new(size, TexelBlock { width: 1, size: 4 })
}

#[test]
fn nothing_is_found_before_it_is_prepared() {
    let registry = ExportSourceRegistry::new();
    assert_eq!(registry.lookup(0), None);
    assert_eq!(registry.lookup(17), None);
}

#[test]
fn what_was_prepared_is_found() {
    let mut registry = ExportSourceRegistry::new();
    let prepared = registry.prepare(17, ImageExportSource(3), rgba(4, 4)).unwrap();
    assert_eq!(prepared.source_handle, 3);
    assert_eq!(prepared.bytes_per_row, 16);
    assert_eq!(prepared.padded_bytes_per_row, 256);
    assert_eq!(prepared.buffer_size, 1024);
    assert_eq!(registry.lookup(17), Some(prepared));
    assert_eq!(registry.lookup(3), None);
}

#[test]
fn repeated_lookups_find_the_same() {
    let mut registry = ExportSourceRegistry::new();
    registry.prepare(1, ImageExportSource(1), rgba(100, 50)).unwrap();
    let first = registry.lookup(1);
    let mut count: u32 = 0;
    while count < 100 {
        assert_eq!(registry.lookup(1), first);
        assert_eq!(registry.lookup(2), None);
        count += 1;
    }
    assert!(first.is_some());
}

#[test]
fn preparing_again_replaces_the_stale_entry() {
    let mut registry = ExportSourceRegistry::new();
    let small = registry.prepare(1, ImageExportSource(8), rgba(4, 4)).unwrap();
    let large = registry.prepare(1, ImageExportSource(8), rgba(100, 200)).unwrap();
    assert_ne!(small, large);
    assert_eq!(large.bytes_per_row, 400);
    assert_eq!(large.padded_bytes_per_row, 512);
    assert_eq!(large.buffer_size, 512 * 200);
    assert_eq!(registry.lookup(1), Some(large));
}

#[test]
fn sources_are_kept_apart() {
    let mut registry = ExportSourceRegistry::new();
    let a = registry.prepare(1, ImageExportSource(10), rgba(4, 4)).unwrap();
    let b = registry.prepare(2, ImageExportSource(20), rgba(64, 64)).unwrap();
    assert_eq!(registry.lookup(1), Some(a));
    assert_eq!(registry.lookup(2), Some(b));
}

#[test]
fn a_missing_texture_is_reported_and_records_nothing() {
    let mut registry = ExportSourceRegistry::new();
    assert_eq!(
        registry.prepare(1, ImageExportSource(10), None),
        Err(PrepareError::SourceTextureMissing)
    );
    assert_eq!(registry.lookup(1), None);
}

#[test]
fn a_missing_texture_leaves_the_earlier_entry() {
    let mut registry = ExportSourceRegistry::new();
    let earlier = registry.prepare(1, ImageExportSource(10), rgba(4, 4)).unwrap();
    assert_eq!(
        registry.prepare(1, ImageExportSource(10), None),
        Err(PrepareError::SourceTextureMissing)
    );
    assert_eq!(registry.lookup(1), Some(earlier));
}
