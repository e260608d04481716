use bevy_image_export::layout::{align_copy_bytes_per_row, COPY_BYTES_PER_ROW_ALIGNMENT};

#[test]
fn alignment_constant_is_the_one_of_the_graphics_backend() {
    assert_eq!(COPY_BYTES_PER_ROW_ALIGNMENT, 256);
    assert_eq!(COPY_BYTES_PER_ROW_ALIGNMENT, wgpu::COPY_BYTES_PER_ROW_ALIGNMENT);
}

#[test]
fn aligned_rows_stay_as_they_are() {
    assert_eq!(align_copy_bytes_per_row(0), Some(0));
    assert_eq!(align_copy_bytes_per_row(256), Some(256));
    assert_eq!(align_copy_bytes_per_row(512), Some(512));
    assert_eq!(align_copy_bytes_per_row(3072), Some(3072));
}

#[test]
fn unaligned_rows_are_rounded_up() {
    assert_eq!(align_copy_bytes_per_row(1), Some(256));
    assert_eq!(align_copy_bytes_per_row(16), Some(256));
    assert_eq!(align_copy_bytes_per_row(255), Some(256));
    assert_eq!(align_copy_bytes_per_row(257), Some(512));
    assert_eq!(align_copy_bytes_per_row(7680), Some(7680));
    assert_eq!(align_copy_bytes_per_row(7684), Some(7936));
}

#[test]
fn rows_that_cannot_be_padded_in_32_bits_are_refused() {
    assert_eq!(align_copy_bytes_per_row(0xffff_ff00), Some(0xffff_ff00));
    assert_eq!(align_copy_bytes_per_row(0xffff_feff), Some(0xffff_ff00));
    assert_eq!(align_copy_bytes_per_row(0xffff_ff01), None);
    assert_eq!(align_copy_bytes_per_row(u32::MAX), None);
}

#[test]
fn padded_row_is_the_smallest_multiple_that_holds_the_row() {
    let mut row_bytes: u32 = 0;
    while row_bytes <= 5000 {
        let padded = align_copy_bytes_per_row(row_bytes).unwrap();
        assert_eq!(padded % COPY_BYTES_PER_ROW_ALIGNMENT, 0);
        assert!(padded >= row_bytes);
        assert!(padded - row_bytes < COPY_BYTES_PER_ROW_ALIGNMENT);
        let mut smaller: u32 = 0;
        while smaller < padded {
            assert!(smaller < row_bytes || smaller % COPY_BYTES_PER_ROW_ALIGNMENT != 0);
            smaller += COPY_BYTES_PER_ROW_ALIGNMENT;
        }
        row_bytes += 1;
    }
}
