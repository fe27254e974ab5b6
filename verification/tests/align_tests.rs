use multitude::align::{align_offset, align_up, aligned_payload_offset, check_isize_overflow, chunk_base_of, try_bump_fit};
use multitude::error::AllocError;

#[test]
fn align_offset_padding_to_next_boundary() {
    assert_eq!(align_offset(0, 8), Some(0));
    assert_eq!(align_offset(1, 8), Some(7));
    assert_eq!(align_offset(7, 8), Some(1));
    assert_eq!(align_offset(8, 8), Some(0));
    assert_eq!(align_offset(9, 8), Some(7));
    assert_eq!(align_offset(15, 8), Some(1));
}

#[test]
fn align_offset_returns_none_on_overflow() {
    assert!(align_offset(usize::MAX, 8).is_none());
    assert!(align_offset(usize::MAX - 6, 8).is_none());
    assert!(align_offset(usize::MAX - 7, 8).is_some());
}

#[test]
fn align_up_identity_when_already_aligned() {
    assert_eq!(align_up(0, 4), 0);
    assert_eq!(align_up(0, 8), 0);
    assert_eq!(align_up(4, 4), 4);
    assert_eq!(align_up(8, 8), 8);
}

#[test]
fn align_up_rounds_up_to_alignment() {
    assert_eq!(align_up(1, 4), 4);
    assert_eq!(align_up(5, 4), 8);
    assert_eq!(align_up(7, 4), 8);
    assert_eq!(align_up(9, 8), 16);
}

#[test]
fn align_up_align_one_is_identity() {
    assert_eq!(align_up(0, 1), 0);
    assert_eq!(align_up(1, 1), 1);
    assert_eq!(align_up(42, 1), 42);
}

#[test]
fn align_up_saturates_at_the_top_of_the_address_space() {
    assert_eq!(align_up(usize::MAX, 8), usize::MAX - 7);
    assert_eq!(align_up(usize::MAX - 3, 16), usize::MAX - 15);
}

#[test]
fn align_up_is_idempotent_on_concrete_values() {
    for value in [0usize, 1, 7, 8, 9, 1000, 4097] {
        for align in [1usize, 2, 8, 64, 4096] {
            let once = align_up(value, align);
            assert_eq!(align_up(once, align), once);
            assert_eq!(once % align, 0);
            assert!(value <= once && once < value + align);
        }
    }
}

#[test]
fn align_offset_lands_on_aligned_address() {
    for value in [0usize, 3, 17, 255, 4099] {
        for align in [1usize, 4, 32, 256] {
            let off = align_offset(value, align).unwrap();
            assert_eq!((value + off) % align, 0);
            assert!(off < align);
        }
    }
}

#[test]
fn aligned_payload_offset_exact() {
    assert_eq!(aligned_payload_offset(1000, 64, 10, 200, 16), 24);
    assert_eq!(aligned_payload_offset(1024, 64, 10, 200, 16), 0);
}

#[test]
fn check_isize_overflow_boundary() {
    let limit = (isize::MAX as usize) - 7;
    assert_eq!(check_isize_overflow(limit, 8), Ok(()));
    assert_eq!(check_isize_overflow(limit + 1, 8), Err(AllocError::CapacityOverflow));
    assert_eq!(check_isize_overflow(isize::MAX as usize, 1), Ok(()));
    assert_eq!(check_isize_overflow(0, usize::MAX), Ok(()));
    assert_eq!(check_isize_overflow(1, usize::MAX), Err(AllocError::CapacityOverflow));
}

#[test]
fn try_bump_fit_places_aligned_value_and_entry() {
    let fit = try_bump_fit(1001, 1100, 8, 10, 16);
    assert!(fit.fits);
    assert_eq!(fit.aligned, 1008);
    assert_eq!(fit.end, 1018);
    assert_eq!(fit.new_drop_back, 1084);
}

#[test]
fn try_bump_fit_exact_fit_and_one_byte_short() {
    let fit = try_bump_fit(1000, 1026, 8, 10, 16);
    assert!(fit.fits);
    assert_eq!(fit.end, fit.new_drop_back);
    let miss = try_bump_fit(1000, 1025, 8, 10, 16);
    assert!(!miss.fits);
    assert_eq!((miss.aligned, miss.end, miss.new_drop_back), (1, 1, 1));
}

#[test]
fn chunk_base_masks_to_the_tile() {
    assert_eq!(chunk_base_of(0x0012_3456), 0x0012_0000);
    assert_eq!(chunk_base_of(0x0001_0000), 0x0001_0000);
    assert_eq!(chunk_base_of(0xFFFF), 0);
    // Every address of a chunk's first tile maps back to the chunk base.
    let base = 0x0040_0000usize;
    for off in [64usize, 100, 4096, 65535] {
        assert_eq!(chunk_base_of(base + off), base);
    }
}

#[test]
fn try_bump_fit_accepts_alignments_beyond_a_chunk() {
    let fit = try_bump_fit(0x1_0001, 0x40_0000, 0x20_0000, 16, 0);
    assert!(fit.fits);
    assert_eq!(fit.aligned, 0x20_0000);
    assert_eq!(fit.end, 0x20_0010);
    let huge = 1usize << (usize::BITS - 1);
    let miss = try_bump_fit(1, usize::MAX, huge, 1, 0);
    assert!(miss.fits);
    assert_eq!(miss.aligned, huge);
}

#[test]
fn align_up_saturated_value_is_the_last_aligned_address() {
    assert_eq!(align_up(usize::MAX - 2, 4), usize::MAX & !3);
    assert_eq!(align_up(usize::MAX, 1 << 20), usize::MAX & !((1 << 20) - 1));
}

#[test]
fn try_bump_fit_aligned_address_is_the_mask() {
    for (data, align) in [(1001usize, 8usize), (0x1_0001, 0x20_0000), (17, 1), (4097, 4096)] {
        let fit = try_bump_fit(data, usize::MAX / 2, align, 1, 0);
        assert!(fit.fits);
        assert_eq!(fit.aligned, (data + align - 1) & !(align - 1));
    }
}
