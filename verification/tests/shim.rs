//! The layout of the blocks of the allocator shim.

use bzip2::wasm_shim::{
    alignment, fits, header_size, layout_with_header, total_size, BlockLayout,
};

#[test]
fn the_header_is_one_word() {
    assert_eq!(header_size(), std::mem::size_of::<usize>());
    assert_eq!(alignment(), 2 * std::mem::size_of::<usize>());
}

#[test]
fn a_block_holds_its_header_and_its_bytes() {
    let word = std::mem::size_of::<usize>();
    assert_eq!(layout_with_header(0), BlockLayout { size: word, align: 2 * word });
    assert_eq!(layout_with_header(10), BlockLayout { size: word + 10, align: 2 * word });
    let l = layout_with_header(4096);
    assert_eq!(std::alloc::Layout::from_size_align(l.size, l.align).unwrap().size(), word + 4096);
}

#[test]
fn a_block_fits_up_to_the_limit_of_a_layout() {
    let word = std::mem::size_of::<usize>();
    let limit = isize::MAX as usize - (2 * word - 1) - word;
    assert!(fits(0));
    assert!(fits(limit));
    assert!(!fits(limit + 1));
    assert!(!fits(usize::MAX));
    let l = layout_with_header(limit);
    assert!(std::alloc::Layout::from_size_align(l.size, l.align).is_ok());
    assert!(std::alloc::Layout::from_size_align(l.size + 1, l.align).is_err());
}

#[test]
fn members_multiply_to_a_size_that_fits() {
    assert_eq!(total_size(0, 0), Some(0));
    assert_eq!(total_size(3, 7), Some(21));
    assert_eq!(total_size(usize::MAX, 1), Some(usize::MAX));
    assert_eq!(total_size(usize::MAX, 0), Some(0));
    assert_eq!(total_size(usize::MAX, 2), None);
    assert_eq!(total_size(usize::MAX / 2 + 1, 2), None);
    assert_eq!(total_size(usize::MAX / 2, 2), Some(usize::MAX - 1));
}
