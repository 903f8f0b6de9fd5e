//! The levels of compression.

use bzip2::Compression;

#[test]
fn levels_map_to_block_sizes() {
    assert_eq!(Compression::Fastest.level(), 1);
    assert_eq!(Compression::Default.level(), 6);
    assert_eq!(Compression::Best.level(), 9);
    assert!(Compression::Fastest.is_valid());
    assert!(Compression::Default.is_valid());
    assert!(Compression::Best.is_valid());
}

#[test]
fn levels_by_number_run_from_one_to_nine() {
    for n in 1..=9 {
        let c = Compression::new(n).unwrap();
        assert_eq!(c, Compression::Level(n));
        assert_eq!(c.level(), n);
        assert!(c.is_valid());
    }
    assert_eq!(Compression::new(0), None);
    assert_eq!(Compression::new(10), None);
    assert_eq!(Compression::new(u32::MAX), None);
    assert!(!Compression::Level(0).is_valid());
    assert!(!Compression::Level(10).is_valid());
    assert_eq!(Compression::Level(10).level(), 10);
}
