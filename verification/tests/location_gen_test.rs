use fuse_query::fuse::location_gen::gen_block_location;
use fuse_query::fuse::location_gen::gen_segment_info_location;
use fuse_query::fuse::location_gen::snapshot_location;

#[test]
fn test_snapshot_location() {
    assert_eq!(snapshot_location("v1"), "_ss/v1");
    assert_eq!(snapshot_location(""), "_ss/");
}

#[test]
fn test_block_location_shape() {
    let location = gen_block_location();
    assert_eq!(location.len(), 3 + 32 + 8);
    assert!(location.starts_with("_b/"));
    assert!(location.ends_with(".parquet"));
    let name = &location[3..35];
    assert!(name.chars().all(|c| c.is_ascii_digit() || ('a'..='f').contains(&c)));
    assert_eq!(name.as_bytes()[12], b'4');
    assert!(matches!(name.as_bytes()[16], b'8' | b'9' | b'a' | b'b'));
}

#[test]
fn test_segment_location_shape() {
    let location = gen_segment_info_location();
    assert_eq!(location.len(), 4 + 32);
    assert!(location.starts_with("_sg/"));
    assert_ne!(location, gen_segment_info_location());
}
