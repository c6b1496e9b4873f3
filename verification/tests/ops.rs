use opendal::{OpCreate, OpRead, ObjectMode};

#[test]
fn create_holds_its_mode() {
    assert_eq!(OpCreate::new(ObjectMode::FILE).mode(), ObjectMode::FILE);
    assert_eq!(OpCreate::new(ObjectMode::DIR).mode(), ObjectMode::DIR);
}

#[test]
fn read_holds_offset_and_size() {
    let op = OpRead::new(Some(100), Some(50));
    assert_eq!(op.offset(), Some(100));
    assert_eq!(op.size(), Some(50));
    let op = OpRead::new(None, None);
    assert_eq!(op.offset(), None);
    assert_eq!(op.size(), None);
}

#[test]
fn read_with_offset_and_length_yields_that_range() {
    let op = OpRead::new(Some(100), Some(50));
    assert_eq!(op.byte_range(1000), (100, 150));
}

#[test]
fn read_range_ends_with_the_content() {
    assert_eq!(OpRead::new(Some(980), Some(50)).byte_range(1000), (980, 1000));
    assert_eq!(OpRead::new(Some(1000), Some(50)).byte_range(1000), (1000, 1000));
    assert_eq!(OpRead::new(Some(2000), Some(50)).byte_range(1000), (1000, 1000));
    assert_eq!(OpRead::new(Some(1), Some(u64::MAX)).byte_range(1000), (1, 1000));
}

#[test]
fn read_range_without_offset_or_size() {
    assert_eq!(OpRead::new(None, None).byte_range(1000), (0, 1000));
    assert_eq!(OpRead::new(None, Some(10)).byte_range(1000), (0, 10));
    assert_eq!(OpRead::new(Some(10), None).byte_range(1000), (10, 1000));
    assert_eq!(OpRead::new(None, Some(0)).byte_range(1000), (0, 0));
    assert_eq!(OpRead::new(None, None).byte_range(0), (0, 0));
}
