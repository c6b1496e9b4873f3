use opendal::{AccessorCapability, AccessorMetadata, Capabilities, Scheme};

#[test]
fn empty_set_holds_nothing() {
    let c = Capabilities::empty();
    assert!(!c.contains(AccessorCapability::Read));
    assert!(!c.contains(AccessorCapability::Write));
    assert!(!c.contains(AccessorCapability::List));
}

#[test]
fn sets_grow_by_one_capability() {
    let c = Capabilities::only(AccessorCapability::Write);
    assert!(c.contains(AccessorCapability::Write));
    assert!(!c.contains(AccessorCapability::Read));
    let c = c.with(AccessorCapability::List);
    assert!(c.contains(AccessorCapability::Write));
    assert!(c.contains(AccessorCapability::List));
    assert!(!c.contains(AccessorCapability::Read));
    assert_eq!(c.with(AccessorCapability::List), c);
}

#[test]
fn union_holds_what_either_holds() {
    let a = Capabilities::only(AccessorCapability::Read);
    let b = Capabilities::only(AccessorCapability::List);
    let u = a.union(b);
    assert!(u.contains(AccessorCapability::Read));
    assert!(u.contains(AccessorCapability::List));
    assert!(!u.contains(AccessorCapability::Write));
    assert_eq!(u, b.union(a));
    assert_eq!(a.union(Capabilities::empty()), a);
}

#[test]
fn capability_bits_are_distinct() {
    assert_eq!(AccessorCapability::Read.bit(), 1);
    assert_eq!(AccessorCapability::Write.bit(), 2);
    assert_eq!(AccessorCapability::List.bit(), 4);
}

#[test]
fn accessor_metadata_answers_what_it_was_told() {
    let mut m = AccessorMetadata::new(Scheme::Oss, "/", Capabilities::empty());
    assert_eq!(m.scheme(), Scheme::Oss);
    assert_eq!(m.root(), "/");
    assert!(!m.can_read() && !m.can_write() && !m.can_list());
    m.set_scheme(Scheme::Hdfs)
        .set_root("/data/")
        .set_capabilities(Capabilities::only(AccessorCapability::Read));
    assert_eq!(m.scheme(), Scheme::Hdfs);
    assert_eq!(m.root(), "/data/");
    assert_eq!(m.capabilities(), Capabilities::only(AccessorCapability::Read));
    assert!(m.can_read());
    assert!(!m.can_write());
    assert!(!m.can_list());
}
