use opendal::object::timestamp::NANOS_PER_SECOND;
use opendal::{ObjectEntry, ObjectMetadata, ObjectMode, Timestamp};

#[test]
fn new_metadata_has_only_a_mode() {
    let m = ObjectMetadata::new(ObjectMode::FILE);
    assert_eq!(m.mode(), ObjectMode::FILE);
    assert_eq!(m.content_length(), 0);
    assert_eq!(m.content_length_raw(), None);
    assert_eq!(m.content_md5(), None);
    assert_eq!(m.content_type(), None);
    assert_eq!(m.last_modified(), None);
    assert_eq!(m.etag(), None);
}

#[test]
fn setters_change_one_field_each() {
    let mut m = ObjectMetadata::new(ObjectMode::Unknown);
    let t = Timestamp::from_unix_timestamp(1589780754);
    m.set_mode(ObjectMode::DIR)
        .set_content_length(25)
        .set_content_md5("1B2M2Y8AsgTpgAmY7PhCfg==")
        .set_content_type("text/plain")
        .set_last_modified(t)
        .set_etag("W/\"0815\"");
    assert_eq!(m.mode(), ObjectMode::DIR);
    assert_eq!(m.content_length(), 25);
    assert_eq!(m.content_length_raw(), Some(25));
    assert_eq!(m.content_md5(), Some("1B2M2Y8AsgTpgAmY7PhCfg=="));
    assert_eq!(m.content_type(), Some("text/plain"));
    assert_eq!(m.last_modified(), Some(t));
    assert_eq!(m.etag(), Some("W/\"0815\""));
}

#[test]
fn builders_give_what_setters_give() {
    let t = Timestamp::from_unix_timestamp(7);
    let built = ObjectMetadata::new(ObjectMode::Unknown)
        .with_mode(ObjectMode::FILE)
        .with_content_length(3)
        .with_content_md5("md5")
        .with_content_type("type")
        .with_last_modified(t)
        .with_etag("\"tag\"");
    let mut set = ObjectMetadata::new(ObjectMode::FILE);
    set.set_content_length(3);
    set.set_content_md5("md5");
    set.set_content_type("type");
    set.set_last_modified(t);
    set.set_etag("\"tag\"");
    assert_eq!(built, set);
}

#[test]
fn etag_keeps_its_quotes() {
    let raw = "\"33a64df551425fcc55e4d42a148795d9f25f89d4\"";
    let m = ObjectMetadata::new(ObjectMode::FILE).with_etag(raw);
    assert_eq!(m.etag(), Some(raw));
    assert_eq!(m.etag().map(str::len), Some(raw.len()));
}

#[test]
fn zero_length_is_not_absent_length() {
    let m = ObjectMetadata::new(ObjectMode::FILE).with_content_length(0);
    assert_eq!(m.content_length(), 0);
    assert_eq!(m.content_length_raw(), Some(0));
}

#[test]
fn mode_predicates() {
    assert!(ObjectMode::FILE.is_file());
    assert!(!ObjectMode::FILE.is_dir());
    assert!(ObjectMode::DIR.is_dir());
    assert!(!ObjectMode::Unknown.is_file());
    assert!(!ObjectMode::Unknown.is_dir());
    assert_eq!(ObjectMode::default(), ObjectMode::Unknown);
}

#[test]
fn timestamp_holds_its_parts() {
    let t = Timestamp::new(-5, 999_999_999).expect("within one second");
    assert_eq!(t.unix_timestamp(), -5);
    assert_eq!(t.nanosecond(), 999_999_999);
    assert_eq!(Timestamp::new(0, NANOS_PER_SECOND), None);
    assert_eq!(Timestamp::new(0, u32::MAX), None);
}

#[test]
fn timestamp_truncates_to_the_second() {
    let t = Timestamp::new(1589780754, 123_456_789).expect("within one second");
    let cut = t.truncate_to_second();
    assert_eq!(cut.unix_timestamp(), 1589780754);
    assert_eq!(cut.nanosecond(), 0);
    assert_eq!(cut, Timestamp::from_unix_timestamp(1589780754));
}

#[test]
fn timestamp_parses_rfc3339() {
    let t = Timestamp::parse_rfc3339("2020-05-18T05:45:54.000Z").expect("a date and time");
    assert_eq!(t, Timestamp::from_unix_timestamp(1589780754));
    let t = Timestamp::parse_rfc3339("2020-05-18T05:45:54.25Z").expect("a date and time");
    assert_eq!(t.unix_timestamp(), 1589780754);
    assert_eq!(t.nanosecond(), 250_000_000);
    let t = Timestamp::parse_rfc3339("1970-01-01T01:00:00+01:00").expect("a date and time");
    assert_eq!(t, Timestamp::from_unix_timestamp(0));
}

#[test]
fn timestamp_rejects_what_is_not_rfc3339() {
    assert!(Timestamp::parse_rfc3339("").is_err());
    assert!(Timestamp::parse_rfc3339("2020-05-18").is_err());
    assert!(Timestamp::parse_rfc3339("Mon, 18 May 2020 05:45:54 GMT").is_err());
    assert!(Timestamp::parse_rfc3339("2020-13-18T05:45:54Z").is_err());
}

#[test]
fn timestamp_agrees_with_the_time_crate() {
    let text = "2022-02-18T01:02:03.004005006+01:00";
    let theirs = time::OffsetDateTime::parse(text, &time::format_description::well_known::Rfc3339)
        .expect("a date and time");
    let ours = Timestamp::parse_rfc3339(text).expect("a date and time");
    assert_eq!(ours.unix_timestamp(), theirs.unix_timestamp());
    assert_eq!(ours.nanosecond(), theirs.nanosecond());
    let cut = theirs.replace_nanosecond(0).expect("zero is a nanosecond");
    assert_eq!(ours.truncate_to_second().unix_timestamp(), cut.unix_timestamp());
    assert_eq!(ours.truncate_to_second().nanosecond(), cut.nanosecond());
}

#[test]
fn entry_starts_incomplete() {
    let e = ObjectEntry::new("a/b", ObjectMetadata::new(ObjectMode::FILE).with_content_length(1));
    assert_eq!(e.path(), "a/b");
    assert_eq!(e.mode(), ObjectMode::FILE);
    assert!(!e.is_complete());
    assert!(e.needs_stat());
    let e = e.with_complete();
    assert!(e.is_complete());
    assert!(!e.needs_stat());
    assert_eq!(e.metadata().content_length(), 1);
}

#[test]
fn entry_without_length_needs_stat_even_when_complete() {
    let mut e = ObjectEntry::new("dir/", ObjectMetadata::new(ObjectMode::DIR));
    e.set_complete();
    assert!(e.is_complete());
    assert!(e.needs_stat());
}
