use chrono::{DateTime, FixedOffset, Utc};
use solrust::types::datetime::{from_wire_date, to_wire_date};

#[test]
fn utc_offset_written_as_z() {
    assert_eq!(to_wire_date("2022-10-01T12:30:15+00:00"), "2022-10-01T12:30:15Z");
    assert_eq!(to_wire_date("2022-10-01T12:30:15+09:00"), "2022-10-01T12:30:15+09:00");
    assert_eq!(to_wire_date("+00:0"), "+00:0");
    assert_eq!(to_wire_date(""), "");
}

#[test]
fn z_read_as_utc_offset() {
    assert_eq!(from_wire_date("2022-10-01T12:30:15Z"), "2022-10-01T12:30:15+00:00");
    assert_eq!(from_wire_date("2022-10-01T12:30:15"), "2022-10-01T12:30:15");
    assert_eq!(from_wire_date(""), "");
}

#[test]
fn fixed_offset_time_to_wire() {
    let t: DateTime<FixedOffset> = DateTime::parse_from_rfc3339("2022-10-01T12:30:15+09:00").unwrap();
    assert_eq!(to_wire_date(&t.with_timezone(&Utc).to_rfc3339()), "2022-10-01T03:30:15Z");
}

#[test]
fn wire_to_fixed_offset_time() {
    let t = DateTime::parse_from_rfc3339(&from_wire_date("2022-10-01T12:30:15Z")).unwrap();
    let expected = DateTime::parse_from_rfc3339("2022-10-01T12:30:15+00:00").unwrap();
    assert_eq!(t, expected);
}
