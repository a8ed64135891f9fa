use crochet_getty::record::{
    fill_field, read_field, Entry, EntryType, NewEntry, RawRecord, Timestamp,
    TryFromNonUtmpxError, TEXT_CAP,
};
use std::convert::TryFrom;

const ALL: [EntryType; 8] = [
    EntryType::Empty,
    EntryType::BootTime,
    EntryType::NewTime,
    EntryType::OldTime,
    EntryType::InitProcess,
    EntryType::LoginProcess,
    EntryType::UserProcess,
    EntryType::DeadProcess,
];

fn raw(kind: i16, user: &[u8], line: &[u8], tv_sec: i32, tv_usec: i32) -> RawRecord {
    RawRecord {
        kind,
        id: fill_field(b""),
        user: fill_field(user),
        line: fill_field(line),
        tv_sec,
        tv_usec,
    }
}

#[test]
fn codes_follow_the_platform_table() {
    let codes: Vec<i16> = ALL.iter().map(|k| k.code()).collect();
    assert_eq!(codes, vec![0, 2, 3, 4, 5, 6, 7, 8]);
    let via_into: i16 = EntryType::UserProcess.into();
    assert_eq!(via_into, 7);
    for k in ALL {
        assert_eq!(EntryType::from_code(k.code()), Some(k));
        assert_eq!(EntryType::try_from(k.code()), Ok(k));
    }
}

#[test]
fn unknown_codes_are_not_kinds() {
    for c in [1i16, 9, 10, -1, i16::MIN, i16::MAX] {
        assert_eq!(EntryType::from_code(c), None);
        assert_eq!(EntryType::try_from(c), Err(TryFromNonUtmpxError));
    }
}

#[test]
fn unknown_kind_decodes_to_none() {
    let r = raw(9, b"bob", b"tty2", 10, 0);
    let e = Entry::from_raw(&r);
    assert_eq!(e.kind, None);
    assert_eq!(e.user, b"bob".to_vec());
    let r = raw(1, b"bob", b"tty2", 10, 0);
    assert_eq!(Entry::from_raw(&r).kind, None);
}

#[test]
fn kinds_order_by_code() {
    assert!(EntryType::NewTime < EntryType::OldTime);
    assert!(EntryType::BootTime < EntryType::NewTime);
    assert!(EntryType::LoginProcess < EntryType::UserProcess);
    assert!(EntryType::DeadProcess > EntryType::UserProcess);
    for a in ALL {
        for b in ALL {
            assert_eq!(a < b, a.code() < b.code());
            assert_eq!(a.partial_cmp(&b), a.code().partial_cmp(&b.code()));
            assert_eq!(a.cmp(&b), a.code().cmp(&b.code()));
        }
    }
}

#[test]
fn field_pads_short_text_with_zeros() {
    let f = fill_field(b"abc");
    assert_eq!(f.len(), TEXT_CAP);
    assert_eq!(&f[..3], b"abc");
    assert!(f[3..].iter().all(|b| *b == 0));
    assert_eq!(read_field(&f), b"abc".to_vec());
    assert_eq!(read_field(&fill_field(b"")), Vec::<u8>::new());
}

#[test]
fn field_at_capacity_has_no_terminator() {
    let text = vec![b'x'; TEXT_CAP];
    let f = fill_field(&text);
    assert_eq!(f, text);
    assert!(f.iter().all(|b| *b != 0));
    assert_eq!(read_field(&f), text);
}

#[test]
fn field_over_capacity_is_truncated() {
    let mut text = vec![b'y'; TEXT_CAP];
    text.push(b'z');
    let f = fill_field(&text);
    assert_eq!(f.len(), TEXT_CAP);
    assert_eq!(read_field(&f), vec![b'y'; TEXT_CAP]);
}

#[test]
fn read_stops_at_first_zero() {
    let f = vec![b'a', b'b', 0, b'c'];
    assert_eq!(read_field(&f), b"ab".to_vec());
}

#[test]
fn encode_fills_every_field() {
    let e = NewEntry {
        id: "tty1".to_string(),
        kind: EntryType::LoginProcess,
        user: "LOGIN".to_string(),
        line: "tty1".to_string(),
        time: Timestamp { secs: 1_600_000_000, nanos: 987_654_321 },
    };
    let r = e.into_raw();
    assert_eq!(r.kind, 6);
    assert_eq!(r.id, fill_field(b"tty1"));
    assert_eq!(r.user, fill_field(b"LOGIN"));
    assert_eq!(r.line, fill_field(b"tty1"));
    assert_eq!(r.tv_sec, 1_600_000_000);
    assert_eq!(r.tv_usec, 987_654);
}

#[test]
fn decode_carries_whole_seconds_of_micros() {
    let r = raw(7, b"u", b"l", 5, 2_500_000);
    let e = Entry::from_raw(&r);
    assert_eq!(e.time, Timestamp { secs: 7, nanos: 500_000_000 });
}

#[test]
fn round_trip_keeps_kind_text_and_micros() {
    let long_user = "u".repeat(40);
    let e = NewEntry {
        id: "7".to_string(),
        kind: EntryType::DeadProcess,
        user: long_user,
        line: "pts/3".to_string(),
        time: Timestamp { secs: 0, nanos: 999_999_999 },
    };
    let r = e.into_raw();
    let d = Entry::from_raw(&r);
    assert_eq!(d.kind, Some(EntryType::DeadProcess));
    assert_eq!(d.user, vec![b'u'; TEXT_CAP]);
    assert_eq!(d.line, b"pts/3".to_vec());
    assert_eq!(d.time, Timestamp { secs: 0, nanos: 999_999_000 });
}

#[test]
fn write_then_read_back_user_process() {
    let t = Timestamp { secs: 1_700_000_123, nanos: 456_789_012 };
    let e = NewEntry {
        id: "ttyS0".to_string(),
        kind: EntryType::UserProcess,
        user: "alice".to_string(),
        line: "ttyS0".to_string(),
        time: t,
    };
    let stored = e.into_raw();
    let d = Entry::from_raw(&stored);
    assert_eq!(d.kind, Some(EntryType::UserProcess));
    assert_eq!(d.user, b"alice".to_vec());
    assert_eq!(d.line, b"ttyS0".to_vec());
    assert_eq!(d.time, Timestamp { secs: 1_700_000_123, nanos: 456_789_000 });
}

#[test]
fn largest_seconds_encode() {
    let e = NewEntry {
        id: String::new(),
        kind: EntryType::BootTime,
        user: String::new(),
        line: String::new(),
        time: Timestamp { secs: i32::MAX as i64, nanos: 0 },
    };
    let r = e.into_raw();
    assert_eq!(r.tv_sec, i32::MAX);
    let d = Entry::from_raw(&r);
    assert_eq!(d.time.secs, i32::MAX as i64);
    assert!(d.user.is_empty());
}
