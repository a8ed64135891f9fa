//! Login-accounting records: record kinds, the fixed-layout raw record, and
//! the codec between it and the typed entries.
use vstd::prelude::*;
use vstd::std_specs::cmp::PartialOrdSpec;

verus! {

/// Byte capacity of each fixed-width text field of a record.
pub const TEXT_CAP: usize = 31;

/// The closed set of accounting record kinds, listed in the order of their
/// platform codes.
#[derive(Debug, Clone, Copy, PartialEq, Eq, Ord, Structural)]
pub enum EntryType {
    Empty,
    BootTime,
    NewTime,
    OldTime,
    InitProcess,
    LoginProcess,
    UserProcess,
    DeadProcess,
}

/// Raised when an integer is not the code of any known record kind.
#[derive(Debug, Clone, Copy, PartialEq, Eq, Structural)]
pub struct TryFromNonUtmpxError;

/// The platform integer code of each record kind.
pub open spec fn code_of(k: EntryType) -> i16 {
    match k {
        EntryType::Empty => 0,
        EntryType::BootTime => 2,
        EntryType::NewTime => 3,
        EntryType::OldTime => 4,
        EntryType::InitProcess => 5,
        EntryType::LoginProcess => 6,
        EntryType::UserProcess => 7,
        EntryType::DeadProcess => 8,
    }
}

/// The record kind that carries a given code, if any.
pub open spec fn kind_of_code(c: i16) -> Option<EntryType> {
    if c == 0 {
        Some(EntryType::Empty)
    } else if c == 2 {
        Some(EntryType::BootTime)
    } else if c == 3 {
        Some(EntryType::NewTime)
    } else if c == 4 {
        Some(EntryType::OldTime)
    } else if c == 5 {
        Some(EntryType::InitProcess)
    } else if c == 6 {
        Some(EntryType::LoginProcess)
    } else if c == 7 {
        Some(EntryType::UserProcess)
    } else if c == 8 {
        Some(EntryType::DeadProcess)
    } else {
        None
    }
}

impl EntryType {
    /// The platform code of this kind.
    pub fn code(self) -> (r: i16)
        ensures
            r == code_of(self),
    {
        match self {
            EntryType::Empty => 0,
            EntryType::BootTime => 2,
            EntryType::NewTime => 3,
            EntryType::OldTime => 4,
            EntryType::InitProcess => 5,
            EntryType::LoginProcess => 6,
            EntryType::UserProcess => 7,
            EntryType::DeadProcess => 8,
        }
    }

    /// The kind whose code is `c`, or `None` where no kind has that code.
    pub fn from_code(c: i16) -> (r: Option<EntryType>)
        ensures
            r == kind_of_code(c),
    {
        if c == 0 {
            Some(EntryType::Empty)
        } else if c == 2 {
            Some(EntryType::BootTime)
        } else if c == 3 {
            Some(EntryType::NewTime)
        } else if c == 4 {
            Some(EntryType::OldTime)
        } else if c == 5 {
            Some(EntryType::InitProcess)
        } else if c == 6 {
            Some(EntryType::LoginProcess)
        } else if c == 7 {
            Some(EntryType::UserProcess)
        } else if c == 8 {
            Some(EntryType::DeadProcess)
        } else {
            None
        }
    }
}

impl PartialOrd for EntryType {
    /// Kinds are ordered by their platform codes.
    fn partial_cmp(&self, other: &EntryType) -> (r: Option<core::cmp::Ordering>) {
        let lhs: i16 = (*self).code();
        let rhs: i16 = (*other).code();
        if lhs < rhs {
            Some(core::cmp::Ordering::Less)
        } else if lhs == rhs {
            Some(core::cmp::Ordering::Equal)
        } else {
            Some(core::cmp::Ordering::Greater)
        }
    }
}

impl vstd::std_specs::cmp::PartialOrdSpecImpl for EntryType {
    open spec fn obeys_partial_cmp_spec() -> bool {
        true
    }

    open spec fn partial_cmp_spec(&self, other: &EntryType) -> Option<core::cmp::Ordering> {
        if code_of(*self) < code_of(*other) {
            Some(core::cmp::Ordering::Less)
        } else if code_of(*self) == code_of(*other) {
            Some(core::cmp::Ordering::Equal)
        } else {
            Some(core::cmp::Ordering::Greater)
        }
    }
}

impl From<EntryType> for i16 {
    fn from(k: EntryType) -> (r: i16) {
        k.code()
    }
}

impl vstd::std_specs::convert::FromSpecImpl<EntryType> for i16 {
    open spec fn obeys_from_spec() -> bool {
        true
    }

    open spec fn from_spec(k: EntryType) -> i16 {
        code_of(k)
    }
}

impl TryFrom<i16> for EntryType {
    type Error = TryFromNonUtmpxError;

    fn try_from(item: i16) -> (r: Result<EntryType, TryFromNonUtmpxError>) {
        match EntryType::from_code(item) {
            Some(k) => Ok(k),
            None => Err(TryFromNonUtmpxError),
        }
    }
}

impl vstd::std_specs::convert::TryFromSpecImpl<i16> for EntryType {
    open spec fn obeys_try_from_spec() -> bool {
        true
    }

    open spec fn try_from_spec(item: i16) -> Result<EntryType, TryFromNonUtmpxError> {
        match kind_of_code(item) {
            Some(k) => Ok(k),
            None => Err(TryFromNonUtmpxError),
        }
    }
}

/// Kinds are totally ordered, and `a < b` exactly when the code of `a` is
/// below the code of `b`.
pub proof fn lemma_order_follows_codes(a: EntryType, b: EntryType)
    ensures
        a.partial_cmp_spec(&b) is Some,
        a.partial_cmp_spec(&b) == Some(core::cmp::Ordering::Less) <==> code_of(a) < code_of(b),
        a.partial_cmp_spec(&b) == Some(core::cmp::Ordering::Equal) <==> a == b,
        a.partial_cmp_spec(&b) == Some(core::cmp::Ordering::Greater) <==> code_of(a) > code_of(b),
{
}

/// An absolute time: whole seconds from the Unix epoch (negative before it)
/// and a nanosecond remainder.
#[derive(Debug, Clone, Copy, PartialEq, Eq, Structural)]
pub struct Timestamp {
    pub secs: i64,
    pub nanos: u32,
}

impl Timestamp {
    /// The nanosecond remainder is below one second.
    pub open spec fn wf(&self) -> bool {
        self.nanos < 1_000_000_000
    }

    /// The time at or after the epoch whose whole seconds fit the record's
    /// 32-bit seconds field.
    pub open spec fn fits_record(&self) -> bool {
        &&& self.wf()
        &&& 0 <= self.secs <= i32::MAX
    }
}

/// The time truncated to microsecond precision.
pub open spec fn to_micros(t: Timestamp) -> Timestamp {
    Timestamp { secs: t.secs, nanos: ((t.nanos / 1000) * 1000) as u32 }
}

/// A record about to be written: owns all its text.
#[derive(Debug)]
pub struct NewEntry {
    pub id: String,
    pub kind: EntryType,
    pub user: String,
    pub line: String,
    pub time: Timestamp,
}

/// The fixed-layout record of the accounting store. Each text field holds
/// `TEXT_CAP` bytes; text shorter than that is padded with zero bytes.
#[derive(Debug)]
pub struct RawRecord {
    pub kind: i16,
    pub id: Vec<u8>,
    pub user: Vec<u8>,
    pub line: Vec<u8>,
    pub tv_sec: i32,
    pub tv_usec: i32,
}

impl RawRecord {
    /// Every text field has exactly the field capacity.
    pub open spec fn wf(&self) -> bool {
        &&& self.id@.len() == TEXT_CAP
        &&& self.user@.len() == TEXT_CAP
        &&& self.line@.len() == TEXT_CAP
    }
}

/// A record as read back from the store.
#[derive(Debug)]
pub struct Entry {
    pub kind: Option<EntryType>,
    pub user: Vec<u8>,
    pub line: Vec<u8>,
    pub time: Timestamp,
}

/// The UTF-8 bytes of a text.
pub open spec fn text_bytes(s: Seq<char>) -> Seq<u8> {
    vstd::utf8::encode_utf8(s)
}

/// No byte is zero.
pub open spec fn nul_free(b: Seq<u8>) -> bool {
    forall|i: int| 0 <= i < b.len() ==> b[i] != 0
}

/// `b` cut to the field capacity.
pub open spec fn truncated(b: Seq<u8>) -> Seq<u8> {
    if b.len() <= TEXT_CAP {
        b
    } else {
        b.take(TEXT_CAP as int)
    }
}

/// The field that stores `b`: its first `TEXT_CAP` bytes, then zero bytes.
pub open spec fn fixed_field(b: Seq<u8>) -> Seq<u8> {
    Seq::new(TEXT_CAP as nat, |i: int| if i < b.len() { b[i] } else { 0u8 })
}

/// `t` is the text held in field `f`: the bytes before the first zero byte,
/// or all of them where there is none.
pub open spec fn field_holds(f: Seq<u8>, t: Seq<u8>) -> bool {
    &&& t.len() <= f.len()
    &&& t == f.take(t.len() as int)
    &&& nul_free(t)
    &&& t.len() < f.len() ==> f[t.len() as int] == 0
}

/// `r` is the record that encodes `e`.
pub open spec fn encodes_to(e: NewEntry, r: RawRecord) -> bool {
    &&& r.kind == code_of(e.kind)
    &&& r.id@ == fixed_field(text_bytes(e.id@))
    &&& r.user@ == fixed_field(text_bytes(e.user@))
    &&& r.line@ == fixed_field(text_bytes(e.line@))
    &&& r.tv_sec == e.time.secs
    &&& r.tv_usec == e.time.nanos / 1000
}

/// The time that a record's seconds and microseconds stand for.
pub open spec fn record_time(tv_sec: i32, tv_usec: i32) -> Timestamp {
    Timestamp {
        secs: (tv_sec + tv_usec / 1_000_000) as i64,
        nanos: ((tv_usec % 1_000_000) * 1000) as u32,
    }
}

/// `e` is what record `r` decodes to.
pub open spec fn decodes_to(r: RawRecord, e: Entry) -> bool {
    &&& e.kind == kind_of_code(r.kind)
    &&& field_holds(r.user@, e.user@)
    &&& field_holds(r.line@, e.line@)
    &&& e.time == record_time(r.tv_sec, r.tv_usec)
}

/// Copies at most `TEXT_CAP` bytes of `text` into a new field and pads the
/// rest with zero bytes.
pub fn fill_field(text: &[u8]) -> (r: Vec<u8>)
    ensures
        r@ == fixed_field(text@),
{
    let mut r: Vec<u8> = Vec::new();
    let mut i: usize = 0;
    while i < TEXT_CAP
        invariant
            i <= TEXT_CAP,
            r@.len() == i,
            forall|j: int| 0 <= j < i ==> r@[j] == fixed_field(text@)[j],
        decreases TEXT_CAP - i,
    {
        if i < text.len() {
            r.push(text[i]);
        } else {
            r.push(0u8);
        }
        i = i + 1;
    }
    assert(r@ =~= fixed_field(text@));
    r
}

/// The text of a field: its bytes up to the first zero byte or its end.
pub fn read_field(f: &Vec<u8>) -> (t: Vec<u8>)
    ensures
        field_holds(f@, t@),
{
    let mut t: Vec<u8> = Vec::new();
    let mut i: usize = 0;
    while i < f.len() && f[i] != 0
        invariant
            i <= f@.len(),
            t@ == f@.take(i as int),
            nul_free(t@),
        decreases f@.len() - i,
    {
        t.push(f[i]);
        i = i + 1;
        assert(t@ =~= f@.take(i as int));
    }
    t
}

impl NewEntry {
    /// The record that stores this entry. The time must lie at or after the
    /// epoch and its whole seconds must fit the record's seconds field.
    pub fn into_raw(self) -> (r: RawRecord)
        requires
            self.time.fits_record(),
        ensures
            r.wf(),
            encodes_to(self, r),
    {
        let id = fill_field(self.id.as_str().as_bytes());
        let user = fill_field(self.user.as_str().as_bytes());
        let line = fill_field(self.line.as_str().as_bytes());
        RawRecord {
            kind: self.kind.code(),
            id,
            user,
            line,
            tv_sec: self.time.secs as i32,
            tv_usec: (self.time.nanos / 1000) as i32,
        }
    }
}

impl Entry {
    /// Decodes a record. Both time components must be non-negative.
    pub fn from_raw(u: &RawRecord) -> (r: Entry)
        requires
            u.tv_sec >= 0,
            u.tv_usec >= 0,
        ensures
            decodes_to(*u, r),
            r.time.wf(),
    {
        let secs: i64 = u.tv_sec as i64 + (u.tv_usec / 1_000_000) as i64;
        let nanos: u32 = ((u.tv_usec % 1_000_000) as u32) * 1000;
        Entry {
            kind: EntryType::from_code(u.kind),
            user: read_field(&u.user),
            line: read_field(&u.line),
            time: Timestamp { secs, nanos },
        }
    }
}

/// A field never outgrows its capacity; text of capacity or more fills it
/// with no terminator; and the field reads back as the text cut to capacity.
pub proof fn lemma_field_round_trip(b: Seq<u8>, t: Seq<u8>)
    requires
        nul_free(b),
    ensures
        fixed_field(b).len() == TEXT_CAP,
        b.len() >= TEXT_CAP ==> nul_free(fixed_field(b)),
        field_holds(fixed_field(b), truncated(b)),
        field_holds(fixed_field(b), t) ==> t == truncated(b),
{
    let f = fixed_field(b);
    let c = truncated(b);
    assert(c =~= f.take(c.len() as int));
    if field_holds(f, t) {
        if t.len() < c.len() {
            assert(f[t.len() as int] == b[t.len() as int]);
        } else if t.len() > c.len() {
            assert(t[c.len() as int] == f[c.len() as int]);
        }
        assert(t =~= c);
    }
}

/// Decoding the encoding of an entry whose text holds no zero byte gives back
/// its kind, its text cut to capacity, and its time at microsecond precision.
pub proof fn lemma_round_trip(e: NewEntry, r: RawRecord, d: Entry)
    requires
        e.time.fits_record(),
        nul_free(text_bytes(e.user@)),
        nul_free(text_bytes(e.line@)),
        encodes_to(e, r),
        decodes_to(r, d),
    ensures
        d.kind == Some(e.kind),
        d.user@ == truncated(text_bytes(e.user@)),
        d.line@ == truncated(text_bytes(e.line@)),
        d.time == to_micros(e.time),
{
    lemma_code_table_bijective(e.kind, r.kind);
    lemma_field_round_trip(text_bytes(e.user@), d.user@);
    lemma_field_round_trip(text_bytes(e.line@), d.line@);
}

/// Every kind is found again from its code, and a code that no kind has
/// decodes to no kind.
pub proof fn lemma_code_table_bijective(k: EntryType, c: i16)
    ensures
        kind_of_code(code_of(k)) == Some(k),
        kind_of_code(c) == Some(k) <==> code_of(k) == c,
        (forall|j: EntryType| code_of(j) != c) <==> kind_of_code(c) is None,
{
    if kind_of_code(c) is Some {
        assert(code_of(kind_of_code(c)->Some_0) == c);
    }
}

} // verus!
