use chrono::{Datelike, Timelike};
use vstd::prelude::*;

verus! {

/// A submission: the caller-supplied name, email and message.
#[derive(Clone, Debug, PartialEq, Eq)]
pub struct Item {
    pub name: String,
    pub email: String,
    pub message: String,
}

/// A UTC instant held as the calendar and clock fields the key shows.
#[derive(Clone, Copy, Debug, PartialEq, Eq)]
pub struct UtcInstant {
    pub year: i32,
    pub month: u32,
    pub day: u32,
    pub hour: u32,
    pub minute: u32,
    pub second: u32,
    pub nanosecond: u32,
}

impl UtcInstant {
    /// The field ranges of a calendar instant.
    pub open spec fn wf(self) -> bool {
        &&& 1 <= self.month <= 12
        &&& 1 <= self.day <= 31
        &&& self.hour < 24
        &&& self.minute < 60
        &&& self.second < 60
        &&& self.nanosecond < 1_000_000_000
    }

    /// Whether the year has the four digits the fixed-width key gives it.
    pub open spec fn four_digit_year(self) -> bool {
        0 <= self.year <= 9999
    }

    /// The whole microseconds into the second.
    pub open spec fn micros(self) -> nat {
        (self.nanosecond / 1000) as nat
    }

    /// What the key shows of the instant: the fields at microsecond precision.
    pub open spec fn shown(self) -> (int, u32, u32, u32, u32, u32, nat) {
        (self.year as int, self.month, self.day, self.hour, self.minute, self.second, self.micros())
    }
}

/// Relies on `SystemTime::duration_since(UNIX_EPOCH)` applied to
/// `SystemTime::now()`: `None` where the clock reads before the epoch, else
/// the whole seconds since it and the nanoseconds past them, which
/// `Duration::subsec_nanos` keeps below one billion.
#[verifier::external_body]
fn since_epoch() -> (r: Option<(u64, u32)>)
    ensures
        r matches Some(d) ==> d.1 < 1_000_000_000,
{
    match std::time::SystemTime::now().duration_since(std::time::UNIX_EPOCH) {
        Ok(d) => Some((d.as_secs(), d.subsec_nanos())),
        Err(_) => None,
    }
}

/// Relies on chrono's `DateTime::from_timestamp` and the `Datelike` /
/// `Timelike` accessors: `None` for seconds out of range or an invalid
/// nanosecond; else month in 1..=12, day in 1..=31, hour, minute and second
/// in range, and the nanosecond as given.
#[verifier::external_body]
fn utc_from_timestamp(secs: i64, nsecs: u32) -> (r: Option<UtcInstant>)
    ensures
        r matches Some(t) ==> {
            &&& 1 <= t.month <= 12
            &&& 1 <= t.day <= 31
            &&& t.hour < 24
            &&& t.minute < 60
            &&& t.second < 60
            &&& t.nanosecond == nsecs
        },
{
    match chrono::DateTime::from_timestamp(secs, nsecs) {
        Some(t) => Some(UtcInstant {
            year: t.year(),
            month: t.month(),
            day: t.day(),
            hour: t.hour(),
            minute: t.minute(),
            second: t.second(),
            nanosecond: t.nanosecond(),
        }),
        None => None,
    }
}

/// The current UTC instant, or `None` where the clock reads before the Unix
/// epoch or beyond the calendar's range.
pub(crate) fn utc_now() -> (r: Option<UtcInstant>)
    ensures
        r matches Some(t) ==> t.wf(),
{
    match since_epoch() {
        None => None,
        Some((secs, nsecs)) => {
            if secs > 0x7fff_ffff_ffff_ffff {
                None
            } else {
                utc_from_timestamp(secs as i64, nsecs)
            }
        },
    }
}

/// The character of a decimal digit.
pub open spec fn digit_char(d: nat) -> char {
    if d == 0 { '0' }
    else if d == 1 { '1' }
    else if d == 2 { '2' }
    else if d == 3 { '3' }
    else if d == 4 { '4' }
    else if d == 5 { '5' }
    else if d == 6 { '6' }
    else if d == 7 { '7' }
    else if d == 8 { '8' }
    else { '9' }
}

/// The last `width` decimal digits of `n`, zero-padded.
pub open spec fn decimal(n: nat, width: nat) -> Seq<char>
    decreases width,
{
    if width == 0 {
        seq![]
    } else {
        decimal(n / 10, (width - 1) as nat).push(digit_char(n % 10))
    }
}

pub open spec fn pow10(width: nat) -> nat
    decreases width,
{
    if width == 0 { 1 } else { 10 * pow10((width - 1) as nat) }
}

/// The instant as `YYYY-MM-DDTHH:MM:SS.ffffffZ`: fixed-width, sortable,
/// microsecond precision, UTC marker.
pub open spec fn timestamp_text(t: UtcInstant) -> Seq<char> {
    decimal(t.year as nat, 4) + seq!['-'] + decimal(t.month as nat, 2) + seq!['-']
        + decimal(t.day as nat, 2) + seq!['T'] + decimal(t.hour as nat, 2) + seq![':']
        + decimal(t.minute as nat, 2) + seq![':'] + decimal(t.second as nat, 2) + seq!['.']
        + decimal(t.micros(), 6) + seq!['Z']
}

pub open spec fn is_digit(c: char) -> bool {
    '0' <= c <= '9'
}

/// The shape of a timestamp: digits everywhere but the separators.
pub open spec fn is_timestamp_text(s: Seq<char>) -> bool {
    &&& s.len() == 27
    &&& s[4] == '-' && s[7] == '-' && s[10] == 'T' && s[13] == ':' && s[16] == ':'
    &&& s[19] == '.' && s[26] == 'Z'
    &&& forall|i: int|
        0 <= i < 26 && i != 4 && i != 7 && i != 10 && i != 13 && i != 16 && i != 19
            ==> #[trigger] is_digit(s[i])
}

/// The composite key of a record: the email, `#`, then the timestamp.
pub open spec fn composite_key(email: Seq<char>, t: UtcInstant) -> Seq<char> {
    email + seq!['#'] + timestamp_text(t)
}

/// A submission as persisted: its fields and the composite key it is stored under.
#[derive(Clone, Debug, PartialEq, Eq)]
pub struct StoredRecord {
    pub composite_key: String,
    pub name: String,
    pub email: String,
    pub message: String,
}

fn digit_str(d: u32) -> (r: &'static str)
    requires
        d < 10,
    ensures
        r@ == seq![digit_char(d as nat)],
{
    proof {
        reveal_strlit("0");
        reveal_strlit("1");
        reveal_strlit("2");
        reveal_strlit("3");
        reveal_strlit("4");
        reveal_strlit("5");
        reveal_strlit("6");
        reveal_strlit("7");
        reveal_strlit("8");
        reveal_strlit("9");
    }
    match d {
        0 => "0",
        1 => "1",
        2 => "2",
        3 => "3",
        4 => "4",
        5 => "5",
        6 => "6",
        7 => "7",
        8 => "8",
        _ => "9",
    }
}

/// Appends the last `width` decimal digits of `n`, zero-padded.
fn push_decimal(s: &mut String, n: u32, width: u32)
    ensures
        final(s)@ == old(s)@ + decimal(n as nat, width as nat),
    decreases width,
{
    if width > 0 {
        push_decimal(s, n / 10, width - 1);
        s.append(digit_str(n % 10));
        assert(final(s)@ =~= old(s)@ + decimal(n as nat, width as nat));
    } else {
        assert(final(s)@ =~= old(s)@ + decimal(n as nat, width as nat));
    }
}

pub(crate) fn push_str(s: &mut String, t: &str)
    ensures
        final(s)@ == old(s)@ + t@,
{
    s.append(t);
}

/// Formats an instant as `YYYY-MM-DDTHH:MM:SS.ffffffZ`.
pub fn format_timestamp(t: &UtcInstant) -> (r: String)
    requires
        t.four_digit_year(),
    ensures
        r@ == timestamp_text(*t),
{
    proof {
        reveal_strlit("");
        reveal_strlit("-");
        reveal_strlit("T");
        reveal_strlit(":");
        reveal_strlit(".");
        reveal_strlit("Z");
    }
    let mut s = String::from_str("");
    push_decimal(&mut s, t.year as u32, 4);
    push_str(&mut s, "-");
    push_decimal(&mut s, t.month, 2);
    push_str(&mut s, "-");
    push_decimal(&mut s, t.day, 2);
    push_str(&mut s, "T");
    push_decimal(&mut s, t.hour, 2);
    push_str(&mut s, ":");
    push_decimal(&mut s, t.minute, 2);
    push_str(&mut s, ":");
    push_decimal(&mut s, t.second, 2);
    push_str(&mut s, ".");
    push_decimal(&mut s, t.nanosecond / 1000, 6);
    push_str(&mut s, "Z");
    assert(s@ =~= timestamp_text(*t));
    s
}

/// Derives the record stored for `item` when written at instant `at`.
pub fn stored_record(item: &Item, at: &UtcInstant) -> (r: StoredRecord)
    requires
        at.four_digit_year(),
    ensures
        r.composite_key@ == composite_key(item.email@, *at),
        r.name@ == item.name@,
        r.email@ == item.email@,
        r.message@ == item.message@,
{
    proof {
        reveal_strlit("#");
    }
    let stamp = format_timestamp(at);
    let mut key = item.email.clone();
    push_str(&mut key, "#");
    push_str(&mut key, stamp.as_str());
    StoredRecord {
        composite_key: key,
        name: item.name.clone(),
        email: item.email.clone(),
        message: item.message.clone(),
    }
}

proof fn lemma_decimal_shape(n: nat, width: nat)
    ensures
        decimal(n, width).len() == width,
        forall|i: int| 0 <= i < width ==> #[trigger] is_digit(decimal(n, width)[i]),
    decreases width,
{
    if width > 0 {
        lemma_decimal_shape(n / 10, (width - 1) as nat);
    }
}

proof fn lemma_decimal_injective(a: nat, b: nat, width: nat)
    requires
        a < pow10(width),
        b < pow10(width),
        decimal(a, width) == decimal(b, width),
    ensures
        a == b,
    decreases width,
{
    if width > 0 {
        let w1 = (width - 1) as nat;
        let da = decimal(a / 10, w1);
        let db = decimal(b / 10, w1);
        assert(decimal(a, width).last() == digit_char(a % 10));
        assert(decimal(b, width).last() == digit_char(b % 10));
        assert(a % 10 == b % 10);
        assert(da =~= decimal(a, width).drop_last());
        assert(db =~= decimal(b, width).drop_last());
        assert(a / 10 < pow10(w1));
        assert(b / 10 < pow10(w1));
        lemma_decimal_injective(a / 10, b / 10, w1);
    }
}

proof fn lemma_pow10_values()
    ensures
        pow10(2) == 100,
        pow10(4) == 10000,
        pow10(6) == 1000000,
{
    assert(pow10(0) == 1);
    assert(pow10(1) == 10);
    assert(pow10(2) == 100);
    assert(pow10(3) == 1000);
    assert(pow10(4) == 10000);
    assert(pow10(5) == 100000);
    assert(pow10(6) == 1000000);
}

/// Every four-digit-year instant formats to the fixed timestamp shape.
pub proof fn lemma_timestamp_shape(t: UtcInstant)
    requires
        t.four_digit_year(),
    ensures
        is_timestamp_text(timestamp_text(t)),
{
    lemma_decimal_shape(t.year as nat, 4);
    lemma_decimal_shape(t.month as nat, 2);
    lemma_decimal_shape(t.day as nat, 2);
    lemma_decimal_shape(t.hour as nat, 2);
    lemma_decimal_shape(t.minute as nat, 2);
    lemma_decimal_shape(t.second as nat, 2);
    lemma_decimal_shape(t.micros(), 6);
    let s = timestamp_text(t);
    assert(s.len() == 27);
    assert forall|i: int|
        0 <= i < 26 && i != 4 && i != 7 && i != 10 && i != 13 && i != 16 && i != 19
            implies #[trigger] is_digit(s[i]) by {
        if i < 4 {
            assert(s[i] == decimal(t.year as nat, 4)[i]);
        } else if i < 7 {
            assert(s[i] == decimal(t.month as nat, 2)[i - 5]);
        } else if i < 10 {
            assert(s[i] == decimal(t.day as nat, 2)[i - 8]);
        } else if i < 13 {
            assert(s[i] == decimal(t.hour as nat, 2)[i - 11]);
        } else if i < 16 {
            assert(s[i] == decimal(t.minute as nat, 2)[i - 14]);
        } else if i < 19 {
            assert(s[i] == decimal(t.second as nat, 2)[i - 17]);
        } else {
            assert(s[i] == decimal(t.micros(), 6)[i - 20]);
        }
    }
}

/// Instants that differ at microsecond precision have different timestamps.
pub proof fn lemma_timestamp_injective(t1: UtcInstant, t2: UtcInstant)
    requires
        t1.wf(),
        t2.wf(),
        t1.four_digit_year(),
        t2.four_digit_year(),
        t1.shown() != t2.shown(),
    ensures
        timestamp_text(t1) != timestamp_text(t2),
{
    if timestamp_text(t1) == timestamp_text(t2) {
        let s1 = timestamp_text(t1);
        let s2 = timestamp_text(t2);
        lemma_decimal_shape(t1.year as nat, 4);
        lemma_decimal_shape(t1.month as nat, 2);
        lemma_decimal_shape(t1.day as nat, 2);
        lemma_decimal_shape(t1.hour as nat, 2);
        lemma_decimal_shape(t1.minute as nat, 2);
        lemma_decimal_shape(t1.second as nat, 2);
        lemma_decimal_shape(t1.micros(), 6);
        lemma_decimal_shape(t2.year as nat, 4);
        lemma_decimal_shape(t2.month as nat, 2);
        lemma_decimal_shape(t2.day as nat, 2);
        lemma_decimal_shape(t2.hour as nat, 2);
        lemma_decimal_shape(t2.minute as nat, 2);
        lemma_decimal_shape(t2.second as nat, 2);
        lemma_decimal_shape(t2.micros(), 6);
        lemma_pow10_values();
        assert(s1.subrange(0, 4) =~= decimal(t1.year as nat, 4));
        assert(s2.subrange(0, 4) =~= decimal(t2.year as nat, 4));
        lemma_decimal_injective(t1.year as nat, t2.year as nat, 4);
        assert(s1.subrange(5, 7) =~= decimal(t1.month as nat, 2));
        assert(s2.subrange(5, 7) =~= decimal(t2.month as nat, 2));
        lemma_decimal_injective(t1.month as nat, t2.month as nat, 2);
        assert(s1.subrange(8, 10) =~= decimal(t1.day as nat, 2));
        assert(s2.subrange(8, 10) =~= decimal(t2.day as nat, 2));
        lemma_decimal_injective(t1.day as nat, t2.day as nat, 2);
        assert(s1.subrange(11, 13) =~= decimal(t1.hour as nat, 2));
        assert(s2.subrange(11, 13) =~= decimal(t2.hour as nat, 2));
        lemma_decimal_injective(t1.hour as nat, t2.hour as nat, 2);
        assert(s1.subrange(14, 16) =~= decimal(t1.minute as nat, 2));
        assert(s2.subrange(14, 16) =~= decimal(t2.minute as nat, 2));
        lemma_decimal_injective(t1.minute as nat, t2.minute as nat, 2);
        assert(s1.subrange(17, 19) =~= decimal(t1.second as nat, 2));
        assert(s2.subrange(17, 19) =~= decimal(t2.second as nat, 2));
        lemma_decimal_injective(t1.second as nat, t2.second as nat, 2);
        assert(s1.subrange(20, 26) =~= decimal(t1.micros(), 6));
        assert(s2.subrange(20, 26) =~= decimal(t2.micros(), 6));
        lemma_decimal_injective(t1.micros(), t2.micros(), 6);
    }
}

} // verus!
