use chrono::{Datelike, Timelike};
use vstd::prelude::*;

verus! {

/// A UTC time of day to the minute, as used in backup file names.
#[derive(Clone, Copy, Debug, PartialEq, Eq, Structural)]
pub struct Stamp {
    pub year: u32,
    pub month: u32,
    pub day: u32,
    pub hour: u32,
    pub minute: u32,
}

impl Stamp {
    /// Each field lies in its calendar range, and the year has four digits.
    pub open spec fn wf(&self) -> bool {
        &&& self.year <= 9999
        &&& 1 <= self.month <= 12
        &&& 1 <= self.day <= 31
        &&& self.hour <= 23
        &&& self.minute <= 59
    }

    /// The start of the Unix epoch, 1970-01-01 00:00.
    pub fn unix_epoch() -> (r: Stamp)
        ensures
            r == (Stamp { year: 1970, month: 1, day: 1, hour: 0, minute: 0 }),
            r.wf(),
    {
        Stamp { year: 1970, month: 1, day: 1, hour: 0, minute: 0 }
    }

    /// Builds a stamp; `None` where a field is out of its range.
    pub fn new(year: i32, month: u32, day: u32, hour: u32, minute: u32) -> (r: Option<Stamp>)
        ensures
            r is Some <==> (0 <= year <= 9999 && 1 <= month <= 12 && 1 <= day <= 31 && hour
                <= 23 && minute <= 59),
            r matches Some(s) ==> s.wf() && s.year == year && s.month == month && s.day == day
                && s.hour == hour && s.minute == minute,
    {
        if 0 <= year && year <= 9999 && 1 <= month && month <= 12 && 1 <= day && day <= 31
            && hour <= 23 && minute <= 59 {
            Some(Stamp { year: year as u32, month, day, hour, minute })
        } else {
            None
        }
    }
}

/// The decimal digit for `d`, taken to lie in `0..10`.
pub open spec fn digit_char(d: int) -> char {
    if d == 0 {
        '0'
    } else if d == 1 {
        '1'
    } else if d == 2 {
        '2'
    } else if d == 3 {
        '3'
    } else if d == 4 {
        '4'
    } else if d == 5 {
        '5'
    } else if d == 6 {
        '6'
    } else if d == 7 {
        '7'
    } else if d == 8 {
        '8'
    } else {
        '9'
    }
}

/// `v` in decimal on two digits, zero-padded.
pub open spec fn two_digits(v: int) -> Seq<char> {
    seq![digit_char(v / 10 % 10), digit_char(v % 10)]
}

/// `v` in decimal on four digits, zero-padded.
pub open spec fn four_digits(v: int) -> Seq<char> {
    seq![digit_char(v / 1000 % 10), digit_char(v / 100 % 10), digit_char(v / 10 % 10), digit_char(v % 10)]
}

/// The stamp as `YYYYMMDD-HHMM`.
pub open spec fn stamp_text(s: Stamp) -> Seq<char> {
    four_digits(s.year as int) + two_digits(s.month as int) + two_digits(s.day as int) + seq!['-']
        + two_digits(s.hour as int) + two_digits(s.minute as int)
}

/// `<name>_<method>_<YYYYMMDD-HHMM>.backup`
pub open spec fn backup_file_name(name: Seq<char>, method: Seq<char>, s: Stamp) -> Seq<char> {
    name + "_"@ + method + "_"@ + stamp_text(s) + ".backup"@
}

/// Whether `c` is one of the ten decimal digits.
pub open spec fn is_digit(c: char) -> bool {
    '0' <= c <= '9'
}

/// A backup file name is `<name>_<method>_<stamp>.backup`, where the stamp is
/// thirteen characters, `YYYYMMDD-HHMM`: eight digits, a dash, four digits.
pub proof fn lemma_file_name_shape(name: Seq<char>, method: Seq<char>, s: Stamp)
    ensures
        backup_file_name(name, method, s) == name + "_"@ + method + "_"@ + stamp_text(s)
            + ".backup"@,
        stamp_text(s).len() == 13,
        stamp_text(s)[8] == '-',
        forall|i: int| 0 <= i < 13 && i != 8 ==> is_digit(#[trigger] stamp_text(s)[i]),
{
    let t = stamp_text(s);
    assert forall|i: int| 0 <= i < 13 && i != 8 implies is_digit(#[trigger] t[i]) by {
        assert(t[i] == digit_char(0) || t[i] == digit_char(1) || t[i] == digit_char(2) || t[i]
            == digit_char(3) || t[i] == digit_char(4) || t[i] == digit_char(5) || t[i]
            == digit_char(6) || t[i] == digit_char(7) || t[i] == digit_char(8) || t[i]
            == digit_char(9));
    }
}

fn digit_str(d: u32) -> (r: &'static str)
    requires
        d < 10,
    ensures
        r@ == seq![digit_char(d as int)],
{
    proof {
        reveal_strlit("0");
        reveal_strlit("1");
        reveal_strlit("2");
        reveal_strlit("3");
        reveal_strlit("4");
        reveal_strlit("5");
        reveal_strlit("6");
        reveal_strlit("7");
        reveal_strlit("8");
        reveal_strlit("9");
    }
    match d {
        0 => "0",
        1 => "1",
        2 => "2",
        3 => "3",
        4 => "4",
        5 => "5",
        6 => "6",
        7 => "7",
        8 => "8",
        _ => "9",
    }
}

fn append_two_digits(s: &mut String, v: u32)
    ensures
        final(s)@ == old(s)@ + two_digits(v as int),
{
    s.append(digit_str(v / 10 % 10));
    s.append(digit_str(v % 10));
    assert(final(s)@ =~= old(s)@ + two_digits(v as int));
}

fn append_four_digits(s: &mut String, v: u32)
    ensures
        final(s)@ == old(s)@ + four_digits(v as int),
{
    s.append(digit_str(v / 1000 % 10));
    s.append(digit_str(v / 100 % 10));
    s.append(digit_str(v / 10 % 10));
    s.append(digit_str(v % 10));
    assert(final(s)@ =~= old(s)@ + four_digits(v as int));
}

/// The name under which the backup of a host made at `stamp` is stored.
pub fn make_backup_file_name(name: &str, method: &str, stamp: &Stamp) -> (r: String)
    ensures
        r@ == backup_file_name(name@, method@, *stamp),
{
    let mut s = String::from_str(name);
    s.append("_");
    s.append(method);
    s.append("_");
    append_four_digits(&mut s, stamp.year);
    append_two_digits(&mut s, stamp.month);
    append_two_digits(&mut s, stamp.day);
    proof {
        reveal_strlit("-");
    }
    s.append("-");
    append_two_digits(&mut s, stamp.hour);
    append_two_digits(&mut s, stamp.minute);
    s.append(".backup");
    assert(s@ =~= backup_file_name(name@, method@, *stamp));
    s
}

#[verifier::external_type_specification]
#[verifier::external_body]
pub struct ExSystemTime(std::time::SystemTime);

/// Relies on `std::time::SystemTime::now`: the system clock, of which nothing
/// is promised.
#[verifier::external_body]
fn system_now() -> std::time::SystemTime {
    std::time::SystemTime::now()
}

/// Relies on `SystemTime::duration_since(UNIX_EPOCH)`: the whole seconds and
/// the nanoseconds since the Unix epoch, or `None` for a time before it. The
/// nanoseconds of a `Duration` stay below one billion.
#[verifier::external_body]
fn unix_time(t: &std::time::SystemTime) -> (r: Option<(u64, u32)>)
    ensures
        r matches Some(p) ==> p.1 < 1_000_000_000,
{
    match t.duration_since(std::time::UNIX_EPOCH) {
        Ok(d) => Some((d.as_secs(), d.subsec_nanos())),
        Err(_) => None,
    }
}

/// The UTC year, month, day, hour and minute that chrono gives for a Unix
/// time of `secs` seconds and `nanos` nanoseconds; `None` out of its range.
pub uninterp spec fn utc_fields_of(secs: i64, nanos: u32) -> Option<(i32, u32, u32, u32, u32)>;

/// Relies on chrono's `DateTime::from_timestamp`, which gives `None` out of
/// its range, and its `Datelike` / `Timelike` accessors: month in 1..=12, day
/// in 1..=31, hour in 0..=23, minute in 0..=59.
#[verifier::external_body]
fn utc_fields(secs: i64, nanos: u32) -> (r: Option<(i32, u32, u32, u32, u32)>)
    ensures
        r == utc_fields_of(secs, nanos),
        r matches Some(f) ==> 1 <= f.1 <= 12 && 1 <= f.2 <= 31 && f.3 <= 23 && f.4 <= 59,
{
    match chrono::DateTime::from_timestamp(secs, nanos) {
        Some(t) => Some((t.year(), t.month(), t.day(), t.hour(), t.minute())),
        None => None,
    }
}

/// The stamp of calendar fields, where each lies in its range.
pub open spec fn stamp_of(f: Option<(i32, u32, u32, u32, u32)>) -> Option<Stamp> {
    match f {
        Some((year, month, day, hour, minute)) => if 0 <= year <= 9999 && 1 <= month <= 12 && 1
            <= day <= 31 && hour <= 23 && minute <= 59 {
            Some(Stamp { year: year as u32, month, day, hour, minute })
        } else {
            None
        },
        None => None,
    }
}

/// The stamp of the Unix time `secs` seconds and `nanos` nanoseconds; `None`
/// where the time lies beyond what chrono or a four-digit year can hold.
pub fn stamp_from_unix(secs: u64, nanos: u32) -> (r: Option<Stamp>)
    ensures
        secs > 9_223_372_036_854_775_807u64 ==> r is None,
        secs <= 9_223_372_036_854_775_807u64 ==> r == stamp_of(utc_fields_of(secs as i64, nanos)),
        r matches Some(s) ==> s.wf(),
{
    if secs > 9_223_372_036_854_775_807u64 {
        return None;
    }
    match utc_fields(secs as i64, nanos) {
        Some((year, month, day, hour, minute)) => Stamp::new(year, month, day, hour, minute),
        None => None,
    }
}

/// The current UTC time to the minute; `None` where the clock reads a time
/// before 1970 or one that `stamp_from_unix` cannot hold.
pub fn current_stamp() -> (r: Option<Stamp>)
    ensures
        r matches Some(s) ==> s.wf(),
{
    let now = system_now();
    match unix_time(&now) {
        Some((secs, nanos)) => stamp_from_unix(secs, nanos),
        None => None,
    }
}

} // verus!
