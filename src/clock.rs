//! The displayed time: hour and minute of day at a fixed offset from UTC,
//! as two-character zero-padded texts, with midnight shown as hour 24.

use chrono::Timelike;
use vstd::arithmetic::div_mod::{lemma_fundamental_div_mod, lemma_fundamental_div_mod_converse};
use vstd::prelude::*;

verus! {

/// Offset of the displayed time from UTC, in seconds (UTC+9).
pub const UTC_OFFSET_SECONDS: i32 = 9 * 3600;

/// Earliest Unix timestamp, in seconds, that chrono can represent
/// (January 1, 262144 BCE, 00:00:00 UTC).
pub const MIN_TIMESTAMP: i64 = -8_334_601_228_800;

/// Latest Unix timestamp, in seconds, that chrono can represent
/// (December 31, 262142 CE, 23:59:59 UTC).
pub const MAX_TIMESTAMP: i64 = 8_210_266_876_799;

/// Seconds in a day.
pub const SECONDS_PER_DAY: i32 = 86_400;

/// An instant (seconds since the Unix epoch) that chrono can represent.
pub open spec fn timestamp_in_range(utc_seconds: int) -> bool {
    MIN_TIMESTAMP <= utc_seconds <= MAX_TIMESTAMP
}

/// An offset that chrono accepts for a fixed time zone: under one day either way.
pub open spec fn offset_in_range(offset_seconds: int) -> bool {
    -(SECONDS_PER_DAY as int) < offset_seconds < SECONDS_PER_DAY as int
}

/// Seconds since local midnight at `utc_seconds`, in the zone `offset_seconds` east of UTC.
pub open spec fn seconds_of_day(utc_seconds: int, offset_seconds: int) -> int {
    (utc_seconds + offset_seconds) % (SECONDS_PER_DAY as int)
}

/// Local hour of day, 0 to 23.
pub open spec fn hour_of_day(utc_seconds: int, offset_seconds: int) -> int {
    seconds_of_day(utc_seconds, offset_seconds) / 3600
}

/// Local minute of the hour, 0 to 59.
pub open spec fn minute_of_hour(utc_seconds: int, offset_seconds: int) -> int {
    (seconds_of_day(utc_seconds, offset_seconds) % 3600) / 60
}

/// The hour as displayed: midnight is hour 24, every other hour is itself.
pub open spec fn display_hour(hour: int) -> int {
    if hour == 0 {
        24
    } else {
        hour
    }
}

/// The decimal digit character for `d` in 0 to 9.
pub open spec fn digit_char(d: int) -> char {
    if d == 0 {
        '0'
    } else if d == 1 {
        '1'
    } else if d == 2 {
        '2'
    } else if d == 3 {
        '3'
    } else if d == 4 {
        '4'
    } else if d == 5 {
        '5'
    } else if d == 6 {
        '6'
    } else if d == 7 {
        '7'
    } else if d == 8 {
        '8'
    } else {
        '9'
    }
}

/// The value of a decimal digit character; -1 for any other character.
pub open spec fn digit_value(c: char) -> int {
    if '0' <= c && c <= '9' {
        c as int - '0' as int
    } else {
        -1
    }
}

/// `n` (0 to 99) written with exactly two decimal digits, zero-padded.
pub open spec fn two_digits(n: int) -> Seq<char> {
    seq![digit_char(n / 10), digit_char(n % 10)]
}

/// The hour text and minute text shown for the local time `hour`:`minute`.
pub open spec fn clock_texts(hour: int, minute: int) -> (Seq<char>, Seq<char>) {
    (two_digits(display_hour(hour)), two_digits(minute))
}

/// The hour text and minute text shown at the instant `utc_seconds`.
pub open spec fn clock_texts_at(utc_seconds: int) -> (Seq<char>, Seq<char>) {
    clock_texts(
        hour_of_day(utc_seconds, UTC_OFFSET_SECONDS as int),
        minute_of_hour(utc_seconds, UTC_OFFSET_SECONDS as int),
    )
}

/// The texts shown for some local time of day: an hour text ("01" to "24")
/// and a minute text ("00" to "59").
pub open spec fn is_clock_texts(texts: (Seq<char>, Seq<char>)) -> bool {
    exists|hour: int, minute: int|
        0 <= hour < 24 && 0 <= minute < 60 && texts == #[trigger] clock_texts(hour, minute)
}

/// The displayed time: an hour text ("01" to "24") and a minute text ("00" to "59").
pub struct ClockValue {
    hour_text: String,
    minute_text: String,
}

impl View for ClockValue {
    type V = (Seq<char>, Seq<char>);

    closed spec fn view(&self) -> (Seq<char>, Seq<char>) {
        (self.hour_text@, self.minute_text@)
    }
}

impl ClockValue {
    /// Every clock value holds the texts of some local time of day.
    #[verifier::type_invariant]
    spec fn shows_time_of_day(self) -> bool {
        is_clock_texts((self.hour_text@, self.minute_text@))
    }

    /// The hour text, "01" to "24".
    pub fn hour_text(&self) -> (r: &str)
        ensures
            r@ == self@.0,
            is_clock_texts(self@),
    {
        proof {
            use_type_invariant(self);
        }
        self.hour_text.as_str()
    }

    /// The minute text, "00" to "59".
    pub fn minute_text(&self) -> (r: &str)
        ensures
            r@ == self@.1,
            is_clock_texts(self@),
    {
        proof {
            use_type_invariant(self);
        }
        self.minute_text.as_str()
    }

    /// Hour text followed by minute text, four characters ("0905", "2430").
    pub fn text(&self) -> (r: String)
        ensures
            r@ == self@.0 + self@.1,
            is_clock_texts(self@),
    {
        proof {
            use_type_invariant(self);
        }
        let hour = String::from_str(self.hour_text.as_str());
        hour.concat(self.minute_text.as_str())
    }
}

/// A one-character string holding the decimal digit `d`.
fn digit_str(d: u32) -> (r: &'static str)
    requires
        d < 10,
    ensures
        r@ == seq![digit_char(d as int)],
{
    proof {
        reveal_strlit("0");
        reveal_strlit("1");
        reveal_strlit("2");
        reveal_strlit("3");
        reveal_strlit("4");
        reveal_strlit("5");
        reveal_strlit("6");
        reveal_strlit("7");
        reveal_strlit("8");
        reveal_strlit("9");
    }
    let r = match d {
        0 => "0",
        1 => "1",
        2 => "2",
        3 => "3",
        4 => "4",
        5 => "5",
        6 => "6",
        7 => "7",
        8 => "8",
        _ => "9",
    };
    assert(r@ =~= seq![digit_char(d as int)]);
    r
}

/// `n` written with two decimal digits, zero-padded.
pub fn two_digit_text(n: u32) -> (r: String)
    requires
        n < 100,
    ensures
        r@ == two_digits(n as int),
{
    let tens = String::from_str(digit_str(n / 10));
    let r = tens.concat(digit_str(n % 10));
    assert(r@ =~= two_digits(n as int));
    r
}

/// The clock value shown for the local time `hour`:`minute`.
pub fn clock_value_from_time_of_day(hour: u32, minute: u32) -> (r: ClockValue)
    requires
        hour < 24,
        minute < 60,
    ensures
        r@ == clock_texts(hour as int, minute as int),
{
    assert(is_clock_texts(clock_texts(hour as int, minute as int)));
    let shown: u32 = if hour == 0 {
        24
    } else {
        hour
    };
    ClockValue { hour_text: two_digit_text(shown), minute_text: two_digit_text(minute) }
}

/// Relies on chrono's `FixedOffset::east_opt`, `DateTime::from_timestamp` and
/// `DateTime::with_timezone`, read through `Timelike::hour` and `Timelike::minute`:
/// the local time of day at an instant, in a zone a fixed number of seconds east of UTC.
/// `None` where chrono refuses the offset or the instant.
#[verifier::external_body]
fn local_time_of_day(utc_seconds: i64, offset_seconds: i32) -> (r: Option<(u32, u32)>)
    ensures
        r is Some <==> (offset_in_range(offset_seconds as int) && timestamp_in_range(utc_seconds as int)),
        r matches Some((h, m)) ==> (h == hour_of_day(utc_seconds as int, offset_seconds as int) && m == minute_of_hour(utc_seconds as int, offset_seconds as int)),
{
    match (chrono::FixedOffset::east_opt(offset_seconds), chrono::DateTime::from_timestamp(utc_seconds, 0)) {
        (Some(offset), Some(t)) => {
            let local = t.with_timezone(&offset);
            Some((local.hour(), local.minute()))
        },
        _ => None,
    }
}

/// Relies on chrono's `From<SystemTime> for DateTime<Utc>`, applied to
/// `SystemTime::now` and read as a Unix timestamp by `DateTime::timestamp`: the
/// current instant in whole seconds. The conversion takes instants before the
/// Unix epoch as well as after; a `DateTime<Utc>` always lies in chrono's range.
/// It panics only for a system clock set outside chrono's range (past the year 262142).
#[verifier::external_body]
pub(crate) fn utc_now_seconds() -> (r: i64)
    ensures
        timestamp_in_range(r as int),
{
    chrono::DateTime::<chrono::Utc>::from(std::time::SystemTime::now()).timestamp()
}

/// The clock value shown at the instant `utc_seconds` (seconds since the Unix
/// epoch); `None` for an instant outside chrono's range.
pub fn clock_value_at(utc_seconds: i64) -> (r: Option<ClockValue>)
    ensures
        r is Some <==> timestamp_in_range(utc_seconds as int),
        r matches Some(v) ==> v@ == clock_texts_at(utc_seconds as int),
{
    match local_time_of_day(utc_seconds, UTC_OFFSET_SECONDS) {
        Some((hour, minute)) => {
            proof {
                lemma_time_of_day_bounds(utc_seconds as int, UTC_OFFSET_SECONDS as int);
            }
            Some(clock_value_from_time_of_day(hour, minute))
        },
        None => None,
    }
}

/// The clock value shown now.
pub fn compute_clock_value() -> (r: ClockValue)
    ensures
        exists|t: int| timestamp_in_range(t) && r@ == #[trigger] clock_texts_at(t),
{
    let now = utc_now_seconds();
    clock_value_at(now).unwrap()
}

/// The time shown now, as hour text followed by minute text ("0905").
pub fn current_time() -> (r: String)
    ensures
        exists|t: int|
            timestamp_in_range(t) && r@ == #[trigger] clock_texts_at(t).0 + clock_texts_at(t).1,
{
    let v = compute_clock_value();
    v.text()
}

/// The local hour of day lies in 0 to 23 and the minute in 0 to 59.
pub proof fn lemma_time_of_day_bounds(utc_seconds: int, offset_seconds: int)
    ensures
        0 <= hour_of_day(utc_seconds, offset_seconds) < 24,
        0 <= minute_of_hour(utc_seconds, offset_seconds) < 60,
{
}

/// Written with two digits, `n` (0 to 99) reads back as itself.
pub proof fn lemma_two_digits_read_back(n: int)
    requires
        0 <= n < 100,
    ensures
        two_digits(n).len() == 2,
        0 <= digit_value(two_digits(n)[0]) < 10,
        0 <= digit_value(two_digits(n)[1]) < 10,
        digit_value(two_digits(n)[0]) * 10 + digit_value(two_digits(n)[1]) == n,
{
    assert(0 <= n / 10 < 10);
    assert(0 <= n % 10 < 10);
    assert(n == (n / 10) * 10 + n % 10);
}

/// At every instant both texts are exactly two decimal digits, zero-padded:
/// the hour text reads as the displayed hour, 1 to 24, and the minute text as
/// the minute, 0 to 59.
pub proof fn lemma_clock_texts_padded(utc_seconds: int)
    ensures
        clock_texts_at(utc_seconds).0.len() == 2,
        clock_texts_at(utc_seconds).1.len() == 2,
        forall|i: int| 0 <= i < 2 ==> 0 <= #[trigger] digit_value(clock_texts_at(utc_seconds).0[i]) < 10,
        forall|i: int| 0 <= i < 2 ==> 0 <= #[trigger] digit_value(clock_texts_at(utc_seconds).1[i]) < 10,
        1 <= digit_value(clock_texts_at(utc_seconds).0[0]) * 10 + digit_value(clock_texts_at(utc_seconds).0[1]) <= 24,
        digit_value(clock_texts_at(utc_seconds).0[0]) * 10 + digit_value(clock_texts_at(utc_seconds).0[1]) == display_hour(hour_of_day(utc_seconds, UTC_OFFSET_SECONDS as int)),
        digit_value(clock_texts_at(utc_seconds).1[0]) * 10 + digit_value(clock_texts_at(utc_seconds).1[1]) == minute_of_hour(utc_seconds, UTC_OFFSET_SECONDS as int),
{
    let offset = UTC_OFFSET_SECONDS as int;
    lemma_time_of_day_bounds(utc_seconds, offset);
    lemma_two_digits_read_back(display_hour(hour_of_day(utc_seconds, offset)));
    lemma_two_digits_read_back(minute_of_hour(utc_seconds, offset));
}

/// Local midnight is shown as hour "24", never "00".
pub proof fn lemma_midnight_shows_24(utc_seconds: int)
    requires
        hour_of_day(utc_seconds, UTC_OFFSET_SECONDS as int) == 0,
    ensures
        clock_texts_at(utc_seconds).0 == seq!['2', '4'],
{
    assert(clock_texts_at(utc_seconds).0 =~= seq!['2', '4']);
}

/// The local hour and minute depend only on the local minute count `x / 60`.
proof fn lemma_time_of_day_by_minute(x: int)
    ensures
        x % 86400 / 3600 == (x / 60) % 1440 / 60,
        x % 86400 % 3600 / 60 == (x / 60) % 1440 % 60,
{
    let q = x / 60;
    let r = x % 60;
    let k = q / 1440;
    let m = q % 1440;
    lemma_fundamental_div_mod(x, 60);
    lemma_fundamental_div_mod(q, 1440);
    lemma_fundamental_div_mod(m, 60);
    assert(x == k * 86400 + (60 * m + r)) by (nonlinear_arith)
        requires
            x == 60 * q + r,
            q == 1440 * k + m,
    ;
    lemma_fundamental_div_mod_converse(x, 86400, k, 60 * m + r);
    let sod = 60 * m + r;
    assert(sod == (m / 60) * 3600 + (60 * (m % 60) + r)) by (nonlinear_arith)
        requires
            sod == 60 * m + r,
            m == 60 * (m / 60) + m % 60,
    ;
    lemma_fundamental_div_mod_converse(sod, 3600, m / 60, 60 * (m % 60) + r);
    lemma_fundamental_div_mod_converse(60 * (m % 60) + r, 60, m % 60, r);
}

/// Two instants in the same local minute show the same texts: a refresh within
/// the minute changes nothing that is shown.
pub proof fn lemma_same_minute_same_texts(t1: int, t2: int)
    requires
        (t1 + UTC_OFFSET_SECONDS) / 60 == (t2 + UTC_OFFSET_SECONDS) / 60,
    ensures
        clock_texts_at(t1) == clock_texts_at(t2),
{
    lemma_time_of_day_by_minute(t1 + UTC_OFFSET_SECONDS);
    lemma_time_of_day_by_minute(t2 + UTC_OFFSET_SECONDS);
}

/// The hour text is "24" exactly when the local hour of day is 0, and never "00".
pub proof fn lemma_hour_24_exactly_at_midnight(utc_seconds: int)
    ensures
        clock_texts_at(utc_seconds).0 == seq!['2', '4'] <==> hour_of_day(utc_seconds, UTC_OFFSET_SECONDS as int) == 0,
        clock_texts_at(utc_seconds).0 != seq!['0', '0'],
{
    let offset = UTC_OFFSET_SECONDS as int;
    let shown = display_hour(hour_of_day(utc_seconds, offset));
    lemma_time_of_day_bounds(utc_seconds, offset);
    lemma_two_digits_read_back(shown);
    lemma_two_digits_read_back(24);
    lemma_two_digits_read_back(0);
    assert(two_digits(24) =~= seq!['2', '4']);
    assert(two_digits(0) =~= seq!['0', '0']);
}

} // verus!
