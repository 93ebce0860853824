//! Wall-clock text: the local-time stamps shown in the Recent panel, put
//! into file names and recorded in upload sidecars. The caller reads the
//! clock and the local UTC offset and hands both over as plain numbers;
//! chrono does the calendar arithmetic and the formatting.
use vstd::prelude::*;
use crate::text::{digit_char, decimal, pad_left};

verus! {

/// `c` is an ASCII decimal digit.
pub open spec fn is_digit(c: char) -> bool {
    '0' <= c && c <= '9'
}

/// `s[i..i + 2]` is a two-digit, zero-padded number between `lo` and `hi`.
pub open spec fn two_digits_at(s: Seq<char>, i: int, lo: int, hi: int) -> bool {
    &&& 0 <= i
    &&& i + 2 <= s.len()
    &&& is_digit(s[i])
    &&& is_digit(s[i + 1])
    &&& lo <= (s[i] as int - '0' as int) * 10 + (s[i + 1] as int - '0' as int) <= hi
}

/// `MM-DD HH:MM`: month, day of month, hour and minute, zero-padded.
pub open spec fn is_month_day_time(s: Seq<char>) -> bool {
    &&& s.len() == 11
    &&& two_digits_at(s, 0, 1, 12)
    &&& s[2] == '-'
    &&& two_digits_at(s, 3, 1, 31)
    &&& s[5] == ' '
    &&& two_digits_at(s, 6, 0, 23)
    &&& s[8] == ':'
    &&& two_digits_at(s, 9, 0, 59)
}

/// `YYYY-MM-DD_HH-MM-SS`: a year of at least four digits (signed outside
/// years 0 to 9999), then month, day, hour, minute and second, zero-padded
/// and joined as shown. A second of 60 stands for a leap second.
pub open spec fn is_file_stamp(s: Seq<char>) -> bool {
    let n = s.len() as int;
    &&& n >= 19
    &&& forall|i: int| 0 <= i < n - 15 ==> #[trigger] is_digit(s[i]) || (i == 0 && (s[i] == '+' || s[i] == '-'))
    &&& s[n - 15] == '-'
    &&& two_digits_at(s, n - 14, 1, 12)
    &&& s[n - 12] == '-'
    &&& two_digits_at(s, n - 11, 1, 31)
    &&& s[n - 9] == '_'
    &&& two_digits_at(s, n - 8, 0, 23)
    &&& s[n - 6] == '-'
    &&& two_digits_at(s, n - 5, 0, 59)
    &&& s[n - 3] == '-'
    &&& two_digits_at(s, n - 2, 0, 60)
}

/// A signed count of nanoseconds since the Unix epoch, split into whole
/// seconds and the nanoseconds past them (Euclidean division, as chrono
/// splits a `SystemTime`); `None` when the seconds do not fit an `i64`.
pub fn split_nanos(ns: i128) -> (r: Option<(i64, u32)>)
    ensures
        r matches Some((secs, sub)) ==> secs == ns / 1_000_000_000 && sub == ns % 1_000_000_000,
        r is None <==> !(i64::MIN <= ns / 1_000_000_000 <= i64::MAX),
{
    if ns >= 0 {
        let u: u128 = ns as u128;
        let q: u128 = u / 1_000_000_000;
        let m: u128 = u % 1_000_000_000;
        if q > 9_223_372_036_854_775_807u128 {
            return None;
        }
        Some((q as i64, m as u32))
    } else {
        let a: u128 = (-(ns + 1)) as u128;
        let q: u128 = a / 1_000_000_000;
        let m: u128 = a % 1_000_000_000;
        proof {
            vstd::arithmetic::div_mod::lemma_fundamental_div_mod(a as int, 1_000_000_000);
            vstd::arithmetic::div_mod::lemma_fundamental_div_mod_converse(
                ns as int,
                1_000_000_000,
                -(q as int) - 1,
                999_999_999 - m as int,
            );
        }
        if q > 9_223_372_036_854_775_807u128 {
            return None;
        }
        let secs: i64 = -(q as i64) - 1;
        Some((secs, (999_999_999 - m) as u32))
    }
}

/// Seconds since the Unix epoch well inside chrono's calendar (which ends
/// near the years -262144 and 262143), so that an offset of less than a
/// day on either side still lands in it.
pub open spec fn within_chrono_range(secs: int) -> bool {
    -8_000_000_000_000 <= secs <= 8_000_000_000_000
}

/// A UTC offset chrono accepts for `FixedOffset::east_opt`: less than a day
/// either way.
pub open spec fn valid_offset(offset: int) -> bool {
    -86_400 < offset < 86_400
}

/// Instants whose local date stays in the years 1 to 9999 under any valid
/// offset: from 0001-01-02 00:00:00 to 9999-12-30 23:59:59 UTC.
pub open spec fn within_four_digit_years(secs: int) -> bool {
    -62_135_510_400 <= secs <= 253_402_214_399
}

/// `v` (below 100) written with two digits.
pub open spec fn two_digit_text(v: int) -> Seq<char> {
    seq![digit_char((v / 10) as nat), digit_char((v % 10) as nat)]
}

/// The fractional seconds RFC 3339 text carries for `nanos` below 10^9:
/// nothing for zero, else the shortest of 3, 6 or 9 digits that is exact.
pub open spec fn fraction_text(nanos: int) -> Seq<char> {
    if nanos == 0 {
        seq![]
    } else if nanos % 1_000_000 == 0 {
        seq!['.'] + pad_left(decimal((nanos / 1_000_000) as nat), 3, '0')
    } else if nanos % 1_000 == 0 {
        seq!['.'] + pad_left(decimal((nanos / 1_000) as nat), 6, '0')
    } else {
        seq!['.'] + pad_left(decimal(nanos as nat), 9, '0')
    }
}

/// `+HH:MM` or `-HH:MM` for an offset in seconds, rounded to the nearest
/// minute; a zero offset is written `+00:00`.
pub open spec fn offset_text(offset: int) -> Seq<char> {
    let a = if offset < 0 { -offset } else { offset };
    let minutes = (a + 30) / 60;
    seq![if offset < 0 { '-' } else { '+' }] + two_digit_text(minutes / 60) + seq![':']
        + two_digit_text(minutes % 60)
}

/// `YYYY-MM-DDTHH:MM:SS` with a four-digit year.
pub open spec fn is_date_time(s: Seq<char>) -> bool {
    &&& s.len() == 19
    &&& is_digit(s[0]) && is_digit(s[1]) && is_digit(s[2]) && is_digit(s[3])
    &&& s[4] == '-'
    &&& two_digits_at(s, 5, 1, 12)
    &&& s[7] == '-'
    &&& two_digits_at(s, 8, 1, 31)
    &&& s[10] == 'T'
    &&& two_digits_at(s, 11, 0, 23)
    &&& s[13] == ':'
    &&& two_digits_at(s, 14, 0, 59)
    &&& s[16] == ':'
    &&& two_digits_at(s, 17, 0, 59)
}

/// RFC 3339 text for an instant with `nanos` past the second, shown at
/// `offset`: date and time, the fraction, and the offset.
pub open spec fn is_rfc3339_at(s: Seq<char>, nanos: int, offset: int) -> bool {
    &&& s.len() >= 19
    &&& is_date_time(s.subrange(0, 19))
    &&& s.subrange(19, s.len() as int) == fraction_text(nanos) + offset_text(offset)
}

/// The instant `secs` seconds and `nanos` nanoseconds after the Unix epoch
/// can be written by chrono at `offset`.
pub open spec fn placeable(secs: int, nanos: int, offset: int) -> bool {
    within_chrono_range(secs) && nanos < 1_000_000_000 && valid_offset(offset)
}

/// The text chrono writes for the instant `secs` seconds and `nanos`
/// nanoseconds after the Unix epoch, shown at `offset` seconds east of UTC
/// and formatted `%m-%d %H:%M`.
pub uninterp spec fn chrono_month_day_time(secs: i64, nanos: u32, offset: i32) -> Seq<char>;

/// The same instant formatted `%Y-%m-%d_%H-%M-%S`.
pub uninterp spec fn chrono_file_stamp(secs: i64, nanos: u32, offset: i32) -> Seq<char>;

/// The same instant written by chrono's `to_rfc3339`.
pub uninterp spec fn chrono_rfc3339(secs: i64, nanos: u32, offset: i32) -> Seq<char>;

/// chrono: `DateTime::from_timestamp(secs, nanos)` shown at
/// `FixedOffset::east_opt(offset)` and formatted `%m-%d %H:%M`.
///
/// Trusted. Both constructors return `None` instead of panicking: the
/// instant on an out-of-range second count or a nanosecond part chrono
/// rejects, the offset unless it is less than a day either way. Within
/// chrono's range, with fewer than 10^9 nanoseconds and such an offset,
/// both succeed. The text is a function of the three arguments alone,
/// named `chrono_month_day_time`. chrono pads the four fields to two
/// digits, which gives the `MM-DD HH:MM` shape; the calendar arithmetic
/// itself is not stated.
#[verifier::external_body]
fn month_day_time_at(secs: i64, nanos: u32, offset: i32) -> (r: Option<String>)
    ensures
        r is Some ==> valid_offset(offset as int),
        r matches Some(t) ==> t@ == chrono_month_day_time(secs, nanos, offset),
        r matches Some(t) ==> is_month_day_time(t@),
        placeable(secs as int, nanos as int, offset as int) ==> r is Some,
{
    match (chrono::DateTime::from_timestamp(secs, nanos), chrono::FixedOffset::east_opt(offset)) {
        (Some(t), Some(zone)) => Some(t.with_timezone(&zone).format("%m-%d %H:%M").to_string()),
        _ => None,
    }
}

/// chrono: `DateTime::from_timestamp(secs, nanos)` shown at
/// `FixedOffset::east_opt(offset)` and formatted `%Y-%m-%d_%H-%M-%S`.
///
/// Trusted. `None` and `Some` as for `month_day_time_at`; the text is named
/// `chrono_file_stamp`. chrono writes the year with at least four digits (signed outside 0 to 9999, zero-padded
/// to four inside) and the other fields with two, which gives the
/// `YYYY-MM-DD_HH-MM-SS` shape, exactly 19 characters while the local year
/// stays in 1 to 9999.
#[verifier::external_body]
fn file_stamp_at(secs: i64, nanos: u32, offset: i32) -> (r: Option<String>)
    ensures
        r is Some ==> valid_offset(offset as int),
        r matches Some(t) ==> t@ == chrono_file_stamp(secs, nanos, offset),
        r matches Some(t) ==> is_file_stamp(t@),
        r matches Some(t) ==> (within_four_digit_years(secs as int) ==> t@.len() == 19),
        placeable(secs as int, nanos as int, offset as int) ==> r is Some,
{
    match (chrono::DateTime::from_timestamp(secs, nanos), chrono::FixedOffset::east_opt(offset)) {
        (Some(t), Some(zone)) => Some(t.with_timezone(&zone).format("%Y-%m-%d_%H-%M-%S").to_string()),
        _ => None,
    }
}

/// chrono: `DateTime::from_timestamp(secs, nanos)` shown at
/// `FixedOffset::east_opt(offset)` and written by `to_rfc3339`.
///
/// Trusted. `None` and `Some` as for `month_day_time_at`; the text is named
/// `chrono_rfc3339`. `to_rfc3339` writes the date and time (four-digit year while it stays in 0 to 9999),
/// then the nanoseconds as the shortest exact 3, 6 or 9 digits (nothing
/// when zero), then the offset as `±HH:MM` rounded to the minute. The
/// calendar arithmetic itself is not stated.
#[verifier::external_body]
fn rfc3339_at(secs: i64, nanos: u32, offset: i32) -> (r: Option<String>)
    ensures
        r is Some ==> valid_offset(offset as int),
        r matches Some(t) ==> t@ == chrono_rfc3339(secs, nanos, offset),
        r matches Some(t) ==> (within_four_digit_years(secs as int) && nanos < 1_000_000_000
            ==> is_rfc3339_at(t@, nanos as int, offset as int)),
        placeable(secs as int, nanos as int, offset as int) ==> r is Some,
{
    match (chrono::DateTime::from_timestamp(secs, nanos), chrono::FixedOffset::east_opt(offset)) {
        (Some(t), Some(zone)) => Some(t.with_timezone(&zone).to_rfc3339()),
        _ => None,
    }
}

/// The whole seconds of `ns` nanoseconds since the Unix epoch (Euclidean).
pub open spec fn secs_of(ns: int) -> i64 {
    (ns / 1_000_000_000) as i64
}

/// The nanoseconds past those whole seconds.
pub open spec fn nanos_of(ns: int) -> u32 {
    (ns % 1_000_000_000) as u32
}

/// `now` (nanoseconds since the Unix epoch) split and inside chrono's range.
pub open spec fn placeable_now(now: int, offset: int) -> bool {
    &&& i64::MIN <= now / 1_000_000_000 <= i64::MAX
    &&& within_chrono_range(now / 1_000_000_000)
    &&& valid_offset(offset)
}

/// The Recent panel's timestamp column for a file last modified `modified`
/// nanoseconds after the Unix epoch, shown at the local UTC offset `offset`
/// (seconds east): `MM-DD HH:MM`, or `—` when the modification time is
/// unknown or cannot be placed.
pub fn file_timestamp(modified: Option<i128>, offset: i32) -> (r: String)
    ensures
        modified is None ==> r@ == "—"@,
        modified matches Some(ns) ==> (r@ == "—"@
            || r@ == chrono_month_day_time(secs_of(ns as int), nanos_of(ns as int), offset)),
        modified matches Some(ns) ==> (placeable_now(ns as int, offset as int)
            ==> r@ == chrono_month_day_time(secs_of(ns as int), nanos_of(ns as int), offset)),
        modified matches Some(ns) && placeable_now(ns as int, offset as int) ==> is_month_day_time(r@),
        r@ == "—"@ || is_month_day_time(r@),
{
    let dash = String::from_str("—");
    match modified {
        Some(ns) => match split_nanos(ns) {
            Some((secs, sub)) => match month_day_time_at(secs, sub, offset) {
                Some(t) => t,
                None => dash,
            },
            None => dash,
        },
        None => dash,
    }
}

/// The file a new take is written to: `recording_`, the local time `now`
/// (nanoseconds since the Unix epoch, shown at `offset` seconds east of
/// UTC) as `YYYY-MM-DD_HH-MM-SS`, and `.mp3`; `None` when that instant
/// cannot be placed.
pub fn new_recording_file_name(now: i128, offset: i32) -> (r: Option<String>)
    ensures
        placeable_now(now as int, offset as int) ==> r is Some,
        r is Some ==> valid_offset(offset as int),
        r matches Some(name) ==> name@ == "recording_"@
            + chrono_file_stamp(secs_of(now as int), nanos_of(now as int), offset) + ".mp3"@,
        r matches Some(name) ==> {
            &&& name@.len() >= 33
            &&& name@.subrange(0, 10) == "recording_"@
            &&& name@.subrange(name@.len() - 4, name@.len() as int) == ".mp3"@
            &&& is_file_stamp(name@.subrange(10, name@.len() - 4))
        },
        r matches Some(name) ==> (within_four_digit_years(now / 1_000_000_000) ==> name@.len() == 33),
{
    let (secs, sub) = match split_nanos(now) {
        Some(p) => p,
        None => return None,
    };
    let stamp = match file_stamp_at(secs, sub, offset) {
        Some(t) => t,
        None => return None,
    };
    let r = crate::app::recording_file_name(stamp.as_str());
    proof {
        reveal_strlit("recording_");
        reveal_strlit(".mp3");
        let n = r@.len() as int;
        assert(r@.subrange(0, 10) =~= "recording_"@);
        assert(r@.subrange(n - 4, n) =~= ".mp3"@);
        assert(r@.subrange(10, n - 4) =~= stamp@);
    }
    Some(r)
}

/// The time `now` (nanoseconds since the Unix epoch) as RFC 3339 at
/// `offset` seconds east of UTC, or `None` when it cannot be placed.
pub fn rfc3339_stamp(now: i128, offset: i32) -> (r: Option<String>)
    ensures
        placeable_now(now as int, offset as int) ==> r is Some,
        r is Some ==> valid_offset(offset as int),
        r matches Some(t) ==> t@ == chrono_rfc3339(secs_of(now as int), nanos_of(now as int), offset),
        r matches Some(t) ==> (within_four_digit_years(now / 1_000_000_000)
            ==> is_rfc3339_at(t@, (now as int) % 1_000_000_000, offset as int)),
{
    match split_nanos(now) {
        Some((secs, sub)) => rfc3339_at(secs, sub, offset),
        None => None,
    }
}

} // verus!
