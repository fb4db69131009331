use vstd::prelude::*;
use vstd::string::StrSliceExecFns;
use vstd::string::StringExecFns;
use crate::digits::digit_char;
use crate::error::TransportError;

verus! {

/// A provider timestamp: a naive `YYYY-MM-DD HH:MM:SS` calendar instant,
/// read as UTC without any conversion.
///
/// The derived comparison orders fields from year down to second, which is
/// chronological order for valid instants.
#[derive(Debug, Clone, Copy, PartialEq, Eq, PartialOrd, Ord, Hash, Structural)]
pub struct Timestamp {
    pub year: u16,
    pub month: u8,
    pub day: u8,
    pub hour: u8,
    pub minute: u8,
    pub second: u8,
}

/// Gregorian leap-year rule.
pub open spec fn is_leap_year(y: int) -> bool {
    y % 4 == 0 && (y % 100 != 0 || y % 400 == 0)
}

/// Length of a month in the given year.
pub open spec fn days_in_month(y: int, m: int) -> int {
    if m == 2 {
        if is_leap_year(y) {
            29
        } else {
            28
        }
    } else if m == 4 || m == 6 || m == 9 || m == 11 {
        30
    } else {
        31
    }
}

/// A decimal digit character.
pub open spec fn is_digit(c: char) -> bool {
    48 <= c as u32 <= 57
}

/// The value of a decimal digit character.
pub open spec fn digit_val(c: char) -> int {
    c as u32 - 48
}

/// The year field of a 19-character wire timestamp.
pub open spec fn year_of(s: Seq<char>) -> int {
    digit_val(s[0]) * 1000 + digit_val(s[1]) * 100 + digit_val(s[2]) * 10 + digit_val(s[3])
}

/// The month field of a wire timestamp.
pub open spec fn month_of(s: Seq<char>) -> int {
    digit_val(s[5]) * 10 + digit_val(s[6])
}

/// The day field of a wire timestamp.
pub open spec fn day_of(s: Seq<char>) -> int {
    digit_val(s[8]) * 10 + digit_val(s[9])
}

/// The hour field of a wire timestamp.
pub open spec fn hour_of(s: Seq<char>) -> int {
    digit_val(s[11]) * 10 + digit_val(s[12])
}

/// The minute field of a wire timestamp.
pub open spec fn minute_of(s: Seq<char>) -> int {
    digit_val(s[14]) * 10 + digit_val(s[15])
}

/// The second field of a wire timestamp.
pub open spec fn second_of(s: Seq<char>) -> int {
    digit_val(s[17]) * 10 + digit_val(s[18])
}

/// Whether a string is exactly the wire timestamp format
/// `YYYY-MM-DD HH:MM:SS` with in-range calendar fields.
pub open spec fn wire_format_ok(s: Seq<char>) -> bool {
    &&& s.len() == 19
    &&& s[4] == '-'
    &&& s[7] == '-'
    &&& s[10] == ' '
    &&& s[13] == ':'
    &&& s[16] == ':'
    &&& is_digit(s[0])
    &&& is_digit(s[1])
    &&& is_digit(s[2])
    &&& is_digit(s[3])
    &&& is_digit(s[5])
    &&& is_digit(s[6])
    &&& is_digit(s[8])
    &&& is_digit(s[9])
    &&& is_digit(s[11])
    &&& is_digit(s[12])
    &&& is_digit(s[14])
    &&& is_digit(s[15])
    &&& is_digit(s[17])
    &&& is_digit(s[18])
    &&& 1 <= month_of(s) <= 12
    &&& 1 <= day_of(s) <= days_in_month(year_of(s), month_of(s))
    &&& hour_of(s) <= 23
    &&& minute_of(s) <= 59
    &&& second_of(s) <= 59
}

/// The instant a well-formed wire timestamp denotes.
pub open spec fn timestamp_of(s: Seq<char>) -> Timestamp {
    Timestamp {
        year: year_of(s) as u16,
        month: month_of(s) as u8,
        day: day_of(s) as u8,
        hour: hour_of(s) as u8,
        minute: minute_of(s) as u8,
        second: second_of(s) as u8,
    }
}

impl Timestamp {
    /// Field ranges of a real calendar instant that the wire format can
    /// carry.
    pub open spec fn valid(self) -> bool {
        &&& self.year <= 9999
        &&& 1 <= self.month <= 12
        &&& 1 <= self.day <= days_in_month(self.year as int, self.month as int)
        &&& self.hour <= 23
        &&& self.minute <= 59
        &&& self.second <= 59
    }

    /// The wire text of this instant, digit by digit.
    pub open spec fn render_spec(self) -> Seq<char> {
        seq![
            digit_char(self.year as int / 1000),
            digit_char((self.year as int / 100) % 10),
            digit_char((self.year as int / 10) % 10),
            digit_char(self.year as int % 10),
            '-',
            digit_char(self.month as int / 10),
            digit_char(self.month as int % 10),
            '-',
            digit_char(self.day as int / 10),
            digit_char(self.day as int % 10),
            ' ',
            digit_char(self.hour as int / 10),
            digit_char(self.hour as int % 10),
            ':',
            digit_char(self.minute as int / 10),
            digit_char(self.minute as int % 10),
            ':',
            digit_char(self.second as int / 10),
            digit_char(self.second as int % 10),
        ]
    }
}

/// Reads two decimal digits at position `i`.
fn read2(s: &str, i: usize) -> (r: Option<u64>)
    requires
        i + 2 <= s@.len(),
        i + 2 <= usize::MAX,
    ensures
        match r {
            Some(v) => {
                &&& is_digit(s@[i as int])
                &&& is_digit(s@[i + 1])
                &&& v == digit_val(s@[i as int]) * 10 + digit_val(s@[i + 1])
                &&& v <= 99
            },
            None => !(is_digit(s@[i as int]) && is_digit(s@[i + 1])),
        },
{
    let c0 = s.get_char(i) as u32;
    let c1 = s.get_char(i + 1) as u32;
    if 48 <= c0 && c0 <= 57 && 48 <= c1 && c1 <= 57 {
        Some(((c0 - 48) * 10 + (c1 - 48)) as u64)
    } else {
        None
    }
}

/// Reads four decimal digits at position `i`.
fn read4(s: &str, i: usize) -> (r: Option<u64>)
    requires
        i + 4 <= s@.len(),
        i + 4 <= usize::MAX,
    ensures
        match r {
            Some(v) => {
                &&& is_digit(s@[i as int])
                &&& is_digit(s@[i + 1])
                &&& is_digit(s@[i + 2])
                &&& is_digit(s@[i + 3])
                &&& v == digit_val(s@[i as int]) * 1000 + digit_val(s@[i + 1]) * 100 + digit_val(
                    s@[i + 2],
                ) * 10 + digit_val(s@[i + 3])
                &&& v <= 9999
            },
            None => !(is_digit(s@[i as int]) && is_digit(s@[i + 1]) && is_digit(s@[i + 2])
                && is_digit(s@[i + 3])),
        },
{
    match (read2(s, i), read2(s, i + 2)) {
        (Some(hi), Some(lo)) => Some(hi * 100 + lo),
        _ => None,
    }
}

/// Whether the character at position `i` is exactly `c`.
fn sep_at(s: &str, i: usize, c: char) -> (r: bool)
    requires
        i < s@.len(),
    ensures
        r == (s@[i as int] == c),
{
    s.get_char(i) == c
}

/// Length of a month, executable twin of `days_in_month`.
fn days_in_month_x(y: u64, m: u64) -> (r: u64)
    requires
        1 <= m <= 12,
    ensures
        r == days_in_month(y as int, m as int),
{
    if m == 2 {
        if y % 4 == 0 && (y % 100 != 0 || y % 400 == 0) {
            29
        } else {
            28
        }
    } else if m == 4 || m == 6 || m == 9 || m == 11 {
        30
    } else {
        31
    }
}

/// Strict parse of the wire timestamp `YYYY-MM-DD HH:MM:SS`, read as UTC.
///
/// Succeeds exactly on strings in the wire format with in-range calendar
/// fields; everything else is a decode failure, never a crash and never a
/// substituted default.
pub fn parse_timestamp(s: &str) -> (r: Result<Timestamp, TransportError>)
    ensures
        match r {
            Ok(t) => wire_format_ok(s@) && t == timestamp_of(s@) && t.valid(),
            Err(e) => !wire_format_ok(s@) && e == TransportError::Decode,
        },
{
    if s.unicode_len() != 19 {
        return Err(TransportError::Decode);
    }
    if !sep_at(s, 4, '-') || !sep_at(s, 7, '-') || !sep_at(s, 10, ' ') || !sep_at(s, 13, ':')
        || !sep_at(s, 16, ':') {
        return Err(TransportError::Decode);
    }
    let year = match read4(s, 0) {
        Some(v) => v,
        None => return Err(TransportError::Decode),
    };
    let month = match read2(s, 5) {
        Some(v) => v,
        None => return Err(TransportError::Decode),
    };
    let day = match read2(s, 8) {
        Some(v) => v,
        None => return Err(TransportError::Decode),
    };
    let hour = match read2(s, 11) {
        Some(v) => v,
        None => return Err(TransportError::Decode),
    };
    let minute = match read2(s, 14) {
        Some(v) => v,
        None => return Err(TransportError::Decode),
    };
    let second = match read2(s, 17) {
        Some(v) => v,
        None => return Err(TransportError::Decode),
    };
    if month < 1 || month > 12 {
        return Err(TransportError::Decode);
    }
    if day < 1 || day > days_in_month_x(year, month) {
        return Err(TransportError::Decode);
    }
    if hour > 23 || minute > 59 || second > 59 {
        return Err(TransportError::Decode);
    }
    Ok(
        Timestamp {
            year: year as u16,
            month: month as u8,
            day: day as u8,
            hour: hour as u8,
            minute: minute as u8,
            second: second as u8,
        },
    )
}

/// Appends the two-digit text of a value below 100.
fn push2(s: &mut String, v: u64)
    requires
        v <= 99,
    ensures
        final(s)@ == old(s)@ + seq![digit_char(v as int / 10), digit_char(v as int % 10)],
{
    s.append(crate::digits::digit_str(v / 10));
    s.append(crate::digits::digit_str(v % 10));
    proof {
        assert(s@ =~= old(s)@ + seq![digit_char(v as int / 10), digit_char(v as int % 10)]);
    }
}

impl Timestamp {
    /// The wire text `YYYY-MM-DD HH:MM:SS` of this instant.
    pub fn render(&self) -> (r: String)
        requires
            self.valid(),
        ensures
            r@ == self.render_spec(),
    {
        let mut s = String::new();
        push2(&mut s, self.year as u64 / 100);
        push2(&mut s, self.year as u64 % 100);
        s.append("-");
        push2(&mut s, self.month as u64);
        s.append("-");
        push2(&mut s, self.day as u64);
        s.append(" ");
        push2(&mut s, self.hour as u64);
        s.append(":");
        push2(&mut s, self.minute as u64);
        s.append(":");
        push2(&mut s, self.second as u64);
        proof {
            reveal_strlit("-");
            reveal_strlit(" ");
            reveal_strlit(":");
            let y = self.year as int;
            assert(y / 100 / 10 == y / 1000) by (nonlinear_arith)
                requires
                    0 <= y <= 9999,
            ;
            assert(y / 100 % 10 == y / 100 % 10);
            assert(y % 100 / 10 == y / 10 % 10) by (nonlinear_arith)
                requires
                    0 <= y <= 9999,
            ;
            assert(y % 100 % 10 == y % 10) by (nonlinear_arith)
                requires
                    0 <= y <= 9999,
            ;
            assert(s@ =~= self.render_spec());
        }
        s
    }
}

/// Length of a year in days.
pub open spec fn days_in_year(y: int) -> int {
    if is_leap_year(y) {
        366
    } else {
        365
    }
}

/// Days from the Unix epoch to the start of year `y`; negative before
/// 1970.
pub open spec fn days_before_year(y: int) -> int
    decreases (if y >= 1970 {
        y - 1970
    } else {
        1970 - y
    }),
{
    if y > 1970 {
        days_before_year(y - 1) + days_in_year(y - 1)
    } else if y < 1970 {
        days_before_year(y + 1) - days_in_year(y)
    } else {
        0
    }
}

/// Days from the start of year `y` to the start of month `m`.
pub open spec fn days_before_month(y: int, m: int) -> int
    decreases m,
{
    if m <= 1 {
        0
    } else {
        days_before_month(y, m - 1) + days_in_month(y, m - 1)
    }
}

/// Stepping one year forward adds that year's length, on either side of
/// the epoch.
proof fn lemma_days_before_year_step(y: int)
    ensures
        days_before_year(y + 1) == days_before_year(y) + days_in_year(y),
{
    if y >= 1970 {
        assert(days_before_year(y + 1) == days_before_year(y) + days_in_year(y));
    } else {
        assert(days_before_year(y) == days_before_year(y + 1) - days_in_year(y));
    }
}

/// Length of a year, executable twin of `days_in_year`.
fn days_in_year_x(y: u16) -> (r: i64)
    ensures
        r == days_in_year(y as int),
        365 <= r <= 366,
{
    if y % 4 == 0 && (y % 100 != 0 || y % 400 == 0) {
        366
    } else {
        365
    }
}

impl Timestamp {
    /// Days from the Unix epoch to this instant's date.
    pub open spec fn epoch_days_spec(self) -> int {
        days_before_year(self.year as int) + days_before_month(self.year as int, self.month as int)
            + (self.day as int - 1)
    }

    /// Seconds from the Unix epoch to this instant, read as UTC: the naive
    /// calendar fields are taken as a UTC wall clock, with no conversion.
    pub open spec fn unix_seconds_spec(self) -> int {
        self.epoch_days_spec() * 86400 + self.hour as int * 3600 + self.minute as int * 60
            + self.second as int
    }

    /// Seconds since the Unix epoch of this instant read as UTC; negative
    /// before 1970.
    pub fn unix_seconds(&self) -> (r: i64)
        requires
            self.valid(),
        ensures
            r == self.unix_seconds_spec(),
    {
        let y = self.year;
        let mut days: i64 = 0;
        if y >= 1970 {
            let mut cy: u16 = 1970;
            while cy < y
                invariant
                    1970 <= cy <= y,
                    y <= 9999,
                    days == days_before_year(cy as int),
                    0 <= days <= 366 * (cy - 1970),
                decreases y - cy,
            {
                proof {
                    lemma_days_before_year_step(cy as int);
                }
                days = days + days_in_year_x(cy);
                cy = cy + 1;
            }
        } else {
            let mut cy: u16 = y;
            while cy < 1970
                invariant
                    y <= cy <= 1970,
                    days == days_before_year(y as int) - days_before_year(cy as int),
                    -366 * (cy - y) <= days <= 0,
                decreases 1970 - cy,
            {
                proof {
                    lemma_days_before_year_step(cy as int);
                }
                days = days - days_in_year_x(cy);
                cy = cy + 1;
            }
        }
        assert(days == days_before_year(y as int));
        assert(-721020 <= days <= 2938614);
        let mut m: u8 = 1;
        while m < self.month
            invariant
                1 <= m <= self.month,
                self.month <= 12,
                days == days_before_year(y as int) + days_before_month(y as int, m as int),
                -721020 <= days <= 2938614 + 31 * (m - 1),
            decreases self.month - m,
        {
            days = days + days_in_month_x(y as u64, m as u64) as i64;
            m = m + 1;
        }
        days = days + (self.day as i64 - 1);
        days * 86400 + self.hour as i64 * 3600 + self.minute as i64 * 60 + self.second as i64
    }
}

/// A digit character stands for its digit and for nothing else.
proof fn lemma_digit_char_val(k: int)
    requires
        0 <= k <= 9,
    ensures
        is_digit(digit_char(k)),
        digit_val(digit_char(k)) == k,
{
    assert('0' as u32 == 48);
    assert('1' as u32 == 49);
    assert('2' as u32 == 50);
    assert('3' as u32 == 51);
    assert('4' as u32 == 52);
    assert('5' as u32 == 53);
    assert('6' as u32 == 54);
    assert('7' as u32 == 55);
    assert('8' as u32 == 56);
    assert('9' as u32 == 57);
}

/// Splitting a value below 100 into its two digits loses nothing.
proof fn lemma_two_digit_split(v: int)
    requires
        0 <= v <= 99,
    ensures
        (v / 10) * 10 + v % 10 == v,
        0 <= v / 10 <= 9,
        0 <= v % 10 <= 9,
{
}

/// Rendering a valid instant and parsing the text back yields the same
/// instant: the wire format and the in-memory form carry the same
/// information.
pub proof fn lemma_timestamp_round_trip(t: Timestamp)
    requires
        t.valid(),
    ensures
        wire_format_ok(t.render_spec()),
        timestamp_of(t.render_spec()) == t,
{
    let s = t.render_spec();
    let y = t.year as int;
    lemma_digit_char_val(y / 1000);
    lemma_digit_char_val(y / 100 % 10);
    lemma_digit_char_val(y / 10 % 10);
    lemma_digit_char_val(y % 10);
    lemma_two_digit_split(t.month as int);
    lemma_digit_char_val(t.month as int / 10);
    lemma_digit_char_val(t.month as int % 10);
    lemma_two_digit_split(t.day as int);
    lemma_digit_char_val(t.day as int / 10);
    lemma_digit_char_val(t.day as int % 10);
    lemma_two_digit_split(t.hour as int);
    lemma_digit_char_val(t.hour as int / 10);
    lemma_digit_char_val(t.hour as int % 10);
    lemma_two_digit_split(t.minute as int);
    lemma_digit_char_val(t.minute as int / 10);
    lemma_digit_char_val(t.minute as int % 10);
    lemma_two_digit_split(t.second as int);
    lemma_digit_char_val(t.second as int / 10);
    lemma_digit_char_val(t.second as int % 10);
    assert((y / 1000) * 1000 + (y / 100 % 10) * 100 + (y / 10 % 10) * 10 + y % 10 == y)
        by (nonlinear_arith)
        requires
            0 <= y <= 9999,
    ;
    assert(year_of(s) == y);
    assert(month_of(s) == t.month as int);
    assert(day_of(s) == t.day as int);
    assert(hour_of(s) == t.hour as int);
    assert(minute_of(s) == t.minute as int);
    assert(second_of(s) == t.second as int);
}

} // verus!
