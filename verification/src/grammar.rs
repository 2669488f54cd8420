//! The written forms of dates, timestamps and line codes.
//!
//! A date is written `YYYY-MM-DD`, a timestamp `YYYY-MM-DD hh:mm:ss`, each
//! with exactly that many decimal digits. A line code is one or more ASCII
//! letters and digits.

use crate::calendar::{CivilDate, ClockTime, Date, Moment, TimeOfDay, Timestamp};
use crate::text::chars_of;
use vstd::prelude::*;

verus! {

/// Whether `c` is one of the ten decimal digits.
pub open spec fn is_digit(c: char) -> bool {
    '0' <= c && c <= '9'
}

/// The value of the decimal digit `c`.
pub open spec fn digit_of(c: char) -> int {
    c as int - '0' as int
}

/// Whether `c` is an ASCII letter or a decimal digit.
pub open spec fn is_letter_or_digit(c: char) -> bool {
    is_digit(c) || ('a' <= c && c <= 'z') || ('A' <= c && c <= 'Z')
}

/// Whether `s` holds decimal digits only.
pub open spec fn all_digits(s: Seq<char>) -> bool {
    forall|i: int| 0 <= i < s.len() ==> is_digit(#[trigger] s[i])
}

/// The number that the decimal digits `s` write.
pub open spec fn number_of(s: Seq<char>) -> int
    decreases s.len(),
{
    if s.len() == 0 {
        0
    } else {
        number_of(s.drop_last()) * 10 + digit_of(s.last())
    }
}

/// The date that `s` writes as `YYYY-MM-DD`, if it writes one.
pub open spec fn date_of(s: Seq<char>) -> Option<CivilDate> {
    if s.len() == 10 && s[4] == '-' && s[7] == '-' && all_digits(s.subrange(0, 4)) && all_digits(
        s.subrange(5, 7),
    ) && all_digits(s.subrange(8, 10)) {
        let date = CivilDate {
            year: number_of(s.subrange(0, 4)),
            month: number_of(s.subrange(5, 7)),
            day: number_of(s.subrange(8, 10)),
        };
        if date.valid() {
            Some(date)
        } else {
            None
        }
    } else {
        None
    }
}

/// The time of day that `s` writes as `hh:mm:ss`, if it writes one.
pub open spec fn time_of(s: Seq<char>) -> Option<ClockTime> {
    if s.len() == 8 && s[2] == ':' && s[5] == ':' && all_digits(s.subrange(0, 2)) && all_digits(
        s.subrange(3, 5),
    ) && all_digits(s.subrange(6, 8)) {
        let time = ClockTime {
            hour: number_of(s.subrange(0, 2)),
            minute: number_of(s.subrange(3, 5)),
            second: number_of(s.subrange(6, 8)),
        };
        if time.valid() {
            Some(time)
        } else {
            None
        }
    } else {
        None
    }
}

/// The timestamp that `s` writes as `YYYY-MM-DD hh:mm:ss`, if it writes one.
pub open spec fn moment_of(s: Seq<char>) -> Option<Moment> {
    if s.len() == 19 && s[10] == ' ' {
        match (date_of(s.subrange(0, 10)), time_of(s.subrange(11, 19))) {
            (Some(date), Some(time)) => Some(Moment { date, time }),
            _ => None,
        }
    } else {
        None
    }
}

/// Whether `s` is a line code: not empty, ASCII letters and digits only.
pub open spec fn is_line_code(s: Seq<char>) -> bool {
    s.len() > 0 && forall|i: int| 0 <= i < s.len() ==> is_letter_or_digit(#[trigger] s[i])
}

/// Reads the digits `chars[from..to]` as a number.
fn read_number(chars: &Vec<char>, from: usize, to: usize) -> (r: Option<u32>)
    requires
        from <= to <= chars.len(),
        to - from <= 4,
    ensures
        r is Some <==> all_digits(chars@.subrange(from as int, to as int)),
        r matches Some(n) ==> n == number_of(chars@.subrange(from as int, to as int)),
{
    let mut n: u32 = 0;
    let mut i: usize = from;
    assert(chars@.subrange(from as int, from as int) =~= Seq::<char>::empty());
    while i < to
        invariant
            from <= i <= to <= chars.len(),
            to - from <= 4,
            all_digits(chars@.subrange(from as int, i as int)),
            n == number_of(chars@.subrange(from as int, i as int)),
            n < pow10(i - from),
        decreases to - i,
    {
        let c: char = chars[i];
        let ghost done = chars@.subrange(from as int, i as int);
        let ghost next = chars@.subrange(from as int, i + 1);
        assert(next.drop_last() =~= done);
        assert(next.last() == c);
        if c < '0' || c > '9' {
            proof {
                let whole = chars@.subrange(from as int, to as int);
                assert(whole[i - from] == c);
            }
            return None;
        }
        let d: u32 = c as u32 - '0' as u32;
        n = n * 10 + d;
        assert(all_digits(next)) by {
            assert forall|k: int| 0 <= k < next.len() implies is_digit(#[trigger] next[k]) by {
                if k < done.len() {
                    assert(next[k] == done[k]);
                }
            }
        }
        i = i + 1;
    }
    Some(n)
}

/// Ten to the power of `k`, for the few powers that bound a field of digits.
spec fn pow10(k: int) -> int {
    if k <= 0 {
        1
    } else if k == 1 {
        10
    } else if k == 2 {
        100
    } else if k == 3 {
        1000
    } else {
        10000
    }
}

/// Reads the ten characters from `from` on as a date.
fn read_date(chars: &Vec<char>, from: usize) -> (r: Option<Date>)
    requires
        from + 10 <= chars.len(),
    ensures
        match r {
            Some(date) => date_of(chars@.subrange(from as int, from + 10)) == Some(date@),
            None => date_of(chars@.subrange(from as int, from + 10)) is None,
        },
{
    let ghost s = chars@.subrange(from as int, from + 10);
    assert(s.subrange(0, 4) =~= chars@.subrange(from as int, from + 4));
    assert(s.subrange(5, 7) =~= chars@.subrange(from + 5, from + 7));
    assert(s.subrange(8, 10) =~= chars@.subrange(from + 8, from + 10));
    assert(s[4] == chars@[from + 4]);
    assert(s[7] == chars@[from + 7]);
    if chars[from + 4] != '-' || chars[from + 7] != '-' {
        return None;
    }
    let year = match read_number(chars, from, from + 4) {
        Some(n) => n,
        None => {
            return None;
        },
    };
    let month = match read_number(chars, from + 5, from + 7) {
        Some(n) => n,
        None => {
            return None;
        },
    };
    let day = match read_number(chars, from + 8, from + 10) {
        Some(n) => n,
        None => {
            return None;
        },
    };
    if year > 9999 || month > 12 || day > 31 {
        return None;
    }
    Date::new(year as u16, month as u8, day as u8)
}

/// Reads the eight characters from `from` on as a time of day.
fn read_time(chars: &Vec<char>, from: usize) -> (r: Option<TimeOfDay>)
    requires
        from + 8 <= chars.len(),
    ensures
        match r {
            Some(time) => time_of(chars@.subrange(from as int, from + 8)) == Some(time@),
            None => time_of(chars@.subrange(from as int, from + 8)) is None,
        },
{
    let ghost s = chars@.subrange(from as int, from + 8);
    assert(s.subrange(0, 2) =~= chars@.subrange(from as int, from + 2));
    assert(s.subrange(3, 5) =~= chars@.subrange(from + 3, from + 5));
    assert(s.subrange(6, 8) =~= chars@.subrange(from + 6, from + 8));
    assert(s[2] == chars@[from + 2]);
    assert(s[5] == chars@[from + 5]);
    if chars[from + 2] != ':' || chars[from + 5] != ':' {
        return None;
    }
    let hour = match read_number(chars, from, from + 2) {
        Some(n) => n,
        None => {
            return None;
        },
    };
    let minute = match read_number(chars, from + 3, from + 5) {
        Some(n) => n,
        None => {
            return None;
        },
    };
    let second = match read_number(chars, from + 6, from + 8) {
        Some(n) => n,
        None => {
            return None;
        },
    };
    if hour > 23 || minute > 59 || second > 59 {
        return None;
    }
    TimeOfDay::new(hour as u8, minute as u8, second as u8)
}

/// Reads a date written as `YYYY-MM-DD`.
pub fn parse_date(text: &str) -> (r: Option<Date>)
    ensures
        match r {
            Some(date) => date_of(text@) == Some(date@),
            None => date_of(text@) is None,
        },
{
    let chars = chars_of(text);
    if chars.len() != 10 {
        return None;
    }
    assert(chars@.subrange(0, 10) =~= text@);
    read_date(&chars, 0)
}

/// Reads a timestamp written as `YYYY-MM-DD hh:mm:ss`.
pub fn parse_timestamp(text: &str) -> (r: Option<Timestamp>)
    ensures
        match r {
            Some(at) => moment_of(text@) == Some(at@),
            None => moment_of(text@) is None,
        },
{
    let chars = chars_of(text);
    if chars.len() != 19 {
        return None;
    }
    if chars[10] != ' ' {
        return None;
    }
    let date = match read_date(&chars, 0) {
        Some(d) => d,
        None => {
            return None;
        },
    };
    let time = match read_time(&chars, 11) {
        Some(t) => t,
        None => {
            return None;
        },
    };
    Some(Timestamp::new(date, time))
}

/// Whether `text` is a line code.
pub fn line_code(text: &str) -> (r: bool)
    ensures
        r == is_line_code(text@),
{
    let chars = chars_of(text);
    if chars.len() == 0 {
        return false;
    }
    let mut i: usize = 0;
    while i < chars.len()
        invariant
            i <= chars.len(),
            chars@ == text@,
            forall|k: int| 0 <= k < i ==> is_letter_or_digit(#[trigger] chars@[k]),
        decreases chars.len() - i,
    {
        let c: char = chars[i];
        let ok = (c >= '0' && c <= '9') || (c >= 'a' && c <= 'z') || (c >= 'A' && c <= 'Z');
        if !ok {
            return false;
        }
        i = i + 1;
    }
    true
}

} // verus!
