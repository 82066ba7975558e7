use vstd::prelude::*;
use chrono::Timelike;

verus! {

/// Whether `c` is an ASCII decimal digit.
pub open spec fn is_digit(c: char) -> bool {
    '0' <= c && c <= '9'
}

/// The value of an ASCII decimal digit.
pub open spec fn digit_value(c: char) -> int {
    c as int - '0' as int
}

/// The value of the two-digit number at `s[i]`, `s[i + 1]`.
pub open spec fn two_digits(s: Seq<char>, i: int) -> int {
    10 * digit_value(s[i]) + digit_value(s[i + 1])
}

/// `s` is a clock time written `HH:MM`: two digits of an hour below 24, a
/// colon, two digits of a minute below 60.
pub open spec fn is_hhmm(s: Seq<char>) -> bool {
    &&& s.len() == 5
    &&& is_digit(s[0]) && is_digit(s[1]) && s[2] == ':' && is_digit(s[3]) && is_digit(s[4])
    &&& two_digits(s, 0) < 24
    &&& two_digits(s, 3) < 60
}

/// The character of the digit `d`, for `0 <= d < 10`.
pub open spec fn digit_char(d: int) -> char {
    ('0' as int + d) as char
}

/// Hour and minute written `HH:MM`, each zero-padded to two digits.
pub open spec fn hhmm_text(hour: int, minute: int) -> Seq<char> {
    seq![
        digit_char(hour / 10),
        digit_char(hour % 10),
        ':',
        digit_char(minute / 10),
        digit_char(minute % 10),
    ]
}

/// What chrono's `%H:%M` time parser makes of a string, as hour and minute,
/// `None` where it fails.
pub uninterp spec fn clock_time_of(s: Seq<char>) -> Option<(u32, u32)>;

/// Relies on chrono's `NaiveTime::parse_from_str` with the format `%H:%M`: it
/// is a function of the text alone; a `NaiveTime` holds an hour below 24 and a
/// minute below 60; `%H` and `%M` read the two-digit, zero-padded hour and minute.
#[verifier::external_body]
pub(crate) fn parse_clock_time(s: &str) -> (r: Result<(u32, u32), chrono::ParseError>)
    ensures
        r is Ok <==> clock_time_of(s@) is Some,
        r matches Ok(t) ==> clock_time_of(s@) == Some(t),
        r matches Ok(t) ==> t.0 < 24 && t.1 < 60,
        is_hhmm(s@) ==> r is Ok && r->Ok_0.0 == two_digits(s@, 0) && r->Ok_0.1 == two_digits(
            s@,
            3,
        ),
{
    let t = chrono::NaiveTime::parse_from_str(s, "%H:%M")?;
    Ok((t.hour(), t.minute()))
}

/// Minutes since midnight of a clock time.
pub open spec fn minute_of_day(t: (u32, u32)) -> int {
    t.0 * 60 + t.1
}

/// Reads a clock time of a 24-hour clock as hour and minute. An `HH:MM`
/// string is always read, and writing what was read as `HH:MM` again gives the
/// string back.
pub fn parse_time_of_day(s: &str) -> (r: Option<(u32, u32)>)
    ensures
        r == clock_time_of(s@),
        r matches Some(t) ==> t.0 < 24 && t.1 < 60,
        is_hhmm(s@) ==> r is Some && hhmm_text(r->Some_0.0 as int, r->Some_0.1 as int) == s@,
{
    match parse_clock_time(s) {
        Ok(t) => {
            proof {
                if is_hhmm(s@) {
                    lemma_two_digits_text(s@, 0);
                    lemma_two_digits_text(s@, 3);
                    assert(hhmm_text(t.0 as int, t.1 as int) =~= s@);
                }
            }
            Some(t)
        },
        Err(_) => None,
    }
}

proof fn lemma_two_digits_text(s: Seq<char>, i: int)
    requires
        0 <= i && i + 1 < s.len(),
        is_digit(s[i]) && is_digit(s[i + 1]),
    ensures
        digit_char(two_digits(s, i) / 10) == s[i],
        digit_char(two_digits(s, i) % 10) == s[i + 1],
{
    let a = digit_value(s[i]);
    let b = digit_value(s[i + 1]);
    assert((10 * a + b) / 10 == a && (10 * a + b) % 10 == b) by (nonlinear_arith)
        requires
            0 <= a < 10,
            0 <= b < 10,
    ;
}

} // verus!
