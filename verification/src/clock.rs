//! The local wall-clock time, read through chrono.
use vstd::prelude::*;

verus! {

/// The clip-name stamp format, such as `20240131_235959`.
pub open spec fn stamp_format() -> Seq<char> {
    "%Y%m%d_%H%M%S"@
}

/// Whether `c` is an ASCII decimal digit.
pub open spec fn is_digit(c: char) -> bool {
    '0' <= c && c <= '9'
}

/// Whether `y` is a year as strftime's `%Y` writes it: at least four digits,
/// with a `+` or `-` in front for years outside 0 ..= 9999.
pub open spec fn is_year_text(y: Seq<char>) -> bool {
    let digits = if y.len() > 0 && (y[0] == '+' || y[0] == '-') {
        y.drop_first()
    } else {
        y
    };
    &&& digits.len() >= 4
    &&& forall|i: int| 0 <= i < digits.len() ==> is_digit(#[trigger] digits[i])
}

/// Whether `s` has the shape of `%Y%m%d_%H%M%S`: a year, then two digits each
/// of month and day, an underscore, and two digits each of hour, minute and
/// second.
pub open spec fn is_clip_stamp(s: Seq<char>) -> bool {
    &&& s.len() >= 15
    &&& is_year_text(s.take(s.len() - 11))
    &&& s[s.len() - 7] == '_'
    &&& forall|i: int|
        s.len() - 11 <= i < s.len() && i != s.len() - 7 ==> is_digit(#[trigger] s[i])
}

/// `chrono::Local::now`, written out with `format(fmt)`: the current local
/// time as text. Which time it is depends on the clock and the time zone, so
/// only the shape of the text is stated, as chrono's strftime documentation
/// gives it: `%Y` is the year zero-padded to four digits (with a sign outside
/// 0 ..= 9999), `%m`, `%d`, `%H`, `%M`, `%S` are zero-padded to two digits.
/// Formatting only fails on a malformed format, which the one format
/// admitted here is not.
#[verifier::external_body]
fn local_time_text(fmt: &str) -> (s: String)
    requires
        fmt@ == stamp_format(),
    ensures
        is_clip_stamp(s@),
{
    chrono::Local::now().format(fmt).to_string()
}

/// The current local time as a clip stamp (`%Y%m%d_%H%M%S`), such as
/// `20240131_235959`.
pub fn current_stamp() -> (s: String)
    ensures
        is_clip_stamp(s@),
{
    local_time_text("%Y%m%d_%H%M%S")
}

/// A reading of the local clock, as a clip stamp (`%Y%m%d_%H%M%S`). Its
/// field is private to this module and only `read_clock` makes one, so a
/// value of this type is always a stamp the clock gave when it was read.
pub struct ClockStamp {
    text: String,
}

impl ClockStamp {
    /// The stamp's text.
    pub closed spec fn text(&self) -> Seq<char> {
        self.text@
    }

    /// The stamp's text.
    pub fn as_str(&self) -> (s: &str)
        ensures
            s@ == self.text(),
    {
        self.text.as_str()
    }
}

/// Reads the local clock: the current local time as a clip stamp.
pub fn read_clock() -> (c: ClockStamp)
    ensures
        is_clip_stamp(c.text()),
{
    ClockStamp { text: local_time_text("%Y%m%d_%H%M%S") }
}

} // verus!
