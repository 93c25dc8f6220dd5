//! Timestamp lines: local wall-clock time at millisecond resolution, rendered
//! as `HH:MM:SS.mmm` and a newline.
use vstd::prelude::*;
use crate::text::{
    digit_char, is_digit, lemma_digit_char_is_digit, push_three_digits, push_two_digits,
    three_digits, two_digits,
};

verus! {

/// Number of characters (and bytes) in one timestamp line, newline included.
pub const LINE_SIZE: usize = 13;

/// A local time of day. `second` is 60 during a leap second.
#[derive(Clone, Copy, Debug, PartialEq, Eq)]
pub struct TimeOfDay {
    pub hour: u32,
    pub minute: u32,
    pub second: u32,
    pub millisecond: u32,
}

impl TimeOfDay {
    pub open spec fn is_valid(self) -> bool {
        self.hour < 24 && self.minute < 60 && self.second <= 60 && self.millisecond < 1000
    }

    /// Milliseconds since midnight, counting a leap second as one more second.
    pub open spec fn millis_of_day(self) -> int {
        ((self.hour * 60 + self.minute) * 60 + self.second) * 1000 + self.millisecond
    }

    /// The time of day of a clock reading whose nanosecond field runs past
    /// one second during a leap second; the leap second reads as second 60.
    pub fn from_clock(hour: u32, minute: u32, second: u32, nanosecond: u32) -> (r: TimeOfDay)
        requires
            hour < 24,
            minute < 60,
            second < 60,
            nanosecond < 2_000_000_000,
        ensures
            r.is_valid(),
            r.hour == hour,
            r.minute == minute,
            r.second == second + nanosecond / 1_000_000_000,
            r.millisecond == (nanosecond % 1_000_000_000) / 1_000_000,
    {
        TimeOfDay {
            hour,
            minute,
            second: second + nanosecond / 1_000_000_000,
            millisecond: (nanosecond % 1_000_000_000) / 1_000_000,
        }
    }
}

/// The text of a time of day, `HH:MM:SS.mmm`, without the newline.
pub open spec fn clock_text(t: TimeOfDay) -> Seq<char> {
    two_digits(t.hour as nat) + seq![':'] + two_digits(t.minute as nat) + seq![':'] + two_digits(
        t.second as nat,
    ) + seq!['.'] + three_digits(t.millisecond as nat)
}

/// The line appended for a time of day.
pub open spec fn line_of(t: TimeOfDay) -> Seq<char> {
    clock_text(t).push('\n')
}

/// The fixed shape of a timestamp line: `DD:DD:DD.DDD` and a newline.
pub open spec fn matches_line_pattern(s: Seq<char>) -> bool {
    &&& s.len() == LINE_SIZE
    &&& is_digit(s[0]) && is_digit(s[1]) && s[2] == ':'
    &&& is_digit(s[3]) && is_digit(s[4]) && s[5] == ':'
    &&& is_digit(s[6]) && is_digit(s[7]) && s[8] == '.'
    &&& is_digit(s[9]) && is_digit(s[10]) && is_digit(s[11])
    &&& s[12] == '\n'
}

/// Every valid time of day renders as a line of the fixed pattern, at
/// midnight and during a leap second alike.
pub proof fn lemma_line_matches_pattern(t: TimeOfDay)
    requires
        t.is_valid(),
    ensures
        matches_line_pattern(line_of(t)),
        line_of(t).len() == LINE_SIZE,
{
    let s = line_of(t);
    lemma_digit_char_is_digit(t.hour as nat / 10);
    lemma_digit_char_is_digit(t.hour as nat % 10);
    lemma_digit_char_is_digit(t.minute as nat / 10);
    lemma_digit_char_is_digit(t.minute as nat % 10);
    lemma_digit_char_is_digit(t.second as nat / 10);
    lemma_digit_char_is_digit(t.second as nat % 10);
    lemma_digit_char_is_digit(t.millisecond as nat / 100);
    lemma_digit_char_is_digit((t.millisecond as nat / 10) % 10);
    lemma_digit_char_is_digit(t.millisecond as nat % 10);
    assert(s =~= seq![
        digit_char(t.hour as nat / 10), digit_char(t.hour as nat % 10), ':',
        digit_char(t.minute as nat / 10), digit_char(t.minute as nat % 10), ':',
        digit_char(t.second as nat / 10), digit_char(t.second as nat % 10), '.',
        digit_char(t.millisecond as nat / 100), digit_char((t.millisecond as nat / 10) % 10),
        digit_char(t.millisecond as nat % 10), '\n',
    ]);
}

/// The file content produced by appending one line for each time, in order,
/// to an empty file.
pub open spec fn appended(ts: Seq<TimeOfDay>) -> Seq<char>
    decreases ts.len(),
{
    if ts.len() == 0 {
        Seq::empty()
    } else {
        appended(ts.drop_last()) + line_of(ts.last())
    }
}

/// After one successful append for each time, with nobody else writing, the
/// file holds exactly one line per append, in the order of the appends: line
/// `i` is the line of the `i`-th time and has the fixed pattern, and a newline
/// stands exactly at the end of each line.
pub proof fn lemma_appended_lines(ts: Seq<TimeOfDay>)
    requires
        forall|i: int| 0 <= i < ts.len() ==> #[trigger] ts[i].is_valid(),
    ensures
        appended(ts).len() == ts.len() * LINE_SIZE,
        forall|i: int|
            0 <= i < ts.len() ==> #[trigger] appended(ts).subrange(
                i * LINE_SIZE,
                i * LINE_SIZE + LINE_SIZE,
            ) == line_of(ts[i]) && matches_line_pattern(line_of(ts[i])),
        forall|k: int|
            0 <= k < appended(ts).len() ==> (#[trigger] appended(ts)[k] == '\n' <==> k
                % LINE_SIZE as int == LINE_SIZE - 1),
    decreases ts.len(),
{
    if ts.len() > 0 {
        let prev = ts.drop_last();
        assert forall|i: int| 0 <= i < prev.len() implies #[trigger] prev[i].is_valid() by {
            assert(prev[i] == ts[i]);
        }
        lemma_appended_lines(prev);
        let t = ts.last();
        lemma_line_matches_pattern(t);
        let s = appended(ts);
        let n = prev.len();
        let base = n * LINE_SIZE;
        assert(s == appended(prev) + line_of(t));
        assert forall|i: int| 0 <= i < ts.len() implies #[trigger] s.subrange(
            i * LINE_SIZE,
            i * LINE_SIZE + LINE_SIZE,
        ) == line_of(ts[i]) && matches_line_pattern(line_of(ts[i])) by {
            if i < n {
                assert(prev[i] == ts[i]);
                assert(i * LINE_SIZE + LINE_SIZE <= base) by (nonlinear_arith)
                    requires
                        i < n,
                        base == n * LINE_SIZE,
                ;
                assert(s.subrange(i * LINE_SIZE, i * LINE_SIZE + LINE_SIZE) =~= appended(
                    prev,
                ).subrange(i * LINE_SIZE, i * LINE_SIZE + LINE_SIZE));
                lemma_line_matches_pattern(ts[i]);
            } else {
                assert(i * LINE_SIZE == base);
                assert(s.subrange(i * LINE_SIZE, i * LINE_SIZE + LINE_SIZE) =~= line_of(t));
            }
        }
        assert forall|k: int| 0 <= k < s.len() implies (#[trigger] s[k] == '\n' <==> k
            % LINE_SIZE as int == LINE_SIZE - 1) by {
            if k < base {
                assert(s[k] == appended(prev)[k]);
            } else {
                let j = k - base;
                assert(s[k] == line_of(t)[j]);
                assert(k % LINE_SIZE as int == j) by (nonlinear_arith)
                    requires
                        k == base + j,
                        base == n * LINE_SIZE,
                        0 <= j < LINE_SIZE,
                ;
            }
        }
    }
}

/// Renders the line appended for a time of day.
pub fn timestamp_line(t: TimeOfDay) -> (r: String)
    requires
        t.is_valid(),
    ensures
        r@ == line_of(t),
        matches_line_pattern(r@),
{
    proof {
        reveal_strlit(":");
        reveal_strlit(".");
        reveal_strlit("\n");
        lemma_line_matches_pattern(t);
    }
    let mut s = String::new();
    push_two_digits(&mut s, t.hour);
    s.append(":");
    push_two_digits(&mut s, t.minute);
    s.append(":");
    push_two_digits(&mut s, t.second);
    s.append(".");
    push_three_digits(&mut s, t.millisecond);
    s.append("\n");
    assert(s@ =~= line_of(t));
    s
}

} // verus!
