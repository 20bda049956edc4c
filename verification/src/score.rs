//! The score read-out: each counter rendered as its decimal numeral for
//! the front end's two text fields.

use vstd::prelude::*;

verus! {

use crate::state::Scoreboard;

/// Relies on `String::push`: appends the given character to the end of
/// the string.
pub assume_specification[ String::push ](s: &mut String, ch: char)
    ensures
        final(s)@ == old(s)@.push(ch),
;

/// The character for one decimal digit.
pub open spec fn digit_char(d: int) -> char
    recommends
        0 <= d < 10,
{
    ((48 + d) as u8) as char
}

/// The decimal numeral of `n`: most significant digit first, a single
/// `'0'` for nought.
pub open spec fn dec_str(n: nat) -> Seq<char>
    decreases n,
{
    if n < 10 {
        seq![digit_char(n as int)]
    } else {
        dec_str(n / 10).push(digit_char((n % 10) as int))
    }
}

/// The decimal numeral of `n`, built digit by digit.
pub fn format_count(n: usize) -> (s: String)
    ensures
        s@ == dec_str(n as nat),
    decreases n,
{
    if n < 10 {
        let mut s = String::new();
        s.push((48 + n as u8) as char);
        s
    } else {
        let mut s = format_count(n / 10);
        s.push((48 + (n % 10) as u8) as char);
        s
    }
}

/// The scoreboard as the front end displays it: player 1's count and
/// player 2's count, each as its decimal numeral.
pub fn update_scoreboard(scoreboard: &Scoreboard) -> (r: (String, String))
    ensures
        r.0@ == dec_str(scoreboard.p1 as nat),
        r.1@ == dec_str(scoreboard.p2 as nat),
{
    (format_count(scoreboard.p1), format_count(scoreboard.p2))
}

} // verus!
