//! The form of the diagnostic log: one line per message, stamped with the time of day.

use vstd::prelude::*;
use crate::text::push_char;

verus! {

/// The decimal digit for `d`.
pub open spec fn digit(d: int) -> char {
    ((d + 48) as u8) as char
}

/// `n` in two decimal digits.
pub open spec fn two_digits(n: int) -> Seq<char> {
    seq![digit(n / 10), digit(n % 10)]
}

/// `n` in three decimal digits.
pub open spec fn three_digits(n: int) -> Seq<char> {
    seq![digit(n / 100), digit((n / 10) % 10), digit(n % 10)]
}

/// The time of day, in universal time, of the instant that lies `millis` milliseconds
/// after the epoch: hours, minutes and seconds in two digits each and milliseconds in
/// three, as `hh:mm:ss.mmm`.
pub open spec fn time_of_day(millis: int) -> Seq<char> {
    let secs = millis / 1000;
    two_digits((secs / 3600) % 24) + seq![':'] + two_digits((secs / 60) % 60) + seq![':']
        + two_digits(secs % 60) + seq!['.'] + three_digits(millis % 1000)
}

/// Appends the digit for `d`.
fn push_digit(out: &mut String, d: u64)
    requires
        d < 10,
    ensures
        final(out)@ == old(out)@.push(digit(d as int)),
{
    let byte: u8 = (d + 48) as u8;
    push_char(out, byte as char);
}

/// Appends `n` in two digits.
fn push_two(out: &mut String, n: u64)
    requires
        n < 100,
    ensures
        final(out)@ == old(out)@ + two_digits(n as int),
{
    push_digit(out, n / 10);
    push_digit(out, n % 10);
    assert(out@ =~= old(out)@ + two_digits(n as int));
}

/// Appends `n` in three digits.
fn push_three(out: &mut String, n: u64)
    requires
        n < 1000,
    ensures
        final(out)@ == old(out)@ + three_digits(n as int),
{
    push_digit(out, n / 100);
    push_digit(out, (n / 10) % 10);
    push_digit(out, n % 10);
    assert(out@ =~= old(out)@ + three_digits(n as int));
}

/// The stamp of the instant that lies `millis` milliseconds after the epoch.
pub fn timestamp(millis: u64) -> (stamp: String)
    ensures
        stamp@ == time_of_day(millis as int),
{
    let secs = millis / 1000;
    let mut stamp = String::new();
    push_two(&mut stamp, (secs / 3600) % 24);
    push_char(&mut stamp, ':');
    push_two(&mut stamp, (secs / 60) % 60);
    push_char(&mut stamp, ':');
    push_two(&mut stamp, secs % 60);
    push_char(&mut stamp, '.');
    push_three(&mut stamp, millis % 1000);
    assert(stamp@ =~= time_of_day(millis as int));
    stamp
}

/// A line of the log: stamp and source in square brackets, then the message.
pub open spec fn line_for(stamp: Seq<char>, source: Seq<char>, message: Seq<char>) -> Seq<char> {
    "["@ + stamp + "] ["@ + source + "] "@ + message + "\n"@
}

/// Formats one line of the log.
pub fn log(stamp: &str, source: &str, message: &str) -> (line: String)
    ensures
        line@ == line_for(stamp@, source@, message@),
{
    let mut line = "[".to_owned();
    line.append(stamp);
    line.append("] [");
    line.append(source);
    line.append("] ");
    line.append(message);
    line.append("\n");
    line
}

} // verus!
