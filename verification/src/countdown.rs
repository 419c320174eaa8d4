//! The countdown that stands in front of an alert: the seconds that are
//! left, in brackets.

use vstd::prelude::*;

verus! {

/// The decimal digit for a value below ten.
pub open spec fn digit(d: nat) -> char {
    if d == 0 {
        '0'
    } else if d == 1 {
        '1'
    } else if d == 2 {
        '2'
    } else if d == 3 {
        '3'
    } else if d == 4 {
        '4'
    } else if d == 5 {
        '5'
    } else if d == 6 {
        '6'
    } else if d == 7 {
        '7'
    } else if d == 8 {
        '8'
    } else {
        '9'
    }
}

/// A number in decimal, without leading zeros.
pub open spec fn decimal(n: nat) -> Seq<char>
    decreases n,
{
    if n < 10 {
        seq![digit(n)]
    } else {
        decimal(n / 10).push(digit(n % 10))
    }
}

/// Whole seconds that a count of milliseconds still shows: rounded up.
pub open spec fn seconds_left(remaining_ms: nat) -> nat {
    if remaining_ms % 1000 == 0 {
        remaining_ms / 1000
    } else {
        remaining_ms / 1000 + 1
    }
}

/// The text of the countdown: `(9s)` and two blanks.
pub open spec fn countdown_text(remaining_ms: nat) -> Seq<char> {
    seq!['('] + decimal(seconds_left(remaining_ms)) + seq!['s', ')', ' ', ' ']
}

fn digit_char(d: usize) -> (c: char)
    requires
        d < 10,
    ensures
        c == digit(d as nat),
{
    if d == 0 {
        '0'
    } else if d == 1 {
        '1'
    } else if d == 2 {
        '2'
    } else if d == 3 {
        '3'
    } else if d == 4 {
        '4'
    } else if d == 5 {
        '5'
    } else if d == 6 {
        '6'
    } else if d == 7 {
        '7'
    } else if d == 8 {
        '8'
    } else {
        '9'
    }
}

/// Appends a number in decimal.
pub fn push_decimal(out: &mut String, n: usize)
    ensures
        final(out)@ == old(out)@ + decimal(n as nat),
    decreases n,
{
    if n >= 10 {
        push_decimal(out, n / 10);
    }
    out.push(digit_char(n % 10));
    assert(out@ =~= old(out)@ + decimal(n as nat));
}

/// The countdown for an alert with `remaining_ms` milliseconds to go.
pub fn countdown_prefix(remaining_ms: usize) -> (prefix: String)
    ensures
        prefix@ == countdown_text(remaining_ms as nat),
{
    let seconds = if remaining_ms % 1000 == 0 {
        remaining_ms / 1000
    } else {
        remaining_ms / 1000 + 1
    };
    let mut prefix = String::new();
    prefix.push('(');
    push_decimal(&mut prefix, seconds);
    prefix.push('s');
    prefix.push(')');
    prefix.push(' ');
    prefix.push(' ');
    assert(prefix@ =~= countdown_text(remaining_ms as nat));
    prefix
}

} // verus!
