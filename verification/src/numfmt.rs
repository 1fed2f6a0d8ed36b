//! Decimal rendering of integers and track durations.
//!
//! Topic names and command payloads embed numbers in decimal; the track
//! list shows durations as `h:mm:ss` or `m:ss`. Both are specified here as
//! sequences of characters and built by verified code.

use vstd::prelude::*;

verus! {

/// The decimal digit character for a value below ten.
pub open spec fn digit_char(d: int) -> char {
    if d == 0 {
        '0'
    } else if d == 1 {
        '1'
    } else if d == 2 {
        '2'
    } else if d == 3 {
        '3'
    } else if d == 4 {
        '4'
    } else if d == 5 {
        '5'
    } else if d == 6 {
        '6'
    } else if d == 7 {
        '7'
    } else if d == 8 {
        '8'
    } else {
        '9'
    }
}

/// The usual decimal rendering of a non-negative integer, most significant
/// digit first, with no leading zeros (and `0` rendered as "0").
pub open spec fn dec_digits(n: nat) -> Seq<char>
    decreases n,
{
    if n < 10 {
        seq![digit_char(n as int)]
    } else {
        dec_digits(n / 10).push(digit_char((n % 10) as int))
    }
}

/// The decimal rendering of a signed integer: a minus sign before the
/// digits of the magnitude when the value is negative.
pub open spec fn dec_int(n: int) -> Seq<char> {
    if n >= 0 {
        dec_digits(n as nat)
    } else {
        seq!['-'] + dec_digits((-n) as nat)
    }
}

/// Appends the digit character for `d` to `out`.
fn push_digit(out: &mut String, d: u64)
    requires
        d < 10,
    ensures
        final(out)@ == old(out)@.push(digit_char(d as int)),
{
    let piece: &str = match d {
        0 => "0",
        1 => "1",
        2 => "2",
        3 => "3",
        4 => "4",
        5 => "5",
        6 => "6",
        7 => "7",
        8 => "8",
        _ => "9",
    };
    proof {
        reveal_strlit("0");
        reveal_strlit("1");
        reveal_strlit("2");
        reveal_strlit("3");
        reveal_strlit("4");
        reveal_strlit("5");
        reveal_strlit("6");
        reveal_strlit("7");
        reveal_strlit("8");
        reveal_strlit("9");
        assert(piece@ =~= seq![digit_char(d as int)]);
    }
    out.append(piece);
    proof {
        assert(final(out)@ =~= old(out)@.push(digit_char(d as int)));
    }
}

/// Appends the decimal digits of `n` to `out`.
pub fn append_u64(out: &mut String, n: u64)
    ensures
        final(out)@ == old(out)@ + dec_digits(n as nat),
    decreases n,
{
    if n < 10 {
        push_digit(out, n);
        proof {
            assert(final(out)@ =~= old(out)@ + dec_digits(n as nat));
        }
    } else {
        append_u64(out, n / 10);
        push_digit(out, n % 10);
        proof {
            assert(final(out)@ =~= old(out)@ + dec_digits(n as nat));
        }
    }
}

/// Appends the decimal rendering of a signed value, minus sign included.
pub fn append_i64(out: &mut String, n: i64)
    ensures
        final(out)@ == old(out)@ + dec_int(n as int),
{
    if n >= 0 {
        append_u64(out, n as u64);
    } else {
        let magnitude: u64 = if n == i64::MIN {
            9223372036854775808u64
        } else {
            (-n) as u64
        };
        proof {
            reveal_strlit("-");
            assert(magnitude as nat == (-(n as int)) as nat);
        }
        out.append("-");
        append_u64(out, magnitude);
        proof {
            assert(final(out)@ =~= old(out)@ + dec_int(n as int));
        }
    }
}

/// Zero-padded two-digit rendering, used for the minute and second parts
/// of a duration.
pub open spec fn dec_two_digits(n: nat) -> Seq<char> {
    if n < 10 {
        seq!['0'] + dec_digits(n)
    } else {
        dec_digits(n)
    }
}

/// Appends the two-digit rendering of `n` (which is below 60 for the
/// minute and second fields of a duration).
fn append_two_digits(out: &mut String, n: u64)
    requires
        n < 100,
    ensures
        final(out)@ == old(out)@ + dec_two_digits(n as nat),
{
    if n < 10 {
        push_digit(out, 0);
        push_digit(out, n);
        proof {
            assert(final(out)@ =~= old(out)@ + dec_two_digits(n as nat));
        }
    } else {
        append_u64(out, n);
    }
}

/// How a track duration of `secs` whole seconds reads in the queue:
/// `h:mm:ss` when there is an hour part, `m:ss` otherwise.
pub open spec fn duration_text(secs: nat) -> Seq<char> {
    let hrs = secs / 3600;
    let min = (secs / 60) % 60;
    let sec = secs % 60;
    if hrs > 0 {
        dec_digits(hrs) + seq![':'] + dec_two_digits(min) + seq![':'] + dec_two_digits(sec)
    } else {
        dec_digits(min) + seq![':'] + dec_two_digits(sec)
    }
}

/// Renders a duration in whole seconds for display.
pub fn format_duration(secs: u64) -> (r: String)
    ensures
        r@ == duration_text(secs as nat),
{
    let mut out = String::new();
    let sec: u64 = secs % 60;
    let min: u64 = (secs / 60) % 60;
    let hrs: u64 = secs / 3600;
    proof {
        reveal_strlit(":");
    }
    if hrs > 0 {
        append_u64(&mut out, hrs);
        out.append(":");
        append_two_digits(&mut out, min);
        out.append(":");
        append_two_digits(&mut out, sec);
        proof {
            assert(out@ =~= duration_text(secs as nat));
        }
    } else {
        append_u64(&mut out, min);
        out.append(":");
        append_two_digits(&mut out, sec);
        proof {
            assert(out@ =~= duration_text(secs as nat));
        }
    }
    out
}

} // verus!
