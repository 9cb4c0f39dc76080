//! The `MM:SS` readout: whole seconds split into the minute and second
//! fields the display shows, each below sixty so that two zero-padded
//! digits always suffice, and the five-character text built from them.

use vstd::prelude::*;

verus! {

/// The minute field of the readout for `total_secs` remaining seconds.
pub fn display_minutes(total_secs: u64) -> (m: u64)
    ensures
        m == (total_secs % 3600) / 60,
        m < 60,
{
    (total_secs % 3600) / 60
}

/// The second field of the readout for `total_secs` remaining seconds.
pub fn display_seconds(total_secs: u64) -> (s: u64)
    ensures
        s == total_secs % 60,
        s < 60,
{
    total_secs % 60
}

/// The character that writes a single decimal digit.
pub open spec fn spec_digit_char(d: int) -> char {
    if d == 0 {
        '0'
    } else if d == 1 {
        '1'
    } else if d == 2 {
        '2'
    } else if d == 3 {
        '3'
    } else if d == 4 {
        '4'
    } else if d == 5 {
        '5'
    } else if d == 6 {
        '6'
    } else if d == 7 {
        '7'
    } else if d == 8 {
        '8'
    } else {
        '9'
    }
}

/// The five characters of the readout for `total_secs` remaining
/// seconds: minutes and seconds, each as two zero-padded digits,
/// separated by a colon.
pub open spec fn spec_readout(total_secs: u64) -> Seq<char> {
    let m: int = ((total_secs % 3600) / 60) as int;
    let s: int = (total_secs % 60) as int;
    seq![
        spec_digit_char(m / 10),
        spec_digit_char(m % 10),
        ':',
        spec_digit_char(s / 10),
        spec_digit_char(s % 10),
    ]
}

/// One decimal digit as text.
fn digit_str(d: u64) -> (r: &'static str)
    requires
        d < 10,
    ensures
        r@ =~= seq![spec_digit_char(d as int)],
{
    proof {
        reveal_strlit("0");
        reveal_strlit("1");
        reveal_strlit("2");
        reveal_strlit("3");
        reveal_strlit("4");
        reveal_strlit("5");
        reveal_strlit("6");
        reveal_strlit("7");
        reveal_strlit("8");
        reveal_strlit("9");
    }
    match d {
        0 => "0",
        1 => "1",
        2 => "2",
        3 => "3",
        4 => "4",
        5 => "5",
        6 => "6",
        7 => "7",
        8 => "8",
        _ => "9",
    }
}

/// The `MM:SS` text for `total_secs` remaining seconds, exactly as the
/// display shows it.
pub fn format_readout(total_secs: u64) -> (r: String)
    ensures
        r@ == spec_readout(total_secs),
{
    let m = display_minutes(total_secs);
    let s = display_seconds(total_secs);
    proof {
        reveal_strlit(":");
    }
    let mut out = String::from_str(digit_str(m / 10));
    out.append(digit_str(m % 10));
    out.append(":");
    out.append(digit_str(s / 10));
    out.append(digit_str(s % 10));
    proof {
        assert(out@ =~= spec_readout(total_secs));
    }
    out
}

} // verus!
