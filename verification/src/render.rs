//! Rendering of the per-file output: the copy log line and the progress
//! line with its zero-padded counters and its percentage written with
//! five decimal places.

use vstd::prelude::*;

verus! {

/// The decimal digit character for `d`.
pub open spec fn digit_char(d: int) -> char {
    if d == 0 {
        '0'
    } else if d == 1 {
        '1'
    } else if d == 2 {
        '2'
    } else if d == 3 {
        '3'
    } else if d == 4 {
        '4'
    } else if d == 5 {
        '5'
    } else if d == 6 {
        '6'
    } else if d == 7 {
        '7'
    } else if d == 8 {
        '8'
    } else {
        '9'
    }
}

/// The decimal digits of `n`, most significant first, without padding.
pub open spec fn spec_digits(n: nat) -> Seq<char>
    decreases n,
{
    if n < 10 {
        seq![digit_char(n as int)]
    } else {
        spec_digits(n / 10) + seq![digit_char((n % 10) as int)]
    }
}

/// `s` preceded by as many `'0'` characters as it takes to reach width
/// `w`; `s` itself when it is already that wide.
pub open spec fn zero_pad(s: Seq<char>, w: nat) -> Seq<char> {
    if s.len() >= w {
        s
    } else {
        Seq::new((w - s.len()) as nat, |i: int| '0') + s
    }
}

/// A one-character string for the decimal digit `d`.
fn digit_str(d: u8) -> (r: &'static str)
    requires
        d < 10,
    ensures
        r@ == seq![digit_char(d as int)],
{
    proof {
        reveal_strlit("0");
        reveal_strlit("1");
        reveal_strlit("2");
        reveal_strlit("3");
        reveal_strlit("4");
        reveal_strlit("5");
        reveal_strlit("6");
        reveal_strlit("7");
        reveal_strlit("8");
        reveal_strlit("9");
    }
    match d {
        0 => "0",
        1 => "1",
        2 => "2",
        3 => "3",
        4 => "4",
        5 => "5",
        6 => "6",
        7 => "7",
        8 => "8",
        _ => "9",
    }
}

/// The decimal rendering of `n`, without padding.
pub fn decimal_string(n: u128) -> (r: String)
    ensures
        r@ == spec_digits(n as nat),
    decreases n,
{
    if n < 10 {
        digit_str(n as u8).to_owned()
    } else {
        let mut s = decimal_string(n / 10);
        s.append(digit_str((n % 10) as u8));
        s
    }
}

/// `s` left-padded with `'0'` to at least `w` characters.
pub fn zero_padded(s: String, w: usize) -> (r: String)
    ensures
        r@ == zero_pad(s@, w as nat),
{
    let n = s.unicode_len();
    if n >= w {
        s
    } else {
        proof {
            reveal_strlit("0");
        }
        let mut pad = String::new();
        let mut k: usize = 0;
        while k < w - n
            invariant
                0 <= k <= w - n,
                n == s@.len(),
                n < w,
                pad@ =~= Seq::new(k as nat, |i: int| '0'),
        decreases w - n - k,
        {
            pad.append("0");
            k += 1;
            proof {
                reveal_strlit("0");
                assert(pad@ =~= Seq::new(k as nat, |i: int| '0'));
            }
        }
        pad.append(s.as_str());
        pad
    }
}

/// The percentage that `current` is of `total`, scaled by 100000 and
/// rounded to the nearest unit: the integer standing for a percentage
/// with five decimal places.
pub open spec fn percent_scaled(current: nat, total: nat) -> nat
    recommends
        total > 0,
{
    (current * 10_000_000 + total / 2) / total
}

/// The percentage text with five decimal places, as in `75.00000`.
pub open spec fn spec_percent_text(current: nat, total: nat) -> Seq<char>
    recommends
        total > 0,
{
    let p = percent_scaled(current, total);
    spec_digits(p / 100_000) + seq!['.'] + zero_pad(spec_digits(p % 100_000), 5)
}

/// Renders the share of `total` that `current` is, as a percentage with
/// five decimal places.
pub fn percent_text(current: u64, total: u64) -> (r: String)
    requires
        total >= 1,
    ensures
        r@ == spec_percent_text(current as nat, total as nat),
{
    proof {
        reveal_strlit(".");
        assert((current as u128) * 10_000_000 <= 0xFFFF_FFFF_FFFF_FFFFu128 * 10_000_000)
            by (nonlinear_arith)
            requires
                current <= 0xFFFF_FFFF_FFFF_FFFFu64,
        ;
    }
    let p: u128 = ((current as u128) * 10_000_000 + (total as u128) / 2) / (total as u128);
    let mut s = decimal_string(p / 100_000);
    s.append(".");
    s.append(zero_padded(decimal_string(p % 100_000), 5).as_str());
    proof {
        assert(s@ =~= spec_percent_text(current as nat, total as nat));
    }
    s
}

/// The log line for one copy attempt: the source and destination paths,
/// prefixed with `FAILED: ` when the copy did not succeed.
pub open spec fn spec_copy_log_line(src: Seq<char>, dest: Seq<char>, ok: bool) -> Seq<char> {
    if ok {
        src + " -> "@ + dest
    } else {
        "FAILED: "@ + src + " -> "@ + dest
    }
}

/// Builds the log line for one copy attempt.
pub fn copy_log_line(src: &str, dest: &str, ok: bool) -> (r: String)
    ensures
        r@ == spec_copy_log_line(src@, dest@, ok),
{
    let mut s = if ok {
        String::new()
    } else {
        String::from_str("FAILED: ")
    };
    s.append(src);
    s.append(" -> ");
    s.append(dest);
    proof {
        assert(s@ =~= spec_copy_log_line(src@, dest@, ok));
    }
    s
}

/// The progress line printed for one processed file: the current index and
/// the total, both zero-padded to eight digits, the percentage done, and
/// the copy log line.
pub open spec fn spec_progress_line(current: nat, total: nat, log: Seq<char>) -> Seq<char>
    recommends
        total > 0,
{
    "[ "@ + zero_pad(spec_digits(current), 8) + " of "@ + zero_pad(spec_digits(total), 8) + " ("@
        + spec_percent_text(current, total) + "%) ] : "@ + log
}

/// Builds the progress line for one processed file.
pub fn progress_line(current: u64, total: u64, log: &str) -> (r: String)
    requires
        total >= 1,
    ensures
        r@ == spec_progress_line(current as nat, total as nat, log@),
{
    let mut s = String::from_str("[ ");
    s.append(zero_padded(decimal_string(current as u128), 8).as_str());
    s.append(" of ");
    s.append(zero_padded(decimal_string(total as u128), 8).as_str());
    s.append(" (");
    s.append(percent_text(current, total).as_str());
    s.append("%) ] : ");
    s.append(log);
    proof {
        assert(s@ =~= spec_progress_line(current as nat, total as nat, log@));
    }
    s
}

} // verus!
