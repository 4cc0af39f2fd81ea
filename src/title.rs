//! The title of a subplot: the parameter set's label, its Nyquist ratio to two
//! decimals, the signal frequency to one decimal, the sampling rate and the
//! bit depth.
use crate::params::{Ratio, SignalParams, MILLIHERTZ_PER_HERTZ};
use vstd::prelude::*;
use vstd::string::StringExecFns;

verus! {

/// The character of decimal digit `d`.
pub open spec fn digit_char(d: nat) -> char {
    ((d + 48) as u8) as char
}

/// Decimal digits of `n`, without leading zeros.
pub open spec fn decimal(n: nat) -> Seq<char>
    decreases n,
{
    if n < 10 {
        seq![digit_char(n)]
    } else {
        decimal(n / 10) + seq![digit_char(n % 10)]
    }
}

/// `num / den × scale`, rounded to the nearest integer, halves up.
pub open spec fn scaled_rounded(num: nat, den: nat, scale: nat) -> nat {
    ((2 * num * scale + den) / (2 * den)) as nat
}

/// A count of hundredths written with two decimals.
pub open spec fn two_decimals(hundredths: nat) -> Seq<char> {
    decimal(hundredths / 100) + seq!['.', digit_char((hundredths / 10) % 10), digit_char(hundredths % 10)]
}

/// A count of tenths written with one decimal.
pub open spec fn one_decimal(tenths: nat) -> Seq<char> {
    decimal(tenths / 10) + seq!['.', digit_char(tenths % 10)]
}

/// The ratio written with two decimals.
pub open spec fn ratio_text(r: Ratio) -> Seq<char> {
    two_decimals(scaled_rounded(r.num as nat, r.den as nat, 100))
}

/// A frequency given in millihertz, written in hertz with one decimal.
pub open spec fn hertz_text(freq_mhz: nat) -> Seq<char> {
    one_decimal(scaled_rounded(freq_mhz, MILLIHERTZ_PER_HERTZ as nat, 10))
}

/// The title of parameter set `p`, with `<br>` between its lines.
pub open spec fn title_text(p: SignalParams) -> Seq<char> {
    p.name@ + " (Nyquist Ratio: "@ + ratio_text(p.nyquist_ratio) + ")<br>Signal: "@
        + hertz_text(p.signal_freq_mhz as nat) + "Hz<br>Sampling: "@ + decimal(
        p.sampling_rate as nat,
    ) + "Hz<br>Bit Depth: "@ + decimal(p.bit_depth as nat) + "-bit"@
}

/// The one-character string of decimal digit `d`.
fn digit_str(d: u128) -> (r: &'static str)
    requires
        d < 10,
    ensures
        r@ == seq![digit_char(d as nat)],
{
    proof {
        reveal_strlit("0");
        reveal_strlit("1");
        reveal_strlit("2");
        reveal_strlit("3");
        reveal_strlit("4");
        reveal_strlit("5");
        reveal_strlit("6");
        reveal_strlit("7");
        reveal_strlit("8");
        reveal_strlit("9");
    }
    match d {
        0 => "0",
        1 => "1",
        2 => "2",
        3 => "3",
        4 => "4",
        5 => "5",
        6 => "6",
        7 => "7",
        8 => "8",
        _ => "9",
    }
}

/// Appends the decimal digits of `n` to `s`.
pub(crate) fn push_decimal(s: &mut String, n: u128)
    ensures
        final(s)@ == old(s)@ + decimal(n as nat),
    decreases n,
{
    if n >= 10 {
        push_decimal(s, n / 10);
    }
    s.append(digit_str(n % 10));
    proof {
        if n >= 10 {
            assert(final(s)@ =~= old(s)@ + decimal(n as nat));
        } else {
            assert(final(s)@ =~= old(s)@ + decimal(n as nat));
        }
    }
}

/// Appends `hundredths` written with two decimals to `s`.
fn push_two_decimals(s: &mut String, hundredths: u128)
    ensures
        final(s)@ == old(s)@ + two_decimals(hundredths as nat),
{
    push_decimal(s, hundredths / 100);
    s.append(".");
    s.append(digit_str((hundredths / 10) % 10));
    s.append(digit_str(hundredths % 10));
    proof {
        reveal_strlit(".");
        assert(final(s)@ =~= old(s)@ + two_decimals(hundredths as nat));
    }
}

/// Appends `tenths` written with one decimal to `s`.
pub(crate) fn push_one_decimal(s: &mut String, tenths: u128)
    ensures
        final(s)@ == old(s)@ + one_decimal(tenths as nat),
{
    push_decimal(s, tenths / 10);
    s.append(".");
    s.append(digit_str(tenths % 10));
    proof {
        reveal_strlit(".");
        assert(final(s)@ =~= old(s)@ + one_decimal(tenths as nat));
    }
}

/// The title of a parameter set's subplot.
pub fn generate_title(params: &SignalParams) -> (r: String)
    requires
        params.wf(),
    ensures
        r@ == title_text(*params),
{
    let ratio = params.nyquist_ratio;
    let hundredths = (2 * ratio.num * 100 + ratio.den) / (2 * ratio.den);
    let mhz = params.signal_freq_mhz as u128;
    let per_hertz = MILLIHERTZ_PER_HERTZ as u128;
    let tenths = (2 * mhz * 10 + per_hertz) / (2 * per_hertz);
    let mut s = params.name.clone();
    s.append(" (Nyquist Ratio: ");
    push_two_decimals(&mut s, hundredths);
    s.append(")<br>Signal: ");
    push_one_decimal(&mut s, tenths);
    s.append("Hz<br>Sampling: ");
    push_decimal(&mut s, params.sampling_rate as u128);
    s.append("Hz<br>Bit Depth: ");
    push_decimal(&mut s, params.bit_depth as u128);
    s.append("-bit");
    s
}

} // verus!
