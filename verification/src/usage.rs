//! Used and total amounts: sizes in GiB, the used share in percent, and the
//! colour that tells how full something is.

use vstd::prelude::*;
use crate::color::{is_painted, paint, Hue, Tint};
use crate::decimal::{
    digit,
    digit_char,
    digits_of,
    div_round,
    hundredths_text,
    push_number,
    rounded_quotient,
    tenths_text,
};
use crate::text::{chars_of, extend_chars, string_of};

verus! {

/// The number of bytes in a GiB.
pub const GIB: u64 = 1073741824;

/// How much attention a used share calls for.
#[derive(Clone, Copy, Debug, PartialEq, Eq)]
pub enum Emphasis {
    Low,
    Medium,
    High,
}

/// The emphasis of `part` out of `whole`: low below 50 percent, medium from
/// 50 percent on and below 90, high from 90 percent on. The share is taken
/// exactly, not as it is displayed. A share of nothing counts as 0 percent.
pub open spec fn emphasis_of(part: nat, whole: nat) -> Emphasis {
    if whole == 0 || part * 100 < 50 * whole {
        Emphasis::Low
    } else if part * 100 < 90 * whole {
        Emphasis::Medium
    } else {
        Emphasis::High
    }
}

/// The colour that shows an emphasis: green, yellow or red.
pub open spec fn emphasis_tint(e: Emphasis) -> Tint {
    match e {
        Emphasis::Low => Tint { hue: Hue::Green, bright: false },
        Emphasis::Medium => Tint { hue: Hue::Yellow, bright: false },
        Emphasis::High => Tint { hue: Hue::Red, bright: false },
    }
}

/// `part` out of `whole` in tenths of a percent, rounded to the nearest; 0
/// where `whole` is 0.
pub open spec fn percent_tenths(part: nat, whole: nat) -> nat {
    if whole == 0 {
        0
    } else {
        div_round(part * 1000, whole)
    }
}

/// `part` out of `whole` as a percentage with one decimal place and a
/// percent sign.
pub open spec fn percent_text(part: nat, whole: nat) -> Seq<char> {
    tenths_text(percent_tenths(part, whole)) + seq!['%']
}

/// `bytes` in hundredths of a GiB, rounded to the nearest.
pub open spec fn gib_hundredths(bytes: nat) -> nat {
    div_round(bytes * 100, GIB as nat)
}

/// `bytes` in GiB with two decimal places.
pub open spec fn gib_text(bytes: nat) -> Seq<char> {
    hundredths_text(gib_hundredths(bytes))
}

/// Computes `emphasis_of`.
pub fn emphasis(part: u64, whole: u64) -> (e: Emphasis)
    ensures
        e == emphasis_of(part as nat, whole as nat),
{
    let p: u128 = part as u128 * 100;
    let w: u128 = whole as u128;
    if whole == 0 || p < 50 * w {
        Emphasis::Low
    } else if p < 90 * w {
        Emphasis::Medium
    } else {
        Emphasis::High
    }
}

/// Computes `emphasis_tint`.
pub fn tint_for(e: Emphasis) -> (t: Tint)
    ensures
        t == emphasis_tint(e),
{
    match e {
        Emphasis::Low => Tint { hue: Hue::Green, bright: false },
        Emphasis::Medium => Tint { hue: Hue::Yellow, bright: false },
        Emphasis::High => Tint { hue: Hue::Red, bright: false },
    }
}

/// Appends `percent_text(part, whole)` to `out`.
pub fn push_percent(out: &mut Vec<char>, part: u64, whole: u64)
    ensures
        final(out)@ == old(out)@ + percent_text(part as nat, whole as nat),
{
    let t: u128 = if whole == 0 {
        0
    } else {
        rounded_quotient(part as u128 * 1000, whole as u128)
    };
    push_number(out, t / 10);
    out.push('.');
    out.push(digit((t % 10) as u8));
    out.push('%');
    proof {
        assert(out@ =~= old(out)@ + percent_text(part as nat, whole as nat));
    }
}

/// Appends `gib_text(bytes)` to `out`.
pub fn push_gib(out: &mut Vec<char>, bytes: u64)
    ensures
        final(out)@ == old(out)@ + gib_text(bytes as nat),
{
    let h: u128 = rounded_quotient(bytes as u128 * 100, GIB as u128);
    push_number(out, h / 100);
    out.push('.');
    out.push(digit(((h / 10) % 10) as u8));
    out.push(digit((h % 10) as u8));
    proof {
        assert(out@ =~= old(out)@ + gib_text(bytes as nat));
    }
}

/// The used share `part` of `whole` as a percentage with one decimal place,
/// painted green, yellow or red by how large the share is.
pub fn colorize_percentage(part: u64, whole: u64) -> (out: String)
    ensures
        is_painted(
            out@,
            percent_text(part as nat, whole as nat),
            emphasis_tint(emphasis_of(part as nat, whole as nat)),
        ),
{
    let mut text: Vec<char> = Vec::new();
    push_percent(&mut text, part, whole);
    let plain = string_of(&text);
    paint(plain.as_str(), tint_for(emphasis(part, whole)))
}

/// A used and a total size with the used share `percent` behind them, as in
/// `8.00 >> 16.00 GB (50.0%)`.
pub open spec fn usage_text(used: nat, total: nat, percent: Seq<char>) -> Seq<char> {
    gib_text(used) + " >> "@ + gib_text(total) + " GB ("@ + percent + ")"@
}

/// `out` is the usage text of `used` out of `total`, with the percentage
/// painted by its emphasis.
pub open spec fn is_usage_status(out: Seq<char>, used: nat, total: nat) -> bool {
    exists|percent: Seq<char>|
        is_painted(percent, percent_text(used, total), emphasis_tint(emphasis_of(used, total)))
            && out == #[trigger] usage_text(used, total, percent)
}

/// Writes `usage_text` around a percentage that has been painted already.
pub fn format_usage(used: u64, total: u64, percent: &str) -> (out: String)
    ensures
        out@ == usage_text(used as nat, total as nat, percent@),
{
    let mut buf: Vec<char> = Vec::new();
    push_gib(&mut buf, used);
    extend_chars(&mut buf, &chars_of(" >> "));
    push_gib(&mut buf, total);
    extend_chars(&mut buf, &chars_of(" GB ("));
    extend_chars(&mut buf, &chars_of(percent));
    extend_chars(&mut buf, &chars_of(")"));
    proof {
        assert(buf@ =~= usage_text(used as nat, total as nat, percent@));
    }
    string_of(&buf)
}

/// How much of `total` bytes is used: both sizes in GiB and the used share
/// in percent, the percentage painted by its emphasis.
pub fn usage_status(used: u64, total: u64) -> (out: String)
    ensures
        is_usage_status(out@, used as nat, total as nat),
{
    let percent = colorize_percentage(used, total);
    format_usage(used, total, percent.as_str())
}

/// The emphasis goes by the share alone: low below one half, high from nine
/// tenths on, medium between; and a larger part of the same whole never
/// has a lower emphasis.
pub proof fn law_emphasis_thresholds(part: nat, whole: nat, more: nat)
    requires
        whole > 0,
        part <= more,
    ensures
        emphasis_of(part, whole) == Emphasis::Low <==> 2 * part < whole,
        emphasis_of(part, whole) == Emphasis::Medium <==> whole <= 2 * part && 10 * part < 9 * whole,
        emphasis_of(part, whole) == Emphasis::High <==> 9 * whole <= 10 * part,
        emphasis_of(part, whole) == Emphasis::High ==> emphasis_of(more, whole) == Emphasis::High,
        emphasis_of(more, whole) == Emphasis::Low ==> emphasis_of(part, whole) == Emphasis::Low,
{
}

} // verus!
