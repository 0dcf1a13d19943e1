//! Byte counts in human-readable units.
//!
//! The convention is decimal: each unit is a thousand times the one before
//! it, from bytes up to exabytes. A count is shown in the largest unit in
//! which it is at least one, with two decimal places that are cut off, not
//! rounded. Counts below a thousand are shown as whole bytes.

use vstd::prelude::*;
use vstd::string::*;
use crate::text::{decimal, decimal_text, digit_char};

verus! {

/// Which unit a count is shown in: 0 for bytes, 1 for kB, up to 6 for EB.
pub open spec fn unit_index(bytes: nat) -> nat {
    if bytes < 1_000 {
        0
    } else if bytes < 1_000_000 {
        1
    } else if bytes < 1_000_000_000 {
        2
    } else if bytes < 1_000_000_000_000 {
        3
    } else if bytes < 1_000_000_000_000_000 {
        4
    } else if bytes < 1_000_000_000_000_000_000 {
        5
    } else {
        6
    }
}

/// How many bytes one of unit `k` holds: a thousand to the power `k`.
pub open spec fn unit_size(k: nat) -> nat
    recommends
        k <= 6,
{
    if k == 0 {
        1
    } else if k == 1 {
        1_000
    } else if k == 2 {
        1_000_000
    } else if k == 3 {
        1_000_000_000
    } else if k == 4 {
        1_000_000_000_000
    } else if k == 5 {
        1_000_000_000_000_000
    } else {
        1_000_000_000_000_000_000
    }
}

/// The symbol of unit `k`.
pub open spec fn unit_name(k: nat) -> Seq<char>
    recommends
        k <= 6,
{
    if k == 0 {
        "B"@
    } else if k == 1 {
        "kB"@
    } else if k == 2 {
        "MB"@
    } else if k == 3 {
        "GB"@
    } else if k == 4 {
        "TB"@
    } else if k == 5 {
        "PB"@
    } else {
        "EB"@
    }
}

/// The digits before the decimal point: whole units in `bytes`.
pub open spec fn whole_units(bytes: nat) -> nat {
    bytes / unit_size(unit_index(bytes))
}

/// The two digits after the decimal point, as a number below 100: the
/// completed hundredths of a unit in what the whole units leave over.
pub open spec fn hundredths(bytes: nat) -> nat {
    let unit = unit_size(unit_index(bytes));
    if unit < 100 {
        0
    } else {
        (bytes % unit) / (unit / 100)
    }
}

/// A number below 100 as exactly two digits.
pub open spec fn two_digits(h: nat) -> Seq<char>
    recommends
        h < 100,
{
    seq![digit_char(h / 10), digit_char(h % 10)]
}

/// The text that a byte count is shown as.
pub open spec fn size_text(bytes: nat) -> Seq<char> {
    let k = unit_index(bytes);
    if k == 0 {
        decimal_text(bytes) + " B"@
    } else {
        decimal_text(whole_units(bytes)) + "."@ + two_digits(hundredths(bytes)) + " "@ + unit_name(
            k,
        )
    }
}

/// A larger count is never shown in a smaller unit.
pub proof fn lemma_unit_monotonic(a: nat, b: nat)
    requires
        a <= b,
    ensures
        unit_index(a) <= unit_index(b),
        unit_size(unit_index(a)) <= unit_size(unit_index(b)),
{
}

/// The unit chosen is the largest in which the count is at least one: a
/// count of a thousand or more is shown as at least one and under a
/// thousand of its unit, up to the largest unit there is.
pub proof fn lemma_unit_is_largest(bytes: nat)
    requires
        bytes >= 1,
    ensures
        unit_index(bytes) <= 6,
        whole_units(bytes) >= 1,
        unit_index(bytes) < 6 ==> whole_units(bytes) < 1_000,
        hundredths(bytes) < 100,
{
    let k = unit_index(bytes);
    if k == 0 {
        assert(bytes / 1 == bytes);
    } else if k == 1 {
        assert(1 <= bytes / 1_000 < 1_000);
        assert((bytes % 1_000) / 10 < 100);
    } else if k == 2 {
        assert(1 <= bytes / 1_000_000 < 1_000);
        assert((bytes % 1_000_000) / 10_000 < 100);
    } else if k == 3 {
        assert(1 <= bytes / 1_000_000_000 < 1_000);
        assert((bytes % 1_000_000_000) / 10_000_000 < 100);
    } else if k == 4 {
        assert(1 <= bytes / 1_000_000_000_000 < 1_000);
        assert((bytes % 1_000_000_000_000) / 10_000_000_000 < 100);
    } else if k == 5 {
        assert(1 <= bytes / 1_000_000_000_000_000 < 1_000);
        assert((bytes % 1_000_000_000_000_000) / 10_000_000_000_000 < 100);
    } else {
        assert(1 <= bytes / 1_000_000_000_000_000_000);
        assert((bytes % 1_000_000_000_000_000_000) / 10_000_000_000_000_000 < 100);
    }
}

/// What is shown, taken as a count of hundredths of the unit, is the true
/// count cut off: it is never above the count and less than one hundredth
/// of a unit below it.
pub proof fn lemma_shown_is_close(bytes: nat)
    ensures
        ({
            let unit = unit_size(unit_index(bytes));
            let shown = whole_units(bytes) * 100 + hundredths(bytes);
            shown * unit <= bytes * 100 < (shown + 1) * unit
        }),
{
    let k = unit_index(bytes);
    let unit = unit_size(k);
    let shown = whole_units(bytes) * 100 + hundredths(bytes);
    if k == 0 {
        assert(shown == bytes * 100);
    } else {
        let c = unit / 100;
        let rest = bytes % unit;
        assert(unit == 100 * c);
        assert(bytes == whole_units(bytes) * unit + rest) by {
            vstd::arithmetic::div_mod::lemma_fundamental_div_mod(bytes as int, unit as int);
            assert(unit * whole_units(bytes) == whole_units(bytes) * unit) by (nonlinear_arith);
        }
        assert(rest == hundredths(bytes) * c + rest % c) by {
            vstd::arithmetic::div_mod::lemma_fundamental_div_mod(rest as int, c as int);
            assert(c * (rest / c) == (rest / c) * c) by (nonlinear_arith);
        }
        assert(rest % c < c);
        let w = whole_units(bytes);
        let h = hundredths(bytes);
        let r = rest % c;
        assert(bytes * 100 == (w * 100 + h) * unit + 100 * r) by (nonlinear_arith)
            requires
                bytes == w * unit + rest,
                rest == h * c + r,
                unit == 100 * c,
        ;
        assert((shown + 1) * unit == shown * unit + unit) by (nonlinear_arith);
    }
}

fn unit_of(bytes: u64) -> (k: u8)
    ensures
        k == unit_index(bytes as nat),
        k <= 6,
{
    if bytes < 1_000 {
        0
    } else if bytes < 1_000_000 {
        1
    } else if bytes < 1_000_000_000 {
        2
    } else if bytes < 1_000_000_000_000 {
        3
    } else if bytes < 1_000_000_000_000_000 {
        4
    } else if bytes < 1_000_000_000_000_000_000 {
        5
    } else {
        6
    }
}

fn unit_bytes(k: u8) -> (size: u64)
    requires
        k <= 6,
    ensures
        size == unit_size(k as nat),
{
    if k == 0 {
        1
    } else if k == 1 {
        1_000
    } else if k == 2 {
        1_000_000
    } else if k == 3 {
        1_000_000_000
    } else if k == 4 {
        1_000_000_000_000
    } else if k == 5 {
        1_000_000_000_000_000
    } else {
        1_000_000_000_000_000_000
    }
}

fn unit_label(k: u8) -> (label: &'static str)
    requires
        k <= 6,
    ensures
        label@ == unit_name(k as nat),
{
    if k == 0 {
        "B"
    } else if k == 1 {
        "kB"
    } else if k == 2 {
        "MB"
    } else if k == 3 {
        "GB"
    } else if k == 4 {
        "TB"
    } else if k == 5 {
        "PB"
    } else {
        "EB"
    }
}

/// Writes a byte count in the largest unit in which it is at least one,
/// with two decimal places; a count below a thousand in whole bytes.
pub fn convert(bytes: u64) -> (s: String)
    ensures
        s@ == size_text(bytes as nat),
{
    let k: u8 = unit_of(bytes);
    if k == 0 {
        let mut s: String = decimal(bytes);
        s.append(" B");
        s
    } else {
        let unit: u64 = unit_bytes(k);
        let whole: u64 = bytes / unit;
        let h: u64 = (bytes % unit) / (unit / 100);
        proof {
            lemma_unit_is_largest(bytes as nat);
        }
        let mut s: String = decimal(whole);
        s.append(".");
        s.append(decimal(h / 10).as_str());
        s.append(decimal(h % 10).as_str());
        s.append(" ");
        s.append(unit_label(k));
        proof {
            reveal_with_fuel(decimal_text, 2);
            assert(decimal_text((h / 10) as nat) + decimal_text((h % 10) as nat) =~= two_digits(
                h as nat,
            ));
            assert(s@ =~= size_text(bytes as nat));
        }
        s
    }
}

} // verus!
