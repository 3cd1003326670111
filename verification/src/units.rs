//! Conversion of a raw byte count into a human-readable magnitude and unit.
//!
//! The unit chosen is the largest of B, KB, MB, GB, TB (powers of 1024) in
//! which the magnitude is at least 1; the magnitude is the byte count divided
//! by that unit, rounded to the nearest integer (ties round up). A count of
//! zero yields `(0, "B")`.

use vstd::prelude::*;

verus! {

pub const KB: u64 = 1024;

pub const MB: u64 = 1024 * 1024;

pub const GB: u64 = 1024 * 1024 * 1024;

pub const TB: u64 = 1024 * 1024 * 1024 * 1024;

/// Index of the unit used for `b` bytes: 0 for B up to 4 for TB; the largest
/// index whose divisor is no greater than `b`, or 0 when `b < 1024`.
pub open spec fn unit_index(b: u64) -> int {
    if b >= TB {
        4
    } else if b >= GB {
        3
    } else if b >= MB {
        2
    } else if b >= KB {
        1
    } else {
        0
    }
}

/// Number of bytes in one step of unit `k`.
pub open spec fn unit_divisor(k: int) -> int {
    if k == 4 {
        TB as int
    } else if k == 3 {
        GB as int
    } else if k == 2 {
        MB as int
    } else if k == 1 {
        KB as int
    } else {
        1
    }
}

/// Label of unit `k`.
pub open spec fn unit_label(k: int) -> Seq<char> {
    if k == 4 {
        "TB"@
    } else if k == 3 {
        "GB"@
    } else if k == 2 {
        "MB"@
    } else if k == 1 {
        "KB"@
    } else {
        "B"@
    }
}

/// `b / d` rounded to the nearest integer, ties rounded up.
pub open spec fn rounded_div(b: int, d: int) -> int
    recommends
        d >= 1,
{
    if 2 * (b % d) >= d {
        b / d + 1
    } else {
        b / d
    }
}

/// The magnitude reported for `b` bytes: `b` over its unit's divisor, rounded
/// to the nearest integer.
pub open spec fn readable_value(b: u64) -> int {
    rounded_div(b as int, unit_divisor(unit_index(b)))
}

fn div_round_nearest(b: u64, d: u64) -> (r: u64)
    requires
        1 <= d <= TB,
    ensures
        r as int == rounded_div(b as int, d as int),
{
    let q: u64 = b / d;
    let rem: u64 = b % d;
    if 2 * rem >= d {
        proof {
            assert(d >= 2) by {
                if d == 1 {
                    assert(rem == 0);
                }
            }
            assert(b as int == d as int * q as int + rem as int) by {
                vstd::arithmetic::div_mod::lemma_fundamental_div_mod(b as int, d as int);
            }
            assert(2 * q as int <= d as int * q as int) by (nonlinear_arith)
                requires
                    q as int >= 0,
                    d as int >= 2,
            ;
        }
        q + 1
    } else {
        q
    }
}

/// The largest unit of B, KB, MB, GB, TB whose magnitude for `b` is at least
/// 1, together with `b` in that unit rounded to the nearest integer.
pub fn bytes_to_readable(bytes: u64) -> (r: (u64, &'static str))
    ensures
        r.0 as int == readable_value(bytes),
        r.1@ == unit_label(unit_index(bytes)),
{
    if bytes >= TB {
        (div_round_nearest(bytes, TB), "TB")
    } else if bytes >= GB {
        (div_round_nearest(bytes, GB), "GB")
    } else if bytes >= MB {
        (div_round_nearest(bytes, MB), "MB")
    } else if bytes >= KB {
        (div_round_nearest(bytes, KB), "KB")
    } else {
        (bytes, "B")
    }
}

/// The unit chosen for `b` is the largest of the five for which the magnitude
/// `b / unit_divisor` is at least 1; when even 1024 exceeds `b`, the unit is
/// the byte itself.
pub proof fn lemma_unit_is_largest(b: u64)
    ensures
        0 <= unit_index(b) <= 4,
        unit_index(b) > 0 ==> b as int >= unit_divisor(unit_index(b)),
        forall|k: int| unit_index(b) < k <= 4 ==> (b as int) < unit_divisor(k),
{
}

} // verus!
