//! Humanizes raw byte counts into unit-scaled sizes and raw elapsed
//! seconds into relative-age strings.
//!
//! Rounding is half-away-from-zero throughout (for the non-negative
//! inputs here this is the same as rounding half up), computed exactly
//! over the integers.
use vstd::arithmetic::div_mod::lemma_div_by_multiple;
use vstd::arithmetic::div_mod::lemma_div_is_ordered;
use vstd::arithmetic::div_mod::lemma_div_is_ordered_by_denominator;
use vstd::arithmetic::div_mod::lemma_div_multiples_vanish_fancy;
use vstd::arithmetic::div_mod::lemma_fundamental_div_mod;
use vstd::arithmetic::div_mod::lemma_multiply_divide_lt;
use vstd::prelude::*;
use vstd::string::StringExecFns;

use crate::strutil::dec_str;
use crate::strutil::digit_char;
use crate::strutil::digit_str;
use crate::strutil::u64_to_string;

verus! {

pub const KB: u64 = 1024;

pub const MB: u64 = 1048576;

pub const GB: u64 = 1073741824;

pub const TB: u64 = 1099511627776;

/// `n / d`, rounded half away from zero: the quotient in tenths of the
/// true ratio's nearest integer for even `d`.
pub open spec fn round_div(n: nat, d: nat) -> nat
    recommends
        d > 0,
{
    (n + d / 2) / d
}

/// `10 * b / t`, rounded half away from zero: the scaled size in tenths.
pub open spec fn size_tenths(b: nat, t: nat) -> nat
    recommends
        t > 0,
{
    (10 * b + t / 2) / t
}

/// A number of tenths rendered with one decimal place, `"12.5"` style.
pub open spec fn tenths_str(tn: nat) -> Seq<char> {
    dec_str(tn / 10) + seq!['.'] + seq![digit_char(tn % 10)]
}

/// The magnitude part of a humanized size: `"-"` for zero, the raw byte
/// count below `KB`, and otherwise the size scaled to its unit with one
/// decimal place.
pub open spec fn spec_size_magnitude(b: u64) -> Seq<char> {
    if b == 0 {
        seq!['-']
    } else if b < KB {
        dec_str(b as nat)
    } else if b < MB {
        tenths_str(size_tenths(b as nat, KB as nat))
    } else if b < GB {
        tenths_str(size_tenths(b as nat, MB as nat))
    } else if b < TB {
        tenths_str(size_tenths(b as nat, GB as nat))
    } else {
        tenths_str(size_tenths(b as nat, TB as nat))
    }
}

/// The unit part of a humanized size: empty for zero, otherwise the
/// largest unit whose threshold the byte count reaches, clamped to `T`.
pub open spec fn spec_size_unit(b: u64) -> Seq<char> {
    if b == 0 {
        Seq::<char>::empty()
    } else if b < KB {
        seq!['B']
    } else if b < MB {
        seq!['K']
    } else if b < GB {
        seq!['M']
    } else if b < TB {
        seq!['G']
    } else {
        seq!['T']
    }
}

/// The scaled magnitude in tenths for a byte count of at least `KB`,
/// taken at the unit that [`spec_size_unit`] picks.
pub open spec fn spec_size_tenths(b: u64) -> nat
    recommends
        b >= KB,
{
    if b < MB {
        size_tenths(b as nat, KB as nat)
    } else if b < GB {
        size_tenths(b as nat, MB as nat)
    } else if b < TB {
        size_tenths(b as nat, GB as nat)
    } else {
        size_tenths(b as nat, TB as nat)
    }
}

/// The humanized age of an entry modified `s` seconds ago, bucketed at
/// the minute, hour and day thresholds; each bucket's magnitude is
/// rounded to the nearest integer, halves away from zero.
pub open spec fn spec_age(s: u64) -> Seq<char> {
    if s < 60 {
        dec_str(s as nat) + " secs ago"@
    } else if s < 3600 {
        dec_str(round_div(s as nat, 60)) + " mins ago"@
    } else if s < 86400 {
        dec_str(round_div(s as nat, 3600)) + " hrs ago"@
    } else {
        dec_str(round_div(s as nat, 86400)) + " days ago"@
    }
}

fn scaled_tenths(b: u64, t: u64) -> (s: String)
    requires
        1024 <= t,
    ensures
        s@ == tenths_str(size_tenths(b as nat, t as nat)),
{
    let wide: u128 = ((b as u128) * 10 + (t as u128) / 2) / (t as u128);
    proof {
        let x: int = (b as int) * 10 + (t as int) / 2;
        let big: int = 0x1_0000_0000_0000_0000;
        assert(x < 1024 * big);
        assert(1024 * big <= (t as int) * big) by (nonlinear_arith)
            requires
                t >= 1024,
                big == 0x1_0000_0000_0000_0000,
        ;
        lemma_multiply_divide_lt(x, t as int, big);
        assert(wide == size_tenths(b as nat, t as nat));
        assert(wide < big);
    }
    let tn = wide as u64;
    let mut s = u64_to_string(tn / 10);
    s.append(".");
    s.append(digit_str(tn % 10));
    proof {
        reveal_strlit(".");
        assert(s@ =~= tenths_str(tn as nat));
    }
    s
}

/// Humanizes a byte count: the pair of magnitude and unit.
///
/// Zero is `("-", "")`; a count below `KB` keeps its integer magnitude
/// with unit `B`; a larger count is scaled to the largest unit among
/// `K`, `M`, `G`, `T` whose threshold it reaches, with one decimal.
pub fn humanize_size(bytes: u64) -> (r: (String, String))
    ensures
        r.0@ == spec_size_magnitude(bytes),
        r.1@ == spec_size_unit(bytes),
{
    if bytes == 0 {
        proof {
            reveal_strlit("-");
            assert("-"@ =~= seq!['-']);
        }
        (String::from_str("-"), String::new())
    } else if bytes < KB {
        proof {
            reveal_strlit("B");
            assert("B"@ =~= seq!['B']);
        }
        (u64_to_string(bytes), String::from_str("B"))
    } else if bytes < MB {
        proof {
            reveal_strlit("K");
            assert("K"@ =~= seq!['K']);
        }
        (scaled_tenths(bytes, KB), String::from_str("K"))
    } else if bytes < GB {
        proof {
            reveal_strlit("M");
            assert("M"@ =~= seq!['M']);
        }
        (scaled_tenths(bytes, MB), String::from_str("M"))
    } else if bytes < TB {
        proof {
            reveal_strlit("G");
            assert("G"@ =~= seq!['G']);
        }
        (scaled_tenths(bytes, GB), String::from_str("G"))
    } else {
        proof {
            reveal_strlit("T");
            assert("T"@ =~= seq!['T']);
        }
        (scaled_tenths(bytes, TB), String::from_str("T"))
    }
}

fn rounded_div(n: u64, d: u64) -> (q: u64)
    requires
        2 <= d,
        d % 2 == 0,
    ensures
        q == round_div(n as nat, d as nat),
{
    let q0 = n / d;
    let r = n % d;
    proof {
        lemma_fundamental_div_mod(n as int, d as int);
        lemma_div_is_ordered_by_denominator(n as int, 2, d as int);
        if r >= d / 2 {
            assert((d as int) * (q0 as int + 1) == (d as int) * (q0 as int) + d) by (nonlinear_arith);
            assert(n + d / 2 == (d as int) * (q0 + 1) + (r - d / 2));
            lemma_div_multiples_vanish_fancy(q0 as int + 1, r - d / 2, d as int);
        } else {
            assert(n + d / 2 == (d as int) * (q0 as int) + (r + d / 2));
            lemma_div_multiples_vanish_fancy(q0 as int, r + d / 2, d as int);
        }
    }
    if r >= d / 2 {
        q0 + 1
    } else {
        q0
    }
}

/// Humanizes an elapsed time of `seconds` seconds as a relative age:
/// seconds below a minute, then minutes, hours and days, rounded to the
/// nearest whole number (halves away from zero).
pub fn humanize_age(seconds: u64) -> (r: String)
    ensures
        r@ == spec_age(seconds),
{
    if seconds < 60 {
        let mut s = u64_to_string(seconds);
        s.append(" secs ago");
        s
    } else if seconds < 3600 {
        let mut s = u64_to_string(rounded_div(seconds, 60));
        s.append(" mins ago");
        s
    } else if seconds < 86400 {
        let mut s = u64_to_string(rounded_div(seconds, 3600));
        s.append(" hrs ago");
        s
    } else {
        let mut s = u64_to_string(rounded_div(seconds, 86400));
        s.append(" days ago");
        s
    }
}

/// The humanized age is never empty.
pub proof fn lemma_age_nonempty(s: u64)
    ensures
        spec_age(s).len() > 0,
{
    if s < 60 {
        crate::strutil::lemma_dec_str_nonempty(s as nat);
    } else if s < 3600 {
        crate::strutil::lemma_dec_str_nonempty(round_div(s as nat, 60));
    } else if s < 86400 {
        crate::strutil::lemma_dec_str_nonempty(round_div(s as nat, 3600));
    } else {
        crate::strutil::lemma_dec_str_nonempty(round_div(s as nat, 86400));
    }
}

/// The unit of a humanized size is always one of `""`, `"B"`, `"K"`,
/// `"M"`, `"G"` and `"T"`, and a non-zero byte count scales to a
/// magnitude of at least one whole unit. Below `B`'s successor the
/// magnitude is the raw count, under 1024; at the scaled units the
/// magnitude in tenths stays within 10240 (that bound is reached only by
/// counts that round up to the next threshold) and has no upper bound at
/// the largest unit, which clamps instead of overflowing.
pub proof fn lemma_size_magnitude_bounds(b: u64)
    ensures
        spec_size_unit(b) == Seq::<char>::empty() || spec_size_unit(b) == seq!['B']
            || spec_size_unit(b) == seq!['K'] || spec_size_unit(b) == seq!['M'] || spec_size_unit(
            b,
        ) == seq!['G'] || spec_size_unit(b) == seq!['T'],
        b == 0 <==> spec_size_unit(b) == Seq::<char>::empty(),
        0 < b < KB ==> spec_size_magnitude(b) == dec_str(b as nat) && 1 <= b < 1024,
        KB <= b ==> 10 <= spec_size_tenths(b),
        KB <= b < TB ==> spec_size_tenths(b) <= 10240,
        KB <= b < MB ==> (spec_size_tenths(b) < 10240 <==> 20 * b < 20479 * KB),
        MB <= b < GB ==> (spec_size_tenths(b) < 10240 <==> 20 * b < 20479 * MB),
        GB <= b < TB ==> (spec_size_tenths(b) < 10240 <==> 20 * b < 20479 * GB),
{
    if b != 0 {
        assert(spec_size_unit(b).len() == 1);
    }
    if KB <= b {
        let bi = b as int;
        if b < MB {
            lemma_size_tenths_bounds(bi, KB as int);
            lemma_size_tenths_strict(bi, KB as int);
        } else if b < GB {
            lemma_size_tenths_bounds(bi, MB as int);
            lemma_size_tenths_strict(bi, MB as int);
        } else if b < TB {
            lemma_size_tenths_bounds(bi, GB as int);
            lemma_size_tenths_strict(bi, GB as int);
        } else {
            lemma_size_tenths_low(bi, TB as int);
        }
    }
}

proof fn lemma_size_tenths_strict(b: int, t: int)
    requires
        1024 <= t,
        t % 2 == 0,
        t <= b,
        b < 1024 * t,
    ensures
        size_tenths(b as nat, t as nat) < 10240 <==> 20 * b < 20479 * t,
{
    if 20 * b < 20479 * t {
        assert(10 * b + t / 2 < t * 10240);
        lemma_multiply_divide_lt(10 * b + t / 2, t, 10240);
    } else {
        assert(t * 10240 <= 10 * b + t / 2);
        lemma_div_by_multiple(10240, t);
        lemma_div_is_ordered(t * 10240, 10 * b + t / 2, t);
        assert((t * 10240) / t == 10240) by {
            assert(t * 10240 == 10240 * t) by (nonlinear_arith);
        }
    }
}

proof fn lemma_size_tenths_low(b: int, t: int)
    requires
        1024 <= t,
        t <= b,
    ensures
        10 <= size_tenths(b as nat, t as nat),
{
    lemma_div_by_multiple(10, t);
    lemma_div_is_ordered(10 * t, 10 * b + t / 2, t);
}

proof fn lemma_size_tenths_bounds(b: int, t: int)
    requires
        1024 <= t,
        t <= b,
        b < 1024 * t,
    ensures
        10 <= size_tenths(b as nat, t as nat) <= 10240,
{
    lemma_size_tenths_low(b, t);
    assert(10 * b + t / 2 < t * 10241);
    lemma_multiply_divide_lt(10 * b + t / 2, t, 10241);
}

} // verus!
