//! Pulse shapes used by the source hooks: a Gaussian pulse and the Ricker
//! wavelet, both over IEEE 754 bit patterns.
//!
//! Verus carries no floating-point arithmetic, so the exponential factor of
//! the pulses is evaluated by `exp_bits`: the argument's binary digits select
//! factors `e^(2^i)` from a fixed table, and their rounded product
//! approximates `e^x` to within a few dozen units in the last place, far
//! below any physically meaningful scale of a source pulse. The evaluator is
//! exact about what it computes: its contract pins the result as
//! `exp_bits_spec`, the same digit-by-digit product over the named IEEE
//! operations.

use vstd::prelude::*;
use crate::num::{F_ZERO, F_ONE, F_TWO, F_POS_INF, mul_bits, div_bits, sub_bits, neg_bits, is_nonneg_finite, is_zero_val, f_mul, f_div, f_sub, f_neg};

verus! {

/// Bit pattern of pi.
pub const F_PI: u64 = 0x400921fb54442d18;

/// Bit pattern of 1024.0, the smallest power of two past the factor table;
/// `e^1024` overflows a double anyway.
pub const EXP_ARG_HUGE: u64 = 0x4090000000000000;

/// Bit pattern of `2^-53`; arguments smaller in magnitude leave the rounded
/// exponential at exactly 1.0.
pub const EXP_ARG_TINY: u64 = 0x3ca0000000000000;

/// The factor table of the exponential: `e^(2^i)` for `i` from -52 to 9,
/// each rounded to a double.
pub open spec fn exp_table(i: int) -> u64 {
    if i > 9 || i < -52 {
        F_ONE
    } else if i == 9 {
        0x6e19476504ba852eu64
    } else if i == 8 {
        0x57041c7a8814bebau64
    } else if i == 7 {
        0x4b795e54c5dd4217u64
    } else if i == 6 {
        0x45b425982cf597cdu64
    } else if i == 5 {
        0x42d1f43fcc4b662cu64
    } else if i == 4 {
        0x4160f2ebd0a80020u64
    } else if i == 3 {
        0x40a749ea7d470c6eu64
    } else if i == 2 {
        0x404b4c902e273a58u64
    } else if i == 1 {
        0x401d8e64b8d4ddaeu64
    } else if i == 0 {
        0x4005bf0a8b145769u64
    } else if i == -1 {
        0x3ffa61298e1e069cu64
    } else if i == -2 {
        0x3ff48b5e3c3e8186u64
    } else if i == -3 {
        0x3ff2216045b6f5cdu64
    } else if i == -4 {
        0x3ff1082b577d34edu64
    } else if i == -5 {
        0x3ff08205601127edu64
    } else if i == -6 {
        0x3ff04080ab55de39u64
    } else if i == -7 {
        0x3ff0202015600446u64
    } else if i == -8 {
        0x3ff0100802ab5577u64
    } else if i == -9 {
        0x3ff0080200556001u64
    } else if i == -10 {
        0x3ff00400800aab55u64
    } else if i == -11 {
        0x3ff0020020015560u64
    } else if i == -12 {
        0x3ff0010008002aabu64
    } else if i == -13 {
        0x3ff0008002000555u64
    } else if i == -14 {
        0x3ff00040008000abu64
    } else if i == -15 {
        0x3ff0002000200015u64
    } else if i == -16 {
        0x3ff0001000080003u64
    } else if i == -17 {
        0x3ff0000800020000u64
    } else if i == -18 {
        0x3ff0000400008000u64
    } else if i == -19 {
        0x3ff0000200002000u64
    } else if i == -20 {
        0x3ff0000100000800u64
    } else if i == -21 {
        0x3ff0000080000200u64
    } else if i == -22 {
        0x3ff0000040000080u64
    } else if i == -23 {
        0x3ff0000020000020u64
    } else if i == -24 {
        0x3ff0000010000008u64
    } else if i == -25 {
        0x3ff0000008000002u64
    } else if i == -26 {
        0x3ff0000004000000u64
    } else if i == -27 {
        0x3ff0000002000000u64
    } else if i == -28 {
        0x3ff0000001000000u64
    } else if i == -29 {
        0x3ff0000000800000u64
    } else if i == -30 {
        0x3ff0000000400000u64
    } else if i == -31 {
        0x3ff0000000200000u64
    } else if i == -32 {
        0x3ff0000000100000u64
    } else if i == -33 {
        0x3ff0000000080000u64
    } else if i == -34 {
        0x3ff0000000040000u64
    } else if i == -35 {
        0x3ff0000000020000u64
    } else if i == -36 {
        0x3ff0000000010000u64
    } else if i == -37 {
        0x3ff0000000008000u64
    } else if i == -38 {
        0x3ff0000000004000u64
    } else if i == -39 {
        0x3ff0000000002000u64
    } else if i == -40 {
        0x3ff0000000001000u64
    } else if i == -41 {
        0x3ff0000000000800u64
    } else if i == -42 {
        0x3ff0000000000400u64
    } else if i == -43 {
        0x3ff0000000000200u64
    } else if i == -44 {
        0x3ff0000000000100u64
    } else if i == -45 {
        0x3ff0000000000080u64
    } else if i == -46 {
        0x3ff0000000000040u64
    } else if i == -47 {
        0x3ff0000000000020u64
    } else if i == -48 {
        0x3ff0000000000010u64
    } else if i == -49 {
        0x3ff0000000000008u64
    } else if i == -50 {
        0x3ff0000000000004u64
    } else if i == -51 {
        0x3ff0000000000002u64
    } else if i == -52 {
        0x3ff0000000000001u64
    } else {
        F_ONE
    }
}

/// Reads the factor table.
fn exp_table_at(i: i64) -> (r: u64)
    requires
        -52 <= i <= 9,
    ensures
        r == exp_table(i as int),
{
    if i > 9 || i < -52 {
        F_ONE
    } else if i == 9 {
        0x6e19476504ba852eu64
    } else if i == 8 {
        0x57041c7a8814bebau64
    } else if i == 7 {
        0x4b795e54c5dd4217u64
    } else if i == 6 {
        0x45b425982cf597cdu64
    } else if i == 5 {
        0x42d1f43fcc4b662cu64
    } else if i == 4 {
        0x4160f2ebd0a80020u64
    } else if i == 3 {
        0x40a749ea7d470c6eu64
    } else if i == 2 {
        0x404b4c902e273a58u64
    } else if i == 1 {
        0x401d8e64b8d4ddaeu64
    } else if i == 0 {
        0x4005bf0a8b145769u64
    } else if i == -1 {
        0x3ffa61298e1e069cu64
    } else if i == -2 {
        0x3ff48b5e3c3e8186u64
    } else if i == -3 {
        0x3ff2216045b6f5cdu64
    } else if i == -4 {
        0x3ff1082b577d34edu64
    } else if i == -5 {
        0x3ff08205601127edu64
    } else if i == -6 {
        0x3ff04080ab55de39u64
    } else if i == -7 {
        0x3ff0202015600446u64
    } else if i == -8 {
        0x3ff0100802ab5577u64
    } else if i == -9 {
        0x3ff0080200556001u64
    } else if i == -10 {
        0x3ff00400800aab55u64
    } else if i == -11 {
        0x3ff0020020015560u64
    } else if i == -12 {
        0x3ff0010008002aabu64
    } else if i == -13 {
        0x3ff0008002000555u64
    } else if i == -14 {
        0x3ff00040008000abu64
    } else if i == -15 {
        0x3ff0002000200015u64
    } else if i == -16 {
        0x3ff0001000080003u64
    } else if i == -17 {
        0x3ff0000800020000u64
    } else if i == -18 {
        0x3ff0000400008000u64
    } else if i == -19 {
        0x3ff0000200002000u64
    } else if i == -20 {
        0x3ff0000100000800u64
    } else if i == -21 {
        0x3ff0000080000200u64
    } else if i == -22 {
        0x3ff0000040000080u64
    } else if i == -23 {
        0x3ff0000020000020u64
    } else if i == -24 {
        0x3ff0000010000008u64
    } else if i == -25 {
        0x3ff0000008000002u64
    } else if i == -26 {
        0x3ff0000004000000u64
    } else if i == -27 {
        0x3ff0000002000000u64
    } else if i == -28 {
        0x3ff0000001000000u64
    } else if i == -29 {
        0x3ff0000000800000u64
    } else if i == -30 {
        0x3ff0000000400000u64
    } else if i == -31 {
        0x3ff0000000200000u64
    } else if i == -32 {
        0x3ff0000000100000u64
    } else if i == -33 {
        0x3ff0000000080000u64
    } else if i == -34 {
        0x3ff0000000040000u64
    } else if i == -35 {
        0x3ff0000000020000u64
    } else if i == -36 {
        0x3ff0000000010000u64
    } else if i == -37 {
        0x3ff0000000008000u64
    } else if i == -38 {
        0x3ff0000000004000u64
    } else if i == -39 {
        0x3ff0000000002000u64
    } else if i == -40 {
        0x3ff0000000001000u64
    } else if i == -41 {
        0x3ff0000000000800u64
    } else if i == -42 {
        0x3ff0000000000400u64
    } else if i == -43 {
        0x3ff0000000000200u64
    } else if i == -44 {
        0x3ff0000000000100u64
    } else if i == -45 {
        0x3ff0000000000080u64
    } else if i == -46 {
        0x3ff0000000000040u64
    } else if i == -47 {
        0x3ff0000000000020u64
    } else if i == -48 {
        0x3ff0000000000010u64
    } else if i == -49 {
        0x3ff0000000000008u64
    } else if i == -50 {
        0x3ff0000000000004u64
    } else if i == -51 {
        0x3ff0000000000002u64
    } else if i == -52 {
        0x3ff0000000000001u64
    } else {
        F_ONE
    }
}

/// The running product of the table factors selected by the set mantissa
/// bits of weight at least `2^-52`: bit `j` of the 53-bit significand `m`
/// (counted from the implicit bit) has weight `2^(e-j)`.
pub open spec fn exp_prod(m: u64, e: int, j: nat, acc: u64) -> u64
    decreases 53 - j,
{
    if j >= 53 {
        acc
    } else {
        let acc2 = if (m >> ((52 - j) as u64)) & 1 == 1 && e - j >= -52 {
            mul_bits(acc, exp_table(e - j))
        } else {
            acc
        };
        exp_prod(m, e, (j + 1) as nat, acc2)
    }
}

/// The exponential of the double encoded by `x`, as the rounded product of
/// table factors selected by the binary digits of `|x|`, inverted for a
/// negative argument. Zero arguments give exactly 1.0, a NaN propagates, an
/// infinite or huge argument saturates to positive infinity or positive
/// zero by sign.
pub open spec fn exp_bits_spec(x: u64) -> u64 {
    let sign = x >> 63u64;
    let ax = x & 0x7fffffffffffffffu64;
    if ax == 0u64 {
        F_ONE
    } else if ax > F_POS_INF {
        x
    } else if ax >= EXP_ARG_HUGE {
        if sign == 0u64 {
            F_POS_INF
        } else {
            F_ZERO
        }
    } else if ax < EXP_ARG_TINY {
        F_ONE
    } else {
        let e = (ax >> 52u64) as int - 1023;
        let m = (ax & 0x000fffffffffffffu64) | 0x0010000000000000u64;
        let pos = exp_prod(m, e, 0, F_ONE);
        if sign == 0u64 {
            pos
        } else {
            div_bits(F_ONE, pos)
        }
    }
}

/// Evaluates the exponential over bit patterns.
pub fn exp_bits(x: u64) -> (r: u64)
    ensures
        r == exp_bits_spec(x),
{
    let sign = x >> 63;
    let ax = x & 0x7fffffffffffffff;
    if ax == 0 {
        return F_ONE;
    }
    if ax > F_POS_INF {
        return x;
    }
    if ax >= EXP_ARG_HUGE {
        return if sign == 0 { F_POS_INF } else { F_ZERO };
    }
    if ax < EXP_ARG_TINY {
        return F_ONE;
    }
    let e: i64 = (ax >> 52) as i64 - 1023;
    let m: u64 = (ax & 0x000fffffffffffff) | 0x0010000000000000;
    let ghost e_int: int = (ax >> 52u64) as int - 1023;
    proof {
        assert(970 <= (ax >> 52u64) && (ax >> 52u64) <= 1032) by (bit_vector)
            requires 0x3ca0000000000000u64 <= ax && ax < 0x4090000000000000u64;
        assert(e == e_int);
        assert(-53 <= e_int <= 9);
    }
    let mut acc: u64 = F_ONE;
    let mut j: usize = 0;
    while j < 53
        invariant
            0 <= j <= 53,
            -53 <= e <= 9,
            e == e_int,
            exp_prod(m, e_int, j as nat, acc) == exp_prod(m, e_int, 0, F_ONE),
        decreases 53 - j,
    {
        let take = ((m >> ((52 - j) as u64)) & 1 == 1) && e >= -52 + (j as i64);
        proof {
            assert((e >= -52 + (j as i64)) == (e_int - (j as int) >= -52));
        }
        if take {
            acc = f_mul(acc, exp_table_at(e - (j as i64)));
        }
        j += 1;
    }
    if sign == 0 {
        acc
    } else {
        f_div(F_ONE, acc)
    }
}

/// The Ricker wavelet over bit patterns:
/// `(1 - 2*a^2) * exp(-a^2)` with `a = pi*((cdtds*t - loc)/ppw - 1)`,
/// composed of the named IEEE operations and the table exponential.
pub open spec fn ricker_bits(time: u64, location: u64, cdtds: u64, ppw: u64) -> u64 {
    let arg = mul_bits(F_PI, sub_bits(div_bits(sub_bits(mul_bits(cdtds, time), location), ppw), F_ONE));
    let arg2 = mul_bits(arg, arg);
    mul_bits(sub_bits(F_ONE, mul_bits(F_TWO, arg2)), exp_bits_spec(neg_bits(arg2)))
}

/// Evaluates the Ricker wavelet. `ppw`, the points per wavelength, must
/// encode a positive finite value.
pub fn ricker(time: u64, location: u64, cdtds: u64, ppw: u64) -> (r: u64)
    requires
        is_nonneg_finite(ppw),
        !is_zero_val(ppw),
    ensures
        r == ricker_bits(time, location, cdtds, ppw),
{
    let arg = f_mul(F_PI, f_sub(f_div(f_sub(f_mul(cdtds, time), location), ppw), F_ONE));
    let arg2 = f_mul(arg, arg);
    f_mul(f_sub(F_ONE, f_mul(F_TWO, arg2)), exp_bits(f_neg(arg2)))
}

/// The Gaussian pulse over bit patterns:
/// `exp(-((t - delay)^2) / width_sq)`, composed of the named IEEE
/// operations and the table exponential.
pub open spec fn gaussian_bits(time: u64, delay: u64, width_sq: u64) -> u64 {
    let d = sub_bits(time, delay);
    exp_bits_spec(neg_bits(div_bits(mul_bits(d, d), width_sq)))
}

/// Evaluates the Gaussian pulse; `width_sq` is the squared pulse width.
pub fn gaussian(time: u64, delay: u64, width_sq: u64) -> (r: u64)
    ensures
        r == gaussian_bits(time, delay, width_sq),
{
    let d = f_sub(time, delay);
    exp_bits(f_neg(f_div(f_mul(d, d), width_sq)))
}

} // verus!
