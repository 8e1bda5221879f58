//! Conversion between physical quantities and the chip's fixed-point
//! register encodings, all relative to the crystal frequency.

use vstd::prelude::*;
use vstd::arithmetic::power2::pow2;
use crate::lowlevel::FXOSC;

verus! {

/// The 24-bit frequency control word for a carrier frequency: the carrier
/// in units of the crystal frequency over 2^16, rounded to the nearest
/// unit, a tie going up.
pub open spec fn frequency_word(hz: u64) -> int {
    (hz * 65536 + FXOSC / 2) / (FXOSC as int)
}

/// The carrier frequency in Hz that a frequency control word stands for,
/// rounded down.
pub open spec fn word_frequency(word: int) -> int {
    (word * FXOSC) / 65536
}

/// The frequency control word that three register bytes hold.
pub open spec fn word_of_bytes(freq0: u8, freq1: u8, freq2: u8) -> int {
    freq0 + 256 * freq1 + 65536 * freq2
}

/// Whether the control word of a carrier frequency fits the 24 bits of the
/// three frequency registers. This holds of every carrier below 6.6 GHz,
/// far beyond what the chip can synthesize.
pub open spec fn frequency_fits(hz: u64) -> bool {
    frequency_word(hz) < 0x100_0000
}

/// The low, middle and high byte of the frequency control word of a
/// carrier frequency. Bits of the word beyond these 24 are dropped.
pub open spec fn frequency_bytes(hz: u64) -> (u8, u8, u8) {
    let word = frequency_word(hz);
    ((word % 256) as u8, ((word / 256) % 256) as u8, ((word / 65536) % 256) as u8)
}

/// Encodes a carrier frequency in Hz as the contents of FREQ0, FREQ1 and
/// FREQ2, in this order: the low, middle and high byte of the frequency
/// control word. A word beyond 24 bits loses its high bits.
pub fn from_frequency(hz: u64) -> (bytes: (u8, u8, u8))
    ensures
        bytes == frequency_bytes(hz),
        frequency_fits(hz) ==> word_of_bytes(bytes.0, bytes.1, bytes.2) == frequency_word(hz),
{
    let word: u128 = (hz as u128 * 65536 + (FXOSC / 2) as u128) / (FXOSC as u128);
    let freq0 = (word % 256) as u8;
    let freq1 = ((word / 256) % 256) as u8;
    let freq2 = ((word / 65536) % 256) as u8;
    (freq0, freq1, freq2)
}

/// Decodes the contents of FREQ0, FREQ1 and FREQ2 into the carrier
/// frequency in Hz, rounded down.
pub fn to_frequency(freq0: u8, freq1: u8, freq2: u8) -> (hz: u64)
    ensures
        hz == word_frequency(word_of_bytes(freq0, freq1, freq2)),
{
    let word: u64 = freq0 as u64 + 256 * (freq1 as u64) + 65536 * (freq2 as u64);
    word * FXOSC / 65536
}

/// The quantity that mantissa `m` and exponent `e` stand for, in a format
/// whose mantissa runs from 0 to `base - 1`: `(base + m) * 2^e` crystal
/// frequencies. The data rate has `base` 256 and is this over 2^28; the
/// deviation has `base` 8 and is this over 2^17.
pub open spec fn scaled_value(base: int, m: int, e: nat) -> int {
    (base + m) * (FXOSC * pow2(e))
}

/// Looks for the encoding of `target` from exponent `e` upward: at each
/// exponent the target is rounded to the nearest multiple of the step
/// `FXOSC * 2^e`, a tie going up, and the first exponent at which the
/// multiple stays below `2 * base` is taken. A target below the smallest
/// value gets the smallest encoding, one above the largest the largest.
pub open spec fn nearest_from(target: int, base: int, top: nat, e: nat) -> (int, nat)
    decreases top - e,
{
    let step = FXOSC * pow2(e);
    let multiple = (2 * target + step) / (2 * step);
    if multiple < 2 * base {
        (
            if multiple <= base {
                0
            } else {
                multiple - base
            },
            e,
        )
    } else if e >= top {
        (base - 1, top)
    } else {
        nearest_from(target, base, top, e + 1)
    }
}

/// The mantissa and exponent for `target`, in a format with mantissas below
/// `base` and exponents up to `top`.
pub open spec fn nearest_encoding(target: int, base: int, top: nat) -> (int, nat) {
    nearest_from(target, base, top, 0)
}

/// Mantissa and exponent of a data rate in baud.
pub open spec fn drate_encoding(baud: u64) -> (int, nat) {
    nearest_encoding(baud * 0x1000_0000, 256, 15)
}

/// Mantissa and exponent of a deviation in Hz.
pub open spec fn deviation_encoding(hz: u64) -> (int, nat) {
    nearest_encoding(hz * 0x2_0000, 8, 7)
}

/// Finds mantissa and exponent for `target`. `base` is 8 or 256 and `top`
/// at most 15, so that every intermediate value fits.
fn encode_nearest(target: u128, base: u16, top: u8) -> (code: (u8, u8))
    requires
        target <= 0xFFFF_FFFF_FFFF_FFFF * 0x1000_0000,
        1 <= base <= 256,
        top <= 15,
    ensures
        (code.0 as int, code.1 as nat) == nearest_encoding(target as int, base as int, top as nat),
        code.0 < base,
        code.1 <= top,
{
    let mut e: u8 = 0;
    let mut step: u128 = FXOSC as u128;
    proof {
        vstd::arithmetic::power2::lemma2_to64();
    }
    loop
        invariant
            target <= 0xFFFF_FFFF_FFFF_FFFF * 0x1000_0000,
            1 <= base <= 256,
            top <= 15,
            e <= top,
            step == FXOSC * pow2(e as nat),
            FXOSC <= step <= FXOSC * 32768,
            nearest_from(target as int, base as int, top as nat, e as nat) == nearest_encoding(
                target as int,
                base as int,
                top as nat,
            ),
        decreases top - e,
    {
        let multiple: u128 = (2 * target + step) / (2 * step);
        if multiple < 2 * (base as u128) {
            if multiple <= base as u128 {
                return (0, e);
            } else {
                return ((multiple - base as u128) as u8, e);
            }
        }
        if e >= top {
            return ((base - 1) as u8, top);
        }
        proof {
            vstd::arithmetic::power2::lemma_pow2_unfold((e + 1) as nat);
            vstd::arithmetic::power2::lemma_pow2_strictly_increases((e + 1) as nat, 16);
            vstd::arithmetic::power2::lemma2_to64();
        }
        e = e + 1;
        step = 2 * step;
    }
}

/// Encodes a data rate in baud as the mantissa for MDMCFG3 and the
/// exponent for MDMCFG4: the pair whose rate
/// `(256 + m) * 2^e * FXOSC / 2^28` is nearest to the rate asked for.
pub fn from_drate(baud: u64) -> (code: (u8, u8))
    ensures
        (code.0 as int, code.1 as nat) == drate_encoding(baud),
        code.1 <= 15,
{
    encode_nearest(baud as u128 * 0x1000_0000, 256, 15)
}

/// Encodes a deviation in Hz as mantissa and exponent for DEVIATN: the
/// pair whose deviation `(8 + m) * 2^e * FXOSC / 2^17` is nearest to the
/// one asked for.
pub fn from_deviation(hz: u64) -> (code: (u8, u8))
    ensures
        (code.0 as int, code.1 as nat) == deviation_encoding(hz),
        code.0 <= 7,
        code.1 <= 7,
{
    encode_nearest(hz as u128 * 0x2_0000, 8, 7)
}

/// The number by which the crystal frequency is divided to give the
/// channel filter bandwidth of mantissa `m` and exponent `e`.
pub open spec fn chanbw_divisor(m: int, e: nat) -> int {
    8 * (4 + m) * pow2(e)
}

/// Whether the channel filter of mantissa `m` and exponent `e` is at least
/// `hz` wide.
pub open spec fn chanbw_covers(hz: u64, m: int, e: nat) -> bool {
    hz * chanbw_divisor(m, e) <= FXOSC
}

/// Looks for the narrowest filter that is at least `hz` wide, from the
/// setting numbered `index` down to the widest one, which has number 0. A
/// setting's number is four times its exponent plus its mantissa, so a
/// higher number is a narrower filter. Where no filter is wide enough the
/// widest one is taken.
pub open spec fn chanbw_from(hz: u64, index: nat) -> (int, nat)
    decreases index,
{
    if index == 0 || chanbw_covers(hz, (index % 4) as int, index / 4) {
        ((index % 4) as int, index / 4)
    } else {
        chanbw_from(hz, (index - 1) as nat)
    }
}

/// Mantissa and exponent of the channel filter for a bandwidth in Hz.
pub open spec fn chanbw_encoding(hz: u64) -> (int, nat) {
    chanbw_from(hz, 15)
}

/// Two to the power `e`.
fn power_of_two(e: u8) -> (power: u64)
    requires
        e <= 15,
    ensures
        power == pow2(e as nat),
        1 <= power <= 32768,
{
    let mut power: u64 = 1;
    let mut done: u8 = 0;
    proof {
        vstd::arithmetic::power2::lemma2_to64();
    }
    while done < e
        invariant
            done <= e <= 15,
            power == pow2(done as nat),
            1 <= power,
            pow2(15) == 32768,
        decreases e - done,
    {
        proof {
            vstd::arithmetic::power2::lemma_pow2_unfold((done + 1) as nat);
            if done + 1 < 15 {
                vstd::arithmetic::power2::lemma_pow2_strictly_increases((done + 1) as nat, 15);
            }
        }
        power = 2 * power;
        done = done + 1;
    }
    proof {
        if e < 15 {
            vstd::arithmetic::power2::lemma_pow2_strictly_increases(e as nat, 15);
        }
    }
    power
}

/// Encodes a channel filter bandwidth in Hz as mantissa and exponent for
/// MDMCFG4: the narrowest of the sixteen filters
/// `FXOSC / (8 * (4 + m) * 2^e)` that is at least as wide as asked for, or
/// the widest filter where none is.
pub fn from_chanbw(hz: u64) -> (code: (u8, u8))
    ensures
        (code.0 as int, code.1 as nat) == chanbw_encoding(hz),
        code.0 <= 3,
        code.1 <= 3,
{
    let mut index: u8 = 15;
    proof {
        vstd::arithmetic::power2::lemma2_to64();
    }
    while index > 0
        invariant
            index <= 15,
            chanbw_from(hz, index as nat) == chanbw_encoding(hz),
            pow2(0) == 1 && pow2(1) == 2 && pow2(2) == 4 && pow2(3) == 8,
        decreases index,
    {
        let m: u8 = index % 4;
        let e: u8 = index / 4;
        let power = power_of_two(e);
        let scale: u64 = 8 * (4 + m as u64);
        proof {
            if e < 3 {
                vstd::arithmetic::power2::lemma_pow2_strictly_increases(e as nat, 3);
            }
            assert(scale * power <= 448) by (nonlinear_arith)
                requires
                    scale <= 56,
                    power <= 8,
            ;
        }
        let divisor: u64 = scale * power;
        proof {
            assert(hz * divisor <= 0xFFFF_FFFF_FFFF_FFFF * 448) by (nonlinear_arith)
                requires
                    hz <= 0xFFFF_FFFF_FFFF_FFFF,
                    divisor <= 448,
            ;
        }
        if hz as u128 * divisor as u128 <= FXOSC as u128 {
            return (m, e);
        }
        index = index - 1;
    }
    (0, 0)
}

/// The data rate in baud that mantissa `m` and exponent `e` stand for,
/// rounded down.
pub fn to_drate(m: u8, e: u8) -> (baud: u64)
    requires
        e <= 15,
    ensures
        baud == scaled_value(256, m as int, e as nat) / 0x1000_0000,
{
    let step: u64 = FXOSC * power_of_two(e);
    let count: u64 = 256 + m as u64;
    proof {
        assert(count * step <= 511 * (FXOSC * 32768)) by (nonlinear_arith)
            requires
                count <= 511,
                step <= FXOSC * 32768,
        ;
    }
    count * step / 0x1000_0000
}

/// The deviation in Hz that mantissa `m` and exponent `e` stand for,
/// rounded down.
pub fn to_deviation(m: u8, e: u8) -> (hz: u64)
    requires
        m <= 7,
        e <= 7,
    ensures
        hz == scaled_value(8, m as int, e as nat) / 0x2_0000,
{
    let step: u64 = FXOSC * power_of_two(e);
    let count: u64 = 8 + m as u64;
    proof {
        assert(count * step <= 15 * (FXOSC * 32768)) by (nonlinear_arith)
            requires
                count <= 15,
                step <= FXOSC * 32768,
        ;
    }
    count * step / 0x2_0000
}

/// The channel filter bandwidth in Hz that mantissa `m` and exponent `e`
/// stand for, rounded down.
pub fn to_chanbw(m: u8, e: u8) -> (hz: u64)
    requires
        m <= 3,
        e <= 3,
    ensures
        hz == FXOSC as int / chanbw_divisor(m as int, e as nat),
{
    let power = power_of_two(e);
    let scale: u64 = 8 * (4 + m as u64);
    proof {
        assert(32 <= scale * power <= 56 * 32768) by (nonlinear_arith)
            requires
                32 <= scale <= 56,
                1 <= power <= 32768,
        ;
    }
    FXOSC / (scale * power)
}

/// Whether `chosen` is at least as good an approximation of `target` as
/// `other`: nearer, or as near and not smaller.
pub open spec fn at_least_as_near(target: int, chosen: int, other: int) -> bool {
    let miss = vstd::math::abs(chosen - target);
    let other_miss = vstd::math::abs(other - target);
    miss < other_miss || (miss == other_miss && chosen >= other)
}

/// The step of exponent `e` is positive, and doubles with every exponent.
proof fn step_doubles(low: nat, high: nat)
    requires
        low < high,
    ensures
        0 < FXOSC * pow2(low),
        2 * (FXOSC * pow2(low)) <= FXOSC * pow2(high),
{
    vstd::arithmetic::power2::lemma_pow2_pos(low);
    vstd::arithmetic::power2::lemma_pow2_unfold(low + 1);
    if low + 1 < high {
        vstd::arithmetic::power2::lemma_pow2_strictly_increases(low + 1, high);
    }
}

/// The search from exponent `start` ends on an encoding that no other
/// comes nearer than, provided that the target is not nearer to a value of
/// a lower exponent than to the smallest value of `start`.
proof fn nearest_from_is_nearest(target: int, base: int, top: nat, start: nat, m: int, e: nat)
    requires
        0 <= target,
        1 <= base,
        0 <= m < base,
        e <= top,
        start <= top,
        start > 0 ==> 4 * target >= (4 * base - 1) * (FXOSC * pow2(start)),
    ensures
        ({
            let chosen = nearest_from(target, base, top, start);
            &&& 0 <= chosen.0 < base
            &&& start <= chosen.1 <= top
            &&& at_least_as_near(
                target,
                scaled_value(base, chosen.0, chosen.1),
                scaled_value(base, m, e),
            )
        }),
    decreases top - start,
{
    let step = FXOSC * pow2(start);
    vstd::arithmetic::power2::lemma_pow2_pos(start);
    vstd::arithmetic::power2::lemma_pow2_pos(e);
    assert(step > 0);
    let multiple = (2 * target + step) / (2 * step);
    let floor = multiple * step;
    let lowest = base * step;
    let other_step = FXOSC * pow2(e);
    let other = (base + m) * other_step;
    assert(other == scaled_value(base, m, e));
    assert(2 * floor <= 2 * target + step < 2 * floor + 2 * step) by {
        vstd::arithmetic::div_mod::lemma_fundamental_div_mod(2 * target + step, 2 * step);
        vstd::arithmetic::div_mod::lemma_mod_bound(2 * target + step, 2 * step);
        assert((2 * step) * multiple == 2 * (multiple * step)) by (nonlinear_arith);
    }
    assert(multiple >= 0) by (nonlinear_arith)
        requires
            2 * (multiple * step) + 2 * step > 0,
            step > 0,
    ;
    assert((4 * base - 1) * step == 4 * lowest - step) by (nonlinear_arith)
        requires
            lowest == base * step,
    ;
    // Where the candidate stands against the values of exponent `start`.
    if e > start {
        step_doubles(start, e);
        assert(other >= 2 * lowest) by (nonlinear_arith)
            requires
                other == (base + m) * other_step,
                lowest == base * step,
                other_step >= 2 * step,
                step > 0,
                m >= 0,
                base >= 1,
        ;
    } else if e < start {
        step_doubles(e, start);
        assert(2 * other <= 2 * lowest - step) by (nonlinear_arith)
            requires
                other == (base + m) * other_step,
                lowest == base * step,
                2 * other_step <= step,
                other_step > 0,
                0 <= m < base,
        ;
    }
    if multiple < 2 * base {
        let mantissa = if multiple <= base {
            0
        } else {
            multiple - base
        };
        let chosen = (base + mantissa) * step;
        assert(nearest_from(target, base, top, start) == (mantissa, start));
        assert(chosen == scaled_value(base, mantissa, start));
        assert(lowest <= chosen <= 2 * lowest - step) by (nonlinear_arith)
            requires
                chosen == (base + mantissa) * step,
                lowest == base * step,
                0 <= mantissa < base,
                step > 0,
        ;
        if multiple > base {
            assert(chosen == floor);
            assert(chosen >= lowest + step) by (nonlinear_arith)
                requires
                    chosen == (base + mantissa) * step,
                    lowest == base * step,
                    mantissa >= 1,
                    step > 0,
            ;
        } else if multiple == base {
            assert(chosen == floor);
        } else {
            assert(floor <= lowest - step) by (nonlinear_arith)
                requires
                    floor == multiple * step,
                    lowest == base * step,
                    multiple <= base - 1,
                    step > 0,
            ;
        }
        if e == start {
            if m > mantissa {
                assert(other >= chosen + step) by (nonlinear_arith)
                    requires
                        other == (base + m) * step,
                        chosen == (base + mantissa) * step,
                        m >= mantissa + 1,
                        step > 0,
                ;
            } else if m < mantissa {
                assert(other <= chosen - step) by (nonlinear_arith)
                    requires
                        other == (base + m) * step,
                        chosen == (base + mantissa) * step,
                        m <= mantissa - 1,
                        step > 0,
                ;
            }
        }
    } else {
        assert(floor >= 2 * lowest) by (nonlinear_arith)
            requires
                floor == multiple * step,
                lowest == base * step,
                multiple >= 2 * base,
                step > 0,
        ;
        if start >= top {
            let chosen = (base + (base - 1)) * step;
            assert(nearest_from(target, base, top, start) == (base - 1, top));
            assert(chosen == scaled_value(base, base - 1, top));
            assert(chosen == 2 * lowest - step) by (nonlinear_arith)
                requires
                    chosen == (base + (base - 1)) * step,
                    lowest == base * step,
            ;
            if e == start {
                assert(other <= chosen) by (nonlinear_arith)
                    requires
                        other == (base + m) * step,
                        chosen == (base + (base - 1)) * step,
                        m <= base - 1,
                        step > 0,
                ;
            }
        } else {
            vstd::arithmetic::power2::lemma_pow2_unfold(start + 1);
            assert((4 * base - 1) * (FXOSC * pow2(start + 1)) == 8 * lowest - 2 * step)
                by (nonlinear_arith)
                requires
                    lowest == base * step,
                    FXOSC * pow2(start + 1) == 2 * step,
            ;
            nearest_from_is_nearest(target, base, top, start + 1, m, e);
        }
    }
}

/// The encoding found for a target is the nearest there is: no mantissa
/// below `base` and exponent up to `top` stand for a value that is nearer
/// to the target, and of two values equally near the larger one is taken.
pub proof fn encoding_is_nearest(target: int, base: int, top: nat, m: int, e: nat)
    requires
        0 <= target,
        1 <= base,
        0 <= m < base,
        e <= top,
    ensures
        ({
            let chosen = nearest_encoding(target, base, top);
            &&& 0 <= chosen.0 < base
            &&& chosen.1 <= top
            &&& at_least_as_near(
                target,
                scaled_value(base, chosen.0, chosen.1),
                scaled_value(base, m, e),
            )
        }),
{
    nearest_from_is_nearest(target, base, top, 0, m, e);
}

/// The target rounded to the nearest multiple of the step of exponent
/// `e`, a tie going up, in steps.
pub open spec fn rounded_multiple(target: int, e: nat) -> int {
    (2 * target + FXOSC * pow2(e)) / (2 * (FXOSC * pow2(e)))
}

/// The search from exponent `start` passes only exponents at which the
/// rounded target does not fit the mantissa.
proof fn passed_exponents_do_not_fit(target: int, base: int, top: nat, start: nat, e: nat)
    requires
        start <= e < nearest_from(target, base, top, start).1,
    ensures
        rounded_multiple(target, e) >= 2 * base,
    decreases top - start,
{
    if rounded_multiple(target, start) >= 2 * base && start < top && e > start {
        passed_exponents_do_not_fit(target, base, top, start + 1, e);
    }
}

/// The exponent of an encoding is the smallest at which the mantissa fits:
/// at every smaller exponent the target, rounded to the step of that
/// exponent, is `2 * base` steps or more, which no mantissa below `base`
/// reaches.
pub proof fn exponent_is_smallest(target: int, base: int, top: nat, e: nat)
    requires
        e < nearest_encoding(target, base, top).1,
    ensures
        rounded_multiple(target, e) >= 2 * base,
{
    passed_exponents_do_not_fit(target, base, top, 0, e);
}

/// A target that is exactly the value of some mantissa and exponent is
/// encoded as that mantissa and exponent, so that encoding what was decoded
/// changes nothing.
pub proof fn exact_value_keeps_encoding(base: int, top: nat, m: int, e: nat)
    requires
        1 <= base,
        0 <= m < base,
        e <= top,
    ensures
        nearest_encoding(scaled_value(base, m, e), base, top) == (m, e),
{
    exact_value_found_from(base, top, m, e, 0);
}

/// The search for an exact value passes every exponent below the value's
/// own and stops there.
proof fn exact_value_found_from(base: int, top: nat, m: int, e: nat, start: nat)
    requires
        1 <= base,
        0 <= m < base,
        e <= top,
        start <= e,
    ensures
        nearest_from(scaled_value(base, m, e), base, top, start) == (m, e),
    decreases e - start,
{
    let target = scaled_value(base, m, e);
    let step = FXOSC * pow2(start);
    let own = FXOSC * pow2(e);
    vstd::arithmetic::power2::lemma_pow2_pos(start);
    vstd::arithmetic::power2::lemma_pow2_pos(e);
    let multiple = (2 * target + step) / (2 * step);
    if start == e {
        assert(2 * target + step == (base + m) * (2 * step) + step) by (nonlinear_arith)
            requires
                target == (base + m) * step,
        ;
        vstd::arithmetic::div_mod::lemma_fundamental_div_mod_converse(
            2 * target + step,
            2 * step,
            base + m,
            step,
        );
        assert(multiple == base + m);
    } else {
        step_doubles(start, e);
        assert(2 * target + step >= (2 * base) * (2 * step)) by (nonlinear_arith)
            requires
                target == (base + m) * own,
                own >= 2 * step,
                step > 0,
                m >= 0,
                base >= 1,
        ;
        vstd::arithmetic::div_mod::lemma_div_is_ordered(
            (2 * base) * (2 * step),
            2 * target + step,
            2 * step,
        );
        vstd::arithmetic::div_mod::lemma_div_multiples_vanish(2 * base, 2 * step);
        assert((2 * step) * (2 * base) == (2 * base) * (2 * step)) by (nonlinear_arith);
        assert(multiple >= 2 * base);
        exact_value_found_from(base, top, m, e, start + 1);
    }
}

/// The divisor of the setting numbered `index`, which grows with the
/// number.
proof fn divisor_grows(low: nat, high: nat)
    requires
        low <= high <= 15,
    ensures
        0 < chanbw_divisor((low % 4) as int, low / 4) <= chanbw_divisor(
            (high % 4) as int,
            high / 4,
        ),
        low < high ==> chanbw_divisor((low % 4) as int, low / 4) < chanbw_divisor(
            (high % 4) as int,
            high / 4,
        ),
{
    vstd::arithmetic::power2::lemma2_to64();
    assert(low / 4 == 0 || low / 4 == 1 || low / 4 == 2 || low / 4 == 3);
    assert(high / 4 == 0 || high / 4 == 1 || high / 4 == 2 || high / 4 == 3);
}

/// The search from the setting numbered `index` down ends on a setting
/// that is wide enough if any setting up to that number is, and on the
/// narrowest such.
proof fn chanbw_from_is_tightest(hz: u64, index: nat, other: nat)
    requires
        other <= index <= 15,
    ensures
        ({
            let chosen = chanbw_from(hz, index);
            let number = 4 * chosen.1 + chosen.0;
            &&& 0 <= chosen.0 <= 3
            &&& chosen.1 <= 3
            &&& number <= index
            &&& chanbw_covers(hz, (other % 4) as int, other / 4) ==> {
                &&& chanbw_covers(hz, chosen.0, chosen.1)
                &&& other <= number
            }
            &&& !chanbw_covers(hz, 0, 0) ==> chosen == (0int, 0nat)
        }),
    decreases index,
{
    if index == 0 || chanbw_covers(hz, (index % 4) as int, index / 4) {
        if index > 0 && !chanbw_covers(hz, 0, 0) {
            divisor_grows(0, index);
            vstd::arithmetic::power2::lemma2_to64();
            assert(hz * chanbw_divisor(0, 0) <= hz * chanbw_divisor((index % 4) as int, index / 4))
                by (nonlinear_arith)
                requires
                    chanbw_divisor(0, 0) <= chanbw_divisor((index % 4) as int, index / 4),
                    hz >= 0,
            ;
        }
    } else {
        chanbw_from_is_tightest(hz, (index - 1) as nat, if other == index {
            0
        } else {
            other
        });
    }
}

/// The filter chosen for a bandwidth is the narrowest that is wide enough:
/// whenever some filter is at least as wide as asked for, so is the chosen
/// one, and it divides the crystal frequency by no less. Where not even the
/// widest filter is wide enough, the widest is chosen.
pub proof fn chanbw_is_tightest(hz: u64, m: int, e: nat)
    requires
        0 <= m <= 3,
        e <= 3,
    ensures
        ({
            let chosen = chanbw_encoding(hz);
            &&& 0 <= chosen.0 <= 3
            &&& chosen.1 <= 3
            &&& chanbw_covers(hz, m, e) ==> {
                &&& chanbw_covers(hz, chosen.0, chosen.1)
                &&& chanbw_divisor(m, e) <= chanbw_divisor(chosen.0, chosen.1)
            }
            &&& !chanbw_covers(hz, 0, 0) ==> chosen == (0int, 0nat)
        }),
{
    let other = (4 * e + m) as nat;
    assert(other % 4 == m && other / 4 == e);
    chanbw_from_is_tightest(hz, 15, other);
    let chosen = chanbw_encoding(hz);
    let number = (4 * chosen.1 + chosen.0) as nat;
    assert(number % 4 == chosen.0 && number / 4 == chosen.1);
    if other <= number {
        divisor_grows(other, number);
    }
}

/// The control word is the one nearest to the carrier asked for: no other
/// word stands for a frequency that is closer, and of two words equally
/// close the larger one is taken. Distances are in units of 1/65536 Hz.
pub proof fn frequency_word_nearest(hz: u64, other: int)
    ensures
        ({
            let chosen = frequency_word(hz);
            let target = hz * 65536;
            let miss = vstd::math::abs(chosen * FXOSC - target);
            let other_miss = vstd::math::abs(other * FXOSC - target);
            miss < other_miss || (miss == other_miss && chosen >= other)
        }),
{
    let chosen = frequency_word(hz);
    let target = hz * 65536;
    assert(chosen * FXOSC <= target + FXOSC / 2 < chosen * FXOSC + FXOSC);
    if other > chosen {
        assert(other * FXOSC >= chosen * FXOSC + FXOSC) by (nonlinear_arith)
            requires
                other >= chosen + 1,
        ;
    } else if other < chosen {
        assert(other * FXOSC <= chosen * FXOSC - FXOSC) by (nonlinear_arith)
            requires
                other <= chosen - 1,
        ;
    }
}

/// Decoding an encoded carrier gives a frequency within one encoding step
/// of the carrier, the step being the crystal frequency over 2^16 (a
/// little under 397 Hz). This holds of every carrier whose control word
/// fits the registers, the chip's bands among them.
pub proof fn frequency_round_trip(hz: u64)
    requires
        frequency_fits(hz),
    ensures
        ({
            let bytes = frequency_bytes(hz);
            let back = word_frequency(word_of_bytes(bytes.0, bytes.1, bytes.2));
            &&& vstd::math::abs(back - hz) * 65536 <= FXOSC
            &&& -199 <= back - hz <= 198
        }),
{
}

/// The control word grows with the carrier, and it fits the registers
/// exactly for the carriers up to 6 655 999 801 Hz. From the next carrier
/// on the word is 2^24 or more and loses its high bits in the three bytes.
pub proof fn frequency_word_grows(low: u64, high: u64)
    requires
        low <= high,
    ensures
        frequency_word(low) <= frequency_word(high),
        frequency_fits(high) ==> frequency_fits(low),
        frequency_fits(low) <==> low <= 6_655_999_801,
{
}

/// Every carrier that the chip can synthesize, from 300 MHz to 928 MHz,
/// has a control word that fits the registers.
pub proof fn chip_bands_fit(hz: u64)
    requires
        300_000_000 <= hz <= 928_000_000,
    ensures
        frequency_fits(hz),
{
}

/// The encoding of a data rate is the nearest there is: no mantissa and
/// exponent stand for a rate nearer to the one asked for. Rates are
/// compared in units of 2^-28 crystal frequencies.
pub proof fn drate_is_nearest(baud: u64, m: u8, e: u8)
    requires
        e <= 15,
    ensures
        ({
            let chosen = drate_encoding(baud);
            &&& 0 <= chosen.0 <= 255
            &&& chosen.1 <= 15
            &&& at_least_as_near(
                baud * 0x1000_0000,
                scaled_value(256, chosen.0, chosen.1),
                scaled_value(256, m as int, e as nat),
            )
        }),
{
    encoding_is_nearest(baud * 0x1000_0000, 256, 15, m as int, e as nat);
}

/// The encoding of a deviation is the nearest there is: no mantissa and
/// exponent stand for a deviation nearer to the one asked for. Deviations
/// are compared in units of 2^-17 crystal frequencies.
pub proof fn deviation_is_nearest(hz: u64, m: u8, e: u8)
    requires
        m <= 7,
        e <= 7,
    ensures
        ({
            let chosen = deviation_encoding(hz);
            &&& 0 <= chosen.0 <= 7
            &&& chosen.1 <= 7
            &&& at_least_as_near(
                hz * 0x2_0000,
                scaled_value(8, chosen.0, chosen.1),
                scaled_value(8, m as int, e as nat),
            )
        }),
{
    encoding_is_nearest(hz * 0x2_0000, 8, 7, m as int, e as nat);
}

/// Encoding, decoding and encoding again gives the first encoding.
pub proof fn frequency_stable(hz: u64)
    requires
        frequency_fits(hz),
    ensures
        0 <= word_frequency(frequency_word(hz)) <= u64::MAX,
        frequency_word(word_frequency(frequency_word(hz)) as u64) == frequency_word(hz),
{
}

} // verus!
