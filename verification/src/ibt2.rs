//! IBT-2 (BTS7960) current-sense arithmetic.
//!
//! On this board each `IS` output passes a 10 kΩ sense resistor, a voltage
//! divider and an RC low-pass before ADC1, so the scale is empirical rather
//! than the datasheet ratio: `current_mA = (V_mV − offset_mV) · scale`, with
//! the idle baseline `offset_mV` captured at boot and `scale` =
//! [`IS_SCALE_NUM`]/[`IS_SCALE_DEN`] (16 mA/mV).
use vstd::prelude::*;
use crate::hbridge::CurrentReading;

verus! {

/// Sense scale numerator, mA per mV.
pub const IS_SCALE_NUM: u32 = 16;
/// Sense scale denominator.
pub const IS_SCALE_DEN: u32 = 1;
/// Samples averaged per channel for one current reading.
pub const AVG_SAMPLES: u32 = 16;
/// Samples averaged per channel when capturing the idle baseline.
pub const CAL_SAMPLES: u32 = 32;

/// `(mv − offset_mv) · 16`, with a reading below the baseline counting as 0,
/// saturated at `u16::MAX`.
pub open spec fn calibrated_ma(mv: u16, offset_mv: u16) -> int {
    let net: int = if mv > offset_mv { mv - offset_mv } else { 0 };
    let ma = net * (IS_SCALE_NUM as int) / (IS_SCALE_DEN as int);
    if ma > 0xffff { 0xffff } else { ma }
}

/// Convert a raw sense voltage (mV) to load current (mA): subtract the idle
/// baseline, then apply the `IS_SCALE_NUM/IS_SCALE_DEN` scale, saturating into `u16`.
pub fn mv_to_ma(mv: u16, offset_mv: u16) -> (ma: u16)
    ensures
        ma == calibrated_ma(mv, offset_mv),
{
    let net: u32 = mv.saturating_sub(offset_mv) as u32;
    let scaled: u32 = (net * IS_SCALE_NUM) / IS_SCALE_DEN;
    (if scaled < 0xffff { scaled } else { 0xffff }) as u16
}

/// Sum of a run of millivolt samples.
pub open spec fn sum_mv(s: Seq<u16>) -> int
    decreases s.len(),
{
    if s.len() == 0 {
        0
    } else {
        sum_mv(s.drop_last()) + s.last()
    }
}

proof fn lemma_sum_mv_bound(s: Seq<u16>)
    ensures
        0 <= sum_mv(s) <= s.len() * 0xffff,
    decreases s.len(),
{
    if s.len() > 0 {
        lemma_sum_mv_bound(s.drop_last());
    }
}

/// Mean of the sense samples taken for one reading or for the idle baseline,
/// rounded down.
pub fn average_mv(samples: &[u16]) -> (avg: u16)
    requires
        0 < samples@.len() <= 0x10000,
    ensures
        avg == sum_mv(samples@) / (samples@.len() as int),
{
    let n = samples.len();
    let mut sum: u32 = 0;
    let mut i: usize = 0;
    assert(samples@.take(0) =~= Seq::<u16>::empty());
    while i < n
        invariant
            n == samples@.len(),
            n <= 0x10000,
            0 <= i <= n,
            sum == sum_mv(samples@.take(i as int)),
        decreases n - i,
    {
        proof {
            lemma_sum_mv_bound(samples@.take(i as int));
            assert(samples@.take(i + 1).drop_last() =~= samples@.take(i as int));
            assert(sum <= i * 0xffff) by (nonlinear_arith)
                requires sum <= samples@.take(i as int).len() * 0xffff, samples@.take(i as int).len() == i;
            assert(i * 0xffff + 0xffff <= 0xffffffff) by (nonlinear_arith)
                requires i < 0x10000;
        }
        sum = sum + samples[i] as u32;
        i = i + 1;
    }
    assert(samples@.take(n as int) =~= samples@);
    proof {
        lemma_sum_mv_bound(samples@);
        assert((sum as int) / (n as int) <= 0xffff) by (nonlinear_arith)
            requires sum <= n * 0xffff, n > 0;
    }
    (sum / (n as u32)) as u16
}

/// A full reading from the two averaged channel voltages and their baselines.
pub fn current_reading(r_mv: u16, l_mv: u16, r_offset_mv: u16, l_offset_mv: u16) -> (c: CurrentReading)
    ensures
        c.r_ma == calibrated_ma(r_mv, r_offset_mv),
        c.l_ma == calibrated_ma(l_mv, l_offset_mv),
        c.r_mv == r_mv,
        c.l_mv == l_mv,
{
    CurrentReading {
        r_ma: mv_to_ma(r_mv, r_offset_mv),
        l_ma: mv_to_ma(l_mv, l_offset_mv),
        r_mv,
        l_mv,
    }
}

/// More sense voltage never reads as less current, and a reading at or below
/// the baseline reads as zero.
pub proof fn lemma_calibrated_ma_monotonic(a: u16, b: u16, offset_mv: u16)
    requires
        a <= b,
    ensures
        calibrated_ma(a, offset_mv) <= calibrated_ma(b, offset_mv),
        a <= offset_mv ==> calibrated_ma(a, offset_mv) == 0,
{
}

} // verus!
