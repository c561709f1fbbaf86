//! Datasheet conversion of a BTS7960 current-sense voltage to load current.
//!
//! With the nominal ratio `k_ILIS = I_L / I_IS ≈ 8500` and a 1 kΩ `IS`→GND
//! resistor, `V_IS = I_L / 8.5`, so `I_L[mA] = V_IS[mV] * 8.5`.
use vstd::prelude::*;

verus! {

/// `mv * 8.5` rounded down, saturated at `u16::MAX`.
pub open spec fn datasheet_ma(mv: u16) -> int {
    let ma = mv * 17 / 2;
    if ma > 0xffff { 0xffff } else { ma }
}

/// Convert a sense voltage in millivolts to load current in milliamps,
/// `I_L[mA] = V_IS[mV] * 8.5`, saturating into `u16` at the ADC ceiling.
pub fn mv_to_ma(mv: u16) -> (ma: u16)
    ensures
        ma == datasheet_ma(mv),
{
    let scaled: u32 = (mv as u32 * 17) / 2;
    (if scaled < 0xffff { scaled } else { 0xffff }) as u16
}

} // verus!
