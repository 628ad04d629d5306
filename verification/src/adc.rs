//! The full-scale reading of an analog-to-digital converter of a given
//! resolution, used to turn raw samples into ratios of the reference.

use vstd::prelude::*;
use vstd::arithmetic::power2::{lemma_pow2_strictly_increases, pow2};

verus! {

/// The largest raw sample an ADC of `adc_bits` bits can report: one less
/// than two to the `adc_bits`.
pub fn calculate_adc_max(adc_bits: u8) -> (r: u16)
    requires
        adc_bits < 16,
    ensures
        r as int == pow2(adc_bits as nat) - 1,
{
    let mut acc: u16 = 1;
    let mut i: u8 = 0;
    proof {
        vstd::arithmetic::power2::lemma2_to64();
    }
    while i < adc_bits
        invariant
            i <= adc_bits < 16,
            acc as int == pow2(i as nat),
        decreases adc_bits - i,
    {
        proof {
            lemma_pow2_strictly_increases(i as nat, 15);
            vstd::arithmetic::power2::lemma2_to64();
        }
        acc = acc * 2;
        i = i + 1;
        proof {
            vstd::arithmetic::power2::lemma_pow2_unfold(i as nat);
        }
    }
    proof {
        vstd::arithmetic::power2::lemma_pow2_pos(adc_bits as nat);
    }
    acc - 1
}

} // verus!
