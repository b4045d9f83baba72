use vstd::prelude::*;
use vstd::math::abs;

verus! {

/// Steps of the tuning scalar per unit: one key press moves it by 0.01.
pub const STEPS_PER_UNIT: u64 = 100;

/// How sharply the resonance coefficient falls off with detuning.
pub const RESONANCE_SENSITIVITY: u64 = 1000;

/// Denominator of the resonance exponent: `STEPS_PER_UNIT` squared.
pub const RESONANCE_EXPONENT_DENOMINATOR: u64 = STEPS_PER_UNIT * STEPS_PER_UNIT;

/// The live tuning scalar, held as a whole number of steps away from the
/// golden ratio: its value is `phi + steps / STEPS_PER_UNIT`. Holding it this
/// way keeps it finite, so a non-number can never reach the resonance model.
#[derive(PartialEq, Eq, Structural, Clone, Copy, Debug)]
pub struct Tuning {
    pub steps: i32,
}

/// One step up, saturating at the largest representable step count.
pub open spec fn step_up(k: i32) -> i32 {
    if k < i32::MAX {
        (k + 1) as i32
    } else {
        k
    }
}

/// One step down, saturating at the smallest representable step count.
pub open spec fn step_down(k: i32) -> i32 {
    if k > i32::MIN {
        (k - 1) as i32
    } else {
        k
    }
}

/// The step count after one frame's input: raise, then lower, then reset,
/// each applied when its key was pressed.
pub open spec fn steps_after(k: i32, raise: bool, lower: bool, reset: bool) -> i32 {
    if reset {
        0
    } else {
        let a = if raise { step_up(k) } else { k };
        if lower { step_down(a) } else { a }
    }
}

/// Numerator of the resonance exponent for a detuning of `k` steps:
/// `sensitivity * deviation^2 == resonance_exponent(k) / RESONANCE_EXPONENT_DENOMINATOR`.
/// The resonance coefficient is `exp(-exponent)`.
pub open spec fn resonance_exponent(k: int) -> int {
    RESONANCE_SENSITIVITY * (k * k)
}

impl Tuning {
    /// The tuning scalar at the golden ratio.
    pub fn new() -> (r: Self)
        ensures
            r.steps == 0,
    {
        Tuning { steps: 0 }
    }

    /// Applies one frame's key presses and says whether anything was pressed.
    pub fn apply_keys(&mut self, raise: bool, lower: bool, reset: bool) -> (changed: bool)
        ensures
            final(self).steps == steps_after(old(self).steps, raise, lower, reset),
            changed == (raise || lower || reset),
    {
        if raise && self.steps < i32::MAX {
            self.steps = self.steps + 1;
        }
        if lower && self.steps > i32::MIN {
            self.steps = self.steps - 1;
        }
        if reset {
            self.steps = 0;
        }
        raise || lower || reset
    }

    /// Numerator of the exponent of the resonance coefficient (over
    /// `RESONANCE_EXPONENT_DENOMINATOR`); zero exactly when tuned to the
    /// golden ratio.
    pub fn resonance_exponent(&self) -> (r: u128)
        ensures
            r == resonance_exponent(self.steps as int),
    {
        let k = self.steps as i64;
        let a: u128 = if k < 0 { (-k) as u128 } else { k as u128 };
        assert(a * a <= 0x4000_0000_0000_0000 && a * a == k * k) by (nonlinear_arith)
            requires
                a <= 0x8000_0000,
                a == k || a == -k,
        ;
        let sq: u128 = a * a;
        let gain: u128 = RESONANCE_SENSITIVITY as u128;
        assert(gain * sq <= 1000 * 0x4000_0000_0000_0000) by (nonlinear_arith)
            requires
                gain == 1000,
                sq <= 0x4000_0000_0000_0000,
        ;
        gain * sq
    }
}

/// At the golden ratio the exponent is zero, so the resonance coefficient is
/// exactly one; any detuning gives a positive exponent.
pub proof fn lemma_resonance_peak(k: int)
    ensures
        resonance_exponent(0) == 0,
        k != 0 ==> resonance_exponent(k) > 0,
{
    if k != 0 {
        assert(k * k > 0) by (nonlinear_arith)
            requires
                k != 0,
        ;
    }
}

/// The exponent grows strictly with the size of the detuning, so the
/// resonance coefficient falls strictly as the tuning moves away from the
/// golden ratio in either direction.
pub proof fn lemma_resonance_strictly_falls(a: int, b: int)
    requires
        abs(a) < abs(b),
    ensures
        resonance_exponent(a) < resonance_exponent(b),
{
    assert(a * a < b * b) by (nonlinear_arith)
        requires
            abs(a) < abs(b),
    ;
}

} // verus!
