//! The controller: its gains, its accumulators and its mode, with the
//! operations that construct, reset and update them.
//!
//! Every scalar is held as the 64-bit pattern of an IEEE 754 double-precision
//! number. The controller stores and hands back such patterns and never
//! computes with them; the only patterns it produces itself are positive zero
//! and the setpoint.

use vstd::prelude::*;
use crate::mode::Mode;

verus! {

/// The bit pattern of positive zero, the value of a cleared accumulator.
pub const ZERO_BITS: u64 = 0;

/// The bit pattern of the setpoint, fifteen: sign 0, biased exponent 1026
/// (two to the third), fraction seven eighths.
pub const SETPOINT_BITS: u64 = 0x402E_0000_0000_0000;

/// The controller's state as contracts speak of it.
pub struct GearboxState {
    pub gain_proportional: u64,
    pub gain_integral: u64,
    pub gain_derivative: u64,
    pub integral_accumulator: u64,
    pub previous_error: u64,
    pub mode: Mode,
}

impl GearboxState {
    /// The state of a new controller with the given gains: both accumulators
    /// at positive zero, mode `Normal`.
    pub open spec fn fresh(kp: u64, ki: u64, kd: u64) -> GearboxState {
        GearboxState {
            gain_proportional: kp,
            gain_integral: ki,
            gain_derivative: kd,
            integral_accumulator: ZERO_BITS,
            previous_error: ZERO_BITS,
            mode: Mode::Normal,
        }
    }

    /// The state after a reset: accumulators cleared, mode `Normal`, gains
    /// kept.
    pub open spec fn reset(self) -> GearboxState {
        GearboxState {
            integral_accumulator: ZERO_BITS,
            previous_error: ZERO_BITS,
            mode: Mode::Normal,
            ..self
        }
    }

    /// The state after an override attempt with `key`: the mode is the one
    /// that the key alone decides, everything else is kept.
    pub open spec fn engage(self, key: Seq<char>) -> GearboxState {
        GearboxState { mode: Mode::after_override(key), ..self }
    }

    /// The state after a tick whose arithmetic gave `integral` as the new
    /// accumulated integral and `error` as the tick's error: both are stored,
    /// gains and mode are kept.
    pub open spec fn record_tick(self, integral: u64, error: u64) -> GearboxState {
        GearboxState { integral_accumulator: integral, previous_error: error, ..self }
    }

    /// The label that the status query shows.
    pub open spec fn status(self) -> Seq<char> {
        self.mode.label()
    }
}

/// A closed-loop controller that drives a measured frequency toward the
/// fixed setpoint.
///
/// The gains are set at construction and no operation changes them.
pub struct HarmonicGearbox {
    kp: u64,
    ki: u64,
    kd: u64,
    integral: u64,
    prev_error: u64,
    mode: Mode,
}

impl View for HarmonicGearbox {
    type V = GearboxState;

    closed spec fn view(&self) -> GearboxState {
        GearboxState {
            gain_proportional: self.kp,
            gain_integral: self.ki,
            gain_derivative: self.kd,
            integral_accumulator: self.integral,
            previous_error: self.prev_error,
            mode: self.mode,
        }
    }
}

impl HarmonicGearbox {
    /// Makes a controller with the given gains. Any three patterns are
    /// accepted: the controller does not judge a tuning.
    pub fn new(kp: u64, ki: u64, kd: u64) -> (g: Self)
        ensures
            g@ == GearboxState::fresh(kp, ki, kd),
    {
        HarmonicGearbox {
            kp,
            ki,
            kd,
            integral: ZERO_BITS,
            prev_error: ZERO_BITS,
            mode: Mode::Normal,
        }
    }

    /// Stores the outcome of one tick: the new accumulated integral and the
    /// tick's error, which becomes the previous error of the next tick. The
    /// mode does not gate this: it happens in every mode and leaves the mode
    /// as it is.
    pub fn record_tick(&mut self, integral: u64, error: u64)
        ensures
            final(self)@ == old(self)@.record_tick(integral, error),
    {
        self.integral = integral;
        self.prev_error = error;
    }

    /// Clears both accumulators and returns to mode `Normal`. The gains stay.
    pub fn reset(&mut self)
        ensures
            final(self)@ == old(self)@.reset(),
    {
        self.integral = ZERO_BITS;
        self.prev_error = ZERO_BITS;
        self.mode = Mode::Normal;
    }

    /// Returns the display label of the current mode.
    pub fn get_status_string(&self) -> (s: String)
        ensures
            s@ == self@.status(),
    {
        self.mode.status_string()
    }

    /// Attempts an override with `key`. The recognised key gives mode
    /// `Sovereign`, any other string gives `AccessDenied`, whatever the mode
    /// was before.
    pub fn engage_sovereign_override(&mut self, key: String)
        ensures
            final(self)@ == old(self)@.engage(key@),
    {
        self.mode = Mode::for_override_key(&key);
    }

    /// The proportional gain.
    pub fn gain_proportional(&self) -> (bits: u64)
        ensures
            bits == self@.gain_proportional,
    {
        self.kp
    }

    /// The integral gain.
    pub fn gain_integral(&self) -> (bits: u64)
        ensures
            bits == self@.gain_integral,
    {
        self.ki
    }

    /// The derivative gain.
    pub fn gain_derivative(&self) -> (bits: u64)
        ensures
            bits == self@.gain_derivative,
    {
        self.kd
    }

    /// The accumulated integral as the last tick or reset left it.
    pub fn integral_accumulator(&self) -> (bits: u64)
        ensures
            bits == self@.integral_accumulator,
    {
        self.integral
    }

    /// The error of the last tick, or zero where none came since
    /// construction or the last reset.
    pub fn previous_error(&self) -> (bits: u64)
        ensures
            bits == self@.previous_error,
    {
        self.prev_error
    }

    /// The current mode.
    pub fn mode(&self) -> (m: Mode)
        ensures
            m == self@.mode,
    {
        self.mode
    }
}

} // verus!
