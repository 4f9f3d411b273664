//! What holds of the controller over every state and every history of
//! operations.

use vstd::prelude::*;
use crate::gearbox::{GearboxState, ZERO_BITS};
use crate::mode::{lemma_label_identifies_mode, override_key, Mode};

verus! {

/// One operation applied to a controller after its construction.
pub enum Event {
    /// A tick whose arithmetic gave these two values.
    Tick { integral: u64, error: u64 },
    /// A reset.
    Reset,
    /// An override attempt with this key.
    Override { key: Seq<char> },
}

impl GearboxState {
    /// The state after one operation.
    pub open spec fn step(self, event: Event) -> GearboxState {
        match event {
            Event::Tick { integral, error } => self.record_tick(integral, error),
            Event::Reset => self.reset(),
            Event::Override { key } => self.engage(key),
        }
    }

    /// The state after a history of operations, applied first to last.
    pub open spec fn run(self, history: Seq<Event>) -> GearboxState
        decreases history.len(),
    {
        if history.len() == 0 {
            self
        } else {
            self.run(history.drop_last()).step(history.last())
        }
    }

    /// Whether two states hold the same three gains.
    pub open spec fn same_gains(self, other: GearboxState) -> bool {
        &&& self.gain_proportional == other.gain_proportional
        &&& self.gain_integral == other.gain_integral
        &&& self.gain_derivative == other.gain_derivative
    }
}

/// A new controller reports the label of mode `Normal`, whatever its gains.
pub proof fn law_fresh_status_is_normal(kp: u64, ki: u64, kd: u64)
    ensures
        GearboxState::fresh(kp, ki, kd).status() == Mode::Normal.label(),
{
}

/// No history of ticks, resets and override attempts changes the gains.
pub proof fn law_gains_never_change(start: GearboxState, history: Seq<Event>)
    ensures
        start.run(history).same_gains(start),
    decreases history.len(),
{
    if history.len() > 0 {
        law_gains_never_change(start, history.drop_last());
    }
}

/// A reset after any history gives the state of a new controller with the
/// gains that the controller started with: both accumulators at zero, the
/// label of mode `Normal`, the gains unchanged.
pub proof fn law_reset_restores_fresh_state(start: GearboxState, history: Seq<Event>)
    ensures
        start.run(history).reset() == GearboxState::fresh(
            start.gain_proportional,
            start.gain_integral,
            start.gain_derivative,
        ),
        start.run(history).reset().integral_accumulator == ZERO_BITS,
        start.run(history).reset().previous_error == ZERO_BITS,
        start.run(history).reset().status() == Mode::Normal.label(),
        start.run(history).reset().same_gains(start),
{
    law_gains_never_change(start, history);
}

/// An override attempt with the recognised key gives the label of mode
/// `Sovereign` from every state, so also right after a denied attempt.
pub proof fn law_recognised_key_is_accepted(state: GearboxState, denied_key: Seq<char>)
    ensures
        state.engage(override_key()).status() == Mode::Sovereign.label(),
        state.engage(denied_key).engage(override_key()).status() == Mode::Sovereign.label(),
{
}

/// An override attempt with any other key gives the label of mode
/// `AccessDenied` from every state, and that label is not the one of mode
/// `Sovereign`.
pub proof fn law_other_keys_are_denied(state: GearboxState, key: Seq<char>)
    requires
        key != override_key(),
    ensures
        state.engage(key).status() == Mode::AccessDenied.label(),
        state.engage(key).status() != Mode::Sovereign.label(),
{
    lemma_label_identifies_mode(Mode::AccessDenied, Mode::Sovereign);
}

/// The mode and the accumulators do not touch each other: a tick stores its
/// two values in every mode and leaves the mode as it is, and an override
/// attempt leaves both accumulators as they are.
pub proof fn law_mode_and_accumulators_are_decoupled(
    state: GearboxState,
    integral: u64,
    error: u64,
    key: Seq<char>,
)
    ensures
        state.record_tick(integral, error).mode == state.mode,
        state.record_tick(integral, error).integral_accumulator == integral,
        state.record_tick(integral, error).previous_error == error,
        state.engage(key).integral_accumulator == state.integral_accumulator,
        state.engage(key).previous_error == state.previous_error,
{
}

} // verus!
