//! Model of the flash access-control register.
//!
//! Reduced to its wait-state (latency) field: the number of extra clock
//! cycles a flash read requires at the configured system frequency. The
//! clock sequencer programs it before switching the system clock to the
//! high-frequency source and reads it back to confirm the write latched.

use vstd::prelude::*;

verus! {

/// The flash access-control register, as its wait-state field.
#[derive(Clone, Copy, PartialEq, Eq, Structural, Debug)]
pub struct ACR {
    latency: u8,
}

impl ACR {
    /// The programmed number of flash wait states.
    pub closed spec fn latency_spec(self) -> u8 {
        self.latency
    }

    /// The register in its power-on reset state: zero wait states.
    pub fn new() -> (r: ACR)
        ensures
            r.latency_spec() == 0,
    {
        ACR { latency: 0 }
    }

    /// Programs the wait-state count (a four-bit field).
    pub fn set_latency(&mut self, wait_states: u8)
        requires
            wait_states < 16,
        ensures
            final(self).latency_spec() == wait_states,
    {
        self.latency = wait_states;
    }

    /// Reads the wait-state count back.
    pub fn latency(&self) -> (r: u8)
        ensures
            r == self.latency_spec(),
    {
        self.latency
    }
}

} // verus!
