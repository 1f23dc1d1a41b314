//! Hardware-abstraction layer for a microcontroller's GPIO pin multiplexer
//! and clock tree.
//!
//! The crate provides two guarantees:
//! - no physical pin is ever configured or driven by two logical owners at
//!   the same time (per-port ownership bitmaps, atomic multi-pin claims);
//! - the system clock is brought from its reset default to a validated
//!   high-frequency configuration by a guarded, ordered, one-shot procedure.
//!
//! Hardware registers are represented by plain register models: packed
//! 32-bit words for the GPIO blocks (a single word holds the settings of all
//! 16 pins of a port, so field isolation is a real proof obligation) and
//! named bit-fields for the clock tree.

pub mod flash;
pub mod gpio;
pub mod rcc;
