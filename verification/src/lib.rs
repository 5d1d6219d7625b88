//! Core of a reflex game driven from a polling loop: an oscillating needle
//! (a PWM pulse width) sweeps between two bounds while the player tries to
//! press a button at the moment the needle is within a tolerance window of a
//! hidden random target. Three stages must be matched to win.
//!
//! This crate holds the verified state machine: session data, phase
//! transitions and the per-tick update rules. All hardware access (GPIO pins,
//! the PWM channel, sleeping) is left to the caller, which receives the
//! commands each tick decides on and performs them.

mod rng;
pub mod state;
pub mod tick;
