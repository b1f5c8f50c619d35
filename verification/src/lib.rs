//! A scheduled-input-effect engine for a game controller's input state.
//!
//! The library models a controller's input snapshot as plain values
//! ([`mutable_xinput_state::MutableXInputState`]), describes timed effects as
//! lists of steps pairing a duration with a declarative mutation
//! ([`function_scheduler::ScheduledFunctionStack`]), and drives any number of
//! such sequences concurrently from a host-supplied tick
//! ([`registry::SequenceRegistry`]). The host owns the clock and the live
//! input buffer; the engine only decides, per tick, which mutation to apply
//! and when each sequence is finished.

pub mod function_scheduler;
pub mod mutable_xinput_state;
pub mod mutation;
pub mod registry;
