//! Safety-interlocked dispense orchestration for a small multi-ingredient
//! dispensing machine.
//!
//! The library owns the safety state machine, the emergency-stop latch, all
//! range and runtime-limit validation, and the per-ingredient sequencing
//! logic that consults those interlocks before every hardware actuation.
//! Hardware is reached only through the capability traits in [`hardware`];
//! mock implementations for testing live in [`mock`].

pub mod config;
pub mod control;
pub mod hardware;
pub mod mock;
pub mod safety;
pub mod text;
