//! Frequency measurement of an external pulse train.
//!
//! A hardware counter is clocked by the signal under test. A periodic timer
//! interrupt samples and resets that counter, an overflow interrupt widens it
//! beyond its sixteen bits, and every completed window is handed to the
//! foreground loop through a channel that never blocks the producer.
//!
//! The hardware itself is not touched from here: the interrupt handlers and
//! the main loop read and write the registers and call into this crate for
//! every decision in between.

pub mod channel;
pub mod consumer;
pub mod context;
pub mod counter;
pub mod overflow;
pub mod latest;
pub mod queue;
pub mod render;
pub mod sample;
pub mod scheduler;
pub mod signal;
