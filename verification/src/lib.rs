//! Cooperative scheduler core of a small kernel: the thread/process data
//! model, the FIFO scheduler with tick-based wake evaluation, the decoding
//! step of the keyboard interrupt handler, and the bounded event queue that
//! lets an interrupt handler hand decoded events to mainline code.

pub mod events;
pub mod keyboard;
pub mod scheduler;
pub mod thread;
