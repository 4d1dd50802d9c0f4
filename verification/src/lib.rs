//! A verified core for a small real-time-clock wall display.
//!
//! The chip hands over a 7-byte register snapshot in packed BCD; `codec`
//! translates it to a structured time value and back. `scheduler` is the
//! dirty-bit state machine that hands refresh requests from the periodic
//! timer interrupt to the polling main loop. `render` formats the decoded
//! fields as display text. Bus transport, timer peripheral and the LCD
//! itself are external collaborators and live outside this crate.

pub mod codec;
pub mod render;
pub mod scheduler;
