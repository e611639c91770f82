//! Verified core of the firmware for a handheld badge: the dirty-rectangle
//! framebuffer that feeds the display, and the decoding, gating and
//! sequencing rules of the input coprocessor.

pub mod bridge;
pub mod dirty;
pub mod events;
pub mod framebuffer;
pub mod mchcoproc;
pub mod registers;
