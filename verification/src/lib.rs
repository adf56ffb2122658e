//! A driver for the DMA controller of STM32 microcontrollers, verified
//! against a model of the controller's registers.
//!
//! The driver works on a mirror of the register file ([`regs::RegisterBlock`]).
//! Every operation updates the mirror under the hardware's write rules and
//! appends the bus operations that it issued, in order, to a journal. The
//! contracts in [`dma`] state both: what the registers hold afterwards, and
//! which accesses were made in which order. [`theorems`] holds what follows
//! for sequences of calls and for the order of the accesses within one call.

pub mod barrier;
pub mod clocks;
pub mod dma;
pub mod layout;
pub mod rcc;
pub mod regs;
pub mod theorems;
pub mod util;
