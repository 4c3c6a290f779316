//! Interrupt dispatch core for a supervisor-mode kernel on a multi-hart RISC-V
//! machine.
//!
//! The crate decides what kind of interrupt a trap cause stands for, who
//! handles it and which operations the interrupt controller has to see. It
//! never touches hardware itself: every function returns the operations that
//! its caller has to perform, as plain values.

pub mod cause;
pub mod context;
pub mod dispatch;
pub mod handler;
pub mod ipi;
pub mod ops;
pub mod protocol;
pub mod slot;
pub mod table;
