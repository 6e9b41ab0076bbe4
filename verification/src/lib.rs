//! Bare-metal runtime support for an ARM Cortex-M4 target: typed bitfield
//! access over memory-mapped hardware registers, the floating-point-unit
//! access-control module built on it, and the freestanding memory and CPU
//! primitives the compiled-code runtime expects.
//!
//! Raw hardware access (casting a fixed address to a register reference,
//! volatile loads and stores on that address, machine instructions) cannot be
//! verified and lives in the platform layer; this crate holds the verified
//! bit-level logic and a verified in-memory model of a volatile register.

pub mod bits;
pub mod fpu;
pub mod support;
pub mod volatile;
