//! A verified model of a small real-time telemetry node: a UART-like serial
//! transport driver with baud-rate divisor synthesis, a byte-stream console
//! adapter, a static-priority executor with priority-ceiling resource locking,
//! and the periodic telemetry task that ties them together.
//!
//! Hardware register side effects are modelled by a plain register structure
//! ([`lpuart::UartRegisters`]) supplied at construction, so the driver logic is
//! verified against an explicit software model of the peripheral.

pub mod console;
pub mod lpuart;
pub mod sched;
pub mod telemetry;
