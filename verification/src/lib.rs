//! Adapters that let blocking, synchronous application code drive
//! interrupt- and event-based peripheral controllers.
//!
//! Two independent components are provided:
//!
//! - an I2C transaction compiler ([`i2c`]) that turns an ordered list of
//!   abstract read/write operations into a wire-correct sequence of
//!   hardware message descriptors (start/restart/stop framing, direction
//!   bit), together with the mapping of driver status codes to typed
//!   results;
//! - a UART interrupt-to-blocking bridge ([`uart`]) that converts an
//!   asynchronous, callback-driven receive/transmit driver interface into
//!   synchronous read/write calls, buffering driver events in a bounded
//!   FIFO queue ([`queue`]) whose producer never blocks.
//!
//! Register-level I/O, device lookup and interrupt dispatch belong to the
//! host runtime and stay outside this crate; the adapters here consume and
//! produce plain values (status codes, events, message descriptors).

pub mod errors;
pub mod i2c;
pub mod queue;
pub mod uart;
