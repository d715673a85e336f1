//! Access to a UART-style line/status register.
//!
//! The crate decodes a register's byte into five named line and queue
//! conditions, and wraps a register cell of any supported width behind a
//! generic accessor whose reads and writes are specified bit for bit.

pub mod register;
pub mod status;
pub mod usr;

pub use register::Register;
pub use status::UartStatus;
pub use usr::USR;
