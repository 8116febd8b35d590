//! Firmware logic for a board that pairs a register-bus image sensor with a
//! serial-attached Wi-Fi modem driven by short text commands.
//!
//! The heart of the crate is the interrupt-driven serial transport: a command
//! goes out over the transmit half, the reply accumulates byte by byte as
//! receive interrupts fire, the end of the reply is recognised by a line-idle
//! condition rather than a terminator, and the finished reply crosses from
//! interrupt context to the polling loop through a bounded channel. The
//! peripheral halves are reached through the port traits of [`driver`], so
//! the transport's behaviour is stated and proved over their models; the
//! hardware itself is wired up outside the library.

pub mod camera;
pub mod channel;
pub mod command;
pub mod driver;
pub mod handler;
pub mod sim;
