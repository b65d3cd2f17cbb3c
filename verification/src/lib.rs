//! Driver core for a CAN-FD controller peripheral.
//!
//! The peripheral's register block and message RAM are modeled as plain data
//! owned by the driver handle, injected at construction as an [`instance::Instance`]
//! capability. This makes the whole driver core — the operating-mode state
//! machine, the configuration surface, the filter tables, and the transmit /
//! receive engines — ordinary verified code, and lets a simulated register
//! file stand in for silicon under test.

pub mod config;
pub mod fdcan;
pub mod filter;
pub mod frame;
pub mod instance;
pub mod interrupt;
pub mod message_ram;
pub mod nonblocking;
pub mod rx;
pub mod tx;
pub mod id;
