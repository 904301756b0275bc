//! Driver for an 8-bit I/O-expander chip on a shared two-wire bus.
//!
//! The chip exposes its pins through single-byte registers: input levels,
//! output levels, pin direction and polarity inversion. Every operation of
//! the driver is one fixed register transaction — an addressed write of one
//! or two bytes, or an addressed write followed by a one-byte read — issued
//! through an abstract bus capability supplied per call.

mod bus;
mod device;
mod mock;
mod port;

pub use bus::I2cBus;
pub use device::Address;
pub use device::PCA9554;
pub use device::Register;
pub use device::lemma_address_byte_roundtrip;
pub use device::lemma_clear_matches_write_empty;
pub use device::lemma_distinct_addresses_distinct_targets;
pub use device::lemma_operation_payloads;
pub use device::register_read;
pub use device::register_write;
pub use mock::MockBus;
pub use mock::MockError;
pub use mock::MockTransaction;
pub use bus::Transaction;
pub use bus::write_read_txn;
pub use bus::write_txn;
pub use port::Port;
