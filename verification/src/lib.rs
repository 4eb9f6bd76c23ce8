//! Bare-metal bring-up logic for the Zynq UltraScale+ PS: SPD EEPROM decoding,
//! DDR controller register derivation, and the DDR PHY training state machine,
//! together with the clock, I2C and UART configuration logic that feeds them.
//!
//! All hardware access goes through the [`regbus::RegisterBus`] abstraction so
//! that the register programming itself is ordinary verified code; a memory
//! mapped implementation of the bus lives outside this crate.

pub mod cache;
pub mod clocks;
pub mod crc;
pub mod ddrc;
pub mod i2c;
pub mod phy;
pub mod regbus;
pub mod spd;
pub mod uart;
pub mod util;
