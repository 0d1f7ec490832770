//! Core of a battery-powered environmental sensor node: the compact radio
//! encoding of sparse measurements, the device configuration stored in EEPROM,
//! and the arithmetic that decides what a wake-up measures.
pub mod bits;
pub mod config;
pub mod delay;
pub mod ds18b20;
pub mod measurement;
pub mod reconnect;
pub mod schedule;
pub mod timer;
pub mod version;
