//! Driver core for a 80x128 bistable e-paper panel on a 4-wire SPI-like bus.
//!
//! The panel is programmed by a fixed vocabulary of one-byte opcodes
//! ([`command::Command`]), each followed by parameter bytes, with a busy
//! line that gates progress between phases.  Everything the panel ever
//! sees is decided here: each lifecycle operation of [`driver::Epd1in02`]
//! (cold init, frame update, refresh, clear, sleep, wake) returns the
//! exact sequence of transport actions to perform, as a value of
//! [`bus::BusAction`], and its contract pins that sequence byte for byte.
//! An unverified adapter that owns the bus and GPIO handles replays the
//! actions in order and reports transport failures.

pub mod bus;
pub mod color;
pub mod command;
pub mod driver;
