//! Driver logic for HD44780-family character LCDs reached through a
//! PCF8574-style I2C GPIO expander in 4-bit bus mode.
//!
//! Every display operation is modelled as a pure state transition that also
//! computes the exact sequence of bus actions (single-byte expander writes and
//! timed suspensions) the LCD controller requires.  An embedding application
//! replays that sequence over its own I2C transport and delay source.

pub mod bus;
pub mod config;
pub mod driver;
pub mod laws;
