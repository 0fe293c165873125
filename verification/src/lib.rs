//! Parsers for the plain-text ephemeris reports of the JPL Horizons system.
//!
//! A report is a stream of lines.  The data section is delimited by the
//! sentinel lines `$$SOE` and `$$EOE`; between them, each logical record
//! spans several physically adjacent lines holding tagged, fixed-width
//! numeric fields.  Two record-reassembly state machines live here: one
//! for state-vector records (position and velocity) and one for classical
//! orbital-element records.
//!
//! The numeric fields are kept as their trimmed textual form, checked
//! against the decimal / scientific-notation grammar of the report; turning
//! them into machine floating-point numbers is left to the caller.

pub mod ephemeris;
pub mod fields;
pub mod laws;
pub mod numbers;

pub use fields::{take_expecting, take_or_empty, trim};
