//! A single-producer interface to a user ring buffer: the rules that decide
//! when a ring may be opened, how a reservation is requested, how a failed
//! call is reported, and what must happen to every reserved sample.
pub mod codes;
pub mod error;
pub mod ring;
pub mod sample;
