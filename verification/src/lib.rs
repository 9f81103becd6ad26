//! Oracle worker core for options-quote callbacks.
//!
//! For one request the library decodes the raw parameter record, builds the
//! exchange's canonical instrument symbol and the public order-book URL,
//! rescales the fetched mark implied volatility to a fixed-point mantissa
//! with eight fractional digits, and assembles the three on-chain callback
//! invocations that the host signs and submits. The HTTP fetch itself and
//! the JSON decoding stay outside the library; they hand in plain values.

pub mod callback;
pub mod digits;
pub mod handler;
pub mod rescale;
pub mod symbol;
pub mod time;
pub mod types;
