//! A uniform lifecycle for streaming technical indicators.
//!
//! A configuration ([`config::IndicatorConfig`]) holds the parameters of one
//! indicator. It can be set up by name from text, validates itself, declares
//! the shape of its results and, seeded with the first bar of a stream, turns
//! into a running instance ([`instance::IndicatorInstance`]). The instance
//! consumes one bar ([`candle::OHLCV`]) at a time and emits one result
//! ([`result::IndicatorResult`]) for each. Batch evaluation is built on these
//! two steps and on nothing else.
//!
//! [`average`] holds one indicator that keeps to this lifecycle, [`laws`]
//! what follows for all that do.

pub mod average;
pub mod candle;
pub mod config;
pub mod errors;
pub mod instance;
pub mod laws;
pub mod result;
pub mod text;
