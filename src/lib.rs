//! Conversions across a callback-based native boundary: a borrowed string
//! view, a protocol for building values from data handed to a callback, and
//! a bridge that drives a native entry point and reports a three-way outcome.

pub mod view;
pub mod convert;
pub mod laws;
