//! Core of a button-driven answer picker.
//!
//! A periodic sampler debounces one push button; each accepted press draws a
//! pseudorandom index into a fixed table of answers and records it in a small
//! store, from which a render loop reads the answer to show.

pub mod index;
pub mod debounce;
pub mod store;
pub mod selector;
pub mod sampler;
pub mod render;
