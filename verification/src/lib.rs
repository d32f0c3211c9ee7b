//! Bounds-checked access to sequences of signed 32-bit integers, and
//! borrowed views over contiguous ranges of them.
//!
//! Two access disciplines stand side by side: a safe lookup that returns
//! an absence signal when the index is out of range, and direct indexed
//! access whose contract demands a valid index.

pub mod access;
pub mod views;
