//! The standard identifier distribution.

pub mod standard;
