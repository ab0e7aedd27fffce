//! Configuration, errors and DLL life cycle.
pub mod config;
pub mod dll;
pub mod error;
