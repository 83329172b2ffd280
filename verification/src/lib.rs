//! Configuration and lifecycle rules for a process-wide database
//! connection pool.
//!
//! The library owns the decisions of the bootstrap path: which
//! environment values are required, how the port string is parsed,
//! which pool sizing parameters are used, and when the set-once pool
//! slot accepts a write or yields its value. The surrounding
//! application performs the environment reads and the asynchronous
//! connection work and consults this library for every decision.

pub mod config;
pub mod lifecycle;
