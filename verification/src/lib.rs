//! Verified core of a small desktop task-application backend.
//!
//! The library offers two operations: generating a unique identifier token
//! (a wall-clock timestamp in milliseconds, a hyphen, and the first eight
//! characters of a freshly drawn random identifier), and formatting a fixed
//! greeting around a caller-supplied name. It also declares the record
//! shapes (`Task`, `Subtask`) that the surrounding application exchanges
//! with its presentation layer; no behaviour is attached to them here.

pub mod greeting;
pub mod ids;
pub mod model;
