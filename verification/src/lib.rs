//! Synchronizes a machine's local clock from a remote time service.
//!
//! The pipeline is linear: fetch the current time for a fixed timezone as a
//! JSON document, parse it into a [`record::TimeRecord`], decompose its
//! `datetime` field into calendar and clock components, and hand those to the
//! operating system's clock-set primitive. Failures are rendered as log lines.
//!
//! Network and file I/O live outside this crate; the parsing, decomposition,
//! log-line construction and error interpretation here are verified.

pub mod clock;
pub mod datetime;
pub mod errors;
pub mod json;
pub mod logging;
pub mod num;
pub mod record;
pub mod split;
