//! Looks up the stored image reference of a drink served at a bar.
//!
//! An inbound HTTP request is validated, turned into one point read against a
//! key-value table, and the read's outcome is mapped to an HTTP response whose
//! body is a small JSON object. The read itself is performed by the caller:
//! [`handler::begin`] says what to do with a request, and [`handler::finish`]
//! says what to answer once the table has replied.

pub mod handler;
pub mod http;
pub mod json;
