//! Session core of a database client: SQL text construction, rendering of
//! typed values, query result assembly, classification of connection
//! failures, and the command/event protocol of the worker that owns the one
//! live connection.

pub mod error;
pub mod profiles;
pub mod protocol;
pub mod render;
pub mod result;
pub mod sql;
pub mod text;
pub mod worker;
