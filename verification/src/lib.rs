//! Client-side core of a code-review and change-generation service.
//!
//! The library covers the logic of a command-line client that talks to a
//! remote backend over HTTP: consuming a chunk-streamed response body with
//! bounded retries on transient faults, classifying transport failures,
//! driving a terminal progress indicator through a small command protocol,
//! and falling back between two parallel backend resource lineages.
//!
//! Network transport, terminal drawing, timers and the filesystem live
//! outside the library; it states their behaviour only at the boundary and
//! verifies every decision taken on what they return.

pub mod client;
pub mod endpoints;
pub mod errors;
pub mod events;
pub mod http;
pub mod json;
pub mod parse;
pub mod reader;
pub mod selog;
pub mod spinner;
