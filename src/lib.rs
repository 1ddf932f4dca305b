//! Tools over an ActivityWatch server's HTTP API: request addresses, the
//! classification of failures, and the rendering of buckets, events and counts
//! as markdown, with a bound on the size of what is returned.

pub mod constants;
pub mod text;
pub mod models;
pub mod client;
pub mod tools;
