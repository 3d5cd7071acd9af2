//! Extracting attribute values from server-rendered HTML, and a pluggable
//! HTTP client abstraction that decouples fetching from a concrete backend.

pub mod client;
pub mod extract;

pub use client::{Client, IClient, Response, ResponseErr};
pub use extract::{select_on_document, Attr};
