//! Decoding and rendering of bibliographic search responses.
//!
//! A response arrives as a JSON document tree ([`json::Json`]). The decoder in
//! [`decode`] turns it into the typed [`model::SearchResponse`] or names the first
//! place at which the document departs from the expected shape. The renderer in
//! [`render`] turns a decoded response into text. [`request`] builds the address
//! that a search is sent to, with the query percent-encoded by [`percent`], and
//! [`laws`] holds what is proved of all of them.

pub mod decode;
pub mod error;
pub mod json;
pub mod laws;
pub mod model;
pub mod path;
pub mod percent;
pub mod render;
pub mod report;
pub mod request;
