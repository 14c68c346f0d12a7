//! What the request extractors decide, and the replies that they give.

pub mod cbor;
pub mod header;
pub mod reply;
pub mod token;
