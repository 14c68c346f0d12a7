//! What each operation does, stated of its arguments and results alone.
//!
//! The statements name the literal texts, codes and fields that callers see, so that they can be
//! read without the definitions that the contracts of the operations share.

pub mod bodies;
pub mod cookies;
pub mod replies;
pub mod signatures;
pub mod texts;
pub mod transactions;
