//! How turning values into CBOR bytes and back can fail.

use vstd::prelude::*;

verus! {

/// Why a value has no CBOR encoding.
#[derive(Debug)]
pub enum SerializeError {
    /// The bytes could not be written; a description.
    Io(String),
    /// The value cannot be encoded; a description.
    Value(String),
}

/// Why bytes are not the CBOR encoding of a value.
#[derive(Debug)]
pub enum DeserializeError {
    /// The bytes could not be read; a description.
    Io(String),
    /// The bytes are not CBOR, from this offset on.
    Syntax(usize),
    /// The CBOR item, at this offset if it is known, does not fit the value; a description.
    Semantic(Option<usize>, String),
    /// The items are nested too deeply.
    RecursionLimitExceeded,
}

} // verus!
