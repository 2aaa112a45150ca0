//! A persistence error.

use vstd::prelude::*;

verus! {

/// A persistence error.
///
/// Each variant carries the message of the failure that caused it.
#[derive(Clone, Debug, PartialEq, Eq)]
pub enum PersistenceError {
    /// The filesystem refused an operation.
    Filesystem(String),
    /// The browser storage refused an operation.
    Browser(String),
    /// Stored bytes of a textual format were not valid UTF-8.
    Encoding(String),
    BincodeDeserialization(String),
    BincodeSerialization(String),
    IniDeserialization(String),
    IniSerialization(String),
    JsonDeserialization(String),
    JsonSerialization(String),
    RonDeserialization(String),
    RonSerialization(String),
    TomlDeserialization(String),
    TomlSerialization(String),
    YamlDeserialization(String),
    YamlSerialization(String),
}

impl PersistenceError {
    /// Whether the error comes from encoding, decoding or parsing a resource,
    /// rather than from the storage medium itself.
    pub open spec fn serde(self) -> bool {
        !(self is Filesystem || self is Browser)
    }

    /// Gets if the error is a (de)serialization error.
    pub fn is_serde(&self) -> (r: bool)
        ensures
            r == self.serde(),
    {
        match self {
            PersistenceError::Filesystem(_) => false,
            PersistenceError::Browser(_) => false,
            _ => true,
        }
    }
}

} // verus!
