//! A storage format.

use crate::error::PersistenceError;
use vstd::prelude::*;
use vstd::slice::*;
use vstd::string::*;
use vstd::utf8::*;

verus! {

/// A storage format.
#[derive(Clone, Copy, Debug, PartialEq, Eq, Structural)]
pub enum StorageFormat {
    Bincode,
    Ini,
    Json,
    JsonPretty,
    Ron,
    RonPretty,
    Toml,
    TomlPretty,
    Yaml,
}

/// What the encoder of a storage format produces for a resource, and what its
/// decoder consumes: raw bytes for binary formats, text for textual ones.
#[derive(Clone, Debug, PartialEq, Eq)]
pub enum Serialized {
    Binary(Vec<u8>),
    Text(String),
}

/// The mathematical content of a [`Serialized`] value.
pub enum SerializedView {
    Binary(Seq<u8>),
    Text(Seq<char>),
}

impl View for Serialized {
    type V = SerializedView;

    open spec fn view(&self) -> SerializedView {
        match self {
            Serialized::Binary(bytes) => SerializedView::Binary(bytes@),
            Serialized::Text(text) => SerializedView::Text(text@),
        }
    }
}

impl SerializedView {
    /// The bytes that store this content: binary content as it is, text as UTF-8.
    pub open spec fn stored_bytes(self) -> Seq<u8> {
        match self {
            SerializedView::Binary(bytes) => bytes,
            SerializedView::Text(text) => encode_utf8(text),
        }
    }
}

/// The message that std gives for bytes that are not valid UTF-8.
pub uninterp spec fn utf8_error_message(bytes: Seq<u8>) -> Seq<char>;

/// Decodes bytes as UTF-8 with `String::from_utf8`.
///
/// Trusted: std documents that the conversion succeeds exactly on valid UTF-8
/// and then holds the decoded characters; the contract states this with vstd's
/// `valid_utf8` and `decode_utf8`. On failure it hands back the error's message,
/// which is named by `utf8_error_message`.
#[verifier::external_body]
fn decode_utf8_string(bytes: &[u8]) -> (r: Result<String, String>)
    ensures
        r is Ok <==> valid_utf8(bytes@),
        r matches Ok(text) ==> text@ == decode_utf8(bytes@),
        r matches Err(message) ==> message@ == utf8_error_message(bytes@),
{
    String::from_utf8(bytes.to_vec()).map_err(|error| error.to_string())
}

impl StorageFormat {
    /// Whether the format stores text (every format but Bincode).
    pub open spec fn textual(self) -> bool {
        !(self is Bincode)
    }

    /// Gets if the format stores text.
    pub fn is_textual(self) -> (r: bool)
        ensures
            r == self.textual(),
    {
        match self {
            StorageFormat::Bincode => false,
            _ => true,
        }
    }

    /// The error that reports a failure of this format's encoder.
    pub open spec fn serialization_failure(self, message: String) -> PersistenceError {
        match self {
            StorageFormat::Bincode => PersistenceError::BincodeSerialization(message),
            StorageFormat::Ini => PersistenceError::IniSerialization(message),
            StorageFormat::Json | StorageFormat::JsonPretty => PersistenceError::JsonSerialization(
                message,
            ),
            StorageFormat::Ron | StorageFormat::RonPretty => PersistenceError::RonSerialization(
                message,
            ),
            StorageFormat::Toml | StorageFormat::TomlPretty => PersistenceError::TomlSerialization(
                message,
            ),
            StorageFormat::Yaml => PersistenceError::YamlSerialization(message),
        }
    }

    /// The error that reports a failure of this format's decoder.
    pub open spec fn deserialization_failure(self, message: String) -> PersistenceError {
        match self {
            StorageFormat::Bincode => PersistenceError::BincodeDeserialization(message),
            StorageFormat::Ini => PersistenceError::IniDeserialization(message),
            StorageFormat::Json | StorageFormat::JsonPretty => PersistenceError::JsonDeserialization(
                message,
            ),
            StorageFormat::Ron | StorageFormat::RonPretty => PersistenceError::RonDeserialization(
                message,
            ),
            StorageFormat::Toml | StorageFormat::TomlPretty => PersistenceError::TomlDeserialization(
                message,
            ),
            StorageFormat::Yaml => PersistenceError::YamlDeserialization(message),
        }
    }

    /// Builds the error that reports a failure of this format's encoder.
    pub fn serialization_error(self, message: String) -> (e: PersistenceError)
        ensures
            e == self.serialization_failure(message),
    {
        match self {
            StorageFormat::Bincode => PersistenceError::BincodeSerialization(message),
            StorageFormat::Ini => PersistenceError::IniSerialization(message),
            StorageFormat::Json | StorageFormat::JsonPretty => PersistenceError::JsonSerialization(
                message,
            ),
            StorageFormat::Ron | StorageFormat::RonPretty => PersistenceError::RonSerialization(
                message,
            ),
            StorageFormat::Toml | StorageFormat::TomlPretty => PersistenceError::TomlSerialization(
                message,
            ),
            StorageFormat::Yaml => PersistenceError::YamlSerialization(message),
        }
    }

    /// Builds the error that reports a failure of this format's decoder.
    pub fn deserialization_error(self, message: String) -> (e: PersistenceError)
        ensures
            e == self.deserialization_failure(message),
    {
        match self {
            StorageFormat::Bincode => PersistenceError::BincodeDeserialization(message),
            StorageFormat::Ini => PersistenceError::IniDeserialization(message),
            StorageFormat::Json | StorageFormat::JsonPretty => PersistenceError::JsonDeserialization(
                message,
            ),
            StorageFormat::Ron | StorageFormat::RonPretty => PersistenceError::RonDeserialization(
                message,
            ),
            StorageFormat::Toml | StorageFormat::TomlPretty => PersistenceError::TomlDeserialization(
                message,
            ),
            StorageFormat::Yaml => PersistenceError::YamlDeserialization(message),
        }
    }

    /// Serializes a resource into bytes, given what the format's encoder made
    /// of it: its output (stored as it is, or as UTF-8 for text), or the
    /// message of its failure.
    pub fn serialize(self, name: &str, encoded: Result<Serialized, String>) -> (r: Result<
        Vec<u8>,
        PersistenceError,
    >)
        ensures
            match encoded {
                Ok(content) => r matches Ok(bytes) && bytes@ == content@.stored_bytes(),
                Err(message) => r == Err::<Vec<u8>, PersistenceError>(
                    self.serialization_failure(message),
                ),
            },
    {
        match encoded {
            Ok(Serialized::Binary(bytes)) => Ok(bytes),
            Ok(Serialized::Text(text)) => Ok(text.as_str().as_bytes_vec()),
            Err(message) => Err(self.serialization_error(message)),
        }
    }

    /// Prepares stored bytes for the format's decoder: binary formats decode
    /// the bytes as they are; textual formats decode the UTF-8 text they hold,
    /// and bytes that are not valid UTF-8 give an encoding error.
    pub fn decoder_input(self, name: &str, serialized_resource: &[u8]) -> (r: Result<
        Serialized,
        PersistenceError,
    >)
        ensures
            !self.textual() ==> (r matches Ok(content) && content@ == SerializedView::Binary(
                serialized_resource@,
            )),
            self.textual() ==> (r is Ok <==> valid_utf8(serialized_resource@)),
            self.textual() ==> (r matches Ok(content) ==> content@ == SerializedView::Text(
                decode_utf8(serialized_resource@),
            )),
            r matches Err(e) ==> (e matches PersistenceError::Encoding(message) && message@
                == utf8_error_message(serialized_resource@)),
    {
        if !self.is_textual() {
            Ok(Serialized::Binary(slice_to_vec(serialized_resource)))
        } else {
            match decode_utf8_string(serialized_resource) {
                Ok(text) => Ok(Serialized::Text(text)),
                Err(message) => Err(PersistenceError::Encoding(message)),
            }
        }
    }

    /// Deserializes a resource, given what the format's decoder made of the
    /// stored content: the resource, or the message of its failure.
    pub fn deserialize<R>(self, name: &str, decoded: Result<R, String>) -> (r: Result<
        R,
        PersistenceError,
    >)
        ensures
            match decoded {
                Ok(resource) => r == Ok::<R, PersistenceError>(resource),
                Err(message) => r == Err::<R, PersistenceError>(
                    self.deserialization_failure(message),
                ),
            },
    {
        match decoded {
            Ok(resource) => Ok(resource),
            Err(message) => Err(self.deserialization_error(message)),
        }
    }
}

/// Text round trip: for a textual format, the bytes that serializing a text
/// stores are valid UTF-8, and preparing them for the decoder gives back the
/// same text.
pub proof fn law_text_round_trip(format: StorageFormat, text: Seq<char>)
    requires
        format.textual(),
    ensures
        valid_utf8(SerializedView::Text(text).stored_bytes()),
        decode_utf8(SerializedView::Text(text).stored_bytes()) == text,
{
    encode_utf8_valid_utf8(text);
    encode_utf8_decode_utf8(text);
}

/// Format errors are (de)serialization errors: every failure of a format's
/// encoder or decoder, and every encoding error, is classified as serde.
pub proof fn law_format_errors_are_serde(format: StorageFormat, message: String)
    ensures
        format.serialization_failure(message).serde(),
        format.deserialization_failure(message).serde(),
        PersistenceError::Encoding(message).serde(),
{
}


/// Failures keep their message and direction: a failure of a format's
/// encoder becomes a serialization error and a failure of its decoder a
/// deserialization error, each carrying the failure's message; a pretty
/// format reports its failures as its plain format does.
pub proof fn law_failures_keep_message_and_direction(format: StorageFormat, message: String)
    ensures
        match format.serialization_failure(message) {
            PersistenceError::BincodeSerialization(m) | PersistenceError::IniSerialization(m)
            | PersistenceError::JsonSerialization(m) | PersistenceError::RonSerialization(m)
            | PersistenceError::TomlSerialization(m) | PersistenceError::YamlSerialization(m) => m
                == message,
            _ => false,
        },
        match format.deserialization_failure(message) {
            PersistenceError::BincodeDeserialization(m) | PersistenceError::IniDeserialization(m)
            | PersistenceError::JsonDeserialization(m) | PersistenceError::RonDeserialization(m)
            | PersistenceError::TomlDeserialization(m) | PersistenceError::YamlDeserialization(
                m,
            ) => m == message,
            _ => false,
        },
        StorageFormat::JsonPretty.serialization_failure(message)
            == StorageFormat::Json.serialization_failure(message),
        StorageFormat::RonPretty.serialization_failure(message)
            == StorageFormat::Ron.serialization_failure(message),
        StorageFormat::TomlPretty.serialization_failure(message)
            == StorageFormat::Toml.serialization_failure(message),
        StorageFormat::JsonPretty.deserialization_failure(message)
            == StorageFormat::Json.deserialization_failure(message),
        StorageFormat::RonPretty.deserialization_failure(message)
            == StorageFormat::Ron.deserialization_failure(message),
        StorageFormat::TomlPretty.deserialization_failure(message)
            == StorageFormat::Toml.deserialization_failure(message),
{
}

} // verus!
