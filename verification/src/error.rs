//! The errors that serialization reports, and their messages.

use vstd::prelude::*;

verus! {

/// The outcome of a serialization step.
pub type Result<T> = core::result::Result<T, SerializerError>;

/// Why a value could not be serialized. The `Option<String>` of each
/// refusal holds the metadata (type, variant, field) of the value that was
/// being written, where a type name was known.
#[derive(Debug, PartialEq, Eq)]
pub enum SerializerError {
    CustomMsg(String),
    UnsupportedSignedInt(Option<String>),
    UnsupportedFloat(Option<String>),
    UnsupportedMap(Option<String>),
    UnsupportedText(Option<String>),
}

/// The characters of an optional string.
pub open spec fn opt_chars(o: Option<String>) -> Option<Seq<char>> {
    match o {
        Some(s) => Some(s@),
        None => None,
    }
}

/// Message of a refusal: the sentence that names what is unsupported,
/// followed, where metadata is known, by ` Error info - `, the metadata and
/// a full stop.
pub open spec fn refusal_message(what: Seq<char>, info: Option<Seq<char>>) -> Seq<char> {
    match info {
        Some(m) => what + " Error info - "@ + m + "."@,
        None => what,
    }
}

impl SerializerError {
    /// The text of the error: a custom message as given, a refusal as
    /// `refusal_message` of its sentence and metadata.
    pub open spec fn message(&self) -> Seq<char> {
        match self {
            SerializerError::CustomMsg(m) => m@,
            SerializerError::UnsupportedSignedInt(i) => refusal_message(
                "Serialization of signed ints unsupported."@,
                opt_chars(*i),
            ),
            SerializerError::UnsupportedFloat(i) => refusal_message(
                "Serialization of floats unsupported."@,
                opt_chars(*i),
            ),
            SerializerError::UnsupportedMap(i) => refusal_message(
                "Serialization of maps unsupported."@,
                opt_chars(*i),
            ),
            SerializerError::UnsupportedText(i) => refusal_message(
                "Serialization of text types unsupported."@,
                opt_chars(*i),
            ),
        }
    }

    /// An error that carries a message of the caller's own.
    pub fn custom(msg: String) -> (e: SerializerError)
        ensures
            e == SerializerError::CustomMsg(msg),
            e.message() == msg@,
    {
        SerializerError::CustomMsg(msg)
    }

    /// The text of the error, as `message` states it.
    pub fn to_string(&self) -> (s: String)
        ensures
            s@ == self.message(),
    {
        match self {
            SerializerError::CustomMsg(m) => m.clone(),
            SerializerError::UnsupportedSignedInt(i) => refusal_text(
                "Serialization of signed ints unsupported.",
                i,
            ),
            SerializerError::UnsupportedFloat(i) => refusal_text(
                "Serialization of floats unsupported.",
                i,
            ),
            SerializerError::UnsupportedMap(i) => refusal_text(
                "Serialization of maps unsupported.",
                i,
            ),
            SerializerError::UnsupportedText(i) => refusal_text(
                "Serialization of text types unsupported.",
                i,
            ),
        }
    }
}

fn refusal_text(what: &str, info: &Option<String>) -> (s: String)
    ensures
        s@ == refusal_message(what@, opt_chars(*info)),
{
    let mut s = String::from_str(what);
    match info {
        Some(m) => {
            s.append(" Error info - ");
            s.append(m.as_str());
            s.append(".");
        },
        None => {},
    }
    s
}

} // verus!
