//! The ways in which a relay fails, and the message that each one gives.

use vstd::prelude::*;
use vstd::string::*;

verus! {

/// Why a relay failed.
#[derive(Clone, Debug, PartialEq, Eq)]
pub enum RelayError {
    /// The method string is none of the supported verbs. Holds that string.
    /// Nothing was sent.
    UnsupportedMethod(String),
    /// The exchange could not be completed. Holds the transport's own words.
    Transport(String),
    /// A response came, but its body could not be read to the end. Holds the
    /// transport's own words.
    BodyRead(String),
}

/// A [`RelayError`] with its text as a plain sequence of characters.
pub ghost enum ErrorModel {
    UnsupportedMethod(Seq<char>),
    Transport(Seq<char>),
    BodyRead(Seq<char>),
}

impl View for RelayError {
    type V = ErrorModel;

    open spec fn view(&self) -> ErrorModel {
        match self {
            RelayError::UnsupportedMethod(word) => ErrorModel::UnsupportedMethod(word@),
            RelayError::Transport(words) => ErrorModel::Transport(words@),
            RelayError::BodyRead(words) => ErrorModel::BodyRead(words@),
        }
    }
}

/// The text that an error carries: the rejected method, or the transport's
/// words.
pub open spec fn detail_of(error: ErrorModel) -> Seq<char> {
    match error {
        ErrorModel::UnsupportedMethod(word) => word,
        ErrorModel::Transport(words) => words,
        ErrorModel::BodyRead(words) => words,
    }
}

/// The fixed words with which the message of an error begins.
pub open spec fn lead_of(error: ErrorModel) -> Seq<char> {
    match error {
        ErrorModel::UnsupportedMethod(_) => "Unsupported HTTP method: "@,
        ErrorModel::Transport(_) => "HTTP request failed: "@,
        ErrorModel::BodyRead(_) => "Failed to read response body: "@,
    }
}

/// The message shown for an error: its lead, then its detail, nothing else.
pub open spec fn message_of(error: ErrorModel) -> Seq<char> {
    lead_of(error) + detail_of(error)
}

impl RelayError {
    /// The message to show for this error.
    pub fn message(&self) -> (message: String)
        ensures
            message@ == message_of(self@),
    {
        match self {
            RelayError::UnsupportedMethod(word) => {
                String::from_str("Unsupported HTTP method: ").concat(word.as_str())
            },
            RelayError::Transport(words) => {
                String::from_str("HTTP request failed: ").concat(words.as_str())
            },
            RelayError::BodyRead(words) => {
                String::from_str("Failed to read response body: ").concat(words.as_str())
            },
        }
    }
}

} // verus!
