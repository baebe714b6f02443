//! Why a text gives no configuration.

use vstd::prelude::*;
use crate::structures::color::HexError;

verus! {

/// Why a text gives no configuration.
#[derive(Debug, Clone, PartialEq, Eq)]
pub enum ConfigError {
    /// The text is neither a table document nor a resource dump.
    UnrecognizedFormat,
    /// The `colors` table lacks the key named.
    MissingField(String),
    /// The value under the key named has the wrong shape.
    TypeMismatch(String),
    /// The token is a color's value, but its digits are not 3, 4, 6 or 8.
    InvalidHexLength(String),
    /// The token is a color's value, but holds a character that is no
    /// hexadecimal digit.
    InvalidHexDigit(String),
}

/// An error as a mathematical value.
pub enum ConfigErrorView {
    UnrecognizedFormat,
    MissingField(Seq<char>),
    TypeMismatch(Seq<char>),
    InvalidHexLength(Seq<char>),
    InvalidHexDigit(Seq<char>),
}

impl View for ConfigError {
    type V = ConfigErrorView;

    open spec fn view(&self) -> ConfigErrorView {
        match self {
            ConfigError::UnrecognizedFormat => ConfigErrorView::UnrecognizedFormat,
            ConfigError::MissingField(name) => ConfigErrorView::MissingField(name@),
            ConfigError::TypeMismatch(name) => ConfigErrorView::TypeMismatch(name@),
            ConfigError::InvalidHexLength(token) => ConfigErrorView::InvalidHexLength(token@),
            ConfigError::InvalidHexDigit(token) => ConfigErrorView::InvalidHexDigit(token@),
        }
    }
}

/// The error for a token that is no hex color.
pub open spec fn hex_failure(token: Seq<char>, why: HexError) -> ConfigErrorView {
    match why {
        HexError::InvalidLength => ConfigErrorView::InvalidHexLength(token),
        HexError::InvalidDigit => ConfigErrorView::InvalidHexDigit(token),
    }
}

impl ConfigError {
    /// The error for a token that is no hex color.
    pub fn for_token(token: &str, why: HexError) -> (e: ConfigError)
        ensures
            e@ == hex_failure(token@, why),
    {
        match why {
            HexError::InvalidLength => ConfigError::InvalidHexLength(String::from_str(token)),
            HexError::InvalidDigit => ConfigError::InvalidHexDigit(String::from_str(token)),
        }
    }

    /// The text of the message: what went wrong, then the key or token.
    pub open spec fn spec_message(self) -> Seq<char> {
        match self {
            ConfigError::UnrecognizedFormat => "unrecognized document format"@,
            ConfigError::MissingField(name) => "missing field: "@ + name@,
            ConfigError::TypeMismatch(name) => "wrong type for field: "@ + name@,
            ConfigError::InvalidHexLength(token) => "invalid hex length: "@ + token@,
            ConfigError::InvalidHexDigit(token) => "invalid hex digit: "@ + token@,
        }
    }

    /// A message for the user.
    pub fn message(&self) -> (text: String)
        ensures
            text@ == self.spec_message(),
    {
        match self {
            ConfigError::UnrecognizedFormat => String::from_str("unrecognized document format"),
            ConfigError::MissingField(name) => String::from_str("missing field: ").concat(
                name.as_str(),
            ),
            ConfigError::TypeMismatch(name) => String::from_str("wrong type for field: ").concat(
                name.as_str(),
            ),
            ConfigError::InvalidHexLength(token) => String::from_str(
                "invalid hex length: ",
            ).concat(token.as_str()),
            ConfigError::InvalidHexDigit(token) => String::from_str("invalid hex digit: ").concat(
                token.as_str(),
            ),
        }
    }
}

} // verus!
