//! The closed set of validation-failure reasons, one variant per validator,
//! plus reserved variants shared with other validated primitives of the
//! wider settings model.

use vstd::prelude::*;

verus! {

/// Why a piece of raw text was rejected by a validator.  Each variant carries
/// the offending input and/or a descriptive sub-reason, enough to build an
/// actionable message via [`Error::message`].
#[derive(Debug, Clone, PartialEq, Eq, Hash)]
pub enum Error {
    /// The single-line validator found a line-terminating code point.
    StringContainsLineTerminator,
    /// Reserved for primitives that decode base64 input; carries the
    /// decoder's rendered failure message.
    InvalidBase64 { message: String },
    /// The identifier validator found a character outside ASCII
    /// alphanumerics and hyphens.
    InvalidIdentifier { input: String },
    /// The network-address validator could not parse the input as a URL,
    /// with or without a default scheme.
    InvalidUrl { input: String },
    /// Reserved for validators whose patterns are too large to echo in an
    /// error message; names only the subject and the input.
    BigPattern { thing: String, input: String },
    /// Reserved for cluster-name validation elsewhere in the model.
    InvalidClusterName { name: String, msg: String },
}

/// The single-line, human-readable sentence each error renders to.
pub open spec fn error_message(e: Error) -> Seq<char> {
    match e {
        Error::StringContainsLineTerminator => {
            "Can't create SingleLineString containing line terminator"@
        },
        Error::InvalidBase64 { message } => "Invalid base64 input: "@ + message@,
        Error::InvalidIdentifier { input } => {
            "Identifiers may only contain ASCII alphanumerics plus hyphens, received '"@ + input@
                + "'"@
        },
        Error::InvalidUrl { input } => "Given invalid URL '"@ + input@ + "'"@,
        Error::BigPattern { thing, input } => thing@ + " given invalid input: "@ + input@,
        Error::InvalidClusterName { name, msg } => {
            "Given invalid cluster name '"@ + name@ + "': "@ + msg@
        },
    }
}

impl Error {
    /// Render this error as a human-readable sentence.
    pub fn message(&self) -> (r: String)
        ensures
            r@ == error_message(*self),
    {
        match self {
            Error::StringContainsLineTerminator => {
                String::from_str("Can't create SingleLineString containing line terminator")
            },
            Error::InvalidBase64 { message } => {
                let mut m = String::from_str("Invalid base64 input: ");
                m.append(message.as_str());
                m
            },
            Error::InvalidIdentifier { input } => {
                let mut m = String::from_str(
                    "Identifiers may only contain ASCII alphanumerics plus hyphens, received '",
                );
                m.append(input.as_str());
                m.append("'");
                m
            },
            Error::InvalidUrl { input } => {
                let mut m = String::from_str("Given invalid URL '");
                m.append(input.as_str());
                m.append("'");
                m
            },
            Error::BigPattern { thing, input } => {
                let mut m = String::from_str(thing.as_str());
                m.append(" given invalid input: ");
                m.append(input.as_str());
                m
            },
            Error::InvalidClusterName { name, msg } => {
                let mut m = String::from_str("Given invalid cluster name '");
                m.append(name.as_str());
                m.append("': ");
                m.append(msg.as_str());
                m
            },
        }
    }
}

} // verus!
