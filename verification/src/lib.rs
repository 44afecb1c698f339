//! Validated string primitives: wrappers around text that can only be
//! constructed when the text satisfies a kind-specific predicate, and that
//! hand the original text back verbatim afterwards.

pub mod address;
pub mod common;
pub mod error;
pub mod identifier;
pub mod single_line;

pub use address::Url;
pub use common::ValidatedText;
pub use error::Error;
pub use identifier::Identifier;
pub use single_line::SingleLineString;
