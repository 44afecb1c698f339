//! Text validated to use only the identifier-safe character set.

use vstd::prelude::*;

use crate::common::ValidatedText;
use crate::error::Error;

verus! {

/// The identifier character class: ASCII letters and digits, plus the
/// hyphen, the standard word separator in user-facing identifiers.  Any
/// other character, non-ASCII letters and digits included, is rejected.
pub open spec fn is_identifier_char(c: char) -> bool {
    ||| ('a' <= c && c <= 'z')
    ||| ('A' <= c && c <= 'Z')
    ||| ('0' <= c && c <= '9')
    ||| c == '-'
}

/// The identifier validator's predicate: every character of `s` belongs to
/// the identifier character class.
pub open spec fn identifier_chars(s: Seq<char>) -> bool {
    forall|i: int| 0 <= i < s.len() ==> is_identifier_char(#[trigger] s[i])
}

fn is_identifier_char_exec(c: char) -> (r: bool)
    ensures
        r == is_identifier_char(c),
{
    ('a' <= c && c <= 'z') || ('A' <= c && c <= 'Z') || ('0' <= c && c <= '9') || c == '-'
}

/// Decide the identifier predicate for a raw string.
fn check_identifier(s: &str) -> (r: bool)
    ensures
        r == identifier_chars(s@),
{
    let n = s.unicode_len();
    let mut idx: usize = 0;
    while idx < n
        invariant
            n == s@.len(),
            idx <= n,
            forall|i: int| 0 <= i < idx ==> is_identifier_char(#[trigger] s@[i]),
        decreases n - idx,
    {
        if !is_identifier_char_exec(s.get_char(idx)) {
            return false;
        }
        idx += 1;
    }
    true
}

/// Text that was accepted by the identifier validator, for identifiers like
/// container names that might be used to create files or directories.  It
/// stores the original input byte for byte.
#[derive(Debug, Clone, PartialEq, Eq, Hash)]
pub struct Identifier {
    inner: String,
}

impl View for Identifier {
    type V = Seq<char>;

    closed spec fn view(&self) -> Seq<char> {
        self.inner@
    }
}

impl Identifier {
    /// Every live instance satisfies the identifier predicate.
    pub open spec fn wf(&self) -> bool {
        identifier_chars(self@)
    }

    /// The single fallible construction path from untrusted text.
    pub fn try_from(input: &str) -> (r: Result<Self, Error>)
        ensures
            r is Ok <==> identifier_chars(input@),
            r matches Ok(v) ==> v@ == input@ && v.wf(),
            r matches Err(e) ==> (e matches Error::InvalidIdentifier { input: i } && i@
                == input@),
    {
        if check_identifier(input) {
            Ok(Identifier { inner: String::from_str(input) })
        } else {
            Err(Error::InvalidIdentifier { input: String::from_str(input) })
        }
    }

    /// Construction from owned text; delegates to the borrowed-text path so
    /// there is only one validation routine.
    pub fn try_from_string(input: String) -> (r: Result<Self, Error>)
        ensures
            r is Ok <==> identifier_chars(input@),
            r matches Ok(v) ==> v@ == input@ && v.wf(),
            r matches Err(e) ==> (e matches Error::InvalidIdentifier { input: i } && i@
                == input@),
    {
        Self::try_from(input.as_str())
    }
}

impl ValidatedText for Identifier {
    open spec fn accepted(s: Seq<char>) -> bool {
        identifier_chars(s)
    }

    open spec fn is_rejection(e: Error, s: Seq<char>) -> bool {
        &&& e matches Error::InvalidIdentifier { input }
        &&& input@ == s
    }

    open spec fn rejection_message(s: Seq<char>) -> Seq<char> {
        "Identifiers may only contain ASCII alphanumerics plus hyphens, received '"@ + s + "'"@
    }

    open spec fn label() -> Seq<char> {
        "Identifier"@
    }

    fn label_str() -> (r: &'static str) {
        "Identifier"
    }

    fn from_text(input: &str) -> (r: Result<Self, Error>) {
        Self::try_from(input)
    }

    fn as_str(&self) -> (r: &str) {
        self.inner.as_str()
    }

    fn into_string(self) -> (r: String) {
        self.inner
    }
}

} // verus!
