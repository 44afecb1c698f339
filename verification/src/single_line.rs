//! Text validated to contain no line-terminating code point.

use vstd::prelude::*;

use crate::common::ValidatedText;
use crate::error::Error;

verus! {

/// The enumerated Unicode line terminators.  They are listed one by one,
/// rather than through a generic line-splitting routine, because different
/// splitting routines disagree on which code points start a new line.
pub open spec fn is_line_terminator(c: char) -> bool {
    ||| c == '\n'  // newline
    ||| c == '\r'  // carriage return
    ||| c == '\u{000B}'  // vertical tab
    ||| c == '\u{000C}'  // form feed
    ||| c == '\u{0085}'  // next line
    ||| c == '\u{2028}'  // line separator
    ||| c == '\u{2029}'  // paragraph separator
}

/// The single-line validator's predicate: no character of `s` is a line
/// terminator.
pub open spec fn single_line(s: Seq<char>) -> bool {
    forall|i: int| 0 <= i < s.len() ==> !is_line_terminator(#[trigger] s[i])
}

fn is_line_terminator_exec(c: char) -> (r: bool)
    ensures
        r == is_line_terminator(c),
{
    c == '\n' || c == '\r' || c == '\u{000B}' || c == '\u{000C}' || c == '\u{0085}' || c
        == '\u{2028}' || c == '\u{2029}'
}

/// Decide the single-line predicate for a raw string.
fn check_single_line(s: &str) -> (r: bool)
    ensures
        r == single_line(s@),
{
    let n = s.unicode_len();
    let mut idx: usize = 0;
    while idx < n
        invariant
            n == s@.len(),
            idx <= n,
            forall|i: int| 0 <= i < idx ==> !is_line_terminator(#[trigger] s@[i]),
        decreases n - idx,
    {
        if is_line_terminator_exec(s.get_char(idx)) {
            return false;
        }
        idx += 1;
    }
    true
}

/// Text that was accepted by the single-line validator.  It stores the
/// original input byte for byte; no operation mutates or normalizes it.
#[derive(Debug, Clone, PartialEq, Eq, Hash)]
pub struct SingleLineString {
    inner: String,
}

impl View for SingleLineString {
    type V = Seq<char>;

    closed spec fn view(&self) -> Seq<char> {
        self.inner@
    }
}

impl SingleLineString {
    /// Every live instance satisfies the single-line predicate.
    pub open spec fn wf(&self) -> bool {
        single_line(self@)
    }

    /// The single fallible construction path from untrusted text.
    pub fn try_from(input: &str) -> (r: Result<Self, Error>)
        ensures
            r is Ok <==> single_line(input@),
            r matches Ok(v) ==> v@ == input@ && v.wf(),
            r matches Err(e) ==> e == Error::StringContainsLineTerminator,
    {
        if check_single_line(input) {
            Ok(SingleLineString { inner: String::from_str(input) })
        } else {
            Err(Error::StringContainsLineTerminator)
        }
    }

    /// Construction from owned text; delegates to the borrowed-text path so
    /// there is only one validation routine.
    pub fn try_from_string(input: String) -> (r: Result<Self, Error>)
        ensures
            r is Ok <==> single_line(input@),
            r matches Ok(v) ==> v@ == input@ && v.wf(),
            r matches Err(e) ==> e == Error::StringContainsLineTerminator,
    {
        Self::try_from(input.as_str())
    }
}

impl ValidatedText for SingleLineString {
    open spec fn accepted(s: Seq<char>) -> bool {
        single_line(s)
    }

    open spec fn is_rejection(e: Error, s: Seq<char>) -> bool {
        e == Error::StringContainsLineTerminator
    }

    open spec fn rejection_message(s: Seq<char>) -> Seq<char> {
        "Can't create SingleLineString containing line terminator"@
    }

    open spec fn label() -> Seq<char> {
        "SingleLineString"@
    }

    fn label_str() -> (r: &'static str) {
        "SingleLineString"
    }

    fn from_text(input: &str) -> (r: Result<Self, Error>) {
        Self::try_from(input)
    }

    fn as_str(&self) -> (r: &str) {
        self.inner.as_str()
    }

    fn into_string(self) -> (r: String) {
        self.inner
    }
}

} // verus!
