//! The trait surface shared by every validated string primitive: one source
//! of truth for construction, serialization, and the string-like behaviors,
//! instantiated once per validation rule.

use vstd::prelude::*;

use crate::error::Error;
use crate::error::error_message;

verus! {

/// The message a failed field deserialization renders to: it names both the
/// target type and the underlying validation reason.
pub open spec fn deserialize_failure_message(label: Seq<char>, reason: Seq<char>) -> Seq<char> {
    "Unable to deserialize into "@ + label + ": "@ + reason
}

/// A validated string primitive: an immutable wrapper around text that a
/// kind-specific validator accepted at construction time.  The view of a
/// value is the stored text, byte for byte the original input.
pub trait ValidatedText: Sized + View<V = Seq<char>> {
    /// The kind's validation predicate over raw text.
    spec fn accepted(s: Seq<char>) -> bool;

    /// Whether `e` is the error this kind's validator rejects `s` with.
    spec fn is_rejection(e: Error, s: Seq<char>) -> bool;

    /// The message the rejection error for `s` renders to.
    spec fn rejection_message(s: Seq<char>) -> Seq<char>;

    /// The display name of the type, used in deserialization failures.
    spec fn label() -> Seq<char>;

    /// The display name of the type as a string slice.
    fn label_str() -> (r: &'static str)
        ensures
            r@ == Self::label(),
    ;

    /// The single fallible construction path from untrusted text: run the
    /// kind's validator; on acceptance store the text verbatim, on rejection
    /// return the validator's error unchanged.
    fn from_text(input: &str) -> (r: Result<Self, Error>)
        ensures
            r is Ok <==> Self::accepted(input@),
            r matches Ok(v) ==> v@ == input@,
            r matches Err(e) ==> Self::is_rejection(e, input@) && error_message(e)
                == Self::rejection_message(input@),
    ;

    /// Read-only access to the stored text.
    fn as_str(&self) -> (r: &str)
        ensures
            r@ == self@,
    ;

    /// Convert into the stored text.
    fn into_string(self) -> (r: String)
        ensures
            r@ == self@,
    ;

    /// Construction from owned text; delegates to the borrowed-text path so
    /// the two cannot drift apart.
    fn from_owned_text(input: String) -> (r: Result<Self, Error>)
        ensures
            r is Ok <==> Self::accepted(input@),
            r matches Ok(v) ==> v@ == input@,
            r matches Err(e) ==> Self::is_rejection(e, input@) && error_message(e)
                == Self::rejection_message(input@),
    {
        Self::from_text(input.as_str())
    }

    /// Emit the stored original text, never a reconstructed or normalized
    /// form.  This is the value a string serializer writes out.
    fn serialize(&self) -> (r: String)
        ensures
            r@ == self@,
    {
        String::from_str(self.as_str())
    }

    /// Re-run the validator on a text value read from a document.  On
    /// failure the error names the target type and the validation reason.
    fn deserialize(text: &str) -> (r: Result<Self, String>)
        ensures
            r is Ok <==> Self::accepted(text@),
            r matches Ok(v) ==> v@ == text@,
            r matches Err(m) ==> m@ == deserialize_failure_message(
                Self::label(),
                Self::rejection_message(text@),
            ),
    {
        match Self::from_text(text) {
            Ok(v) => Ok(v),
            Err(e) => {
                let mut m = String::from_str("Unable to deserialize into ");
                m.append(Self::label_str());
                m.append(": ");
                let msg = e.message();
                m.append(msg.as_str());
                Err(m)
            },
        }
    }
}

/// Round-trip law: for every kind and every accepted input `x`, construction
/// stores `x` verbatim, serialization emits exactly the stored text, and
/// deserializing that text is again accepted and yields a value whose text
/// equals the original one.
pub proof fn lemma_round_trip<T: ValidatedText>(x: Seq<char>, v: T, s: Seq<char>, w: T)
    requires
        T::accepted(x),
        v@ == x,
        s == v@,
        w@ == s,
    ensures
        s == x,
        T::accepted(s),
        w@ == v@,
{
}

} // verus!
