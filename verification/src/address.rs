//! Text validated to be a syntactically well-formed network address.

use vstd::prelude::*;

use crate::common::ValidatedText;
use crate::error::Error;

verus! {

/// What the URL parser decides for a given text: whether it is a
/// well-formed URL under the URL standard's grammar.  The grammar is far
/// too large to restate here, so the outcome is only named; the parser is
/// a pure function of the text, so the name is well defined.
pub uninterp spec fn url_accepts(s: Seq<char>) -> bool;

/// Relies on url::Url's `FromStr` impl, reached through `str::parse`, which
/// forwards to `url::Url::parse`: it returns `Ok` exactly when the text is
/// a well-formed URL, and its outcome depends on the text alone.
#[verifier::external_body]
fn parses_as_url(s: &str) -> (r: bool)
    ensures
        r == url_accepts(s@),
{
    s.parse::<url::Url>().is_ok()
}

/// The network-address validator's predicate: the text parses as a URL
/// either directly or after prepending the default scheme `http://`.  The
/// prefixed retry permits common scheme-less input such as a bare host
/// name; the prefix is used only to test syntactic validity.
pub open spec fn network_address_accepted(s: Seq<char>) -> bool {
    url_accepts(s) || url_accepts("http://"@ + s)
}

/// Text that was accepted by the network-address validator: it parses as a
/// URL, though possibly only once a default scheme is prepended, because
/// scheme-less addresses are common.  It stores the original input byte for
/// byte: even when the scheme-prefixed form was what parsed, the unprefixed
/// original is what is stored and later serialized.
#[derive(Debug, Clone, PartialEq, Eq, Hash)]
pub struct Url {
    inner: String,
}

impl View for Url {
    type V = Seq<char>;

    closed spec fn view(&self) -> Seq<char> {
        self.inner@
    }
}

impl Url {
    /// Every live instance satisfies the network-address predicate.
    pub open spec fn wf(&self) -> bool {
        network_address_accepted(self@)
    }

    /// The single fallible construction path from untrusted text.  The
    /// stored text is the original input even when only the scheme-prefixed
    /// form parsed.
    pub fn try_from(input: &str) -> (r: Result<Self, Error>)
        ensures
            r is Ok <==> network_address_accepted(input@),
            r matches Ok(v) ==> v@ == input@ && v.wf(),
            r matches Err(e) ==> (e matches Error::InvalidUrl { input: i } && i@ == input@),
    {
        if parses_as_url(input) {
            Ok(Url { inner: String::from_str(input) })
        } else {
            let mut prefixed = String::from_str("http://");
            prefixed.append(input);
            if parses_as_url(prefixed.as_str()) {
                Ok(Url { inner: String::from_str(input) })
            } else {
                Err(Error::InvalidUrl { input: String::from_str(input) })
            }
        }
    }

    /// Construction from owned text; delegates to the borrowed-text path so
    /// there is only one validation routine.
    pub fn try_from_string(input: String) -> (r: Result<Self, Error>)
        ensures
            r is Ok <==> network_address_accepted(input@),
            r matches Ok(v) ==> v@ == input@ && v.wf(),
            r matches Err(e) ==> (e matches Error::InvalidUrl { input: i } && i@ == input@),
    {
        Self::try_from(input.as_str())
    }
}

impl ValidatedText for Url {
    open spec fn accepted(s: Seq<char>) -> bool {
        network_address_accepted(s)
    }

    open spec fn is_rejection(e: Error, s: Seq<char>) -> bool {
        &&& e matches Error::InvalidUrl { input }
        &&& input@ == s
    }

    open spec fn rejection_message(s: Seq<char>) -> Seq<char> {
        "Given invalid URL '"@ + s + "'"@
    }

    open spec fn label() -> Seq<char> {
        "Url"@
    }

    fn label_str() -> (r: &'static str) {
        "Url"
    }

    fn from_text(input: &str) -> (r: Result<Self, Error>) {
        Self::try_from(input)
    }

    fn as_str(&self) -> (r: &str) {
        self.inner.as_str()
    }

    fn into_string(self) -> (r: String) {
        self.inner
    }
}

} // verus!
