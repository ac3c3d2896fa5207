//! Whether a text is a well-formed address of a document.

use vstd::prelude::*;

verus! {

/// Whether `url::Url::parse` accepts a text as an absolute URL.
pub uninterp spec fn url_parses(text: Seq<char>) -> bool;

/// Calls `url::Url::parse` and says whether it returned a URL. The contract
/// gives that answer a name: the parser reads nothing but the text it is
/// given.
#[verifier::external_body]
pub(crate) fn is_url(text: &str) -> (ok: bool)
    ensures
        ok == url_parses(text@),
{
    url::Url::parse(text).is_ok()
}

} // verus!
