use vstd::prelude::*;

verus! {

/// The text of the URI that rocket parses from `s`, or `None` where `s` is no
/// valid URI.
pub uninterp spec fn parsed_uri_text(s: Seq<char>) -> Option<Seq<char>>;

/// Relies on rocket::http::uri::Uri::parse_any, which accepts or rejects `s`
/// and yields a URI whose text (its Display) depends on `s` alone.
#[verifier::external_body]
fn parse_uri_text(s: &str) -> (r: Option<String>)
    ensures
        r is Some <==> parsed_uri_text(s@) is Some,
        r is Some ==> r->0@ == parsed_uri_text(s@)->0,
{
    match rocket::http::uri::Uri::parse_any(s) {
        Ok(uri) => Some(uri.to_string()),
        Err(_) => None,
    }
}

/// A URI that has passed validation; the only way to build one is `parse`.
pub struct PolicyUri {
    text: String,
}

impl View for PolicyUri {
    type V = Seq<char>;

    closed spec fn view(&self) -> Seq<char> {
        self.text@
    }
}

impl PolicyUri {
    /// Validates `s` as a URI. Where it is one, the result holds the parsed
    /// URI's text; otherwise `None`.
    pub fn parse(s: &str) -> (r: Option<PolicyUri>)
        ensures
            r is Some <==> parsed_uri_text(s@) is Some,
            r is Some ==> r->0@ == parsed_uri_text(s@)->0,
    {
        match parse_uri_text(s) {
            Some(text) => Some(PolicyUri { text }),
            None => None,
        }
    }

    /// The URI's text, as it goes into a header value.
    pub fn as_str(&self) -> (r: &str)
        ensures
            r@ == self@,
    {
        self.text.as_str()
    }
}

} // verus!
