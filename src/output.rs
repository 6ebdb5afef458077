use crate::error::Error;
use vstd::prelude::*;

verus! {

/// What `url::Url::parse` makes of a text: the serialization of the URL it
/// reads, or `None` where the text is no valid absolute URL.
pub uninterp spec fn parsed_url(s: Seq<char>) -> Option<Seq<char>>;

/// Relies on `url::Url::parse`, whose result depends on the text alone, and
/// on `String::from(Url)`, which hands back the URL's serialization.
#[verifier::external_body]
fn parse_url(s: &str) -> (r: Option<String>)
    ensures
        match r {
            Some(u) => parsed_url(s@) == Some(u@),
            None => parsed_url(s@) is None,
        },
{
    url::Url::parse(s).ok().map(String::from)
}

/// Checks the address an output container is to be written to: the address
/// as a URL serializes it, or an error where it is no valid URL.
pub fn output_url(url: &str) -> (r: Result<String, Error>)
    ensures
        match parsed_url(url@) {
            Some(u) => r matches Ok(s) && s@ == u,
            None => r is Err,
        },
{
    match parse_url(url) {
        Some(u) => Ok(u),
        None => Err(Error::Message(String::from_str("output address is no valid URL"))),
    }
}

} // verus!
