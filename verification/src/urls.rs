use vstd::prelude::*;

verus! {

/// The normalized serialization of `s` parsed as an absolute URL, or `None`
/// where `s` is not one.
pub uninterp spec fn parsed_url(s: Seq<char>) -> Option<Seq<char>>;

/// Relies on url::Url::parse and Url::as_str: whether a string parses as an
/// absolute URL, and its normalized serialization, depend on the string
/// alone.
#[verifier::external_body]
pub(crate) fn parse_url(s: &str) -> (r: Option<String>)
    ensures
        r matches Some(t) ==> parsed_url(s@) == Some(t@),
        r is None ==> parsed_url(s@) is None,
{
    match url::Url::parse(s) {
        Ok(u) => Some(String::from(u.as_str())),
        Err(_) => None,
    }
}

} // verus!
