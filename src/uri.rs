use vstd::prelude::*;

verus! {

#[verifier::external_type_specification]
#[verifier::external_body]
pub struct ExUrl(url::Url);

/// Whether `s` parses as an absolute URL.
pub uninterp spec fn url_parses(s: Seq<char>) -> bool;

/// Whether the URL that `s` parses to cannot be a base: it has no
/// hierarchical path to resolve others against, as with `mailto:`.
pub uninterp spec fn url_cannot_be_a_base(s: Seq<char>) -> bool;

/// Relies on url's `Url::parse`, which succeeds exactly on the absolute URLs,
/// and on `Url::cannot_be_a_base` of the parsed URL. Both depend on the text alone.
#[verifier::external_body]
pub(crate) fn parse_url(s: &str) -> (r: Result<(url::Url, bool), url::ParseError>)
    ensures
        r is Ok <==> url_parses(s@),
        r matches Ok(p) ==> p.1 == url_cannot_be_a_base(s@),
{
    match url::Url::parse(s) {
        Ok(u) => {
            let no_base = u.cannot_be_a_base();
            Ok((u, no_base))
        },
        Err(e) => Err(e),
    }
}

} // verus!
