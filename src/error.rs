use vstd::prelude::*;

verus! {

#[verifier::external_type_specification]
#[verifier::external_body]
pub struct ExParseError(url::ParseError);

/// What can go wrong while configuring a server or building a parsed URL.
#[derive(Debug)]
pub enum Error {
    /// The secret key cannot initialize the signing primitive.
    InvalidKey,
    /// The assembled URL does not parse as an absolute URL.
    UrlParseError(url::ParseError),
    /// The assembled URL parses, but cannot be used as a base.
    UrlCannotBeABase,
}

} // verus!
