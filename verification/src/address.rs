//! Connection addresses: URLs, as the `url` crate reads them.

use url::Url;
use vstd::prelude::*;

verus! {

/// What the registry reads of a parsed URL.
#[derive(Debug)]
pub struct Address {
    /// The URL's scheme, without the colon that follows it.
    pub scheme: String,
    /// The whole URL, as the parser writes it out.
    pub text: String,
}

/// The scheme and the written-out form of the URL that `url::Url::parse`
/// reads from `input`, or `None` where it reads no URL.
pub uninterp spec fn parsed_url(input: Seq<char>) -> Option<(Seq<char>, Seq<char>)>;

/// The scheme and the text of an address, if there is one.
pub open spec fn address_parts(address: Option<Address>) -> Option<(Seq<char>, Seq<char>)> {
    match address {
        Some(address) => Some((address.scheme@, address.text@)),
        None => None,
    }
}

/// `url::Url::parse`, with `Url::scheme` and `Url::as_str` to read the
/// result. Nothing is proved of it: the contract only gives the result the
/// name `parsed_url`, which depends on `input` alone.
#[verifier::external_body]
pub(crate) fn parse_url(input: &str) -> (address: Option<Address>)
    ensures
        address_parts(address) == parsed_url(input@),
{
    match Url::parse(input) {
        Ok(url) => Some(Address { scheme: url.scheme().to_string(), text: url.as_str().to_string() }),
        Err(_) => None,
    }
}

} // verus!
