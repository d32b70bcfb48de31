//! Trusted boundary around `url::Url`. The URL itself stays opaque; its
//! serialization is named, and the few operations the locator needs are
//! wrapped with contracts over that name.

use vstd::prelude::*;
use url::Url;

verus! {

#[verifier::external_type_specification]
#[verifier::external_body]
pub struct ExUrl(Url);

/// The serialization of a URL, as `url::Url::as_str` returns it: a function
/// of the URL value alone.
pub uninterp spec fn url_str(u: Url) -> Seq<char>;

/// The serialization obtained from the URL whose serialization is `text` by
/// setting its fragment component to `fragment`: a function of the two alone.
pub uninterp spec fn with_fragment(text: Seq<char>, fragment: Seq<char>) -> Seq<char>;

/// Relies on `url::Url::clone` (derived): the duplicate is field-for-field
/// equal to the original.
#[verifier::external_body]
pub(crate) fn url_clone(u: &Url) -> (r: Url)
    ensures
        r == *u,
{
    u.clone()
}

/// Relies on `url::Url::set_fragment`: it replaces the fragment part of the
/// serialization, depending on nothing but the URL's previous value and the
/// fragment handed in.
#[verifier::external_body]
pub(crate) fn url_set_fragment(u: &mut Url, fragment: &str)
    ensures
        url_str(*final(u)) == with_fragment(url_str(*old(u)), fragment@),
{
    u.set_fragment(Some(fragment));
}

/// Relies on `url::Url::as_str`: it returns the URL's serialization.
#[verifier::external_body]
pub(crate) fn url_render(u: &Url) -> (r: String)
    ensures
        r@ == url_str(*u),
{
    String::from(u.as_str())
}

} // verus!
