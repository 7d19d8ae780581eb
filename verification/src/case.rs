//! Case conversion of identifiers. The word splitting and re-casing are
//! heck's; each conversion here is a thin call whose result is named by a
//! spec function of the input text alone.

use vstd::prelude::*;

verus! {

/// What heck's `to_upper_camel_case` returns for this text.
pub uninterp spec fn upper_camel_case(s: Seq<char>) -> Seq<char>;

/// What heck's `to_lower_camel_case` returns for this text.
pub uninterp spec fn lower_camel_case(s: Seq<char>) -> Seq<char>;

/// What heck's `to_shouty_snake_case` returns for this text.
pub uninterp spec fn shouty_snake_case(s: Seq<char>) -> Seq<char>;

/// What heck's `to_snake_case` returns for this text.
pub uninterp spec fn snake_case(s: Seq<char>) -> Seq<char>;

/// What std's `str::to_lowercase` returns for this text.
pub uninterp spec fn lowercase(s: Seq<char>) -> Seq<char>;

/// Calls heck's `ToUpperCamelCase::to_upper_camel_case`; the result is the
/// name `upper_camel_case` of the input text (heck's conversion is total and
/// depends on the text alone).
#[verifier::external_body]
pub(crate) fn to_upper_camel_case(s: &str) -> (r: String)
    ensures
        r@ == upper_camel_case(s@),
{
    heck::ToUpperCamelCase::to_upper_camel_case(s)
}

/// Calls heck's `ToLowerCamelCase::to_lower_camel_case`; the result is the
/// name `lower_camel_case` of the input text.
#[verifier::external_body]
pub(crate) fn to_lower_camel_case(s: &str) -> (r: String)
    ensures
        r@ == lower_camel_case(s@),
{
    heck::ToLowerCamelCase::to_lower_camel_case(s)
}

/// Calls heck's `ToShoutySnakeCase::to_shouty_snake_case`; the result is the
/// name `shouty_snake_case` of the input text.
#[verifier::external_body]
pub(crate) fn to_shouty_snake_case(s: &str) -> (r: String)
    ensures
        r@ == shouty_snake_case(s@),
{
    heck::ToShoutySnakeCase::to_shouty_snake_case(s)
}

/// Calls heck's `ToSnakeCase::to_snake_case`; the result is the name
/// `snake_case` of the input text.
#[verifier::external_body]
pub(crate) fn to_snake_case(s: &str) -> (r: String)
    ensures
        r@ == snake_case(s@),
{
    heck::ToSnakeCase::to_snake_case(s)
}

/// Calls std's `str::to_lowercase`; the result is the name `lowercase` of
/// the input text (Unicode lowercasing depends on the text alone).
#[verifier::external_body]
pub(crate) fn to_lowercase(s: &str) -> (r: String)
    ensures
        r@ == lowercase(s@),
{
    s.to_lowercase()
}

} // verus!
