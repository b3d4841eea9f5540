//! What is asked of the `syn` parser: reading an identifier and a visibility
//! out of a string, and splitting generic parameters for an `impl` header.
//!
//! Verus does not see into `syn`. Each function here asks one of these
//! things of it and states, without proof, what comes back. What the parser
//! returns for a given text is too long to write down, so each result has a
//! name, and the contracts of the crate speak of the parser's results by
//! these names.

use vstd::prelude::*;
use crate::description::{Visibility, VisibilityView};
use crate::views::result_view;

verus! {

/// What `syn::LitStr::parse::<syn::Ident>` returns for a string literal
/// whose value is `value`: the text of the identifier that `value` holds, or
/// the parser's message where `value` holds anything but one identifier.
pub uninterp spec fn parsed_ident(value: Seq<char>) -> Result<Seq<char>, Seq<char>>;

/// What `syn::LitStr::parse::<syn::Visibility>` returns for a string literal
/// whose value is `value`: the visibility that `value` spells, or the
/// parser's message where it spells none.
pub uninterp spec fn parsed_visibility(value: Seq<char>) -> Result<VisibilityView, Seq<char>>;

/// What `syn::Generics::split_for_impl` returns for the generic parameters
/// that `generics` declares: the parameters as they stand behind `impl`
/// and as they stand behind the type's name, both as token text; or the
/// parser's message where `generics` does not read as generic parameters.
pub uninterp spec fn split_generics_text(generics: Seq<char>) -> Result<
    (Seq<char>, Seq<char>),
    Seq<char>,
>;

/// The visibility that `value` spells. The keyword `pub` alone spells the
/// public visibility; for every other text the parser decides.
pub open spec fn visibility_of_text(value: Seq<char>) -> Result<VisibilityView, Seq<char>> {
    if value == "pub"@ {
        Ok(VisibilityView::Public)
    } else {
        parsed_visibility(value)
    }
}

/// The generic parameters that `generics` declares, split for an `impl`
/// header. Where `generics` is empty the type has no parameters and both
/// parts are empty; for every other text the parser decides.
pub open spec fn generics_of_text(generics: Seq<char>) -> Result<
    (Seq<char>, Seq<char>),
    Seq<char>,
> {
    if generics.len() == 0 {
        Ok((Seq::empty(), Seq::empty()))
    } else {
        split_generics_text(generics)
    }
}

/// Calls `syn::LitStr::parse::<syn::Ident>` on a string literal of the given
/// value.
///
/// Assumed: the outcome depends on `value` alone. It is the identifier's
/// text where the parser accepts, and the parser's message where it
/// rejects.
#[verifier::external_body]
pub(crate) fn parse_ident(value: &str) -> (parsed: Result<String, String>)
    ensures
        result_view(parsed) == parsed_ident(value@),
{
    match syn::LitStr::new(value, proc_macro2::Span::call_site()).parse::<syn::Ident>() {
        Ok(ident) => Ok(ident.to_string()),
        Err(error) => Err(error.to_string()),
    }
}

/// Calls `syn::LitStr::parse::<syn::Visibility>` on a string literal of the
/// given value.
///
/// Assumed: the outcome depends on `value` alone; the text `pub` is accepted
/// as the public visibility. A restricted visibility comes back with its
/// path printed as token text.
#[verifier::external_body]
pub(crate) fn parse_visibility(value: &str) -> (parsed: Result<Visibility, String>)
    ensures
        result_view(parsed) == parsed_visibility(value@),
        result_view(parsed) == visibility_of_text(value@),
{
    match syn::LitStr::new(value, proc_macro2::Span::call_site()).parse::<syn::Visibility>() {
        Ok(syn::Visibility::Public(_)) => Ok(Visibility::Public),
        Ok(syn::Visibility::Crate(_)) => Ok(Visibility::Crate),
        Ok(syn::Visibility::Restricted(restricted)) => Ok(Visibility::Restricted {
            explicit_in: restricted.in_token.is_some(),
            path: quote::ToTokens::into_tokens(restricted.path).to_string(),
        }),
        Ok(syn::Visibility::Inherited) => Ok(Visibility::Inherited),
        Err(error) => Err(error.to_string()),
    }
}

/// Parses `generics` with `syn::parse_str::<syn::Generics>` and calls
/// `syn::Generics::split_for_impl` on the result.
///
/// Assumed: the outcome depends on `generics` alone. It is the pair of the
/// parameters for the `impl` keyword and for the type's name, each printed
/// as token text, or the parser's message. The empty text is accepted as
/// no parameters, of which both parts print as nothing.
#[verifier::external_body]
pub(crate) fn split_generics(generics: &str) -> (parts: Result<(String, String), String>)
    ensures
        result_view(parts) == split_generics_text(generics@),
        result_view(parts) == generics_of_text(generics@),
{
    match syn::parse_str::<syn::Generics>(generics) {
        Ok(parsed) => {
            let (for_impl, for_type, _) = parsed.split_for_impl();
            Ok((
                quote::ToTokens::into_tokens(for_impl).to_string(),
                quote::ToTokens::into_tokens(for_type).to_string(),
            ))
        },
        Err(error) => Err(error.to_string()),
    }
}

} // verus!
