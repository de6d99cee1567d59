//! Calls into `syn` and `proc-macro2`, the only places where the library relies on
//! code that Verus does not check.
//!
//! `proc-macro2` answers either with its own implementation or, inside a running
//! procedural macro, with the compiler's, and the two may print tokens differently.
//! Each call here first switches `proc-macro2` to its own implementation
//! (`proc_macro2::fallback::force`), so that the text it returns depends on its
//! argument alone, in every process. The switch is not undone: after the first of
//! these calls, every `proc-macro2` value in the process comes from its own
//! implementation, and tokens handed over from or to the compiler pass through text and
//! lose their spans. No contract here speaks of that effect.
use vstd::prelude::*;
use syn::ext::IdentExt;
use syn::parse::Parser;
use quote::ToTokens;

verus! {

/// The token text, as `proc-macro2` prints it, of `s` parsed by `syn` as a Rust type;
/// `None` when `s` is not a type.
pub uninterp spec fn syn_type_text(s: Seq<char>) -> Option<Seq<char>>;

/// The text of `s` parsed by `syn` as an identifier that is not a keyword; `None` when
/// `s` is not one.
pub uninterp spec fn syn_ident_text(s: Seq<char>) -> Option<Seq<char>>;

/// The text of `s` read by `syn` as exactly one identifier of any kind (keywords and
/// raw identifiers included); `None` when `s` is not exactly one identifier.
pub uninterp spec fn any_ident_text(s: Seq<char>) -> Option<Seq<char>>;

/// The token text of the string literal that `proc-macro2` writes for the value `s`.
pub uninterp spec fn string_literal_text(s: Seq<char>) -> Seq<char>;

/// Calls `syn::parse_str::<syn::Type>` on `s` and prints the parsed type with
/// `ToTokens::to_token_stream` and `to_string`. Claimed: the result is the one that
/// [`syn_type_text`] names for `s`; nothing is claimed of which strings parse or of
/// how the text is spaced.
#[verifier::external_body]
pub(crate) fn parse_type_text(s: &str) -> (r: Option<String>)
    ensures
        r.is_some() == syn_type_text(s@).is_some(),
        r matches Some(t) ==> syn_type_text(s@) == Some(t@),
{
    proc_macro2::fallback::force();
    syn::parse_str::<syn::Type>(s).ok().map(|t| t.to_token_stream().to_string())
}

/// Calls `syn::parse_str::<syn::Ident>` on `s` (the parse that darling applies to
/// `name = "..."`) and prints the identifier. Claimed: the result is the one that
/// [`syn_ident_text`] names for `s`.
#[verifier::external_body]
pub(crate) fn parse_ident_text(s: &str) -> (r: Option<String>)
    ensures
        r.is_some() == syn_ident_text(s@).is_some(),
        r matches Some(t) ==> syn_ident_text(s@) == Some(t@),
{
    proc_macro2::fallback::force();
    syn::parse_str::<syn::Ident>(s).ok().map(|i| i.to_string())
}

/// Calls `syn::Ident::parse_any` on the tokens of `s` (through `Parser::parse_str`,
/// which also requires that nothing follows the identifier) and prints the
/// identifier. Claimed: the result is the one that [`any_ident_text`] names for `s`.
#[verifier::external_body]
pub(crate) fn parse_any_ident_text(s: &str) -> (r: Option<String>)
    ensures
        r.is_some() == any_ident_text(s@).is_some(),
        r matches Some(t) ==> any_ident_text(s@) == Some(t@),
{
    proc_macro2::fallback::force();
    syn::Ident::parse_any.parse_str(s).ok().map(|i| i.to_string())
}

/// Calls `proc_macro2::Literal::string` on `s` and prints the literal. Claimed: the
/// result is the text that [`string_literal_text`] names for `s`; nothing is claimed
/// of how characters are escaped.
#[verifier::external_body]
pub(crate) fn string_literal(s: &str) -> (r: String)
    ensures
        r@ == string_literal_text(s@),
{
    proc_macro2::fallback::force();
    proc_macro2::Literal::string(s).to_string()
}

} // verus!
