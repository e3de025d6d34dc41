//! What the rules read from Rust source, read by `syn`.
use vstd::prelude::*;
use crate::text::strs;

verus! {

#[verifier::external_type_specification]
#[verifier::external_body]
pub struct ExSynError(syn::Error);

/// Why an annotated item could not be expanded.
#[derive(Clone, Copy, Debug, PartialEq, Eq, Structural)]
pub enum MacroError {
    /// The item is not an impl block.
    MalformedImpl,
    /// The item is not an enum definition.
    MalformedEnum,
    /// The annotation's argument is not a single identifier.
    MalformedArgument,
}

/// Whether `syn` parses `s` as exactly one impl block.
pub uninterp spec fn is_impl_block(s: Seq<char>) -> bool;

/// The name and the variant names, in order, of the enum that `syn` parses
/// from `s`, or `None` where `s` is not exactly one enum definition.
pub uninterp spec fn enum_outline(s: Seq<char>) -> Option<(Seq<char>, Seq<Seq<char>>)>;

/// The identifier that `syn` parses from `s`, or `None` where `s` is not
/// exactly one identifier.
pub uninterp spec fn ident_of(s: Seq<char>) -> Option<Seq<char>>;

/// Relies on `syn::parse_str::<syn::ItemImpl>` to tell whether `src` is one
/// impl block; what it parsed is dropped.
#[verifier::external_body]
pub(crate) fn parse_impl(src: &str) -> (r: Result<(), syn::Error>)
    ensures
        r is Ok == is_impl_block(src@),
{
    syn::parse_str::<syn::ItemImpl>(src).map(|_| ())
}

/// Relies on `syn::parse_str::<syn::ItemEnum>` to parse one enum
/// definition; its name and the names of its variants are taken out.
#[verifier::external_body]
pub(crate) fn parse_enum(src: &str) -> (r: Result<(String, Vec<String>), syn::Error>)
    ensures
        match r {
            Ok((name, variants)) => enum_outline(src@) == Some((name@, strs(variants@))),
            Err(_) => enum_outline(src@) is None,
        },
{
    syn::parse_str::<syn::ItemEnum>(src).map(
        |e| (e.ident.to_string(), e.variants.iter().map(|v| v.ident.to_string()).collect()),
    )
}

/// Relies on `syn::parse_str::<syn::Ident>` to parse one identifier.
#[verifier::external_body]
pub(crate) fn parse_ident(src: &str) -> (r: Result<String, syn::Error>)
    ensures
        match r {
            Ok(t) => ident_of(src@) == Some(t@),
            Err(_) => ident_of(src@) is None,
        },
{
    syn::parse_str::<syn::Ident>(src).map(|i| i.to_string())
}

} // verus!
