//! From an annotation's name to the rule it triggers.
use vstd::prelude::*;
use crate::mapping::{enum_original_mapping, mapping_expansion};
use crate::method::text_of;
use crate::rules::{expand_impl, expansion, Rule};
use crate::syntax::MacroError;

verus! {

/// What an annotation does.
#[derive(Clone, Copy, Debug, PartialEq, Eq, Structural)]
pub enum Annotation {
    /// Appends the methods of a rule to an impl block.
    Methods(Rule),
    /// Adds the conversions between an enum and the enum it mirrors.
    EnumMapping,
}

/// The annotation called `name`, if there is one.
pub open spec fn annotation_of(name: Seq<char>) -> Option<Annotation> {
    if name == "pyhash"@ {
        Some(Annotation::Methods(Rule::Hash))
    } else if name == "richcmp_full"@ {
        Some(Annotation::Methods(Rule::RichcmpFull))
    } else if name == "richcmp_eq_only"@ {
        Some(Annotation::Methods(Rule::RichcmpEqOnly))
    } else if name == "richcmp_signer"@ {
        Some(Annotation::Methods(Rule::RichcmpSigner))
    } else if name == "common_methods"@ {
        Some(Annotation::Methods(Rule::CommonMethods))
    } else if name == "common_methods_core"@ {
        Some(Annotation::Methods(Rule::CommonMethodsCore))
    } else if name == "rpc_id_getter"@ {
        Some(Annotation::Methods(Rule::RpcIdGetter))
    } else if name == "enum_original_mapping"@ {
        Some(Annotation::EnumMapping)
    } else {
        None
    }
}

/// What applying `annotation`, with argument `attr`, to `item` gives.
pub open spec fn dispatch_spec(annotation: Annotation, attr: Seq<char>, item: Seq<char>) -> Result<Seq<char>, MacroError> {
    match annotation {
        Annotation::Methods(rule) => expansion(item, rule),
        Annotation::EnumMapping => mapping_expansion(attr, item),
    }
}

/// The annotation called `name`, if there is one.
pub fn annotation_named(name: &str) -> (r: Option<Annotation>)
    ensures
        r == annotation_of(name@),
{
    let n = text_of(name);
    if n == text_of("pyhash") {
        Some(Annotation::Methods(Rule::Hash))
    } else if n == text_of("richcmp_full") {
        Some(Annotation::Methods(Rule::RichcmpFull))
    } else if n == text_of("richcmp_eq_only") {
        Some(Annotation::Methods(Rule::RichcmpEqOnly))
    } else if n == text_of("richcmp_signer") {
        Some(Annotation::Methods(Rule::RichcmpSigner))
    } else if n == text_of("common_methods") {
        Some(Annotation::Methods(Rule::CommonMethods))
    } else if n == text_of("common_methods_core") {
        Some(Annotation::Methods(Rule::CommonMethodsCore))
    } else if n == text_of("rpc_id_getter") {
        Some(Annotation::Methods(Rule::RpcIdGetter))
    } else if n == text_of("enum_original_mapping") {
        Some(Annotation::EnumMapping)
    } else {
        None
    }
}

/// Applies `annotation`, with argument `attr`, to `item`.
pub fn apply(annotation: Annotation, attr: &str, item: &str) -> (r: Result<String, MacroError>)
    ensures
        match r {
            Ok(t) => dispatch_spec(annotation, attr@, item@) == Ok::<Seq<char>, MacroError>(t@),
            Err(e) => dispatch_spec(annotation, attr@, item@) == Err::<Seq<char>, MacroError>(e),
        },
{
    match annotation {
        Annotation::Methods(rule) => expand_impl(rule, item),
        Annotation::EnumMapping => enum_original_mapping(attr, item),
    }
}

/// Applies the annotation called `name`, with argument `attr`, to `item`;
/// `None` where no annotation has that name.
pub fn expand(name: &str, attr: &str, item: &str) -> (r: Option<Result<String, MacroError>>)
    ensures
        match annotation_of(name@) {
            None => r is None,
            Some(a) => match r {
                Some(Ok(t)) => dispatch_spec(a, attr@, item@) == Ok::<Seq<char>, MacroError>(t@),
                Some(Err(e)) => dispatch_spec(a, attr@, item@) == Err::<Seq<char>, MacroError>(e),
                None => false,
            },
        },
{
    match annotation_named(name) {
        Some(a) => Some(apply(a, attr, item)),
        None => None,
    }
}

} // verus!
