//! Conversions, by variant name, between an enum and the enum it mirrors.
use vstd::prelude::*;
use crate::method::text_of;
use crate::syntax::{enum_outline, ident_of, parse_enum, parse_ident, MacroError};
use crate::text::{concat, concat_all, strs};

verus! {

/// The arms of a match that sends each variant to the variant of the same
/// name: pattern name and result name.
pub open spec fn identity_arms(variants: Seq<Seq<char>>) -> Seq<(Seq<char>, Seq<char>)> {
    variants.map_values(|v: Seq<char>| (v, v))
}

/// The result of the first arm whose pattern is `x`, or `None` where no arm
/// names `x`.
pub open spec fn match_arms(arms: Seq<(Seq<char>, Seq<char>)>, x: Seq<char>) -> Option<Seq<char>>
    decreases arms.len(),
{
    if arms.len() == 0 {
        None
    } else if arms[0].0 == x {
        Some(arms[0].1)
    } else {
        match_arms(arms.drop_first(), x)
    }
}

/// What the generated conversion from the mirrored enum gives for its
/// variant `x`: the variant of the same name, or a failure naming `x` (the
/// catch-all arm).
pub open spec fn to_annotated_spec(variants: Seq<Seq<char>>, x: Seq<char>) -> Result<Seq<char>, Seq<char>> {
    match match_arms(identity_arms(variants), x) {
        Some(y) => Ok(y),
        None => Err(x),
    }
}

/// What the generated conversion back to the mirrored enum gives for the
/// annotated enum's variant `y`.
pub open spec fn to_original_spec(variants: Seq<Seq<char>>, y: Seq<char>) -> Option<Seq<char>> {
    match_arms(identity_arms(variants), y)
}

/// `from::P => Self::R, ` for each arm, pattern `P` and result `R`.
pub open spec fn arms_text(from: Seq<char>, arms: Seq<(Seq<char>, Seq<char>)>) -> Seq<char> {
    concat(arms.map_values(|a: (Seq<char>, Seq<char>)| from + "::"@ + a.0 + " => Self::"@ + a.1 + ", "@))
}

/// The two `From` impls between `original` and `annotated`.
pub open spec fn mapping_text(original: Seq<char>, annotated: Seq<char>, variants: Seq<Seq<char>>) -> Seq<char> {
    "impl From<"@ + original + "> for "@ + annotated + " { fn from(left: "@ + original
        + ") -> Self { match left { "@ + arms_text(original, identity_arms(variants))
        + "_ => panic!(\"Unrecognized variant: {:?}\", left) } } } impl From<"@ + annotated
        + "> for "@ + original + " { fn from(left: "@ + annotated + ") -> Self { match left { "@
        + arms_text(annotated, identity_arms(variants)) + "} } }"@
}

/// What annotating the enum `item` with the mirrored enum named by
/// `original` gives: the enum as written, then the two conversions.
pub open spec fn mapping_expansion(original: Seq<char>, item: Seq<char>) -> Result<Seq<char>, MacroError> {
    match enum_outline(item) {
        None => Err(MacroError::MalformedEnum),
        Some((name, variants)) => match ident_of(original) {
            None => Err(MacroError::MalformedArgument),
            Some(o) => Ok(item + "\n"@ + mapping_text(o, name, variants)),
        },
    }
}

/// A match of identical-name arms finds `x` exactly when it is a variant,
/// and then gives `x`.
pub proof fn lemma_identity_match(variants: Seq<Seq<char>>, x: Seq<char>)
    ensures
        match_arms(identity_arms(variants), x) == (if variants.contains(x) {
            Some(x)
        } else {
            None::<Seq<char>>
        }),
    decreases variants.len(),
{
    if variants.len() > 0 {
        assert(identity_arms(variants).drop_first() =~= identity_arms(variants.drop_first()));
        lemma_identity_match(variants.drop_first(), x);
        if variants[0] != x {
            assert(variants.contains(x) ==> variants.drop_first().contains(x)) by {
                if variants.contains(x) {
                    let j = choose|j: int| 0 <= j < variants.len() && variants[j] == x;
                    assert(variants.drop_first()[j - 1] == x);
                }
            }
            assert(variants.drop_first().contains(x) ==> variants.contains(x)) by {
                if variants.drop_first().contains(x) {
                    let j = choose|j: int| 0 <= j < variants.drop_first().len() && variants.drop_first()[j] == x;
                    assert(variants[j + 1] == x);
                }
            }
        } else {
            assert(variants[0] == x);
        }
    } else {
        assert(!variants.contains(x));
    }
}

/// Converting a variant of the mirrored enum to the annotated enum and back
/// gives the variant it started from; a name that the annotated enum lacks
/// fails, naming it, instead of giving another variant.
pub proof fn lemma_round_trip(variants: Seq<Seq<char>>, x: Seq<char>)
    ensures
        variants.contains(x) ==> to_annotated_spec(variants, x) == Ok::<Seq<char>, Seq<char>>(x)
            && to_original_spec(variants, x) == Some(x),
        !variants.contains(x) ==> to_annotated_spec(variants, x) == Err::<Seq<char>, Seq<char>>(x),
{
    lemma_identity_match(variants, x);
}

/// A variant name that the annotated enum does not have.
#[derive(Clone, Debug, PartialEq, Eq)]
pub struct UnrecognizedVariant {
    pub name: String,
}

impl UnrecognizedVariant {
    /// `Unrecognized variant: <name>`
    pub fn message(&self) -> (r: String)
        ensures
            r@ == "Unrecognized variant: "@ + self.name@,
    {
        let mut r = text_of("Unrecognized variant: ");
        r.append(self.name.as_str());
        r
    }
}

/// Two enums with the same variant names: the one written out
/// (`annotated`) and the one it mirrors (`original`).
#[derive(Clone, Debug)]
pub struct EnumMapping {
    pub original: String,
    pub annotated: String,
    /// The annotated enum's variant names, in order.
    pub variants: Vec<String>,
}

impl EnumMapping {
    /// The conversion from `original` to `annotated`, on the variant named
    /// `variant`.
    pub fn to_annotated(&self, variant: &str) -> (r: Result<String, UnrecognizedVariant>)
        ensures
            match r {
                Ok(y) => to_annotated_spec(strs(self.variants@), variant@) == Ok::<Seq<char>, Seq<char>>(y@),
                Err(e) => to_annotated_spec(strs(self.variants@), variant@) == Err::<Seq<char>, Seq<char>>(e.name@),
            },
    {
        proof {
            lemma_identity_match(strs(self.variants@), variant@);
        }
        let x = text_of(variant);
        let mut i: usize = 0;
        while i < self.variants.len()
            invariant
                i <= self.variants@.len(),
                x@ == variant@,
                forall|j: int| 0 <= j < i ==> strs(self.variants@)[j] != x@,
            decreases self.variants@.len() - i,
        {
            if self.variants[i] == x {
                proof {
                    assert(strs(self.variants@)[i as int] == x@);
                    assert(strs(self.variants@).contains(x@));
                    lemma_identity_match(strs(self.variants@), x@);
                }
                return Ok(x);
            }
            i += 1;
        }
        proof {
            assert(!strs(self.variants@).contains(x@));
        }
        Err(UnrecognizedVariant { name: x })
    }

    /// The conversion from `annotated` back to `original`, on the variant
    /// named `variant`.
    pub fn to_original(&self, variant: &str) -> (r: String)
        requires
            strs(self.variants@).contains(variant@),
        ensures
            to_original_spec(strs(self.variants@), variant@) == Some(r@),
    {
        proof {
            lemma_identity_match(strs(self.variants@), variant@);
        }
        text_of(variant)
    }

    /// The source text of the two `From` impls.
    pub fn render(&self) -> (r: String)
        ensures
            r@ == mapping_text(self.original@, self.annotated@, strs(self.variants@)),
    {
        let fwd = arms(self.original.as_str(), &self.variants);
        let back = arms(self.annotated.as_str(), &self.variants);
        let o = self.original.as_str();
        let a = self.annotated.as_str();
        let mut r = text_of("impl From<");
        r.append(o);
        r.append("> for ");
        r.append(a);
        r.append(" { fn from(left: ");
        r.append(o);
        r.append(") -> Self { match left { ");
        r.append(fwd.as_str());
        r.append("_ => panic!(\"Unrecognized variant: {:?}\", left) } } } impl From<");
        r.append(a);
        r.append("> for ");
        r.append(o);
        r.append(" { fn from(left: ");
        r.append(a);
        r.append(") -> Self { match left { ");
        r.append(back.as_str());
        r.append("} } }");
        r
    }
}

fn arms(from: &str, variants: &Vec<String>) -> (r: String)
    ensures
        r@ == arms_text(from@, identity_arms(strs(variants@))),
{
    let ghost texts = identity_arms(strs(variants@)).map_values(
        |a: (Seq<char>, Seq<char>)| from@ + "::"@ + a.0 + " => Self::"@ + a.1 + ", "@,
    );
    let mut parts: Vec<String> = Vec::new();
    let mut i: usize = 0;
    while i < variants.len()
        invariant
            i <= variants@.len(),
            texts == identity_arms(strs(variants@)).map_values(
                |a: (Seq<char>, Seq<char>)| from@ + "::"@ + a.0 + " => Self::"@ + a.1 + ", "@,
            ),
            strs(parts@) =~= texts.take(i as int),
        decreases variants@.len() - i,
    {
        let v = variants[i].as_str();
        let mut t = text_of(from);
        t.append("::");
        t.append(v);
        t.append(" => Self::");
        t.append(v);
        t.append(", ");
        let ghost before = parts@;
        proof {
            assert(t@ == texts[i as int]);
            assert(texts.take(i as int + 1) =~= texts.take(i as int).push(t@));
        }
        parts.push(t);
        i += 1;
        proof {
            assert(strs(parts@) =~= strs(before).push(t@));
        }
    }
    proof {
        assert(texts.take(i as int) =~= texts);
    }
    concat_all(&parts)
}

/// Appends to the enum `item` the conversions to and from the enum named by
/// `original`, which must have the same variant names. Converting a variant
/// that the annotated enum lacks panics with `Unrecognized variant: ..`.
pub fn enum_original_mapping(original: &str, item: &str) -> (r: Result<String, MacroError>)
    ensures
        match r {
            Ok(t) => mapping_expansion(original@, item@) == Ok::<Seq<char>, MacroError>(t@),
            Err(e) => mapping_expansion(original@, item@) == Err::<Seq<char>, MacroError>(e),
        },
{
    let (annotated, variants) = match parse_enum(item) {
        Ok(outline) => outline,
        Err(_) => return Err(MacroError::MalformedEnum),
    };
    let orig = match parse_ident(original) {
        Ok(o) => o,
        Err(_) => return Err(MacroError::MalformedArgument),
    };
    let mapping = EnumMapping { original: orig, annotated, variants };
    let mut r = text_of(item);
    r.append("\n");
    let text = mapping.render();
    r.append(text.as_str());
    Ok(r)
}

} // verus!
