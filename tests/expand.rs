use quote::ToTokens;
use solders_macros::dispatch::{annotation_named, expand, Annotation};
use solders_macros::mapping::{enum_original_mapping, EnumMapping};
use solders_macros::method::{Body, Callee, Method, Param, Receiver};
use solders_macros::rules::{
    append_methods, common_methods, common_methods_core, expand_impl, methods_of, pyhash,
    richcmp_eq_only, richcmp_full, richcmp_signer, rpc_id_getter, Rule,
};
use solders_macros::syntax::MacroError;
use solders_macros::text::{concat_all, join_all};

const FOO: &str = "impl Foo { pub fn pyhash(&self) -> u64 { self.0.into() } }";

fn expected(src: &str, added: &[&str]) -> String {
    let k = src.rfind('}').unwrap();
    let mut r = src[..k].to_string();
    for m in added {
        r.push_str(m);
        r.push(' ');
    }
    r.push_str(&src[k..]);
    r
}

fn item_names(src: &str) -> Vec<String> {
    let ast = syn::parse_str::<syn::ItemImpl>(src).unwrap();
    ast.items
        .iter()
        .map(|i| match i {
            syn::ImplItem::Fn(f) => f.sig.ident.to_string(),
            _ => String::new(),
        })
        .collect()
}

#[test]
fn hash_accessor_is_appended() {
    let out = pyhash("", FOO).unwrap();
    let m = "pub fn __hash__(&self) -> u64 { self.pyhash() }";
    assert_eq!(out, expected(FOO, &[m]));
    assert_eq!(item_names(&out), vec!["pyhash", "__hash__"]);
}

#[test]
fn hash_on_a_struct_is_malformed() {
    assert_eq!(pyhash("", "struct Foo(u8);"), Err(MacroError::MalformedImpl));
    assert_eq!(pyhash("", "impl Foo {"), Err(MacroError::MalformedImpl));
    assert_eq!(pyhash("", ""), Err(MacroError::MalformedImpl));
}

#[test]
fn hash_on_an_empty_block() {
    let out = pyhash("", "impl Foo {}").unwrap();
    assert_eq!(out, "impl Foo {pub fn __hash__(&self) -> u64 { self.pyhash() } }");
}

#[test]
fn block_is_kept_as_written() {
    let src = "/// Docs.\nimpl<T: Clone>  Foo<T>\n{\n    // a comment\n    fn pyhash(&self) -> u64 { 7 }\n}\n\t ";
    let out = pyhash("", src).unwrap();
    let m = "pub fn __hash__(&self) -> u64 { self.pyhash() }";
    assert_eq!(
        out,
        "/// Docs.\nimpl<T: Clone>  Foo<T>\n{\n    // a comment\n    fn pyhash(&self) -> u64 { 7 }\npub fn __hash__(&self) -> u64 { self.pyhash() } }\n\t "
    );
    assert_eq!(out, expected(src, &[m]));
    assert_eq!(out.replace("pub fn __hash__(&self) -> u64 { self.pyhash() } ", ""), src);
    assert_eq!(item_names(&out), vec!["pyhash", "__hash__"]);
}

#[test]
fn trailing_comment_after_the_block_is_refused() {
    assert_eq!(pyhash("", "impl Foo {} // }"), Err(MacroError::MalformedImpl));
    assert_eq!(pyhash("", "impl Foo {} // done"), Err(MacroError::MalformedImpl));
}

#[test]
fn braces_and_slashes_inside_the_block_are_kept() {
    let src = "impl Foo { const S: &str = \"// }\"; }";
    let m = "pub fn __hash__(&self) -> u64 { self.pyhash() }";
    let out = pyhash("", src).unwrap();
    assert_eq!(out, "impl Foo { const S: &str = \"// }\"; pub fn __hash__(&self) -> u64 { self.pyhash() } }");
    assert_eq!(out, expected(src, &[m]));
}

#[test]
fn existing_items_keep_their_order() {
    let src = "impl Foo { fn b(&self) {} fn a(&self) {} fn pyhash(&self) -> u64 { 1 } }";
    let out = pyhash("", src).unwrap();
    assert_eq!(item_names(&out), vec!["b", "a", "pyhash", "__hash__"]);
}

#[test]
fn richcmp_full_forwards_other_and_op() {
    let out = richcmp_full("", FOO).unwrap();
    let m = "pub fn __richcmp__(&self, other: &Self, op: pyo3::basic::CompareOp) -> bool { self.richcmp(other, op) }";
    assert_eq!(out, expected(FOO, &[m]));
}

#[test]
fn richcmp_eq_only_keeps_the_fallible_result() {
    let out = richcmp_eq_only("", FOO).unwrap();
    let m = "pub fn __richcmp__(&self, other: &Self, op: pyo3::basic::CompareOp) -> pyo3::prelude::PyResult<bool> { self.richcmp(other, op) }";
    assert_eq!(out, expected(FOO, &[m]));
}

#[test]
fn richcmp_signer_takes_a_signer() {
    let out = richcmp_signer("", FOO).unwrap();
    let m = "pub fn __richcmp__(&self, other: crate::Signer, op: pyo3::basic::CompareOp) -> pyo3::prelude::PyResult<bool> { self.richcmp(other, op) }";
    assert_eq!(out, expected(FOO, &[m]));
}

const BYTES: &str = "pub fn __bytes__<'a>(&self, py: pyo3::prelude::Python<'a>) -> &'a pyo3::types::PyBytes { self.pybytes(py) }";
const STR: &str = "pub fn __str__(&self) -> String { self.pystr() }";
const REPR: &str = "pub fn __repr__(&self) -> String { self.pyrepr() }";
const REDUCE: &str = "pub fn __reduce__(&self) -> pyo3::prelude::PyResult<(pyo3::prelude::PyObject, pyo3::prelude::PyObject)> { self.pyreduce() }";
const TO_JSON: &str = "#[doc = \" Convert to a JSON string.\"] pub fn to_json(&self) -> String { self.py_to_json() }";
const FROM_JSON: &str = "#[doc = \" Build from a JSON string.\"] #[staticmethod] pub fn from_json(raw: &str) -> PyResult<Self> { Self::py_from_json(raw) }";

#[test]
fn common_methods_adds_six_accessors() {
    let out = common_methods("", FOO).unwrap();
    assert_eq!(out, expected(FOO, &[BYTES, STR, REPR, REDUCE, TO_JSON, FROM_JSON]));
    assert_eq!(
        item_names(&out),
        vec!["pyhash", "__bytes__", "__str__", "__repr__", "__reduce__", "to_json", "from_json"]
    );
}

#[test]
fn common_methods_core_leaves_out_json() {
    let out = common_methods_core("", FOO).unwrap();
    assert_eq!(out, expected(FOO, &[BYTES, STR, REPR, REDUCE]));
}

#[test]
fn rpc_id_getter_reads_base_id() {
    let src = "impl GetBalance { fn new(id: u64) -> Self { Self { base: RequestBase { id } } } }";
    let out = rpc_id_getter("", src).unwrap();
    let m = "#[doc = \" int: The ID of the RPC request.\"] #[getter] pub fn id(&self) -> u64 { self.base.id }";
    assert_eq!(out, expected(src, &[m]));
    let ast = syn::parse_str::<syn::ItemImpl>(&out).unwrap();
    match ast.items.last().unwrap() {
        syn::ImplItem::Fn(f) => {
            assert_eq!(f.sig.ident.to_string(), "id");
            assert!(f.attrs.iter().any(|a| a.path().is_ident("getter")));
            assert_eq!(f.block.stmts.len(), 1);
            assert_eq!(f.block.stmts[0].to_token_stream().to_string(), "self . base . id");
        }
        _ => panic!("the getter is not a method"),
    }
}

#[test]
fn applying_a_rule_twice_duplicates_the_accessor() {
    let once = pyhash("", FOO).unwrap();
    let twice = pyhash("", &once).unwrap();
    assert_eq!(item_names(&twice), vec!["pyhash", "__hash__", "__hash__"]);
}

#[test]
fn expand_impl_matches_the_named_entry_points() {
    assert_eq!(expand_impl(Rule::Hash, FOO), pyhash("", FOO));
    assert_eq!(expand_impl(Rule::RpcIdGetter, FOO), rpc_id_getter("", FOO));
}

#[test]
fn methods_of_counts() {
    assert_eq!(methods_of(Rule::Hash).len(), 1);
    assert_eq!(methods_of(Rule::RichcmpFull).len(), 1);
    assert_eq!(methods_of(Rule::CommonMethods).len(), 6);
    assert_eq!(methods_of(Rule::CommonMethodsCore).len(), 4);
    assert_eq!(methods_of(Rule::RpcIdGetter).len(), 1);
}

#[test]
fn append_needs_a_closing_brace() {
    let ms = methods_of(Rule::Hash);
    assert_eq!(append_methods("impl Foo { ", &ms), None);
    assert_eq!(append_methods("", &ms), None);
    assert_eq!(
        append_methods("impl Foo { }", &ms),
        Some("impl Foo { pub fn __hash__(&self) -> u64 { self.pyhash() } }".to_string())
    );
    assert_eq!(append_methods("impl Foo { }", &Vec::new()), Some("impl Foo { }".to_string()));
    assert_eq!(
        append_methods("impl Foo {}\n", &ms),
        Some("impl Foo {pub fn __hash__(&self) -> u64 { self.pyhash() } }\n".to_string())
    );
    assert_eq!(append_methods(" \n", &ms), None);
}

#[test]
fn method_render_static_with_params() {
    let m = Method {
        attrs: vec!["#[inline]".to_string()],
        name: "make".to_string(),
        generics: String::new(),
        receiver: Receiver::Static,
        params: vec![
            Param { name: "a".to_string(), ty: "u8".to_string() },
            Param { name: "b".to_string(), ty: "u16".to_string() },
        ],
        ret: "Self".to_string(),
        body: Body::Call {
            callee: Callee::SelfType,
            method: "build".to_string(),
            args: vec!["a".to_string(), "b".to_string()],
        },
    };
    assert_eq!(m.render(), "#[inline] pub fn make(a: u8, b: u16) -> Self { Self::build(a, b) }");
}

#[test]
fn text_helpers() {
    let parts = vec!["x".to_string(), "y".to_string(), "z".to_string()];
    assert_eq!(join_all(&parts, ", "), "x, y, z");
    assert_eq!(concat_all(&parts), "xyz");
    assert_eq!(join_all(&Vec::new(), ", "), "");
}

const ORIGINAL_AB: &str = "#[derive(PartialEq, Debug)] pub enum Original { A, B }";
const DERIVED_AB: &str = "#[derive(PartialEq, Debug)]\npub enum Derived {\n    A,\n    B,\n}";

#[test]
fn enum_mapping_appends_both_conversions() {
    let out = enum_original_mapping("Original", DERIVED_AB).unwrap();
    let expected = format!(
        "{}\n{}",
        DERIVED_AB,
        "impl From<Original> for Derived { fn from(left: Original) -> Self { match left { \
         Original::A => Self::A, Original::B => Self::B, \
         _ => panic!(\"Unrecognized variant: {:?}\", left) } } } \
         impl From<Derived> for Original { fn from(left: Derived) -> Self { match left { \
         Derived::A => Self::A, Derived::B => Self::B, } } }"
    );
    assert_eq!(out, expected);
    let file = syn::parse_file(&format!("{}\n{}", ORIGINAL_AB, out)).unwrap();
    assert_eq!(file.items.len(), 4);
}

#[test]
fn enum_mapping_converts_by_name() {
    let m = EnumMapping {
        original: "Original".to_string(),
        annotated: "Derived".to_string(),
        variants: vec!["A".to_string(), "B".to_string()],
    };
    assert_eq!(m.to_original("B"), "B");
    assert_eq!(m.to_annotated("A"), Ok("A".to_string()));
    for v in ["A", "B"] {
        let there = m.to_annotated(v).unwrap();
        assert_eq!(m.to_original(&there), v);
    }
}

#[test]
fn enum_mapping_unknown_variant_fails() {
    let m = EnumMapping {
        original: "Original".to_string(),
        annotated: "Derived".to_string(),
        variants: vec!["A".to_string(), "B".to_string()],
    };
    let e = m.to_annotated("C").unwrap_err();
    assert_eq!(e.name, "C");
    assert_eq!(e.message(), "Unrecognized variant: C");
}

#[test]
fn enum_mapping_malformed_inputs() {
    assert_eq!(
        enum_original_mapping("Original", "impl Derived {}"),
        Err(MacroError::MalformedEnum)
    );
    assert_eq!(enum_original_mapping("1", DERIVED_AB), Err(MacroError::MalformedArgument));
    assert_eq!(enum_original_mapping("", DERIVED_AB), Err(MacroError::MalformedArgument));
}

#[test]
fn dispatch_by_name() {
    assert_eq!(annotation_named("pyhash"), Some(Annotation::Methods(Rule::Hash)));
    assert_eq!(annotation_named("common_methods_core"), Some(Annotation::Methods(Rule::CommonMethodsCore)));
    assert_eq!(annotation_named("enum_original_mapping"), Some(Annotation::EnumMapping));
    assert_eq!(annotation_named("nothing"), None);
    assert_eq!(expand("pyhash", "", FOO), Some(pyhash("", FOO)));
    assert_eq!(
        expand("enum_original_mapping", "Original", DERIVED_AB),
        Some(enum_original_mapping("Original", DERIVED_AB))
    );
    assert_eq!(expand("unknown", "", FOO), None);
}
